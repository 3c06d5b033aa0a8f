//! The modes dispatcher: parsed command-line options select exactly one
//! execution path, in a fixed priority order, and the default path resolves
//! a mood and renders its report or fails with the one domain error.

use vstd::prelude::*;
use crate::catalog::get_ascii_art;
use crate::catalog::mood_record;
use crate::catalog::parse_mood;
use crate::catalog::mood_name;
use crate::catalog::spec_art;
use crate::catalog::spec_mood_name;
use crate::catalog::spec_parse_mood;
use crate::catalog::Mood;
use crate::paint::painted_cyan;
use crate::paint::painted_red;
use crate::paint::painted_yellow;
use crate::picker::random_mood;
use crate::present::report_lines;
use crate::present::spec_report_block_for;
use crate::text::wraps;
use vstd::string::StringExecFns;

verus! {

/// The command-line options, as plain values: one optional positional mood
/// and the flags of every mode.
pub struct CliOptions {
    pub mood: Option<String>,
    pub ascii: bool,
    pub godmode: bool,
    pub timer: Option<u32>,
    pub focus_mode: bool,
    pub workspace: bool,
    pub interactive: bool,
    pub secret_mode: bool,
    pub debug: bool,
    pub api_key: Option<String>,
}

/// The execution path the dispatcher selects: exactly one per invocation.
#[derive(Clone, Copy, PartialEq, Eq, Structural, Debug)]
pub enum ModeChoice {
    SecretHoneypot,
    DebugHoneypot,
    ApiHoneypot,
    Godmode,
    Interactive,
    Timer,
    FocusStub,
    WorkspaceStub,
    Lookup,
}

/// The fixed dispatch priority: the first set trigger wins, all others are
/// ignored even when also set.
pub open spec fn spec_mode_of(o: CliOptions) -> ModeChoice {
    if o.secret_mode {
        ModeChoice::SecretHoneypot
    } else if o.debug {
        ModeChoice::DebugHoneypot
    } else if o.api_key is Some {
        ModeChoice::ApiHoneypot
    } else if o.godmode {
        ModeChoice::Godmode
    } else if o.interactive {
        ModeChoice::Interactive
    } else if o.timer is Some {
        ModeChoice::Timer
    } else if o.focus_mode {
        ModeChoice::FocusStub
    } else if o.workspace {
        ModeChoice::WorkspaceStub
    } else {
        ModeChoice::Lookup
    }
}

/// Selects the one mode the given options trigger.
pub fn select_mode(o: &CliOptions) -> (r: ModeChoice)
    ensures
        r == spec_mode_of(*o),
{
    if o.secret_mode {
        ModeChoice::SecretHoneypot
    } else if o.debug {
        ModeChoice::DebugHoneypot
    } else if o.api_key.is_some() {
        ModeChoice::ApiHoneypot
    } else if o.godmode {
        ModeChoice::Godmode
    } else if o.interactive {
        ModeChoice::Interactive
    } else if o.timer.is_some() {
        ModeChoice::Timer
    } else if o.focus_mode {
        ModeChoice::FocusStub
    } else if o.workspace {
        ModeChoice::WorkspaceStub
    } else {
        ModeChoice::Lookup
    }
}

/// Dispatch is total and exclusive: whatever combination of triggers is
/// set, exactly one mode is selected, and it is the highest-priority set
/// trigger; every lower one has no effect.
pub proof fn lemma_dispatch_total_exclusive(o: CliOptions)
    ensures
        spec_mode_of(o) == ModeChoice::SecretHoneypot <==> o.secret_mode,
        spec_mode_of(o) == ModeChoice::DebugHoneypot <==> !o.secret_mode && o.debug,
        spec_mode_of(o) == ModeChoice::ApiHoneypot <==> !o.secret_mode && !o.debug && o.api_key is Some,
        spec_mode_of(o) == ModeChoice::Godmode <==> !o.secret_mode && !o.debug && o.api_key is None
            && o.godmode,
        spec_mode_of(o) == ModeChoice::Interactive <==> !o.secret_mode && !o.debug
            && o.api_key is None && !o.godmode && o.interactive,
        spec_mode_of(o) == ModeChoice::Timer <==> !o.secret_mode && !o.debug && o.api_key is None
            && !o.godmode && !o.interactive && o.timer is Some,
        spec_mode_of(o) == ModeChoice::FocusStub <==> !o.secret_mode && !o.debug
            && o.api_key is None && !o.godmode && !o.interactive && o.timer is None && o.focus_mode,
        spec_mode_of(o) == ModeChoice::WorkspaceStub <==> !o.secret_mode && !o.debug
            && o.api_key is None && !o.godmode && !o.interactive && o.timer is None && !o.focus_mode
            && o.workspace,
        spec_mode_of(o) == ModeChoice::Lookup <==> !o.secret_mode && !o.debug && o.api_key is None
            && !o.godmode && !o.interactive && o.timer is None && !o.focus_mode && !o.workspace,
{
}

/// The one domain error: the resolved mood is not in the catalog.
#[derive(Clone, Copy, PartialEq, Eq, Structural, Debug)]
pub enum MoodError {
    UnknownMood,
}

/// The mood the default and timer paths work on: the argument as given, or
/// a random catalog mood when none was given. The flag says whether
/// randomness was used; a drawn name always names a catalog entry.
pub fn resolve_mood(arg: &Option<String>) -> (r: (String, bool))
    ensures
        arg matches Some(m) ==> r.0@ == m@ && !r.1,
        arg is None ==> r.1 && (exists|mo: Mood| r.0@ == spec_mood_name(mo)),
{
    match arg {
        Some(m) => (m.clone(), false),
        None => {
            let m = random_mood();
            let name = mood_name(m);
            proof {
                assert(name@ == spec_mood_name(m));
            }
            (name, true)
        },
    }
}

/// The announcement shown when the default path picks a mood at random.
pub fn random_announce_line() -> (r: String)
    ensures
        wraps(r@, "🎲 No mood specified, choosing randomly..."@),
{
    painted_yellow("🎲 No mood specified, choosing randomly...")
}

/// What the default path prints for a known mood: the art first when asked
/// for, then the full report block.
pub open spec fn spec_default_lines(lines: Seq<String>, m: Mood, want_ascii: bool) -> bool {
    if want_ascii {
        lines.len() == 11 && wraps(lines[0]@, spec_art(m)) && spec_report_block_for(lines.skip(1), m)
    } else {
        spec_report_block_for(lines, m)
    }
}

/// The default path: looks the resolved mood up and renders its block,
/// preceded by its art when `want_ascii` is set. It succeeds exactly on the
/// catalog's moods (in any casing) and signals UnknownMood on every other
/// name.
pub fn run_default(mood: &str, want_ascii: bool) -> (r: Result<Vec<String>, MoodError>)
    ensures
        match spec_parse_mood(mood@) {
            Some(m) => r matches Ok(lines) && spec_default_lines(lines@, m, want_ascii),
            None => r matches Err(e) && e == MoodError::UnknownMood,
        },
{
    match parse_mood(mood) {
        Some(m) => {
            let rec = mood_record(m);
            let mut lines: Vec<String> = Vec::new();
            if want_ascii {
                match get_ascii_art(mood) {
                    Some(art) => lines.push(painted_cyan(art)),
                    None => lines.push(String::new()),
                }
            }
            let mut block = report_lines(&rec);
            let ghost before = lines@;
            let ghost rep = block@;
            lines.append(&mut block);
            proof {
                assert(lines@.skip(before.len() as int) =~= rep);
                if want_ascii {
                    assert(lines@.skip(1) =~= lines@.skip(before.len() as int));
                } else {
                    assert(lines@ =~= lines@.skip(before.len() as int));
                }
            }
            Ok(lines)
        },
        None => Err(MoodError::UnknownMood),
    }
}

/// The two error-stream lines of the unknown-mood failure.
pub fn unknown_mood_lines() -> (r: Vec<String>)
    ensures
        r@.len() == 2,
        wraps(r@[0]@, "❌ Unknown mood!"@),
        exists|c: Seq<char>| r@[1]@ == "Available moods: "@ + c && wraps(c, "focus, chaotic, sadboi"@),
{
    let mut r: Vec<String> = Vec::new();
    r.push(painted_red("❌ Unknown mood!"));
    let c = painted_cyan("focus, chaotic, sadboi");
    let mut line = String::from_str("Available moods: ");
    line.append(c.as_str());
    proof {
        assert(line@ == "Available moods: "@ + c@);
    }
    r.push(line);
    r
}

/// The process exit code of the default path: zero on success, one on the
/// unknown-mood error.
pub fn default_exit_code(r: &Result<Vec<String>, MoodError>) -> (c: i32)
    ensures
        r is Ok <==> c == 0,
        r is Err <==> c == 1,
{
    match r {
        Ok(_) => 0,
        Err(_) => 1,
    }
}

/// The notice of the unimplemented focus-mode stub.
pub fn focus_stub_line() -> (r: String)
    ensures
        r@ == "[FOCUS MODE] Blocking distracting websites (feature coming soon)"@,
{
    String::from_str("[FOCUS MODE] Blocking distracting websites (feature coming soon)")
}

/// The notice of the unimplemented workspace stub.
pub fn workspace_stub_line() -> (r: String)
    ensures
        r@ == "[WORKSPACE] Setting up VS Code for the vibe (feature coming soon)"@,
{
    String::from_str("[WORKSPACE] Setting up VS Code for the vibe (feature coming soon)")
}

} // verus!
