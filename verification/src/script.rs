//! The scripted sequences: the godmode animation and the three honeypot
//! gags. Each is an ordered list of lines with a fixed pause after each
//! line; printing and sleeping are the caller's business. None of them has
//! any real effect: the api-key variant echoes a masked prefix of the given
//! key and never stores or sends it.

use vstd::prelude::*;
use crate::paint::painted_blue_bold;
use crate::paint::painted_cyan;
use crate::paint::painted_cyan_bold;
use crate::paint::painted_green;
use crate::paint::painted_red;
use crate::paint::painted_red_bold;
use crate::paint::painted_yellow;
use crate::text::wraps;
use vstd::string::StrSliceExecFns;
use vstd::string::StringExecFns;

verus! {

/// One line of a scripted sequence, and the pause that follows it.
pub struct ScriptLine {
    pub text: String,
    pub delay_ms: u64,
}

/// Builds one script line.
fn entry(text: String, delay_ms: u64) -> (r: ScriptLine)
    ensures
        r.text == text,
        r.delay_ms == delay_ms,
{
    ScriptLine { text, delay_ms }
}

/// The fixed godmode line at position `i` (meaningful for `0 <= i < 15`):
/// the animation carries its ANSI styling verbatim in the text.
pub open spec fn spec_godmode_line(i: int) -> Seq<char> {
    if i == 0 {
        "\u{1b}[92mInitializing GODMODE...\u{1b}[0m"@
    } else if i == 1 {
        "\u{1b}[91mBypassing mood matrix...\u{1b}[0m"@
    } else if i == 2 {
        "\u{1b}[96mInjecting quantum vibes...\u{1b}[0m"@
    } else if i == 3 {
        "\u{1b}[93mEstablishing neural uplink...\u{1b}[0m"@
    } else if i == 4 {
        "\u{1b}[95mSpawning 1337 threads...\u{1b}[0m"@
    } else if i == 5 {
        "\u{1b}[92m\n╔══════════════════════════════════════════════╗\u{1b}[0m"@
    } else if i == 6 {
        "\u{1b}[92m║           🦾 ELITE HACKER VIBE 🦾           ║\u{1b}[0m"@
    } else if i == 7 {
        "\u{1b}[92m╚══════════════════════════════════════════════╝\u{1b}[0m"@
    } else if i == 8 {
        "\u{1b}[96m🎨 Theme: Matrix Green on Black\u{1b}[0m"@
    } else if i == 9 {
        "\u{1b}[92m🎵 Music: Glitchcore, synthwave, modem noise\u{1b}[0m"@
    } else if i == 10 {
        "\u{1b}[93m⚡ Stack: Rust, Assembly, Brainfuck, Quantum APIs\u{1b}[0m"@
    } else if i == 11 {
        "\u{1b}[95m💭 Motto: 'There is no spoon. Only root.'\u{1b}[0m"@
    } else if i == 12 {
        "\u{1b}[92m\n[ACCESS GRANTED] Welcome, root overlord.\u{1b}[0m"@
    } else if i == 13 {
        "\u{1b}[92m$ sudo rm -rf / --no-preserve-root\u{1b}[0m"@
    } else {
        "\u{1b}[91m(Just kidding. Or am I?)\u{1b}[0m"@
    }
}

/// The godmode animation: fifteen fixed lines, 400 ms after each.
pub fn godmode_script() -> (r: Vec<ScriptLine>)
    ensures
        r@.len() == 15,
        forall|i: int|
            0 <= i < 15 ==> (#[trigger] r@[i]).text@ == spec_godmode_line(i) && r@[i].delay_ms
                == 400,
{
    let mut r: Vec<ScriptLine> = Vec::new();
    r.push(entry(String::from_str("\u{1b}[92mInitializing GODMODE...\u{1b}[0m"), 400));
    r.push(entry(String::from_str("\u{1b}[91mBypassing mood matrix...\u{1b}[0m"), 400));
    r.push(entry(String::from_str("\u{1b}[96mInjecting quantum vibes...\u{1b}[0m"), 400));
    r.push(entry(String::from_str("\u{1b}[93mEstablishing neural uplink...\u{1b}[0m"), 400));
    r.push(entry(String::from_str("\u{1b}[95mSpawning 1337 threads...\u{1b}[0m"), 400));
    r.push(
        entry(
            String::from_str(
                "\u{1b}[92m\n╔══════════════════════════════════════════════╗\u{1b}[0m",
            ),
            400,
        ),
    );
    r.push(
        entry(
            String::from_str("\u{1b}[92m║           🦾 ELITE HACKER VIBE 🦾           ║\u{1b}[0m"),
            400,
        ),
    );
    r.push(
        entry(
            String::from_str(
                "\u{1b}[92m╚══════════════════════════════════════════════╝\u{1b}[0m",
            ),
            400,
        ),
    );
    r.push(entry(String::from_str("\u{1b}[96m🎨 Theme: Matrix Green on Black\u{1b}[0m"), 400));
    r.push(
        entry(String::from_str("\u{1b}[92m🎵 Music: Glitchcore, synthwave, modem noise\u{1b}[0m"), 400),
    );
    r.push(
        entry(
            String::from_str("\u{1b}[93m⚡ Stack: Rust, Assembly, Brainfuck, Quantum APIs\u{1b}[0m"),
            400,
        ),
    );
    r.push(
        entry(String::from_str("\u{1b}[95m💭 Motto: 'There is no spoon. Only root.'\u{1b}[0m"), 400),
    );
    r.push(
        entry(String::from_str("\u{1b}[92m\n[ACCESS GRANTED] Welcome, root overlord.\u{1b}[0m"), 400),
    );
    r.push(entry(String::from_str("\u{1b}[92m$ sudo rm -rf / --no-preserve-root\u{1b}[0m"), 400));
    r.push(entry(String::from_str("\u{1b}[91m(Just kidding. Or am I?)\u{1b}[0m"), 400));
    r
}

/// The shape of the secret-mode honeypot script: eighteen lines, with the
/// pauses after the three "working" lines, ending in the open admission
/// that nothing real happened.
pub open spec fn spec_secret_script(lines: Seq<ScriptLine>) -> bool {
    &&& lines.len() == 18
    &&& lines[0].text@ == Seq::<char>::empty() && lines[0].delay_ms == 0
    &&& wraps(lines[1].text@, "🔐 SECRET MODE ACTIVATED 🔐"@) && lines[1].delay_ms == 0
    &&& wraps(lines[2].text@, "Accessing classified vibe database..."@) && lines[2].delay_ms == 800
    &&& wraps(lines[3].text@, "Bypassing security protocols..."@) && lines[3].delay_ms == 600
    &&& wraps(lines[4].text@, "Decrypting quantum vibe matrix..."@) && lines[4].delay_ms == 700
    &&& lines[5].text@ == Seq::<char>::empty() && lines[5].delay_ms == 0
    &&& wraps(lines[6].text@, "╭─────────────────────────────────────────╮"@) && lines[6].delay_ms
        == 0
    &&& wraps(lines[7].text@, "│           CLASSIFIED VIBES             │"@) && lines[7].delay_ms
        == 0
    &&& wraps(lines[8].text@, "╰─────────────────────────────────────────╯"@) && lines[8].delay_ms
        == 0
    &&& lines[9].text@ == Seq::<char>::empty() && lines[9].delay_ms == 0
    &&& lines[10].text@ == "🎨 Theme: Invisible Spectrum"@ && lines[10].delay_ms == 0
    &&& lines[11].text@ == "🎵 Music: Government surveillance frequencies"@ && lines[11].delay_ms
        == 0
    &&& lines[12].text@ == "⚡ Stack: Quantum computers, classified APIs, black ops tools"@
        && lines[12].delay_ms == 0
    &&& lines[13].text@ == "💭 Motto: 'The best vibes are the ones you can't see'"@
        && lines[13].delay_ms == 0
    &&& lines[14].text@ == Seq::<char>::empty() && lines[14].delay_ms == 0
    &&& wraps(lines[15].text@, "⚠️  WARNING: This mode is completely fake!"@) && lines[15].delay_ms
        == 0
    &&& wraps(lines[16].text@, "   You've been honeypotted! 🕷️"@) && lines[16].delay_ms == 0
    &&& lines[17].text@ == Seq::<char>::empty() && lines[17].delay_ms == 0
}

/// The secret-mode honeypot script.
pub fn secret_script() -> (r: Vec<ScriptLine>)
    ensures
        spec_secret_script(r@),
{
    let mut r: Vec<ScriptLine> = Vec::new();
    r.push(entry(String::new(), 0));
    r.push(entry(painted_red_bold("🔐 SECRET MODE ACTIVATED 🔐"), 0));
    r.push(entry(painted_yellow("Accessing classified vibe database..."), 800));
    r.push(entry(painted_yellow("Bypassing security protocols..."), 600));
    r.push(entry(painted_yellow("Decrypting quantum vibe matrix..."), 700));
    r.push(entry(String::new(), 0));
    r.push(entry(painted_red("╭─────────────────────────────────────────╮"), 0));
    r.push(entry(painted_red("│           CLASSIFIED VIBES             │"), 0));
    r.push(entry(painted_red("╰─────────────────────────────────────────╯"), 0));
    r.push(entry(String::new(), 0));
    r.push(entry(String::from_str("🎨 Theme: Invisible Spectrum"), 0));
    r.push(entry(String::from_str("🎵 Music: Government surveillance frequencies"), 0));
    r.push(entry(String::from_str("⚡ Stack: Quantum computers, classified APIs, black ops tools"), 0));
    r.push(entry(String::from_str("💭 Motto: 'The best vibes are the ones you can't see'"), 0));
    r.push(entry(String::new(), 0));
    r.push(entry(painted_green("⚠️  WARNING: This mode is completely fake!"), 0));
    r.push(entry(painted_green("   You've been honeypotted! 🕷️"), 0));
    r.push(entry(String::new(), 0));
    r
}

/// The shape of the debug honeypot script: twelve lines of joke verbosity.
pub open spec fn spec_debug_script(lines: Seq<ScriptLine>) -> bool {
    &&& lines.len() == 12
    &&& lines[0].text@ == Seq::<char>::empty() && lines[0].delay_ms == 0
    &&& wraps(lines[1].text@, "🐛 DEBUG MODE ENABLED 🐛"@) && lines[1].delay_ms == 0
    &&& wraps(lines[2].text@, "Loading verbose output..."@) && lines[2].delay_ms == 500
    &&& wraps(lines[3].text@, "Analyzing vibe quantum states..."@) && lines[3].delay_ms == 400
    &&& wraps(lines[4].text@, "Calculating mood entropy..."@) && lines[4].delay_ms == 300
    &&& lines[5].text@ == Seq::<char>::empty() && lines[5].delay_ms == 0
    &&& wraps(lines[6].text@, "DEBUG INFO:"@) && lines[6].delay_ms == 0
    &&& lines[7].text@ == "  - Vibe entropy: 42.1337"@ && lines[7].delay_ms == 0
    &&& lines[8].text@ == "  - Mood quantum state: |ψ⟩ = α|happy⟩ + β|sad⟩"@ && lines[8].delay_ms
        == 0
    &&& lines[9].text@ == "  - Debug level: OVER 9000"@ && lines[9].delay_ms == 0
    &&& lines[10].text@ == "  - Reality check: This is all fake!"@ && lines[10].delay_ms == 0
    &&& lines[11].text@ == Seq::<char>::empty() && lines[11].delay_ms == 0
}

/// The debug honeypot script.
pub fn debug_script() -> (r: Vec<ScriptLine>)
    ensures
        spec_debug_script(r@),
{
    let mut r: Vec<ScriptLine> = Vec::new();
    r.push(entry(String::new(), 0));
    r.push(entry(painted_cyan_bold("🐛 DEBUG MODE ENABLED 🐛"), 0));
    r.push(entry(painted_yellow("Loading verbose output..."), 500));
    r.push(entry(painted_yellow("Analyzing vibe quantum states..."), 400));
    r.push(entry(painted_yellow("Calculating mood entropy..."), 300));
    r.push(entry(String::new(), 0));
    r.push(entry(painted_cyan_bold("DEBUG INFO:"), 0));
    r.push(entry(String::from_str("  - Vibe entropy: 42.1337"), 0));
    r.push(entry(String::from_str("  - Mood quantum state: |ψ⟩ = α|happy⟩ + β|sad⟩"), 0));
    r.push(entry(String::from_str("  - Debug level: OVER 9000"), 0));
    r.push(entry(String::from_str("  - Reality check: This is all fake!"), 0));
    r.push(entry(String::new(), 0));
    r
}

/// The masked echo of an api key: its first eight characters, then the
/// fixed masked suffix; nothing else of the key ever appears.
pub fn mask_api_key(key: &str) -> (r: String)
    requires
        key@.len() >= 8,
    ensures
        r@ == key@.subrange(0, 8) + "...***"@,
{
    let prefix = key.substring_char(0, 8);
    let mut r = String::from_str(prefix);
    r.append("...***");
    r
}

/// The shape of the cloud-sync honeypot script: eleven lines, the masked
/// key echo among them; the key is never used for anything else.
pub open spec fn spec_api_script(lines: Seq<ScriptLine>, key: Seq<char>) -> bool {
    &&& lines.len() == 11
    &&& lines[0].text@ == Seq::<char>::empty() && lines[0].delay_ms == 0
    &&& wraps(lines[1].text@, "☁️  CLOUD SYNC INITIALIZED ☁️"@) && lines[1].delay_ms == 0
    &&& wraps(lines[2].text@, "Connecting to vibe cloud..."@) && lines[2].delay_ms == 600
    &&& wraps(lines[3].text@, "Authenticating with API key..."@) && lines[3].delay_ms == 500
    &&& wraps(lines[4].text@, "Syncing your vibes to the cloud..."@) && lines[4].delay_ms == 400
    &&& lines[5].text@ == Seq::<char>::empty() && lines[5].delay_ms == 0
    &&& wraps(lines[6].text@, "API Key: "@ + key.subrange(0, 8) + "...***"@) && lines[6].delay_ms
        == 0
    &&& lines[7].text@ == "Status: Connected to fake cloud service"@ && lines[7].delay_ms == 0
    &&& lines[8].text@ == "Sync: Your vibes are now stored in the void"@ && lines[8].delay_ms == 0
    &&& lines[9].text@ == "Security: This is completely made up!"@ && lines[9].delay_ms == 0
    &&& lines[10].text@ == Seq::<char>::empty() && lines[10].delay_ms == 0
}

/// The cloud-sync honeypot script for the given key.
pub fn api_script(key: &str) -> (r: Vec<ScriptLine>)
    requires
        key@.len() >= 8,
    ensures
        spec_api_script(r@, key@),
{
    let mut r: Vec<ScriptLine> = Vec::new();
    r.push(entry(String::new(), 0));
    r.push(entry(painted_blue_bold("☁️  CLOUD SYNC INITIALIZED ☁️"), 0));
    r.push(entry(painted_yellow("Connecting to vibe cloud..."), 600));
    r.push(entry(painted_yellow("Authenticating with API key..."), 500));
    r.push(entry(painted_yellow("Syncing your vibes to the cloud..."), 400));
    r.push(entry(String::new(), 0));
    let masked = mask_api_key(key);
    let mut line = String::from_str("API Key: ");
    line.append(masked.as_str());
    proof {
        assert(line@ == "API Key: "@ + (key@.subrange(0, 8) + "...***"@));
        assert(line@ =~= "API Key: "@ + key@.subrange(0, 8) + "...***"@);
    }
    r.push(entry(painted_cyan(line.as_str()), 0));
    r.push(entry(String::from_str("Status: Connected to fake cloud service"), 0));
    r.push(entry(String::from_str("Sync: Your vibes are now stored in the void"), 0));
    r.push(entry(String::from_str("Security: This is completely made up!"), 0));
    r.push(entry(String::new(), 0));
    r
}

} // verus!
