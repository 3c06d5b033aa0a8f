//! The interactive mood browser: a cursor over the catalog's display order,
//! driven by one line of input at a time. Commands move the cursor up or
//! down (clamped, no wraparound), jump to a 1-based position, commit the
//! selection, or cancel. Reading input and printing the screen are the
//! caller's business; the state machine and every rendered line are here.

use vstd::prelude::*;
use crate::catalog::mood_at;
use crate::catalog::mood_art;
use crate::catalog::mood_name;
use crate::catalog::mood_record;
use crate::catalog::mood_upper_name;
use crate::catalog::spec_art;
use crate::catalog::spec_mood_at;
use crate::catalog::spec_mood_name;
use crate::catalog::spec_mood_upper_name;
use crate::catalog::MOOD_COUNT;
use crate::paint::painted_blue;
use crate::paint::painted_cyan;
use crate::paint::painted_cyan_bold;
use crate::paint::painted_green;
use crate::paint::painted_green_bold;
use crate::paint::painted_yellow;
use crate::present::report_lines_for;
use crate::present::spec_labeled_line;
use crate::present::spec_report_block_for;
use crate::text::chars_eq_str;
use crate::text::parse_usize_chars;
use crate::text::spec_parse_usize;
use crate::text::trim_seq;
use crate::text::trimmed_chars;
use crate::text::wraps;
use vstd::string::StringExecFns;

verus! {

/// The browser's transient state: a cursor into the catalog's display order.
pub struct Selection {
    pub index: usize,
}

/// One parsed input line of the browser.
#[derive(Clone, Copy, PartialEq, Eq, Structural, Debug)]
pub enum BrowserCmd {
    Up,
    Down,
    Commit,
    Quit,
    Jump(usize),
    Other,
}

/// What one step of the browser does besides moving the cursor.
#[derive(Clone, Copy, PartialEq, Eq, Structural, Debug)]
pub enum StepOutcome {
    Continue,
    Selected,
    Cancelled,
}

/// The command spelled by one input line: its ends trimmed, then matched
/// against the fixed tokens, then read as a 1-based position number.
pub open spec fn spec_parse_command(line: Seq<char>) -> BrowserCmd {
    let t = trim_seq(line);
    if t == "w"@ || t == "k"@ || t == "up"@ {
        BrowserCmd::Up
    } else if t == "s"@ || t == "j"@ || t == "down"@ {
        BrowserCmd::Down
    } else if t.len() == 0 || t == "enter"@ {
        BrowserCmd::Commit
    } else if t == "q"@ || t == "quit"@ || t == "exit"@ {
        BrowserCmd::Quit
    } else {
        match spec_parse_usize(t) {
            Some(n) => BrowserCmd::Jump(n),
            None => BrowserCmd::Other,
        }
    }
}

/// Parses one input line into a browser command.
pub fn parse_command(line: &str) -> (c: BrowserCmd)
    ensures
        c == spec_parse_command(line@),
{
    let t = trimmed_chars(line);
    if chars_eq_str(&t, "w") || chars_eq_str(&t, "k") || chars_eq_str(&t, "up") {
        BrowserCmd::Up
    } else if chars_eq_str(&t, "s") || chars_eq_str(&t, "j") || chars_eq_str(&t, "down") {
        BrowserCmd::Down
    } else if t.len() == 0 || chars_eq_str(&t, "enter") {
        BrowserCmd::Commit
    } else if chars_eq_str(&t, "q") || chars_eq_str(&t, "quit") || chars_eq_str(&t, "exit") {
        BrowserCmd::Quit
    } else {
        match parse_usize_chars(&t) {
            Some(n) => BrowserCmd::Jump(n),
            None => BrowserCmd::Other,
        }
    }
}

/// Where the cursor stands after a command: up and down are clamped at the
/// catalog's ends, a jump moves only to a valid 1-based position, and every
/// other command leaves the cursor in place.
pub open spec fn spec_step_index(i: int, cmd: BrowserCmd) -> int {
    match cmd {
        BrowserCmd::Up => if i > 0 {
            i - 1
        } else {
            i
        },
        BrowserCmd::Down => if i + 1 < MOOD_COUNT {
            i + 1
        } else {
            i
        },
        BrowserCmd::Jump(k) => if 1 <= k && k <= MOOD_COUNT {
            k - 1
        } else {
            i
        },
        _ => i,
    }
}

/// The terminal or continuing outcome of a command.
pub open spec fn spec_outcome(cmd: BrowserCmd) -> StepOutcome {
    match cmd {
        BrowserCmd::Commit => StepOutcome::Selected,
        BrowserCmd::Quit => StepOutcome::Cancelled,
        _ => StepOutcome::Continue,
    }
}

impl Selection {
    /// The cursor is a valid catalog position.
    pub open spec fn inv(&self) -> bool {
        self.index < MOOD_COUNT
    }

    /// A fresh browser: the cursor starts at the top of the list.
    pub fn start() -> (s: Selection)
        ensures
            s.inv(),
            s.index == 0,
    {
        Selection { index: 0 }
    }

    /// Applies one command: moves the cursor exactly as the fixed
    /// transition table says and reports whether the browser goes on,
    /// commits, or cancels.
    pub fn apply(&mut self, cmd: BrowserCmd) -> (out: StepOutcome)
        requires
            old(self).inv(),
        ensures
            final(self).inv(),
            final(self).index as int == spec_step_index(old(self).index as int, cmd),
            out == spec_outcome(cmd),
    {
        match cmd {
            BrowserCmd::Up => {
                if self.index > 0 {
                    self.index = self.index - 1;
                }
                StepOutcome::Continue
            },
            BrowserCmd::Down => {
                if self.index + 1 < MOOD_COUNT {
                    self.index = self.index + 1;
                }
                StepOutcome::Continue
            },
            BrowserCmd::Jump(k) => {
                if 1 <= k && k <= MOOD_COUNT {
                    self.index = k - 1;
                }
                StepOutcome::Continue
            },
            BrowserCmd::Commit => StepOutcome::Selected,
            BrowserCmd::Quit => StepOutcome::Cancelled,
            BrowserCmd::Other => StepOutcome::Continue,
        }
    }
}

/// The cursor never leaves the catalog: from a valid position every command
/// leads to a valid position; "up" at the top and "down" at the bottom are
/// no-ops; a jump to `k` lands on `k - 1` exactly when `1 <= k <= size`, and
/// moves nothing otherwise.
pub proof fn lemma_selection_bounds(i: int, cmd: BrowserCmd)
    requires
        0 <= i < MOOD_COUNT,
    ensures
        0 <= spec_step_index(i, cmd) < MOOD_COUNT,
        cmd == BrowserCmd::Up && i == 0 ==> spec_step_index(i, cmd) == i,
        cmd == BrowserCmd::Down && i == MOOD_COUNT - 1 ==> spec_step_index(i, cmd) == i,
        cmd matches BrowserCmd::Jump(k) ==> spec_step_index(i, cmd) == if 1 <= k && k
            <= MOOD_COUNT {
            k - 1
        } else {
            i
        },
{
}

/// One line of the mood list: the cursor row carries the green marker and
/// the uppercase name, every other row the plain name, indented.
pub open spec fn spec_mood_list_line(line: Seq<char>, i: int, selected: int) -> bool {
    if i == selected {
        exists|a: Seq<char>, b: Seq<char>|
            line == a + b && wraps(a, "  ▶ "@) && wraps(b, spec_mood_upper_name(spec_mood_at(i)))
    } else {
        line == "    "@ + spec_mood_name(spec_mood_at(i))
    }
}

/// One line of the mood list, for position `i` under cursor `selected`.
fn mood_list_line(i: usize, selected: usize) -> (r: String)
    requires
        i < MOOD_COUNT,
    ensures
        spec_mood_list_line(r@, i as int, selected as int),
{
    let m = mood_at(i);
    if i == selected {
        let upper = mood_upper_name(m);
        let mut r = painted_green("  ▶ ");
        let ghost a = r@;
        let b = painted_green_bold(upper.as_str());
        r.append(b.as_str());
        proof {
            assert(r@ == a + b@);
        }
        r
    } else {
        let mut r = String::from_str("    ");
        let name = mood_name(m);
        r.append(name.as_str());
        r
    }
}

/// The full browser screen, printed on entry to every loop iteration: a
/// banner, the hint, the mood list with the cursor marked, and a preview
/// (record block lines and art) of the mood under the cursor.
pub open spec fn spec_screen_lines(lines: Seq<String>, selected: int) -> bool {
    let m = spec_mood_at(selected);
    &&& lines.len() == 27
    &&& wraps(lines[0]@, "╭─────────────────────────────────────────────────────────╮"@)
    &&& wraps(lines[1]@, "│                🎵 VIBE SELECTOR 🎵                   │"@)
    &&& wraps(lines[2]@, "╰─────────────────────────────────────────────────────────╯"@)
    &&& lines[3]@ == Seq::<char>::empty()
    &&& wraps(lines[4]@, "Use ↑↓ arrows to navigate, Enter to select, Ctrl+C to exit"@)
    &&& lines[5]@ == Seq::<char>::empty()
    &&& forall|j: int|
        6 <= j < 6 + MOOD_COUNT ==> spec_mood_list_line((#[trigger] lines[j])@, j - 6, selected)
    &&& lines[16]@ == Seq::<char>::empty()
    &&& wraps(lines[17]@, "╭─────────────────────────────────────────────────────────╮"@)
    &&& wraps(lines[18]@, "│                     PREVIEW                           │"@)
    &&& wraps(lines[19]@, "╰─────────────────────────────────────────────────────────╯"@)
    &&& lines[20]@ == Seq::<char>::empty()
    &&& spec_labeled_line(lines[21]@, "🎨"@, "Theme"@, crate::catalog::spec_theme(m))
    &&& spec_labeled_line(lines[22]@, "🎵"@, "Music"@, crate::catalog::spec_music(m))
    &&& spec_labeled_line(lines[23]@, "⚡"@, "Stack"@, crate::catalog::spec_stack(m))
    &&& spec_labeled_line(lines[24]@, "💭"@, "Motto"@, crate::catalog::spec_motto(m))
    &&& lines[25]@ == Seq::<char>::empty()
    &&& wraps(lines[26]@, spec_art(m))
}

/// The browser screen for the current cursor position.
pub fn screen_lines(sel: &Selection) -> (r: Vec<String>)
    requires
        sel.inv(),
    ensures
        spec_screen_lines(r@, sel.index as int),
{
    let m = mood_at(sel.index);
    let rec = mood_record(m);
    let mut r: Vec<String> = Vec::new();
    r.push(painted_cyan("╭─────────────────────────────────────────────────────────╮"));
    r.push(painted_cyan("│                🎵 VIBE SELECTOR 🎵                   │"));
    r.push(painted_cyan("╰─────────────────────────────────────────────────────────╯"));
    r.push(String::new());
    r.push(painted_yellow("Use ↑↓ arrows to navigate, Enter to select, Ctrl+C to exit"));
    r.push(String::new());
    let mut i: usize = 0;
    while i < MOOD_COUNT
        invariant
            sel.inv(),
            i <= MOOD_COUNT,
            r@.len() == 6 + i,
            wraps(r@[0]@, "╭─────────────────────────────────────────────────────────╮"@),
            wraps(r@[1]@, "│                🎵 VIBE SELECTOR 🎵                   │"@),
            wraps(r@[2]@, "╰─────────────────────────────────────────────────────────╯"@),
            r@[3]@ == Seq::<char>::empty(),
            wraps(r@[4]@, "Use ↑↓ arrows to navigate, Enter to select, Ctrl+C to exit"@),
            r@[5]@ == Seq::<char>::empty(),
            forall|j: int|
                6 <= j < 6 + i ==> spec_mood_list_line(
                    (#[trigger] r@[j])@,
                    j - 6,
                    sel.index as int,
                ),
        decreases MOOD_COUNT - i,
    {
        r.push(mood_list_line(i, sel.index));
        i += 1;
    }
    r.push(String::new());
    r.push(painted_blue("╭─────────────────────────────────────────────────────────╮"));
    r.push(painted_blue("│                     PREVIEW                           │"));
    r.push(painted_blue("╰─────────────────────────────────────────────────────────╯"));
    r.push(String::new());
    r.push(crate::present::labeled_line("🎨", "Theme", rec.theme.as_str()));
    r.push(crate::present::labeled_line("🎵", "Music", rec.music.as_str()));
    r.push(crate::present::labeled_line("⚡", "Stack", rec.stack.as_str()));
    r.push(crate::present::labeled_line("💭", "Motto", rec.motto.as_str()));
    r.push(String::new());
    r.push(painted_cyan(mood_art(m)));
    r
}

/// The prompt shown under the screen, before each input line is read.
pub fn prompt_text() -> (r: String)
    ensures
        wraps(r@, "Enter choice (↑/↓/Enter/q): "@),
{
    painted_yellow("Enter choice (↑/↓/Enter/q): ")
}

/// What a committed selection prints: a banner, the uppercase name, the
/// full record block, and the art of the selected mood.
pub open spec fn spec_commit_lines(lines: Seq<String>, selected: int) -> bool {
    let m = spec_mood_at(selected);
    &&& lines.len() == 15
    &&& lines[0]@ == Seq::<char>::empty()
    &&& wraps(lines[1]@, "🎉 Selected vibe:"@)
    &&& wraps(lines[2]@, spec_mood_upper_name(m))
    &&& lines[3]@ == Seq::<char>::empty()
    &&& spec_report_block_for(lines.subrange(4, 14), m)
    &&& wraps(lines[14]@, spec_art(m))
}

/// The final lines of a committed selection.
pub fn commit_lines(sel: &Selection) -> (r: Vec<String>)
    requires
        sel.inv(),
    ensures
        spec_commit_lines(r@, sel.index as int),
{
    let m = mood_at(sel.index);
    let rec = mood_record(m);
    let mut r: Vec<String> = Vec::new();
    r.push(String::new());
    r.push(painted_green_bold("🎉 Selected vibe:"));
    let upper = mood_upper_name(m);
    r.push(painted_cyan_bold(upper.as_str()));
    r.push(String::new());
    let mut block = report_lines_for(m, &rec);
    let ghost rep = block@;
    r.append(&mut block);
    r.push(painted_cyan(mood_art(m)));
    proof {
        assert(r@.subrange(4, 14) =~= rep);
    }
    r
}

/// The final lines of a cancelled browser.
pub fn cancel_lines() -> (r: Vec<String>)
    ensures
        r@.len() == 2,
        r@[0]@ == Seq::<char>::empty(),
        wraps(r@[1]@, "👋 Vibe selection cancelled"@),
{
    let mut r: Vec<String> = Vec::new();
    r.push(String::new());
    r.push(painted_yellow("👋 Vibe selection cancelled"));
    r
}

} // verus!
