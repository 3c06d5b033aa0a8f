//! Rendering of the themed report block: a bordered header and four labeled
//! lines (theme, music, stack, motto). Every function returns the lines as
//! plain strings; printing them is the caller's business.

use vstd::prelude::*;
use crate::catalog::record_matches;
use crate::catalog::spec_motto;
use crate::catalog::spec_music;
use crate::catalog::spec_stack;
use crate::catalog::spec_theme;
use crate::catalog::Mood;
use crate::catalog::MoodRecord;
use crate::paint::painted_cyan;
use crate::paint::painted_green;
use crate::paint::painted_yellow;
use crate::text::wraps;
use vstd::string::StringExecFns;

verus! {

/// `line` is an icon, a space, the label painted, ": ", and the value
/// painted: the shape of one labeled report line.
pub open spec fn spec_labeled_line(
    line: Seq<char>,
    icon: Seq<char>,
    label: Seq<char>,
    value: Seq<char>,
) -> bool {
    exists|y: Seq<char>, g: Seq<char>|
        line == icon + " "@ + y + ": "@ + g && wraps(y, label) && wraps(g, value)
}

/// One labeled report line: the label painted yellow, the value green.
pub fn labeled_line(icon: &str, label: &str, value: &str) -> (r: String)
    ensures
        spec_labeled_line(r@, icon@, label@, value@),
{
    let y = painted_yellow(label);
    let g = painted_green(value);
    let mut r = String::from_str(icon);
    r.append(" ");
    r.append(y.as_str());
    r.append(": ");
    r.append(g.as_str());
    proof {
        assert(r@ == icon@ + " "@ + y@ + ": "@ + g@);
        assert(spec_labeled_line(r@, icon@, label@, value@));
    }
    r
}

/// The shape of the full report block for the four record texts: a blank
/// line, a cyan border, the title, a border, a blank line, the four labeled
/// lines, and a final blank line.
pub open spec fn spec_report_block(
    lines: Seq<String>,
    theme: Seq<char>,
    music: Seq<char>,
    stack: Seq<char>,
    motto: Seq<char>,
) -> bool {
    &&& lines.len() == 10
    &&& lines[0]@ == Seq::<char>::empty()
    &&& wraps(lines[1]@, "╭─────────────────────────────────────────╮"@)
    &&& wraps(lines[2]@, "│              VIBE REPORT               │"@)
    &&& wraps(lines[3]@, "╰─────────────────────────────────────────╯"@)
    &&& lines[4]@ == Seq::<char>::empty()
    &&& spec_labeled_line(lines[5]@, "🎨"@, "Theme"@, theme)
    &&& spec_labeled_line(lines[6]@, "🎵"@, "Music"@, music)
    &&& spec_labeled_line(lines[7]@, "⚡"@, "Stack"@, stack)
    &&& spec_labeled_line(lines[8]@, "💭"@, "Motto"@, motto)
    &&& lines[9]@ == Seq::<char>::empty()
}

/// The report block of a known mood carries that mood's catalog texts.
pub open spec fn spec_report_block_for(lines: Seq<String>, m: Mood) -> bool {
    spec_report_block(lines, spec_theme(m), spec_music(m), spec_stack(m), spec_motto(m))
}

/// The full report block for a record, in print order.
pub fn report_lines(rec: &MoodRecord) -> (r: Vec<String>)
    ensures
        spec_report_block(r@, rec.theme@, rec.music@, rec.stack@, rec.motto@),
{
    let mut r: Vec<String> = Vec::new();
    r.push(String::new());
    r.push(painted_cyan("╭─────────────────────────────────────────╮"));
    r.push(painted_cyan("│              VIBE REPORT               │"));
    r.push(painted_cyan("╰─────────────────────────────────────────╯"));
    r.push(String::new());
    r.push(labeled_line("🎨", "Theme", rec.theme.as_str()));
    r.push(labeled_line("🎵", "Music", rec.music.as_str()));
    r.push(labeled_line("⚡", "Stack", rec.stack.as_str()));
    r.push(labeled_line("💭", "Motto", rec.motto.as_str()));
    r.push(String::new());
    r
}

/// The report block of a known mood, looked up by the caller.
pub fn report_lines_for(m: Mood, rec: &MoodRecord) -> (r: Vec<String>)
    requires
        record_matches(*rec, m),
    ensures
        spec_report_block_for(r@, m),
{
    report_lines(rec)
}

} // verus!
