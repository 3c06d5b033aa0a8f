//! The pomodoro timer: a per-second countdown from `minutes * 60`, with a
//! themed intro block, a status line per remaining second, and a break block
//! at the end. The state machine and every printed line are here; sleeping
//! and printing are the caller's business.

use vstd::prelude::*;
use crate::catalog::spec_art;
use crate::catalog::spec_motto;
use crate::catalog::spec_music;
use crate::catalog::spec_stack;
use crate::catalog::spec_theme;
use crate::catalog::get_ascii_art;
use crate::catalog::get_vibe_response;
use crate::catalog::parse_mood;
use crate::catalog::spec_parse_mood;
use crate::catalog::Mood;
use crate::paint::painted_cyan;
use crate::paint::painted_dimmed;
use crate::paint::painted_green;
use crate::present::labeled_line;
use crate::present::spec_labeled_line;
use crate::text::dec_rep;
use crate::text::dec_string;
use crate::text::two_digit_string;
use crate::text::two_digits;
use crate::text::wraps;
use vstd::string::StringExecFns;

verus! {

/// The countdown: the seconds still to run.
pub struct TimerState {
    pub remaining: u32,
}

impl TimerState {
    /// A fresh countdown of `minutes` minutes: exactly `minutes * 60`
    /// one-second steps lie ahead.
    pub fn new(minutes: u32) -> (t: TimerState)
        requires
            minutes * 60 <= u32::MAX,
        ensures
            t.remaining == minutes * 60,
    {
        TimerState { remaining: minutes * 60 }
    }

    /// One second passes: the remaining count drops by exactly one.
    pub fn tick(&mut self)
        requires
            old(self).remaining > 0,
        ensures
            final(self).remaining == old(self).remaining - 1,
    {
        self.remaining = self.remaining - 1;
    }

    /// Whether the countdown has reached zero.
    pub fn is_done(&self) -> (r: bool)
        ensures
            r == (self.remaining == 0),
    {
        self.remaining == 0
    }
}

/// The seconds left after `k` ticks of a countdown of `minutes` minutes.
pub open spec fn spec_remaining_after(minutes: u32, k: nat) -> int {
    minutes * 60 - k
}

/// The countdown is monotonic and exact: each tick removes exactly one
/// second, so from `minutes` minutes the remaining count reaches zero at
/// the `minutes * 60`-th tick and at no earlier one, and the minute and
/// second fields of the final status both read zero, displayed "00:00".
pub proof fn lemma_countdown_exact(minutes: u32, k: nat)
    requires
        minutes * 60 <= u32::MAX,
        k <= minutes * 60,
    ensures
        (spec_remaining_after(minutes, k) == 0) <==> (k == minutes * 60),
        k < minutes * 60 ==> spec_remaining_after(minutes, k) == spec_remaining_after(
            minutes,
            k + 1,
        ) + 1,
        two_digits(0) == "00"@,
{
    reveal_strlit("00");
    assert(two_digits(0) =~= "00"@);
}

/// The status-line emoji of a mood, with the fallback for a name outside
/// the catalog.
pub open spec fn spec_timer_emoji(om: Option<Mood>) -> Seq<char> {
    match om {
        Some(Mood::Focus) => "🔵"@,
        Some(Mood::Chaotic) => "⚡"@,
        Some(Mood::Sadboi) => "💜"@,
        Some(Mood::Energetic) => "🔥"@,
        Some(Mood::Chill) => "🌿"@,
        Some(Mood::Creative) => "🎨"@,
        Some(Mood::Productive) => "💼"@,
        Some(Mood::Nostalgic) => "📼"@,
        Some(Mood::Adventurous) => "🌌"@,
        Some(Mood::Zen) => "🧘"@,
        None => "⏳"@,
    }
}

/// The start message of a mood, with the fallback for a name outside the
/// catalog.
pub open spec fn spec_timer_message(om: Option<Mood>) -> Seq<char> {
    match om {
        Some(Mood::Focus) => "Stay focused!"@,
        Some(Mood::Chaotic) => "Embrace the chaos!"@,
        Some(Mood::Sadboi) => "Code through the feels!"@,
        Some(Mood::Energetic) => "Keep the energy up!"@,
        Some(Mood::Chill) => "Stay chill and code on!"@,
        Some(Mood::Creative) => "Let your creativity flow!"@,
        Some(Mood::Productive) => "Productivity mode: ON!"@,
        Some(Mood::Nostalgic) => "Old school grind!"@,
        Some(Mood::Adventurous) => "Explore new code worlds!"@,
        Some(Mood::Zen) => "Breathe and code."@,
        None => "Time to vibe!"@,
    }
}

/// The status-line emoji of the timer for `mood`.
pub fn timer_emoji(mood: &str) -> (r: &'static str)
    ensures
        r@ == spec_timer_emoji(spec_parse_mood(mood@)),
{
    match parse_mood(mood) {
        Some(Mood::Focus) => "🔵",
        Some(Mood::Chaotic) => "⚡",
        Some(Mood::Sadboi) => "💜",
        Some(Mood::Energetic) => "🔥",
        Some(Mood::Chill) => "🌿",
        Some(Mood::Creative) => "🎨",
        Some(Mood::Productive) => "💼",
        Some(Mood::Nostalgic) => "📼",
        Some(Mood::Adventurous) => "🌌",
        Some(Mood::Zen) => "🧘",
        None => "⏳",
    }
}

/// The start message of the timer for `mood`.
pub fn timer_message(mood: &str) -> (r: &'static str)
    ensures
        r@ == spec_timer_message(spec_parse_mood(mood@)),
{
    match parse_mood(mood) {
        Some(Mood::Focus) => "Stay focused!",
        Some(Mood::Chaotic) => "Embrace the chaos!",
        Some(Mood::Sadboi) => "Code through the feels!",
        Some(Mood::Energetic) => "Keep the energy up!",
        Some(Mood::Chill) => "Stay chill and code on!",
        Some(Mood::Creative) => "Let your creativity flow!",
        Some(Mood::Productive) => "Productivity mode: ON!",
        Some(Mood::Nostalgic) => "Old school grind!",
        Some(Mood::Adventurous) => "Explore new code worlds!",
        Some(Mood::Zen) => "Breathe and code.",
        None => "Time to vibe!",
    }
}

/// The themed intro block of the timer: the full record block and the art,
/// for a catalog mood; nothing at all for an unknown name.
pub open spec fn spec_pomodoro_intro(lines: Seq<String>, om: Option<Mood>) -> bool {
    match om {
        Some(m) => {
            &&& lines.len() == 12
            &&& lines[0]@ == Seq::<char>::empty()
            &&& wraps(lines[1]@, "╭─────────────────────────────────────────╮"@)
            &&& wraps(lines[2]@, "│            POMODORO VIBE               │"@)
            &&& wraps(lines[3]@, "╰─────────────────────────────────────────╯"@)
            &&& lines[4]@ == Seq::<char>::empty()
            &&& spec_labeled_line(lines[5]@, "🎨"@, "Theme"@, spec_theme(m))
            &&& spec_labeled_line(lines[6]@, "🎵"@, "Music"@, spec_music(m))
            &&& spec_labeled_line(lines[7]@, "⚡"@, "Stack"@, spec_stack(m))
            &&& spec_labeled_line(lines[8]@, "💭"@, "Motto"@, spec_motto(m))
            &&& lines[9]@ == Seq::<char>::empty()
            &&& wraps(lines[10]@, spec_art(m))
            &&& lines[11]@ == Seq::<char>::empty()
        },
        None => lines.len() == 0,
    }
}

/// The themed intro block printed before the countdown starts.
pub fn pomodoro_intro_lines(mood: &str) -> (r: Vec<String>)
    ensures
        spec_pomodoro_intro(r@, spec_parse_mood(mood@)),
{
    let mut r: Vec<String> = Vec::new();
    match get_vibe_response(mood) {
        Some(rec) => {
            r.push(String::new());
            r.push(painted_cyan("╭─────────────────────────────────────────╮"));
            r.push(painted_cyan("│            POMODORO VIBE               │"));
            r.push(painted_cyan("╰─────────────────────────────────────────╯"));
            r.push(String::new());
            r.push(labeled_line("🎨", "Theme", rec.theme.as_str()));
            r.push(labeled_line("🎵", "Music", rec.music.as_str()));
            r.push(labeled_line("⚡", "Stack", rec.stack.as_str()));
            r.push(labeled_line("💭", "Motto", rec.motto.as_str()));
            r.push(String::new());
            match get_ascii_art(mood) {
                Some(art) => r.push(painted_cyan(art)),
                None => r.push(String::new()),
            }
            r.push(String::new());
        },
        None => {},
    }
    r
}

/// The line announcing the timer: emoji, length in minutes, themed message.
pub fn timer_start_line(mood: &str, minutes: u32) -> (r: String)
    ensures
        r@ == spec_timer_emoji(spec_parse_mood(mood@)) + " Pomodoro Timer: "@ + dec_rep(
            minutes as nat,
        ) + " minutes | "@ + spec_timer_message(spec_parse_mood(mood@)),
{
    let mut r = String::from_str(timer_emoji(mood));
    r.append(" Pomodoro Timer: ");
    let m = dec_string(minutes);
    r.append(m.as_str());
    r.append(" minutes | ");
    r.append(timer_message(mood));
    r
}

/// The dimmed hint under the start line.
pub fn timer_hint_line() -> (r: String)
    ensures
        wraps(r@, "Press Ctrl+C to stop early"@),
{
    painted_dimmed("Press Ctrl+C to stop early")
}

/// The status line for `remaining` seconds: emoji, MM:SS, and the trailing
/// marker, exactly as overwritten in place once per second.
pub fn countdown_line(mood: &str, remaining: u32) -> (r: String)
    ensures
        r@ == spec_timer_emoji(spec_parse_mood(mood@)) + " "@ + two_digits(
            (remaining / 60) as nat,
        ) + ":"@ + two_digits((remaining % 60) as nat) + " remaining... "@,
{
    let mut r = String::from_str(timer_emoji(mood));
    r.append(" ");
    let mins = two_digit_string(remaining / 60);
    r.append(mins.as_str());
    r.append(":");
    let secs = two_digit_string(remaining % 60);
    r.append(secs.as_str());
    r.append(" remaining... ");
    r
}

/// The line shown when the countdown reaches zero.
pub fn timer_done_line(mood: &str) -> (r: String)
    ensures
        r@ == spec_timer_emoji(spec_parse_mood(mood@))
            + " 00:00 Time's up! Take a break!           "@,
{
    let mut r = String::from_str(timer_emoji(mood));
    r.append(" 00:00 Time's up! Take a break!           ");
    r
}

/// The break-time art of a mood, with the fallback for a name outside the
/// catalog.
pub open spec fn spec_break_art(om: Option<Mood>) -> Seq<char> {
    match om {
        Some(Mood::Focus) => "  (  )   (   )  )\n   ) (   )  (  (\n   ( )  (    ) )\n   _____________\n  <__Break!!!__>\n   -------------\n       \\\n        \\\n           .--.\n          |o_o |\n          |:_/ |\n         //   \\ \\\n        (|     | )\n       /'\\_   _/`\\\n       \\___)=(___/"@,
        Some(Mood::Chaotic) => "      .-\"\"\"-.\n     / .===. \\\n     \\/ 6 6 \\/\n     ( \\___/ )\n ___ooo__V__ooo___\n|  BREAK CHAOS!  |\n -----------------"@,
        Some(Mood::Sadboi) => "      .-''''-.\n     /        \\\n    |  .--.  |\n    | (    ) |\n     \\ '--' /\n      '-..-'\n   Break time, friend\n   ~~~~~~~~~~~~~~\n    (︶︹︺)"@,
        Some(Mood::Energetic) => "    🔥 BREAK 🔥\n     ⚡ ⚡ ⚡ ⚡ ⚡\n    /           \\\n   |  Recharge  |\n   |  & Return  |\n    \\           /\n     ⚡ ⚡ ⚡ ⚡ ⚡\n    🔥 STRONGER 🔥"@,
        Some(Mood::Chill) => "    🌿 BREAK 🌿\n     ~~~~~~~~~\n    /         \\\n   |  Relax   |\n   |  & Reset  |\n    \\         /\n     ~~~~~~~~~\n    🌿 RENEWED 🌿"@,
        Some(Mood::Creative) => "    🎨 BREAK 🎨\n     🌈 🌈 🌈 🌈\n    /           \\\n   |  Refresh  |\n   |  & Create  |\n    \\           /\n     🌈 🌈 🌈 🌈\n    🎨 INSPIRED 🎨"@,
        Some(Mood::Productive) => "    💼 BREAK 💼\n     ⚡ ⚡ ⚡ ⚡ ⚡\n    /             \\\n   |  Rest &    |\n   |  Recharge  |\n    \\             /\n     ⚡ ⚡ ⚡ ⚡ ⚡\n    💼 READY 💼"@,
        Some(Mood::Nostalgic) => "    📼 BREAK 📼\n     🎵 🎵 🎵 🎵\n    /             \\\n   |  Remember  |\n   |  & Reflect  |\n    \\             /\n     🎵 🎵 🎵 🎵\n    📼 WISER 📼"@,
        Some(Mood::Adventurous) => "    🌌 BREAK 🌌\n     ⭐ ⭐ ⭐ ⭐ ⭐\n    /               \\\n   |  Rest &      |\n   |  Prepare     |\n    \\               /\n     ⭐ ⭐ ⭐ ⭐ ⭐\n    🌌 READY 🌌"@,
        Some(Mood::Zen) => "    🧘 BREAK 🧘\n     ☯️ ☯️ ☯️ ☯️\n    /         \\\n   |  Breathe |\n   |  & Reset  |\n    \\         /\n     ☯️ ☯️ ☯️ ☯️\n    🧘 CENTERED 🧘"@,
        None => "\n  (•_•)  ( •_•)>⌐■-■  (⌐■_■)\nBreak like a boss!"@,
    }
}

/// The break-time art of the timer for `mood`.
pub fn break_art(mood: &str) -> (r: &'static str)
    ensures
        r@ == spec_break_art(spec_parse_mood(mood@)),
{
    match parse_mood(mood) {
        Some(Mood::Focus) => "  (  )   (   )  )\n   ) (   )  (  (\n   ( )  (    ) )\n   _____________\n  <__Break!!!__>\n   -------------\n       \\\n        \\\n           .--.\n          |o_o |\n          |:_/ |\n         //   \\ \\\n        (|     | )\n       /'\\_   _/`\\\n       \\___)=(___/",
        Some(Mood::Chaotic) => "      .-\"\"\"-.\n     / .===. \\\n     \\/ 6 6 \\/\n     ( \\___/ )\n ___ooo__V__ooo___\n|  BREAK CHAOS!  |\n -----------------",
        Some(Mood::Sadboi) => "      .-''''-.\n     /        \\\n    |  .--.  |\n    | (    ) |\n     \\ '--' /\n      '-..-'\n   Break time, friend\n   ~~~~~~~~~~~~~~\n    (︶︹︺)",
        Some(Mood::Energetic) => "    🔥 BREAK 🔥\n     ⚡ ⚡ ⚡ ⚡ ⚡\n    /           \\\n   |  Recharge  |\n   |  & Return  |\n    \\           /\n     ⚡ ⚡ ⚡ ⚡ ⚡\n    🔥 STRONGER 🔥",
        Some(Mood::Chill) => "    🌿 BREAK 🌿\n     ~~~~~~~~~\n    /         \\\n   |  Relax   |\n   |  & Reset  |\n    \\         /\n     ~~~~~~~~~\n    🌿 RENEWED 🌿",
        Some(Mood::Creative) => "    🎨 BREAK 🎨\n     🌈 🌈 🌈 🌈\n    /           \\\n   |  Refresh  |\n   |  & Create  |\n    \\           /\n     🌈 🌈 🌈 🌈\n    🎨 INSPIRED 🎨",
        Some(Mood::Productive) => "    💼 BREAK 💼\n     ⚡ ⚡ ⚡ ⚡ ⚡\n    /             \\\n   |  Rest &    |\n   |  Recharge  |\n    \\             /\n     ⚡ ⚡ ⚡ ⚡ ⚡\n    💼 READY 💼",
        Some(Mood::Nostalgic) => "    📼 BREAK 📼\n     🎵 🎵 🎵 🎵\n    /             \\\n   |  Remember  |\n   |  & Reflect  |\n    \\             /\n     🎵 🎵 🎵 🎵\n    📼 WISER 📼",
        Some(Mood::Adventurous) => "    🌌 BREAK 🌌\n     ⭐ ⭐ ⭐ ⭐ ⭐\n    /               \\\n   |  Rest &      |\n   |  Prepare     |\n    \\               /\n     ⭐ ⭐ ⭐ ⭐ ⭐\n    🌌 READY 🌌",
        Some(Mood::Zen) => "    🧘 BREAK 🧘\n     ☯️ ☯️ ☯️ ☯️\n    /         \\\n   |  Breathe |\n   |  & Reset  |\n    \\         /\n     ☯️ ☯️ ☯️ ☯️\n    🧘 CENTERED 🧘",
        None => "\n  (•_•)  ( •_•)>⌐■-■  (⌐■_■)\nBreak like a boss!",
    }
}

/// The break block shown after the countdown: a green banner and the
/// mood's break art.
pub open spec fn spec_break_lines(lines: Seq<String>, om: Option<Mood>) -> bool {
    &&& lines.len() == 7
    &&& lines[0]@ == Seq::<char>::empty()
    &&& wraps(lines[1]@, "╭─────────────────────────────────────────╮"@)
    &&& wraps(lines[2]@, "│              BREAK TIME!               │"@)
    &&& wraps(lines[3]@, "╰─────────────────────────────────────────╯"@)
    &&& lines[4]@ == Seq::<char>::empty()
    &&& lines[5]@ == spec_break_art(om)
    &&& lines[6]@ == Seq::<char>::empty()
}

/// The break block printed after the countdown ends.
pub fn break_lines(mood: &str) -> (r: Vec<String>)
    ensures
        spec_break_lines(r@, spec_parse_mood(mood@)),
{
    let mut r: Vec<String> = Vec::new();
    r.push(String::new());
    r.push(painted_green("╭─────────────────────────────────────────╮"));
    r.push(painted_green("│              BREAK TIME!               │"));
    r.push(painted_green("╰─────────────────────────────────────────╯"));
    r.push(String::new());
    r.push(String::from_str(break_art(mood)));
    r.push(String::new());
    r
}

} // verus!
