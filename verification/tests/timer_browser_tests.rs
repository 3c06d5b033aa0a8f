use vibe::browser::cancel_lines;
use vibe::browser::commit_lines;
use vibe::browser::parse_command;
use vibe::browser::screen_lines;
use vibe::browser::BrowserCmd;
use vibe::browser::Selection;
use vibe::browser::StepOutcome;
use vibe::script::api_script;
use vibe::script::debug_script;
use vibe::script::godmode_script;
use vibe::script::mask_api_key;
use vibe::script::secret_script;
use vibe::timer::break_lines;
use vibe::timer::countdown_line;
use vibe::timer::pomodoro_intro_lines;
use vibe::timer::timer_done_line;
use vibe::timer::timer_start_line;
use vibe::timer::TimerState;

#[test]
fn countdown_is_exact() {
    let mut t = TimerState::new(2);
    assert_eq!(t.remaining, 120);
    let mut ticks = 0u32;
    while !t.is_done() {
        t.tick();
        ticks += 1;
    }
    assert_eq!(ticks, 120);
    assert_eq!(t.remaining, 0);
}

#[test]
fn countdown_lines_format_mm_ss() {
    assert_eq!(countdown_line("focus", 65), "🔵 01:05 remaining... ");
    assert_eq!(countdown_line("focus", 1500), "🔵 25:00 remaining... ");
    assert_eq!(countdown_line("bogus", 59), "⏳ 00:59 remaining... ");
    assert_eq!(countdown_line("zen", 0), "🧘 00:00 remaining... ");
    // Past the two-digit range, minutes widen rather than truncate.
    assert_eq!(countdown_line("chill", 7200), "🌿 120:00 remaining... ");
}

#[test]
fn timer_start_and_done_lines() {
    assert_eq!(
        timer_start_line("zen", 25),
        "🧘 Pomodoro Timer: 25 minutes | Breathe and code."
    );
    assert_eq!(
        timer_start_line("unknown", 5),
        "⏳ Pomodoro Timer: 5 minutes | Time to vibe!"
    );
    assert_eq!(timer_done_line("focus"), "🔵 00:00 Time's up! Take a break!           ");
}

#[test]
fn timer_intro_and_break_blocks() {
    let intro = pomodoro_intro_lines("focus");
    assert_eq!(intro.len(), 12);
    let joined = intro.join("\n");
    assert!(joined.contains("POMODORO VIBE"));
    assert!(joined.contains("Deep Ocean Blue"));
    assert!(joined.contains("<__Focus!!!__>"));
    assert!(pomodoro_intro_lines("bogus").is_empty());

    let brk = break_lines("focus");
    assert_eq!(brk.len(), 7);
    assert!(brk[2].contains("BREAK TIME!"));
    assert!(brk[5].contains("<__Break!!!__>"));
    let fallback = break_lines("bogus");
    assert!(fallback[5].contains("Break like a boss!"));
}

#[test]
fn largest_timer_still_exact() {
    // The largest minute count whose second count fits in the counter.
    let mut t = TimerState::new(71582788);
    assert_eq!(t.remaining, 71582788 * 60);
    t.tick();
    assert_eq!(t.remaining, 71582788 * 60 - 1);
}

#[test]
fn browser_commands_parse() {
    for s in ["w", "k", "up", " w ", "up\n"] {
        assert_eq!(parse_command(s), BrowserCmd::Up);
    }
    for s in ["s", "j", "down", "\tdown\r\n"] {
        assert_eq!(parse_command(s), BrowserCmd::Down);
    }
    for s in ["", "  ", "\n", "enter"] {
        assert_eq!(parse_command(s), BrowserCmd::Commit);
    }
    for s in ["q", "quit", "exit"] {
        assert_eq!(parse_command(s), BrowserCmd::Quit);
    }
    assert_eq!(parse_command("3"), BrowserCmd::Jump(3));
    assert_eq!(parse_command(" 10 \n"), BrowserCmd::Jump(10));
    assert_eq!(parse_command("+7"), BrowserCmd::Jump(7));
    assert_eq!(parse_command("007"), BrowserCmd::Jump(7));
    assert_eq!(parse_command("abc"), BrowserCmd::Other);
    assert_eq!(parse_command("-3"), BrowserCmd::Other);
    assert_eq!(parse_command("3x"), BrowserCmd::Other);
    assert_eq!(parse_command("99999999999999999999999999"), BrowserCmd::Other);
}

#[test]
fn browser_selection_clamps() {
    let mut sel = Selection::start();
    assert_eq!(sel.index, 0);
    // Up at the top is a no-op, again and again.
    for _ in 0..3 {
        assert_eq!(sel.apply(BrowserCmd::Up), StepOutcome::Continue);
        assert_eq!(sel.index, 0);
    }
    // Down walks to the last entry and stops there.
    for _ in 0..15 {
        sel.apply(BrowserCmd::Down);
    }
    assert_eq!(sel.index, 9);
    sel.apply(BrowserCmd::Down);
    assert_eq!(sel.index, 9);
    // A valid 1-based jump lands one below; an invalid one moves nothing.
    sel.apply(BrowserCmd::Jump(3));
    assert_eq!(sel.index, 2);
    sel.apply(BrowserCmd::Jump(11));
    assert_eq!(sel.index, 2);
    sel.apply(BrowserCmd::Jump(0));
    assert_eq!(sel.index, 2);
    sel.apply(BrowserCmd::Jump(10));
    assert_eq!(sel.index, 9);
    // Unrecognized input moves nothing.
    assert_eq!(sel.apply(BrowserCmd::Other), StepOutcome::Continue);
    assert_eq!(sel.index, 9);
    // Commit and quit end the browser without moving the cursor.
    assert_eq!(sel.apply(BrowserCmd::Commit), StepOutcome::Selected);
    assert_eq!(sel.apply(BrowserCmd::Quit), StepOutcome::Cancelled);
    assert_eq!(sel.index, 9);
}

#[test]
fn browser_screens() {
    let mut sel = Selection::start();
    let screen = screen_lines(&sel);
    assert_eq!(screen.len(), 27);
    assert!(screen[1].contains("VIBE SELECTOR"));
    assert!(screen[6].contains("FOCUS"));
    assert_eq!(screen[7], "    chaotic");
    assert!(screen[18].contains("PREVIEW"));
    assert!(screen.join("\n").contains("Deep Ocean Blue"));
    sel.apply(BrowserCmd::Down);
    let screen = screen_lines(&sel);
    assert_eq!(screen[6], "    focus");
    assert!(screen[7].contains("CHAOTIC"));
    assert!(screen.join("\n").contains("Neon Cyberpunk"));

    let done = commit_lines(&sel);
    assert_eq!(done.len(), 15);
    assert!(done[1].contains("Selected vibe:"));
    assert!(done[2].contains("CHAOTIC"));
    assert!(done.join("\n").contains("Embrace the chaos, create order"));

    let gone = cancel_lines();
    assert_eq!(gone.len(), 2);
    assert!(gone[1].contains("Vibe selection cancelled"));
}

#[test]
fn godmode_script_shape() {
    let script = godmode_script();
    assert_eq!(script.len(), 15);
    for line in &script {
        assert_eq!(line.delay_ms, 400);
    }
    assert!(script[0].text.contains("Initializing GODMODE..."));
    assert!(script[11].text.contains("'There is no spoon. Only root.'"));
    assert!(script[14].text.contains("(Just kidding. Or am I?)"));
}

#[test]
fn secret_script_shape() {
    let script = secret_script();
    assert_eq!(script.len(), 18);
    assert!(script[1].text.contains("SECRET MODE ACTIVATED"));
    assert_eq!(script[2].delay_ms, 800);
    assert_eq!(script[3].delay_ms, 600);
    assert_eq!(script[4].delay_ms, 700);
    assert_eq!(script[10].text, "🎨 Theme: Invisible Spectrum");
    assert!(script[15].text.contains("This mode is completely fake!"));
}

#[test]
fn debug_script_shape() {
    let script = debug_script();
    assert_eq!(script.len(), 12);
    assert!(script[1].text.contains("DEBUG MODE ENABLED"));
    assert_eq!(script[2].delay_ms, 500);
    assert_eq!(script[3].delay_ms, 400);
    assert_eq!(script[4].delay_ms, 300);
    assert_eq!(script[9].text, "  - Debug level: OVER 9000");
}

#[test]
fn api_script_masks_the_key() {
    assert_eq!(mask_api_key("abcdefghij"), "abcdefgh...***");
    assert_eq!(mask_api_key("12345678"), "12345678...***");
    let script = api_script("abcdefgh-tail-9876");
    assert_eq!(script.len(), 11);
    assert!(script[1].text.contains("CLOUD SYNC INITIALIZED"));
    assert!(script[6].text.contains("API Key: abcdefgh...***"));
    let joined: String = script.iter().map(|l| l.text.clone()).collect::<Vec<_>>().join("\n");
    assert!(!joined.contains("tail-9876"));
    assert!(script[9].text.contains("completely made up!"));
}
