use vibe::catalog::get_ascii_art;
use vibe::catalog::get_available_moods;
use vibe::catalog::get_vibe_response;
use vibe::catalog::parse_mood;
use vibe::catalog::Mood;
use vibe::dispatch::default_exit_code;
use vibe::dispatch::resolve_mood;
use vibe::dispatch::run_default;
use vibe::dispatch::select_mode;
use vibe::dispatch::CliOptions;
use vibe::dispatch::ModeChoice;
use vibe::dispatch::MoodError;

fn options(mood: Option<&str>) -> CliOptions {
    CliOptions {
        mood: mood.map(|s| s.to_string()),
        ascii: false,
        godmode: false,
        timer: None,
        focus_mode: false,
        workspace: false,
        interactive: false,
        secret_mode: false,
        debug: false,
        api_key: None,
    }
}

#[test]
fn lookup_known_mood_exact_record() {
    let rec = get_vibe_response("focus").expect("focus is in the catalog");
    assert_eq!(rec.theme, "Deep Ocean Blue");
    assert_eq!(rec.music, "Lo-fi beats, classical piano, ambient nature sounds");
    assert_eq!(rec.stack, "Rust, TypeScript, PostgreSQL, Docker");
    assert_eq!(rec.motto, "Flow state is the goal state");
}

#[test]
fn lookup_is_case_insensitive_and_stable() {
    for name in ["FOCUS", "Focus", "fOcUs", "focus"] {
        assert_eq!(parse_mood(name), Some(Mood::Focus));
        let rec = get_vibe_response(name).expect("any casing resolves");
        assert_eq!(rec.theme, "Deep Ocean Blue");
        assert_eq!(rec.motto, "Flow state is the goal state");
    }
    // Repeated calls see no hidden state.
    let a = get_vibe_response("ZEN").unwrap();
    let b = get_vibe_response("zen").unwrap();
    assert_eq!(a.theme, b.theme);
    assert_eq!(a.music, b.music);
    assert_eq!(a.stack, b.stack);
    assert_eq!(a.motto, b.motto);
}

#[test]
fn lookup_unknown_mood_fails() {
    assert!(get_vibe_response("nope").is_none());
    assert!(get_vibe_response("").is_none());
    assert!(get_vibe_response("focus ").is_none());
    assert!(parse_mood("zenith").is_none());
}

#[test]
fn all_catalog_names_resolve() {
    let moods = get_available_moods();
    assert_eq!(moods.len(), 10);
    assert_eq!(
        moods,
        vec![
            "focus",
            "chaotic",
            "sadboi",
            "energetic",
            "chill",
            "creative",
            "productive",
            "nostalgic",
            "adventurous",
            "zen"
        ]
    );
    for name in &moods {
        assert!(get_vibe_response(name).is_some());
        assert!(get_ascii_art(name).is_some());
    }
}

#[test]
fn ascii_art_lookup() {
    let art = get_ascii_art("FOCUS").expect("focus has art");
    assert!(art.contains("<__Focus!!!__>"));
    assert!(get_ascii_art("bogus").is_none());
}

#[test]
fn default_path_focus_scenario() {
    let r = run_default("focus", false);
    let lines = r.as_ref().expect("focus succeeds");
    assert_eq!(lines.len(), 10);
    let joined = lines.join("\n");
    assert!(joined.contains("VIBE REPORT"));
    assert!(joined.contains("Theme"));
    assert!(joined.contains("Deep Ocean Blue"));
    assert!(joined.contains("Music"));
    assert!(joined.contains("Lo-fi beats, classical piano, ambient nature sounds"));
    assert!(joined.contains("Stack"));
    assert!(joined.contains("Rust, TypeScript, PostgreSQL, Docker"));
    assert!(joined.contains("Motto"));
    assert!(joined.contains("Flow state is the goal state"));
    assert_eq!(default_exit_code(&r), 0);
}

#[test]
fn default_path_with_ascii_art_first() {
    let r = run_default("zen", true);
    let lines = r.expect("zen succeeds");
    assert_eq!(lines.len(), 11);
    assert!(lines[0].contains("PEACE"));
    assert!(lines.join("\n").contains("Minimalist White"));
}

#[test]
fn default_path_unknown_mood_scenario() {
    let r = run_default("nope", false);
    match r {
        Err(MoodError::UnknownMood) => {},
        _ => panic!("an unknown mood must fail"),
    }
    assert_eq!(default_exit_code(&r), 1);
    let err_lines = vibe::dispatch::unknown_mood_lines();
    assert_eq!(err_lines.len(), 2);
    assert!(err_lines[0].contains("Unknown mood!"));
    assert!(err_lines[1].contains("Available moods: "));
    assert!(err_lines[1].contains("focus, chaotic, sadboi"));
}

#[test]
fn dispatch_priority_is_exclusive() {
    let mut o = options(Some("focus"));
    o.secret_mode = true;
    o.debug = true;
    o.api_key = Some("k".to_string());
    o.godmode = true;
    o.interactive = true;
    o.timer = Some(25);
    o.focus_mode = true;
    o.workspace = true;
    assert_eq!(select_mode(&o), ModeChoice::SecretHoneypot);
    o.secret_mode = false;
    assert_eq!(select_mode(&o), ModeChoice::DebugHoneypot);
    o.debug = false;
    assert_eq!(select_mode(&o), ModeChoice::ApiHoneypot);
    o.api_key = None;
    assert_eq!(select_mode(&o), ModeChoice::Godmode);
    o.godmode = false;
    assert_eq!(select_mode(&o), ModeChoice::Interactive);
    o.interactive = false;
    assert_eq!(select_mode(&o), ModeChoice::Timer);
    o.timer = None;
    assert_eq!(select_mode(&o), ModeChoice::FocusStub);
    o.focus_mode = false;
    assert_eq!(select_mode(&o), ModeChoice::WorkspaceStub);
    o.workspace = false;
    assert_eq!(select_mode(&o), ModeChoice::Lookup);
}

#[test]
fn dispatch_default_path_without_flags() {
    assert_eq!(select_mode(&options(None)), ModeChoice::Lookup);
    assert_eq!(select_mode(&options(Some("zen"))), ModeChoice::Lookup);
}

#[test]
fn resolve_mood_keeps_argument() {
    let (mood, was_random) = resolve_mood(&Some("focus".to_string()));
    assert_eq!(mood, "focus");
    assert!(!was_random);
}

#[test]
fn resolve_mood_randomly_stays_in_catalog() {
    let moods = get_available_moods();
    for _ in 0..200 {
        let (mood, was_random) = resolve_mood(&None);
        assert!(was_random);
        assert!(moods.contains(&mood));
        assert!(get_vibe_response(&mood).is_some());
    }
}

#[test]
fn random_mood_always_in_catalog() {
    let moods = get_available_moods();
    for _ in 0..200 {
        let m = vibe::picker::random_mood();
        let name = vibe::catalog::mood_name(m);
        assert!(moods.contains(&name));
    }
}
