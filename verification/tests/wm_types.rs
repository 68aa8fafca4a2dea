use plasma_drop::config::{AnimationConfig, AppConfig, AttachMode, PlacementConfig};
use plasma_drop::hotkey::Hotkey;
use plasma_drop::wm::types::{decide_match, normalize_filename_matcher};
use plasma_drop::wm::{find_best_match, matches_window, FrameGeometry, ManagedWindow};
use regex::Regex;

fn app() -> AppConfig {
    AppConfig {
        name: "terminal".into(),
        hotkey: Hotkey::parse("ctrl+grave").unwrap(),
        filename: Some("kitty".into()),
        command: vec!["kitty".into()],
        process_name: None,
        window_title: None,
        attach_mode: AttachMode::FindOrStart,
        working_directory: None,
        hide_decorations: false,
        hide_on_focus_lost: false,
        placement: PlacementConfig::default(),
        animation: AnimationConfig::default(),
    }
}

fn window(name: &str, caption: &str) -> ManagedWindow {
    ManagedWindow {
        internal_id: "{123}".into(),
        desktop_file_name: name.into(),
        resource_class: name.into(),
        resource_name: name.into(),
        caption: caption.into(),
        frame_geometry: FrameGeometry {
            x: 0,
            y: 0,
            width: 100,
            height: 50,
        },
        no_border: false,
        minimized: false,
    }
}

#[test]
fn exact_filename_match_is_case_insensitive() {
    let mut app = app();
    app.filename = Some("KiTtY".into());
    assert!(matches_window(&window("kitty", "shell"), &app));
}

#[test]
fn absolute_filename_matches_by_basename() {
    let mut app = app();
    app.filename = Some("/usr/bin/dolphin".into());
    assert!(matches_window(&window("dolphin", "files"), &app));
}

#[test]
fn process_name_regex_matches_identity_fields() {
    let mut app = app();
    app.process_name = Some(Regex::new("(?i)kit.*").unwrap());
    assert!(matches_window(&window("kitty", "shell"), &app));
}

#[test]
fn title_regex_must_match_when_present() {
    let mut app = app();
    app.window_title = Some(Regex::new("(?i)project").unwrap());
    assert!(matches_window(&window("kitty", "Project"), &app));
    assert!(!matches_window(&window("kitty", "shell"), &app));
}

#[test]
fn first_match_is_selected_and_ambiguity_is_reported() {
    let app = app();
    let windows = vec![window("kitty", "one"), window("kitty", "two")];
    let (selected, count) = find_best_match(&windows, &app);
    assert_eq!(count, 2);
    assert_eq!(selected.unwrap().caption, "one");
}

#[test]
fn process_name_and_window_title_must_both_match() {
    let mut app = app();
    app.process_name = Some(Regex::new("(?i)kitty").unwrap());
    app.window_title = Some(Regex::new("(?i)project").unwrap());

    assert!(matches_window(&window("kitty", "Project"), &app));
    assert!(!matches_window(&window("kitty", "Shell"), &app));
    assert!(!matches_window(&window("dolphin", "Project"), &app));
}

#[test]
fn title_only_matching_works_without_filename_or_process_name() {
    let mut app = app();
    app.filename = None;
    app.process_name = None;
    app.window_title = Some(Regex::new("(?i)dolphin").unwrap());

    assert!(matches_window(&window("something-else", "Dolphin"), &app));
    assert!(!matches_window(&window("something-else", "Terminal"), &app));
}

#[test]
fn file_name_is_what_counts_of_a_path() {
    assert_eq!(normalize_filename_matcher("/usr/bin/Dolphin"), "dolphin");
    assert_eq!(normalize_filename_matcher("Dolphin"), "dolphin");
    assert_eq!(normalize_filename_matcher("/opt/App/./"), "app");
    assert_eq!(normalize_filename_matcher("a/.."), "a/..");
    assert_eq!(normalize_filename_matcher("/"), "/");
    assert_eq!(normalize_filename_matcher(""), "");
    assert_eq!(normalize_filename_matcher("X/\u{c9}A"), "\u{c9}a");
}

#[test]
fn any_identity_field_will_do() {
    let app = app();
    let mut other = window("other", "shell");
    assert!(!matches_window(&other, &app));
    other.resource_name = "KITTY".into();
    assert!(matches_window(&other, &app));
    let mut other = window("other", "shell");
    other.resource_class = "Kitty".into();
    assert!(matches_window(&other, &app));
}

#[test]
fn expressions_have_the_say_over_the_file_name() {
    let mut app = app();
    app.process_name = Some(Regex::new("(?i)dolphin").unwrap());
    assert!(!matches_window(&window("kitty", "shell"), &app));
    assert!(matches_window(&window("dolphin", "shell"), &app));
    app.process_name = None;
    app.window_title = Some(Regex::new("(?i)project").unwrap());
    assert!(matches_window(&window("dolphin", "Project"), &app));
}

#[test]
fn verdicts_combine() {
    assert!(decide_match(None, None, true));
    assert!(!decide_match(None, None, false));
    assert!(decide_match(Some(true), None, false));
    assert!(!decide_match(Some(false), None, true));
    assert!(decide_match(None, Some(true), false));
    assert!(!decide_match(None, Some(false), true));
    assert!(decide_match(Some(true), Some(true), false));
    assert!(!decide_match(Some(true), Some(false), true));
    assert!(!decide_match(Some(false), Some(true), true));
}

#[test]
fn first_match_skips_what_does_not_match() {
    let app = app();
    let windows = vec![
        window("dolphin", "one"),
        window("kitty", "two"),
        window("other", "three"),
        window("kitty", "four"),
    ];
    let (selected, count) = find_best_match(&windows, &app);
    assert_eq!(count, 2);
    assert_eq!(selected.unwrap().caption, "two");
    let (selected, count) = find_best_match(&windows[..1], &app);
    assert_eq!(count, 0);
    assert!(selected.is_none());
}
