use plasma_drop::config::{Config, RawAppConfig, RawConfig};
use plasma_drop::startup::{
    build_registry_entries, check_overwrite, choose_log_level, hotkey_title,
};
use plasma_drop::wm::kwin::bridge::is_own_shortcut;

fn app(name: &str, hotkey: &str) -> RawAppConfig {
    RawAppConfig {
        name: name.to_string(),
        hotkey: hotkey.to_string(),
        filename: Some("kitty".into()),
        command: None,
        process_name: None,
        window_title: None,
        attach_mode: None,
        arguments: None,
        working_directory: None,
        hide_decorations: None,
        hide_on_focus_lost: None,
        placement: None,
        animation: None,
    }
}

#[test]
fn entries_begin_with_nothing_known() {
    let config = Config::from_raw(RawConfig {
        apps: vec![
            app("My Term", "ctrl+1"),
            app("my-term", "ctrl+2"),
            app("a_1", "ctrl+3"),
            app("a", "ctrl+4"),
        ],
        log_level: None,
    })
    .unwrap();
    let entries = build_registry_entries(&config);
    let ids: Vec<&str> = entries.iter().map(|e| e.shortcut_id.as_str()).collect();
    assert_eq!(
        ids,
        [
            "plasma_drop_hotkey_my_term_1",
            "plasma_drop_hotkey_my_term_2",
            "plasma_drop_hotkey_a_1_3",
            "plasma_drop_hotkey_a_4",
        ]
    );
    for (entry, app) in entries.iter().zip(&config.apps) {
        assert_eq!(entry.config.name, app.name);
        assert_eq!(entry.config.hotkey.sequence(), app.hotkey.sequence());
        assert_eq!(entry.tracked_window_id, None);
        assert_eq!(entry.restore_geometry, None);
        assert_eq!(entry.restore_no_border, None);
        assert!(!entry.visible);
        assert!(is_own_shortcut(&entry.shortcut_id));
    }
}

#[test]
fn titles_name_the_app() {
    assert_eq!(hotkey_title("terminal"), "PlasmaDrop hotkey - terminal");
}

#[test]
fn log_level_is_settled() {
    assert_eq!(choose_log_level(None, 0, "warn"), "warn");
    assert_eq!(choose_log_level(None, 1, "warn"), "debug");
    assert_eq!(choose_log_level(None, 2, "warn"), "trace");
    assert_eq!(choose_log_level(None, 255, "warn"), "trace");
    assert_eq!(choose_log_level(Some("info"), 2, "warn"), "info");
}

#[test]
fn files_are_written_over_by_force_only() {
    assert_eq!(check_overwrite("/tmp/x", false, false), Ok(()));
    assert_eq!(check_overwrite("/tmp/x", true, true), Ok(()));
    assert_eq!(check_overwrite("/tmp/x", false, true), Ok(()));
    assert_eq!(
        check_overwrite("/tmp/x", true, false),
        Err("'/tmp/x' already exists; rerun with --force to overwrite".to_string())
    );
}
