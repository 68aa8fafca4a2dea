use plasma_drop::hotkey::{Hotkey, HotkeyError};

fn sequence(raw: &str) -> Option<String> {
    Hotkey::parse(raw)
        .ok()
        .map(|hotkey| hotkey.sequence().to_string())
}

#[test]
fn modifiers_come_in_a_fixed_order() {
    assert_eq!(sequence("ctrl+grave").as_deref(), Some("Ctrl+`"));
    assert_eq!(sequence("super+f9").as_deref(), Some("Meta+F9"));
    assert_eq!(
        sequence("shift+alt+ctrl+meta+a").as_deref(),
        Some("Meta+Ctrl+Alt+Shift+A")
    );
    assert_eq!(sequence("x").as_deref(), Some("X"));
}

#[test]
fn case_and_white_space_do_not_matter() {
    assert_eq!(sequence(" CTRL + Grave "), sequence("ctrl+grave"));
    assert_eq!(sequence("ctrl+ctrl+e"), sequence("ctrl+e"));
    assert_eq!(Hotkey::parse(" CTRL + Grave ").unwrap().raw(), " CTRL + Grave ");
}

#[test]
fn what_is_no_hotkey_is_refused() {
    for raw in ["", "ctrl", "ctrl+", "+a", "a+b", "ctrl+f0", "ctrl+f36", "ctrl+f01", "ctrl+ä"] {
        assert_eq!(sequence(raw), None, "{raw}");
    }
}

#[test]
fn unknown_tokens_are_named() {
    let fault = |raw: &str| Hotkey::parse(raw).unwrap_err();
    assert_eq!(
        fault("ctrl+Hyper+foo+x"),
        HotkeyError::UnknownModifier("hyper".into())
    );
    assert_eq!(fault("ctrl+ Foo "), HotkeyError::UnknownKey("foo".into()));
    assert_eq!(fault("a+b"), HotkeyError::UnknownModifier("a".into()));
    assert_eq!(fault("a+b").message(), "unknown modifier 'a'");
    assert_eq!(fault("ctrl").message(), "unknown key 'ctrl'");
}

#[test]
fn every_function_key_is_known() {
    for n in 1..=35 {
        assert_eq!(sequence(&format!("f{n}")), Some(format!("F{n}")));
    }
}
