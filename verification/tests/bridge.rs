use plasma_drop::animation::Opacity;
use plasma_drop::wm::kwin::bridge::{
    is_own_shortcut, stale_shortcuts, BridgeError, BridgeState, Reply, KEEPALIVE_INTERVAL,
};
use plasma_drop::wm::kwin::types::{
    severity, CommandEnvelope, KWinEvent, Param, ParamValue, Request, ResponseEnvelope, Severity,
    SupportInformationResponse, WindowListResponse, WindowResponse,
};
use plasma_drop::wm::{FrameGeometry, ManagedWindow};
use uuid::{Uuid, Variant, Version};

fn text(key: &'static str, value: &str) -> Param {
    Param {
        key,
        value: ParamValue::Text(value.into()),
    }
}

fn number(key: &'static str, value: i32) -> Param {
    Param {
        key,
        value: ParamValue::Number(value),
    }
}

fn flag(key: &'static str, value: bool) -> Param {
    Param {
        key,
        value: ParamValue::Flag(value),
    }
}

fn response(responder_id: u128, exception_message: Option<&str>) -> ResponseEnvelope<u8> {
    ResponseEnvelope {
        cmd_type: "GET_WINDOW".into(),
        responder_id,
        params: 9,
        exception_message: exception_message.map(str::to_string),
    }
}

#[test]
fn every_request_has_its_word_and_its_parameters() {
    let geometry = FrameGeometry {
        x: -1,
        y: 2,
        width: 3,
        height: 4,
    };
    let id = || "{abc}".to_string();
    let opacity = Opacity {
        bits: 0.5_f64.to_bits(),
    };
    let wanted: Vec<(Request, &str, Vec<Param>)> = vec![
        (
            Request::RegisterHotkey {
                name: "n".into(),
                title: "t".into(),
                sequence: "s".into(),
            },
            "REGISTER_HOT_KEY",
            vec![text("name", "n"), text("title", "t"), text("sequence", "s")],
        ),
        (Request::WindowList, "GET_WINDOW_LIST", vec![]),
        (
            Request::Window { id: id() },
            "GET_WINDOW",
            vec![text("internalId", "{abc}")],
        ),
        (Request::ActiveWindow, "GET_ACTIVE_WINDOW", vec![]),
        (Request::CursorPosition, "GET_CURSOR_POSITION", vec![]),
        (
            Request::Move { id: id(), geometry },
            "MOVE_WINDOW",
            vec![text("internalId", "{abc}"), number("x", -1), number("y", 2)],
        ),
        (
            Request::Resize { id: id(), geometry },
            "RESIZE_WINDOW",
            vec![
                text("internalId", "{abc}"),
                number("width", 3),
                number("height", 4),
            ],
        ),
        (
            Request::SetOpacity { id: id(), opacity },
            "SET_WINDOW_OPACITY",
            vec![
                text("internalId", "{abc}"),
                Param {
                    key: "opacity",
                    value: ParamValue::Real(opacity),
                },
            ],
        ),
        (
            Request::SetNoBorder {
                id: id(),
                no_border: true,
            },
            "SET_WINDOW_NO_BORDER",
            vec![text("internalId", "{abc}"), flag("noBorder", true)],
        ),
        (
            Request::BringToForeground { id: id() },
            "BRING_WINDOW_TO_FOREGROUND",
            vec![text("internalId", "{abc}")],
        ),
        (
            Request::SetMinimized {
                id: id(),
                minimized: false,
            },
            "SET_WINDOW_MINIMIZED",
            vec![text("internalId", "{abc}"), flag("minimized", false)],
        ),
        (Request::SupportInformation, "GET_SUPPORT_INFORMATION", vec![]),
        (Request::Noop, "NOOP", vec![]),
    ];
    for (request, word, params) in wanted {
        let envelope = CommandEnvelope::with_id(&request, 77);
        assert_eq!(envelope.command_type, word);
        assert_eq!(envelope.responder_id, 77);
        assert_eq!(envelope.params, params);
    }
}

#[test]
fn drawn_identifiers_are_random_ones() {
    let first = CommandEnvelope::new(&Request::Noop);
    let second = CommandEnvelope::new(&Request::Noop);
    for envelope in [&first, &second] {
        let id = Uuid::from_u128(envelope.responder_id);
        assert_eq!(id.get_version(), Some(Version::Random));
        assert_eq!(id.get_variant(), Variant::RFC4122);
        assert!(!id.is_nil());
    }
    assert_ne!(first.responder_id, second.responder_id);
    assert_eq!(first.command_type, "NOOP");
}

#[test]
fn commands_are_fetched_in_order() {
    let mut bridge: BridgeState<u8> = BridgeState::new(0);
    assert_eq!(bridge.next_command(), None);
    bridge.enqueue("a".into(), 1);
    bridge.enqueue("b".into(), 2);
    assert_eq!(bridge.next_command().as_deref(), Some("a"));
    bridge.enqueue("c".into(), 3);
    assert_eq!(bridge.next_command().as_deref(), Some("b"));
    assert_eq!(bridge.next_command().as_deref(), Some("c"));
    assert_eq!(bridge.next_command(), None);
}

#[test]
fn responses_reach_their_waiter_once() {
    let mut bridge: BridgeState<&str> = BridgeState::new(0);
    bridge.expect(1, "one");
    bridge.expect(2, "two");
    assert_eq!(bridge.resolve_response(3), None);
    assert_eq!(bridge.resolve_response(1), Some("one"));
    assert_eq!(bridge.resolve_response(1), None);
    assert_eq!(bridge.resolve_response(2), Some("two"));
}

#[test]
fn waiting_ends_with_a_result_or_a_reason() {
    let mut bridge: BridgeState<u8> = BridgeState::new(0);
    assert_eq!(
        bridge
            .conclude(1, "GET_WINDOW", Reply::Received(response(1, None)))
            .unwrap(),
        9
    );
    let failed = bridge
        .conclude(1, "ANY", Reply::Received(response(1, Some("no such window"))))
        .unwrap_err();
    assert!(matches!(failed, BridgeError::Failed { .. }));
    assert_eq!(
        failed.message(),
        "KWin command GET_WINDOW failed: no such window"
    );
    bridge.expect(1, 4);
    let dropped = bridge
        .conclude::<u8>(1, "GET_WINDOW", Reply::Dropped)
        .unwrap_err();
    assert_eq!(dropped.message(), "response waiter dropped for GET_WINDOW");
    assert_eq!(bridge.resolve_response(1), None);
    bridge.expect(2, 5);
    bridge.expect(3, 6);
    let late = bridge
        .conclude::<u8>(2, "GET_WINDOW_LIST", Reply::TimedOut)
        .unwrap_err();
    assert_eq!(
        late.message(),
        "timed out waiting for KWin response to GET_WINDOW_LIST"
    );
    assert_eq!(bridge.resolve_response(2), None);
    assert_eq!(bridge.resolve_response(3), Some(6));
}

#[test]
fn silence_is_broken_after_the_interval() {
    let mut bridge: BridgeState<u8> = BridgeState::new(100);
    assert!(!bridge.keepalive_due(0));
    assert!(!bridge.keepalive_due(99 + KEEPALIVE_INTERVAL));
    assert!(bridge.keepalive_due(100 + KEEPALIVE_INTERVAL));
    bridge.enqueue("a".into(), 100 + KEEPALIVE_INTERVAL);
    assert!(!bridge.keepalive_due(101 + KEEPALIVE_INTERVAL));
}

#[test]
fn only_own_shortcuts_are_taken_back() {
    assert!(is_own_shortcut("plasma_drop_hotkey_terminal_1"));
    assert!(is_own_shortcut("plasma_drop_hotkey_"));
    assert!(!is_own_shortcut("plasma_drop_hotkey"));
    assert!(!is_own_shortcut("Window Close"));
    let names = vec![
        "Window Close".to_string(),
        "plasma_drop_hotkey_b_2".to_string(),
        "my plasma_drop_hotkey_c_3".to_string(),
        "plasma_drop_hotkey_a_1".to_string(),
    ];
    assert_eq!(
        stale_shortcuts(&names),
        vec!["plasma_drop_hotkey_b_2", "plasma_drop_hotkey_a_1"]
    );
}

#[test]
fn reports_of_the_script_are_understood() {
    assert_eq!(
        KWinEvent::hotkey_pressed("x"),
        KWinEvent::HotkeyPressed("x".into())
    );
    assert_eq!(
        KWinEvent::active_window_changed("{abc}"),
        KWinEvent::ActiveWindowChanged(Some("{abc}".into()))
    );
    assert_eq!(
        KWinEvent::active_window_changed(""),
        KWinEvent::ActiveWindowChanged(None)
    );
    assert_eq!(severity("ERR"), Severity::Error);
    assert_eq!(severity("WRN"), Severity::Warning);
    assert_eq!(severity("INF"), Severity::Info);
    assert_eq!(severity("err"), Severity::Info);
}

#[test]
fn responses_and_reports_can_be_copied() {
    let window = ManagedWindow {
        internal_id: "{abc}".into(),
        desktop_file_name: "kitty".into(),
        resource_class: "kitty".into(),
        resource_name: "kitty".into(),
        caption: "shell".into(),
        frame_geometry: FrameGeometry {
            x: 1,
            y: 2,
            width: 3,
            height: 4,
        },
        no_border: true,
        minimized: false,
    };
    let list = WindowListResponse {
        windows: vec![window.clone(), window.clone()],
    };
    assert_eq!(list.clone().windows, list.windows);
    let one = WindowResponse {
        window: Some(window.clone()),
    };
    assert_eq!(one.clone().window, Some(window));
    let text = SupportInformationResponse {
        text: "Screen 0:".into(),
    };
    assert_eq!(text.clone().text, text.text);
    let event = KWinEvent::active_window_changed("{abc}");
    assert_eq!(event.clone(), event);
    let envelope = CommandEnvelope::with_id(&Request::Window { id: "{abc}".into() }, 5);
    let copy = envelope.clone();
    assert_eq!(copy.command_type, "GET_WINDOW");
    assert_eq!(copy.responder_id, 5);
    assert_eq!(copy.params, envelope.params);
    let copy = response(6, Some("no")).clone();
    assert_eq!(copy.responder_id, 6);
    assert_eq!(copy.params, 9);
    assert_eq!(copy.exception_message.as_deref(), Some("no"));
}
