use plasma_drop::config::{
    AnimationConfig, AnimationEasing, AnimationStyle, Config, ConfigErrorKind, PlacementConfig,
    PlacementMetric, PlacementPosition, RawAnimationConfig, RawAppConfig, RawConfig, RawDirectory,
    RawPlacementConfig,
};

fn make_raw(apps: Vec<RawAppConfig>) -> RawConfig {
    RawConfig {
        apps,
        log_level: None,
    }
}

fn app(name: &str, hotkey: &str) -> RawAppConfig {
    RawAppConfig {
        name: name.to_string(),
        hotkey: hotkey.to_string(),
        filename: Some("kitty".into()),
        command: None,
        process_name: None,
        window_title: None,
        attach_mode: None,
        arguments: None,
        working_directory: None,
        hide_decorations: None,
        hide_on_focus_lost: None,
        placement: None,
        animation: None,
    }
}

#[test]
fn rejects_duplicate_name() {
    let err = Config::from_raw(make_raw(vec![
        app("terminal", "ctrl+grave"),
        app("terminal", "ctrl+e"),
    ]))
    .unwrap_err();
    assert!(err.message().contains("duplicate app name"));
}

#[test]
fn rejects_duplicate_hotkey() {
    let err = Config::from_raw(make_raw(vec![
        app("terminal", "ctrl+grave"),
        app("files", "ctrl+grave"),
    ]))
    .unwrap_err();
    assert!(err.message().contains("duplicate hotkey"));
}

#[test]
fn rejects_missing_matcher() {
    let mut raw = app("terminal", "ctrl+grave");
    raw.filename = None;
    let err = Config::from_raw(make_raw(vec![raw])).unwrap_err();
    assert!(err.message().contains("at least one of"));
}

#[test]
fn rejects_bad_regex() {
    let mut raw = app("terminal", "ctrl+grave");
    raw.process_name = Some("[".into());
    let err = Config::from_raw(make_raw(vec![raw])).unwrap_err();
    assert!(err.message().contains("invalid process_name regex"));
}

#[test]
fn rejects_relative_working_directory() {
    let mut raw = app("terminal", "ctrl+grave");
    raw.working_directory = Some(RawDirectory {
        path: "relative".into(),
        exists: false,
    });
    let err = Config::from_raw(make_raw(vec![raw])).unwrap_err();
    assert!(err.message().contains("non-absolute working_directory"));
}

#[test]
fn rejects_name_longer_than_sixty_four_characters() {
    let long_name = "a".repeat(65);
    let err = Config::from_raw(make_raw(vec![app(&long_name, "ctrl+grave")])).unwrap_err();
    assert!(err.message().contains("exceeds 64 characters"));
}

#[test]
fn omitted_placement_uses_defaults() {
    let config = Config::from_raw(make_raw(vec![app("terminal", "ctrl+grave")])).unwrap();
    assert_eq!(config.apps[0].placement, PlacementConfig::default());
    assert_eq!(config.apps[0].animation, AnimationConfig::default());
    assert!(!config.apps[0].hide_decorations);
    assert!(!config.apps[0].hide_on_focus_lost);
}

#[test]
fn accepts_hide_decorations_option() {
    let mut raw = app("terminal", "ctrl+grave");
    raw.hide_decorations = Some(true);

    let config = Config::from_raw(make_raw(vec![raw])).unwrap();
    assert!(config.apps[0].hide_decorations);
}

#[test]
fn accepts_hide_on_focus_lost_option() {
    let mut raw = app("terminal", "ctrl+grave");
    raw.hide_on_focus_lost = Some(true);

    let config = Config::from_raw(make_raw(vec![raw])).unwrap();
    assert!(config.apps[0].hide_on_focus_lost);
}

#[test]
fn filename_and_arguments_build_spawn_command() {
    let mut raw = app("terminal", "ctrl+grave");
    raw.arguments = Some(vec!["--single-instance".into()]);

    let config = Config::from_raw(make_raw(vec![raw])).unwrap();
    assert_eq!(
        config.apps[0].command,
        vec!["kitty".to_string(), "--single-instance".to_string()]
    );
}

#[test]
fn explicit_command_overrides_spawn_target() {
    let mut raw = app("browser", "ctrl+b");
    raw.filename = Some("chromium".into());
    raw.command = Some(vec![
        "/usr/bin/flatpak".into(),
        "run".into(),
        "--branch=stable".into(),
        "io.github.ungoogled_software.ungoogled_chromium".into(),
    ]);

    let config = Config::from_raw(make_raw(vec![raw])).unwrap();
    assert_eq!(
        config.apps[0].command,
        vec![
            "/usr/bin/flatpak".to_string(),
            "run".to_string(),
            "--branch=stable".to_string(),
            "io.github.ungoogled_software.ungoogled_chromium".to_string(),
        ]
    );
    assert_eq!(config.apps[0].filename.as_deref(), Some("chromium"));
}

#[test]
fn rejects_empty_command() {
    let mut raw = app("browser", "ctrl+b");
    raw.command = Some(Vec::new());

    let err = Config::from_raw(make_raw(vec![raw])).unwrap_err();
    assert!(err.message().contains("empty command"));
}

#[test]
fn rejects_command_and_arguments_together() {
    let mut raw = app("browser", "ctrl+b");
    raw.command = Some(vec!["/usr/bin/flatpak".into(), "run".into()]);
    raw.arguments = Some(vec!["--verbose".into()]);

    let err = Config::from_raw(make_raw(vec![raw])).unwrap_err();
    assert!(err.message().contains("both command and arguments"));
}

#[test]
fn accepts_percent_and_pixel_metrics() {
    let mut raw = app("terminal", "ctrl+grave");
    raw.placement = Some(RawPlacementConfig {
        width: Some("50%".into()),
        height: Some("640px".into()),
        position: Some("right".into()),
        offset_x: Some("-2%".into()),
        offset_y: Some("16px".into()),
    });

    let config = Config::from_raw(make_raw(vec![raw])).unwrap();
    assert_eq!(config.apps[0].placement.width, PlacementMetric::Percent(50));
    assert_eq!(
        config.apps[0].placement.height,
        PlacementMetric::Pixels(640)
    );
    assert_eq!(config.apps[0].placement.position, PlacementPosition::Right);
    assert_eq!(
        config.apps[0].placement.offset_x,
        PlacementMetric::Percent(-2)
    );
    assert_eq!(
        config.apps[0].placement.offset_y,
        PlacementMetric::Pixels(16)
    );
}

#[test]
fn rejects_malformed_metric() {
    let mut raw = app("terminal", "ctrl+grave");
    raw.placement = Some(RawPlacementConfig {
        width: Some("50".into()),
        height: None,
        position: None,
        offset_x: None,
        offset_y: None,
    });

    let err = Config::from_raw(make_raw(vec![raw])).unwrap_err();
    assert!(err.message().contains("invalid width metric"));
}

#[test]
fn rejects_zero_sized_percent_metric() {
    let mut raw = app("terminal", "ctrl+grave");
    raw.placement = Some(RawPlacementConfig {
        width: Some("0%".into()),
        height: None,
        position: None,
        offset_x: None,
        offset_y: None,
    });

    let err = Config::from_raw(make_raw(vec![raw])).unwrap_err();
    assert!(err.message().contains("non-positive width metric"));
}

#[test]
fn rejects_zero_sized_pixel_metric() {
    let mut raw = app("terminal", "ctrl+grave");
    raw.placement = Some(RawPlacementConfig {
        width: None,
        height: Some("0px".into()),
        position: None,
        offset_x: None,
        offset_y: None,
    });

    let err = Config::from_raw(make_raw(vec![raw])).unwrap_err();
    assert!(err.message().contains("non-positive height metric"));
}

#[test]
fn rejects_unknown_position() {
    let mut raw = app("terminal", "ctrl+grave");
    raw.placement = Some(RawPlacementConfig {
        width: None,
        height: None,
        position: Some("right-half".into()),
        offset_x: None,
        offset_y: None,
    });

    let err = Config::from_raw(make_raw(vec![raw])).unwrap_err();
    assert!(err.message().contains("invalid position"));
}

#[test]
fn accepts_animation_config() {
    let mut raw = app("terminal", "ctrl+grave");
    raw.animation = Some(RawAnimationConfig {
        style: Some("slide-fade".into()),
        easing: Some("ease-in-out".into()),
        duration_ms: Some(220),
    });

    let config = Config::from_raw(make_raw(vec![raw])).unwrap();
    assert_eq!(config.apps[0].animation.style, AnimationStyle::SlideFade);
    assert_eq!(config.apps[0].animation.easing, AnimationEasing::EaseInOut);
    assert_eq!(config.apps[0].animation.duration_ms, 220);
}

#[test]
fn rejects_invalid_animation_style() {
    let mut raw = app("terminal", "ctrl+grave");
    raw.animation = Some(RawAnimationConfig {
        style: Some("bounce".into()),
        easing: None,
        duration_ms: None,
    });

    let err = Config::from_raw(make_raw(vec![raw])).unwrap_err();
    assert!(err.message().contains("invalid animation.style"));
}

#[test]
fn rejects_animation_duration_above_limit() {
    let mut raw = app("terminal", "ctrl+grave");
    raw.animation = Some(RawAnimationConfig {
        style: Some("slide".into()),
        easing: None,
        duration_ms: Some(2_001),
    });

    let err = Config::from_raw(make_raw(vec![raw])).unwrap_err();
    assert!(
        err.message()
            .contains("animation.duration_ms larger than 2000")
    );
}

fn refusal(raw: RawConfig) -> (ConfigErrorKind, String) {
    let err = Config::from_raw(raw).unwrap_err();
    (err.kind, err.message())
}

fn placed(width: &str, offset_x: &str) -> RawConfig {
    let mut raw = app("terminal", "ctrl+grave");
    raw.placement = Some(RawPlacementConfig {
        width: Some(width.into()),
        height: None,
        position: None,
        offset_x: Some(offset_x.into()),
        offset_y: None,
    });
    make_raw(vec![raw])
}

#[test]
fn rejects_configuration_without_apps() {
    assert_eq!(
        refusal(make_raw(Vec::new())),
        (
            ConfigErrorKind::NoApps,
            "config must contain at least one [[app]] entry".to_string()
        )
    );
}

#[test]
fn log_level_is_trimmed_and_lowered() {
    let mut raw = make_raw(vec![app("terminal", "ctrl+grave")]);
    raw.log_level = Some("  WaRn\t".into());
    assert_eq!(Config::from_raw(raw).unwrap().log_level, "warn");
    assert_eq!(
        Config::from_raw(make_raw(vec![app("terminal", "ctrl+grave")]))
            .unwrap()
            .log_level,
        "error"
    );
}

#[test]
fn rejects_unknown_log_level() {
    let mut raw = make_raw(vec![app("terminal", "ctrl+grave")]);
    raw.log_level = Some(" Loud ".into());
    assert_eq!(
        refusal(raw),
        (
            ConfigErrorKind::InvalidLogLevel,
            "invalid log_level 'loud' (expected error/warn/info/debug/trace/off)".to_string()
        )
    );
}

#[test]
fn no_apps_comes_before_log_level() {
    let mut raw = make_raw(Vec::new());
    raw.log_level = Some("loud".into());
    assert_eq!(refusal(raw).0, ConfigErrorKind::NoApps);
}

#[test]
fn rejects_blank_name() {
    assert_eq!(
        refusal(make_raw(vec![app(" \u{3000}\n", "ctrl+grave")])),
        (
            ConfigErrorKind::EmptyName,
            "app name must not be empty".to_string()
        )
    );
}

#[test]
fn names_are_trimmed_before_they_are_compared() {
    let config =
        Config::from_raw(make_raw(vec![app("  terminal ", "ctrl+grave")])).unwrap();
    assert_eq!(config.apps[0].name, "terminal");
    assert_eq!(
        refusal(make_raw(vec![
            app("terminal", "ctrl+grave"),
            app(" terminal", "ctrl+e"),
        ])),
        (
            ConfigErrorKind::DuplicateName,
            "duplicate app name 'terminal'".to_string()
        )
    );
}

#[test]
fn name_length_is_counted_in_characters() {
    for c in ["a", "\u{e9}", "\u{1f600}"] {
        let fits = c.repeat(64);
        assert!(Config::from_raw(make_raw(vec![app(&fits, "ctrl+grave")])).is_ok());
        let long = c.repeat(65);
        assert_eq!(
            refusal(make_raw(vec![app(&long, "ctrl+grave")])),
            (
                ConfigErrorKind::NameTooLong,
                format!("app name '{long}' exceeds 64 characters")
            )
        );
    }
}

#[test]
fn refusals_carry_their_cause() {
    let err = Config::from_raw(make_raw(vec![app("terminal", "hyper+x")])).unwrap_err();
    assert_eq!(
        err.chain(),
        "invalid hotkey for app 'terminal': unknown modifier 'hyper'"
    );

    let mut raw = app("terminal", "ctrl+grave");
    raw.process_name = Some("[".into());
    let err = Config::from_raw(make_raw(vec![raw])).unwrap_err();
    let cause = regex::Regex::new("(?i)[").unwrap_err().to_string();
    assert_eq!(err.cause.as_deref(), Some(cause.as_str()));
    assert_eq!(
        err.chain(),
        format!("app 'terminal' has invalid process_name regex: {cause}")
    );

    for (width, cause) in [
        ("x%", "invalid digit found in string"),
        ("99999999999px", "number too large to fit in target type"),
        ("-99999999999px", "number too small to fit in target type"),
    ] {
        let err = Config::from_raw(placed(width, "0px")).unwrap_err();
        assert_eq!(
            err.chain(),
            format!("app 'terminal' has invalid width metric '{width}': {cause}")
        );
    }

    let err = Config::from_raw(placed("5", "0px")).unwrap_err();
    assert_eq!(err.cause, None);
    assert_eq!(err.chain(), err.message());
}

#[test]
fn rejects_unreadable_hotkey() {
    assert_eq!(
        refusal(make_raw(vec![app("terminal", "hyper+x")])),
        (
            ConfigErrorKind::InvalidHotkey,
            "invalid hotkey for app 'terminal'".to_string()
        )
    );
}

#[test]
fn hotkeys_are_compared_by_their_sequence() {
    assert_eq!(
        refusal(make_raw(vec![
            app("terminal", "ctrl+alt+x"),
            app("files", "Alt + Ctrl + X"),
        ])),
        (
            ConfigErrorKind::DuplicateHotkey,
            "duplicate hotkey 'Alt + Ctrl + X'".to_string()
        )
    );
}

#[test]
fn rejects_unknown_attach_mode() {
    let mut raw = app("terminal", "ctrl+grave");
    raw.attach_mode = Some("Find".into());
    assert_eq!(
        refusal(make_raw(vec![raw])),
        (
            ConfigErrorKind::InvalidAttachMode,
            "app 'terminal' has invalid attach_mode 'Find'".to_string()
        )
    );
}

#[test]
fn rejects_blank_program() {
    let mut raw = app("terminal", "ctrl+grave");
    raw.command = Some(vec![" ".into(), "run".into()]);
    assert_eq!(
        refusal(make_raw(vec![raw])),
        (
            ConfigErrorKind::InvalidProgram,
            "app 'terminal' has invalid command program".to_string()
        )
    );
}

#[test]
fn arguments_alone_make_the_command() {
    let mut raw = app("terminal", "ctrl+grave");
    raw.filename = None;
    raw.window_title = Some("shell".into());
    raw.arguments = Some(vec!["sh".into(), "-c".into()]);
    let config = Config::from_raw(make_raw(vec![raw])).unwrap();
    assert_eq!(config.apps[0].command, vec!["sh".to_string(), "-c".to_string()]);
}

#[test]
fn rejects_bad_title_regex() {
    let mut raw = app("terminal", "ctrl+grave");
    raw.window_title = Some("(".into());
    assert_eq!(
        refusal(make_raw(vec![raw])),
        (
            ConfigErrorKind::InvalidRegex,
            "app 'terminal' has invalid window_title regex".to_string()
        )
    );
}

#[test]
fn expressions_match_in_any_case() {
    let mut raw = app("terminal", "ctrl+grave");
    raw.process_name = Some("^kit+y$".into());
    let config = Config::from_raw(make_raw(vec![raw])).unwrap();
    let re = config.apps[0].process_name.as_ref().unwrap();
    assert_eq!(re.as_str(), "(?i)^kit+y$");
    assert!(re.is_match("KITTTY"));
    assert!(!re.is_match("kitty2"));
}

#[test]
fn metrics_are_refused_one_by_one() {
    for raw in ["", " 5%", "5% ", "5 %", "%", "px", "5", "5pt", "x%", "--5%", "99999999999px"] {
        assert_eq!(refusal(placed(raw, "0px")).0, ConfigErrorKind::InvalidMetric, "{raw}");
    }
    assert_eq!(
        refusal(placed("-1%", "0px")),
        (
            ConfigErrorKind::NonPositiveMetric,
            "app 'terminal' has non-positive width metric '-1%'".to_string()
        )
    );
    assert_eq!(
        refusal(placed("101%", "0px")),
        (
            ConfigErrorKind::PercentTooLarge,
            "app 'terminal' has width percentage larger than 100: '101%'".to_string()
        )
    );
    assert_eq!(
        refusal(placed("100%", "32768%")),
        (
            ConfigErrorKind::OutOfRangeMetric,
            "app 'terminal' has out-of-range offset_x metric '32768%'".to_string()
        )
    );
    assert_eq!(
        refusal(placed("5", "0px")).1,
        "app 'terminal' has invalid width metric '5'"
    );
}

#[test]
fn metrics_keep_their_numbers() {
    let config = Config::from_raw(placed("+100%", "-2147483648px")).unwrap();
    assert_eq!(config.apps[0].placement.width, PlacementMetric::Percent(100));
    assert_eq!(
        config.apps[0].placement.offset_x,
        PlacementMetric::Pixels(i32::MIN)
    );
    let config = Config::from_raw(placed("2147483647px", "-32768%")).unwrap();
    assert_eq!(
        config.apps[0].placement.width,
        PlacementMetric::Pixels(i32::MAX)
    );
    assert_eq!(
        config.apps[0].placement.offset_x,
        PlacementMetric::Percent(i16::MIN)
    );
}

#[test]
fn written_metrics_read_back() {
    for n in [1, 7, 10, 99, 100] {
        let config = Config::from_raw(placed(&format!("{n}%"), &format!("{n}px"))).unwrap();
        assert_eq!(config.apps[0].placement.width, PlacementMetric::Percent(n as i16));
        assert_eq!(config.apps[0].placement.offset_x, PlacementMetric::Pixels(n));
    }
}

#[test]
fn width_is_checked_before_position() {
    let mut raw = app("terminal", "ctrl+grave");
    raw.placement = Some(RawPlacementConfig {
        width: Some("5".into()),
        height: Some("6".into()),
        position: Some("nowhere".into()),
        offset_x: None,
        offset_y: None,
    });
    assert_eq!(
        refusal(make_raw(vec![raw])).1,
        "app 'terminal' has invalid width metric '5'"
    );
}

#[test]
fn empty_placement_and_animation_are_the_defaults() {
    let mut raw = app("terminal", "ctrl+grave");
    raw.placement = Some(RawPlacementConfig {
        width: None,
        height: None,
        position: None,
        offset_x: None,
        offset_y: None,
    });
    raw.animation = Some(RawAnimationConfig {
        style: None,
        easing: None,
        duration_ms: None,
    });
    let config = Config::from_raw(make_raw(vec![raw])).unwrap();
    assert_eq!(config.apps[0].placement, PlacementConfig::default());
    assert_eq!(config.apps[0].animation, AnimationConfig::default());
    assert_eq!(config.apps[0].animation.style, AnimationStyle::Off);
    assert_eq!(config.apps[0].animation.easing, AnimationEasing::EaseOut);
    assert_eq!(config.apps[0].animation.duration_ms, 150);
}

#[test]
fn every_position_has_a_name() {
    let names = [
        ("top-left", PlacementPosition::TopLeft),
        ("top", PlacementPosition::Top),
        ("top-right", PlacementPosition::TopRight),
        ("left", PlacementPosition::Left),
        ("center", PlacementPosition::Center),
        ("right", PlacementPosition::Right),
        ("bottom-left", PlacementPosition::BottomLeft),
        ("bottom", PlacementPosition::Bottom),
        ("bottom-right", PlacementPosition::BottomRight),
    ];
    for (name, position) in names {
        assert_eq!(PlacementPosition::parse("terminal", name).unwrap(), position);
    }
}

#[test]
fn rejects_invalid_animation_easing() {
    let mut raw = app("terminal", "ctrl+grave");
    raw.animation = Some(RawAnimationConfig {
        style: Some("fade".into()),
        easing: Some("bouncy".into()),
        duration_ms: None,
    });
    assert_eq!(
        refusal(make_raw(vec![raw])),
        (
            ConfigErrorKind::InvalidEasing,
            "app 'terminal' has invalid animation.easing 'bouncy'".to_string()
        )
    );
}

#[test]
fn duration_at_the_limit_is_accepted() {
    let mut raw = app("terminal", "ctrl+grave");
    raw.animation = Some(RawAnimationConfig {
        style: Some("none".into()),
        easing: Some("linear".into()),
        duration_ms: Some(2_000),
    });
    let config = Config::from_raw(make_raw(vec![raw])).unwrap();
    assert_eq!(config.apps[0].animation.duration_ms, 2_000);
    assert_eq!(config.apps[0].animation.style, AnimationStyle::Off);
    assert_eq!(config.apps[0].animation.easing, AnimationEasing::Linear);
}

#[test]
fn duration_is_quoted_in_full() {
    let mut raw = app("terminal", "ctrl+grave");
    raw.animation = Some(RawAnimationConfig {
        style: None,
        easing: None,
        duration_ms: Some(65_535),
    });
    assert_eq!(
        refusal(make_raw(vec![raw])).1,
        "app 'terminal' has animation.duration_ms larger than 2000: '65535'"
    );
}

#[test]
fn working_directory_must_exist() {
    let mut raw = app("terminal", "ctrl+grave");
    raw.working_directory = Some(RawDirectory {
        path: "/nowhere".into(),
        exists: false,
    });
    assert_eq!(
        refusal(make_raw(vec![raw])),
        (
            ConfigErrorKind::MissingDirectory,
            "app 'terminal' working_directory does not exist: '/nowhere'".to_string()
        )
    );
    let mut raw = app("terminal", "ctrl+grave");
    raw.working_directory = Some(RawDirectory {
        path: "/tmp".into(),
        exists: true,
    });
    let config = Config::from_raw(make_raw(vec![raw])).unwrap();
    assert_eq!(config.apps[0].working_directory.as_deref(), Some("/tmp"));
}

#[test]
fn first_faulty_app_is_reported() {
    let mut second = app("files", "ctrl+e");
    second.filename = None;
    let mut third = app("browser", "ctrl+b");
    third.command = Some(Vec::new());
    assert_eq!(
        refusal(make_raw(vec![app("terminal", "ctrl+grave"), second, third])),
        (
            ConfigErrorKind::MissingMatcher,
            "app 'files' must set at least one of filename, process_name, or window_title"
                .to_string()
        )
    );
}

#[test]
fn sanitized_name_is_fit_for_an_identifier() {
    let config = Config::from_raw(make_raw(vec![app("My App-2 \u{c9}", "ctrl+grave")])).unwrap();
    assert_eq!(config.apps[0].sanitized_name(), "my_app_2__");
    let again = Config::from_raw(make_raw(vec![app("my_app_2__", "ctrl+grave")])).unwrap();
    assert_eq!(again.apps[0].sanitized_name(), "my_app_2__");
}

#[test]
fn clone_is_configured_alike() {
    let mut raw = app("terminal", "ctrl+grave");
    raw.process_name = Some("kitty".into());
    raw.arguments = Some(vec!["-1".into()]);
    let config = Config::from_raw(make_raw(vec![raw])).unwrap();
    let copy = config.clone();
    assert_eq!(copy.log_level, config.log_level);
    assert_eq!(copy.apps.len(), 1);
    assert_eq!(copy.apps[0].name, "terminal");
    assert_eq!(copy.apps[0].hotkey.raw(), "ctrl+grave");
    assert_eq!(copy.apps[0].command, config.apps[0].command);
    assert!(copy.apps[0].process_name.as_ref().unwrap().is_match("KITTY"));
}
