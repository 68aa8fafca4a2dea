use plasma_drop::animation::{Opacity, TransitionPhase, TransitionPlan, WindowState};
use plasma_drop::app_registry::{AppRegistry, ManagedApp};
use plasma_drop::config::{
    AnimationConfig, AnimationEasing, AnimationStyle, AppConfig, AttachMode, PlacementConfig,
    PlacementMetric, PlacementPosition,
};
use plasma_drop::hotkey::Hotkey;
use plasma_drop::screen::ScreenInfo;
use plasma_drop::toggle::timing::{claim_spawn_gate, release_spawn_gate};
use plasma_drop::toggle::types::{Action, Command, Event, Progress, ToggleError};
use plasma_drop::toggle::{
    require_app, should_ignore_shortcut, Stamps, ToggleService, HOTKEY_DEBOUNCE_WINDOW,
    SPAWN_GATE_TTL,
};
use plasma_drop::wm::{FrameGeometry, ManagedWindow, Point};

const MILLISECOND: u64 = 1_000_000;

#[test]
fn ignores_repeated_shortcut_within_debounce_window() {
    let now: u64 = 1_000_000_000;
    let mut recent_hotkeys = Stamps::new();

    assert!(!should_ignore_shortcut(&mut recent_hotkeys, "test", now));
    assert!(should_ignore_shortcut(
        &mut recent_hotkeys,
        "test",
        now + 50 * MILLISECOND
    ));
    assert!(!should_ignore_shortcut(
        &mut recent_hotkeys,
        "test",
        now + HOTKEY_DEBOUNCE_WINDOW + 20 * MILLISECOND
    ));
}

#[derive(Default)]
struct MockKWin {
    calls: Vec<String>,
    window: Option<ManagedWindow>,
    active_window: Option<ManagedWindow>,
    cursor_position: Option<Point>,
    windows: Vec<ManagedWindow>,
    support_information: Option<String>,
    plan: Option<TransitionPlan>,
    spawned: Vec<Vec<String>>,
    slept: Vec<u64>,
    lists: u32,
    appears_after: Option<(u32, ManagedWindow)>,
    failing: Option<&'static str>,
    phases: Vec<TransitionPhase>,
}

impl MockKWin {
    fn perform(&mut self, command: Command) {
        let call = match command {
            Command::Move { id, geometry } => format!(
                "move:{id}:{}:{}:{}:{}",
                geometry.x, geometry.y, geometry.width, geometry.height
            ),
            Command::Resize { id, geometry } => format!(
                "resize:{id}:{}:{}:{}:{}",
                geometry.x, geometry.y, geometry.width, geometry.height
            ),
            Command::SetOpacity { id, opacity } => {
                format!("opacity:{id}:{:.3}", f64::from_bits(opacity.bits))
            }
            Command::SetNoBorder { id, no_border } => format!("no_border:{id}:{no_border}"),
            Command::SetMinimized { id, minimized } => format!("minimized:{id}:{minimized}"),
            Command::BringToForeground { id } => format!("foreground:{id}"),
            Command::Pause { milliseconds } => format!("pause:{milliseconds}"),
        };
        self.calls.push(call);
    }

    fn fails(&self, what: &'static str) -> Option<Event> {
        if self.failing == Some(what) {
            Some(Event::Failed(format!("{what} failed")))
        } else {
            None
        }
    }

    fn answer(&mut self, action: Action) -> Event {
        match action {
            Action::SupportInformation => self
                .fails("support")
                .unwrap_or_else(|| Event::SupportInformation(self.support_information.clone())),
            Action::CursorPosition => self
                .fails("cursor")
                .unwrap_or(Event::CursorPosition(self.cursor_position)),
            Action::ActiveWindow => Event::ActiveWindow(self.active_window.clone()),
            Action::Window(_) => Event::Window(self.window.clone()),
            Action::WindowList => {
                if let Some(failed) = self.fails("list") {
                    return failed;
                }
                self.lists += 1;
                if let Some((after, window)) = &self.appears_after {
                    if self.lists > *after {
                        return Event::WindowList(vec![window.clone()]);
                    }
                }
                Event::WindowList(self.windows.clone())
            }
            Action::Plan { phase, .. } => {
                self.phases.push(phase);
                Event::Planned(self.plan.take())
            }
            Action::Perform(commands) => {
                if let Some(failed) = self.fails("perform") {
                    return failed;
                }
                for command in commands {
                    self.perform(command);
                }
                Event::Done
            }
            Action::Spawn(request) => {
                if let Some(failed) = self.fails("spawn") {
                    return failed;
                }
                let mut command = vec![request.program];
                command.extend(request.arguments);
                self.spawned.push(command);
                Event::Done
            }
            Action::Sleep { milliseconds } => {
                self.slept.push(milliseconds);
                Event::Done
            }
        }
    }
}

fn drive(
    service: &mut ToggleService,
    kwin: &mut MockKWin,
    begun: Progress,
    now: u64,
) -> Result<(), ToggleError> {
    let mut progress = begun;
    loop {
        match progress {
            Progress::Over(result) => return result,
            Progress::Ask(action, stage) => {
                let event = kwin.answer(action);
                progress = service.step(stage, event, now);
            }
        }
    }
}

fn toggle(
    service: &mut ToggleService,
    kwin: &mut MockKWin,
    name: &str,
) -> Result<(), ToggleError> {
    let begun = service.toggle_app(name.to_string());
    drive(service, kwin, begun, 1_000)
}

fn focus(
    service: &mut ToggleService,
    kwin: &mut MockKWin,
    active: Option<&str>,
) -> Result<(), ToggleError> {
    let begun = service.handle_active_window_changed(active);
    drive(service, kwin, begun, 1_000)
}

fn restore(service: &mut ToggleService, kwin: &mut MockKWin) -> Result<(), ToggleError> {
    let begun = service.restore_tracked_windows_on_shutdown();
    drive(service, kwin, begun, 1_000)
}

fn app(name: &str, hotkey: &str, filename: &str) -> AppConfig {
    AppConfig {
        name: name.into(),
        hotkey: Hotkey::parse(hotkey).unwrap(),
        filename: Some(filename.into()),
        command: vec![filename.into()],
        process_name: None,
        window_title: None,
        attach_mode: AttachMode::FindOrStart,
        working_directory: None,
        hide_decorations: false,
        hide_on_focus_lost: false,
        placement: PlacementConfig::default(),
        animation: AnimationConfig::default(),
    }
}

fn managed_app(config: AppConfig, tracked_window_id: &str, visible: bool) -> ManagedApp {
    ManagedApp {
        shortcut_id: format!("plasma_drop_hotkey_{}_1", config.sanitized_name()),
        config,
        tracked_window_id: Some(tracked_window_id.into()),
        restore_geometry: None,
        restore_no_border: None,
        visible,
    }
}

fn geometry(x: i32, y: i32, width: i32, height: i32) -> FrameGeometry {
    FrameGeometry {
        x,
        y,
        width,
        height,
    }
}

fn window(
    internal_id: &str,
    identity: &str,
    caption: &str,
    frame_geometry: FrameGeometry,
) -> ManagedWindow {
    ManagedWindow {
        internal_id: internal_id.into(),
        desktop_file_name: identity.into(),
        resource_class: identity.into(),
        resource_name: identity.into(),
        caption: caption.into(),
        frame_geometry,
        no_border: false,
        minimized: false,
    }
}

fn minimized_window(
    internal_id: &str,
    identity: &str,
    caption: &str,
    frame_geometry: FrameGeometry,
) -> ManagedWindow {
    ManagedWindow {
        minimized: true,
        ..window(internal_id, identity, caption, frame_geometry)
    }
}

fn screen() -> ScreenInfo {
    ScreenInfo {
        index: 0,
        name: "screen".into(),
        x: 0,
        y: 0,
        width: 1920,
        height: 1080,
    }
}

fn stacked_screens() -> Vec<ScreenInfo> {
    vec![
        ScreenInfo {
            index: 0,
            name: "main".into(),
            x: 0,
            y: 0,
            width: 1920,
            height: 1080,
        },
        ScreenInfo {
            index: 1,
            name: "top".into(),
            x: 0,
            y: -1080,
            width: 1920,
            height: 1080,
        },
    ]
}

fn divided_stale_screens() -> Vec<ScreenInfo> {
    vec![
        ScreenInfo {
            index: 0,
            name: "main-top".into(),
            x: 0,
            y: 0,
            width: 1920,
            height: 1080,
        },
        ScreenInfo {
            index: 1,
            name: "main-bottom".into(),
            x: 0,
            y: 1080,
            width: 1920,
            height: 120,
        },
    ]
}

fn support_information(screens: &[ScreenInfo]) -> String {
    screens
        .iter()
        .map(|screen| {
            format!(
                "Screen {}:\nName: {}\nGeometry: {},{},{}x{}\n",
                screen.index, screen.name, screen.x, screen.y, screen.width, screen.height
            )
        })
        .collect::<Vec<_>>()
        .join("\n")
}

fn mock_kwin(window: Option<ManagedWindow>) -> MockKWin {
    MockKWin {
        window,
        ..MockKWin::default()
    }
}

#[test]
fn toggle_on_uses_move_resize_foreground_order() {
    let managed = managed_app(app("dolphin", "super+f9", "dolphin"), "{abc}", false);
    let registry = AppRegistry::new(vec![managed]);
    let mut kwin = mock_kwin(Some(minimized_window(
        "{abc}",
        "dolphin",
        "Dolphin",
        geometry(10, 20, 300, 400),
    )));
    let mut service = ToggleService::new(registry, vec![screen()]);

    toggle(&mut service, &mut kwin, "dolphin").unwrap();

    let calls = kwin.calls.clone();
    assert_eq!(
        calls,
        vec![
            "minimized:{abc}:false".to_string(),
            "move:{abc}:0:0:1920:1080".to_string(),
            "resize:{abc}:0:0:1920:1080".to_string(),
            "foreground:{abc}".to_string()
        ]
    );
}

#[test]
fn toggle_on_uses_screen_under_cursor() {
    let managed = managed_app(app("dolphin", "super+f9", "dolphin"), "{abc}", false);
    let registry = AppRegistry::new(vec![managed]);
    let mut kwin = mock_kwin(Some(minimized_window(
        "{abc}",
        "dolphin",
        "Dolphin",
        geometry(10, 20, 300, 400),
    )));
    kwin.cursor_position = Some(Point { x: 500, y: -500 });
    let mut service = ToggleService::new(registry, stacked_screens());

    toggle(&mut service, &mut kwin, "dolphin").unwrap();

    let calls = kwin.calls.clone();
    assert_eq!(
        calls,
        vec![
            "minimized:{abc}:false".to_string(),
            "move:{abc}:0:-1080:1920:1080".to_string(),
            "resize:{abc}:0:-1080:1920:1080".to_string(),
            "foreground:{abc}".to_string()
        ]
    );
}

#[test]
fn toggle_on_refreshes_screens_after_external_display_disconnect() {
    let managed = managed_app(app("dolphin", "super+f9", "dolphin"), "{abc}", false);
    let registry = AppRegistry::new(vec![managed]);
    let mut kwin = mock_kwin(Some(minimized_window(
        "{abc}",
        "dolphin",
        "Dolphin",
        geometry(10, 20, 300, 400),
    )));
    kwin.cursor_position = Some(Point { x: 500, y: 1100 });
    kwin.support_information = Some(support_information(&[ScreenInfo {
        index: 0,
        name: "main".into(),
        x: 0,
        y: 0,
        width: 1920,
        height: 1200,
    }]));
    let mut service = ToggleService::new(registry, divided_stale_screens());

    toggle(&mut service, &mut kwin, "dolphin").unwrap();

    let calls = kwin.calls.clone();
    assert_eq!(
        calls,
        vec![
            "minimized:{abc}:false".to_string(),
            "move:{abc}:0:0:1920:1200".to_string(),
            "resize:{abc}:0:0:1920:1200".to_string(),
            "foreground:{abc}".to_string()
        ]
    );
}

#[test]
fn toggle_on_hides_decorations_when_configured() {
    let mut app = app("dolphin", "super+f9", "dolphin");
    app.hide_decorations = true;
    let managed = managed_app(app, "{abc}", false);
    let registry = AppRegistry::new(vec![managed]);
    let mut kwin = mock_kwin(Some(minimized_window(
        "{abc}",
        "dolphin",
        "Dolphin",
        geometry(10, 20, 300, 400),
    )));
    let mut service = ToggleService::new(registry, vec![screen()]);

    toggle(&mut service, &mut kwin, "dolphin").unwrap();

    let calls = kwin.calls.clone();
    assert_eq!(
        calls,
        vec![
            "minimized:{abc}:false".to_string(),
            "no_border:{abc}:true".to_string(),
            "move:{abc}:0:0:1920:1080".to_string(),
            "resize:{abc}:0:0:1920:1080".to_string(),
            "foreground:{abc}".to_string()
        ]
    );
    let restore_no_border = service
        .registry()
        .managed_app("dolphin")
        .unwrap()
        .restore_no_border;
    assert_eq!(restore_no_border, Some(false));
}

#[test]
fn shutdown_restores_original_decoration_state() {
    let mut app = app("dolphin", "super+f9", "dolphin");
    app.hide_decorations = true;
    let restore_geometry = geometry(10, 20, 300, 400);
    let mut managed = managed_app(app, "{abc}", false);
    managed.restore_geometry = Some(restore_geometry.clone());
    managed.restore_no_border = Some(false);
    let registry = AppRegistry::new(vec![managed]);
    let mut tracked_window = window("{abc}", "dolphin", "Dolphin", restore_geometry);
    tracked_window.no_border = true;
    let mut kwin = mock_kwin(Some(tracked_window));
    let mut service = ToggleService::new(registry, vec![screen()]);

    restore(&mut service, &mut kwin).unwrap();

    let calls = kwin.calls.clone();
    assert_eq!(
        calls,
        vec![
            "minimized:{abc}:false".to_string(),
            "move:{abc}:10:20:300:400".to_string(),
            "resize:{abc}:10:20:300:400".to_string(),
            "no_border:{abc}:false".to_string()
        ]
    );
}

#[test]
fn different_placements_produce_different_rects() {
    fn make_app(name: &str, hotkey: &str, placement: PlacementConfig) -> ManagedApp {
        let mut app = app(name, hotkey, "irrelevant");
        app.placement = placement;
        managed_app(app, &format!("{{{name}}}"), false)
    }

    let left = make_app(
        "left",
        "super+f1",
        PlacementConfig {
            width: PlacementMetric::Percent(50),
            height: PlacementMetric::Percent(100),
            position: PlacementPosition::Left,
            offset_x: PlacementMetric::Pixels(0),
            offset_y: PlacementMetric::Pixels(0),
        },
    );
    let right = make_app(
        "right",
        "super+f2",
        PlacementConfig {
            width: PlacementMetric::Percent(50),
            height: PlacementMetric::Percent(100),
            position: PlacementPosition::Right,
            offset_x: PlacementMetric::Pixels(0),
            offset_y: PlacementMetric::Pixels(0),
        },
    );

    let registry = AppRegistry::new(vec![left, right]);
    let mut kwin = mock_kwin(Some(window(
        "placeholder",
        "irrelevant",
        "irrelevant",
        geometry(0, 0, 100, 100),
    )));
    let mut service = ToggleService::new(registry, vec![screen()]);

    toggle(&mut service, &mut kwin, "left").unwrap();
    toggle(&mut service, &mut kwin, "right").unwrap();

    let calls = kwin.calls.clone();
    let move_lines: Vec<_> = calls
        .iter()
        .filter(|line| line.starts_with("move:"))
        .cloned()
        .collect();
    assert!(move_lines.iter().any(|line| line.contains(":0:0:960:1080")));
    assert!(
        move_lines
            .iter()
            .any(|line| line.contains(":960:0:960:1080"))
    );
}

#[test]
fn toggle_off_uses_computed_hidden_rect() {
    let mut app = app("dolphin", "super+f9", "dolphin");
    app.placement = PlacementConfig {
        width: PlacementMetric::Percent(50),
        height: PlacementMetric::Percent(100),
        position: PlacementPosition::Right,
        offset_x: PlacementMetric::Pixels(0),
        offset_y: PlacementMetric::Pixels(0),
    };
    let managed = managed_app(app, "{abc}", true);
    let registry = AppRegistry::new(vec![managed]);
    let mut kwin = mock_kwin(Some(window(
        "{abc}",
        "dolphin",
        "Dolphin",
        geometry(10, 20, 300, 400),
    )));
    let mut service = ToggleService::new(registry, vec![screen()]);

    toggle(&mut service, &mut kwin, "dolphin").unwrap();

    let calls = kwin.calls.clone();
    assert_eq!(
        calls,
        vec![
            "resize:{abc}:960:-1080:960:1080".to_string(),
            "move:{abc}:960:-1080:960:1080".to_string(),
            "minimized:{abc}:true".to_string(),
            "move:{abc}:960:0:960:1080".to_string(),
            "resize:{abc}:960:0:960:1080".to_string()
        ]
    );
}

#[test]
fn toggle_off_resizes_before_parking_from_taller_screen() {
    let mut app = app("dolphin", "super+f9", "dolphin");
    app.placement = PlacementConfig {
        width: PlacementMetric::Percent(50),
        height: PlacementMetric::Percent(100),
        position: PlacementPosition::Right,
        offset_x: PlacementMetric::Pixels(0),
        offset_y: PlacementMetric::Pixels(0),
    };
    let managed = managed_app(app, "{abc}", true);
    let registry = AppRegistry::new(vec![managed]);
    let mut kwin = mock_kwin(Some(window(
        "{abc}",
        "dolphin",
        "Dolphin",
        geometry(960, 0, 960, 1200),
    )));
    let mut service = ToggleService::new(registry, vec![screen()]);

    toggle(&mut service, &mut kwin, "dolphin").unwrap();

    let calls = kwin.calls.clone();
    assert_eq!(
        calls,
        vec![
            "resize:{abc}:960:-1080:960:1080".to_string(),
            "move:{abc}:960:-1080:960:1080".to_string(),
            "minimized:{abc}:true".to_string(),
            "move:{abc}:960:0:960:1080".to_string(),
            "resize:{abc}:960:0:960:1080".to_string()
        ]
    );
}

#[test]
fn toggle_off_parks_above_all_stacked_screens() {
    let mut app = app("dolphin", "super+f9", "dolphin");
    app.placement = PlacementConfig {
        width: PlacementMetric::Percent(50),
        height: PlacementMetric::Percent(100),
        position: PlacementPosition::Right,
        offset_x: PlacementMetric::Pixels(0),
        offset_y: PlacementMetric::Pixels(0),
    };
    let managed = managed_app(app, "{abc}", true);
    let registry = AppRegistry::new(vec![managed]);
    let mut kwin = mock_kwin(Some(window(
        "{abc}",
        "dolphin",
        "Dolphin",
        geometry(960, 0, 960, 1080),
    )));
    let mut service = ToggleService::new(registry, stacked_screens());

    toggle(&mut service, &mut kwin, "dolphin").unwrap();

    let calls = kwin.calls.clone();
    assert_eq!(
        calls,
        vec![
            "resize:{abc}:960:-2160:960:1080".to_string(),
            "move:{abc}:960:-2160:960:1080".to_string(),
            "minimized:{abc}:true".to_string(),
            "move:{abc}:960:0:960:1080".to_string(),
            "resize:{abc}:960:0:960:1080".to_string()
        ]
    );
}

#[test]
fn toggle_on_falls_back_to_active_window_screen() {
    let managed = managed_app(app("dolphin", "super+f9", "dolphin"), "{abc}", false);
    let registry = AppRegistry::new(vec![managed]);
    let mut kwin = mock_kwin(Some(minimized_window(
        "{abc}",
        "dolphin",
        "Dolphin",
        geometry(10, 20, 300, 400),
    )));
    kwin.active_window = Some(window(
        "{active}",
        "konsole",
        "Konsole",
        geometry(100, -1000, 900, 700),
    ));
    let mut service = ToggleService::new(registry, stacked_screens());

    toggle(&mut service, &mut kwin, "dolphin").unwrap();

    let calls = kwin.calls.clone();
    assert_eq!(
        calls,
        vec![
            "minimized:{abc}:false".to_string(),
            "move:{abc}:0:-1080:1920:1080".to_string(),
            "resize:{abc}:0:-1080:1920:1080".to_string(),
            "foreground:{abc}".to_string()
        ]
    );
}

#[test]
fn toggle_off_recovers_when_tracked_window_id_is_stale() {
    let mut app = app(
        "chromium-flatpak",
        "super+f6",
        "io.github.ungoogled_software.ungoogled_chromium",
    );
    app.command = vec!["/usr/bin/flatpak".into(), "run".into()];
    app.placement = PlacementConfig {
        width: PlacementMetric::Percent(50),
        height: PlacementMetric::Percent(100),
        position: PlacementPosition::Left,
        offset_x: PlacementMetric::Pixels(0),
        offset_y: PlacementMetric::Pixels(0),
    };
    let managed = managed_app(app, "{stale}", true);
    let registry = AppRegistry::new(vec![managed]);
    let mut current_window = window(
        "{fresh}",
        "chromium",
        "Ungoogled Chromium",
        geometry(0, 0, 960, 1080),
    );
    current_window.desktop_file_name = "io.github.ungoogled_software.ungoogled_chromium".into();
    let mut kwin = MockKWin {
        calls: Vec::new(),
        window: None,
        active_window: None,
        cursor_position: None,
        windows: vec![current_window],
        support_information: None,
        ..MockKWin::default()
    };
    let mut service = ToggleService::new(registry, vec![screen()]);

    toggle(&mut service, &mut kwin, "chromium-flatpak").unwrap();

    let calls = kwin.calls.clone();
    assert_eq!(
        calls,
        vec![
            "resize:{fresh}:0:-1080:960:1080".to_string(),
            "move:{fresh}:0:-1080:960:1080".to_string(),
            "minimized:{fresh}:true".to_string(),
            "move:{fresh}:0:0:960:1080".to_string(),
            "resize:{fresh}:0:0:960:1080".to_string()
        ]
    );
    let known = service
        .registry()
        .managed_app("chromium-flatpak")
        .unwrap()
        .tracked_window_id
        .clone();
    assert_eq!(known.as_deref(), Some("{fresh}"));
}

#[test]
fn externally_closed_visible_app_is_treated_as_not_visible() {
    let mut app = app("terminal", "super+f6", "kitty");
    app.attach_mode = AttachMode::Find;
    let managed = managed_app(app, "{stale}", true);
    let registry = AppRegistry::new(vec![managed]);
    let mut kwin = MockKWin {
        calls: Vec::new(),
        window: None,
        active_window: None,
        cursor_position: None,
        windows: Vec::new(),
        support_information: None,
        ..MockKWin::default()
    };
    let mut service = ToggleService::new(registry, vec![screen()]);

    let err = toggle(&mut service, &mut kwin, "terminal").unwrap_err();
    assert!(
        err.message()
            .contains("no existing window matched app 'terminal'")
    );

    let app = service.registry().managed_app("terminal").unwrap();
    assert!(!app.visible);
    assert_eq!(app.tracked_window_id, None);
}

#[test]
fn toggle_shows_app_minimized_externally_via_taskbar() {
    let managed = managed_app(app("dolphin", "super+f9", "dolphin"), "{abc}", true);
    let registry = AppRegistry::new(vec![managed]);
    let mut kwin = mock_kwin(Some(minimized_window(
        "{abc}",
        "dolphin",
        "Dolphin",
        geometry(0, 0, 1920, 1080),
    )));
    let mut service = ToggleService::new(registry, vec![screen()]);

    toggle(&mut service, &mut kwin, "dolphin").unwrap();

    let calls = kwin.calls.clone();
    assert_eq!(
        calls,
        vec![
            "minimized:{abc}:false".to_string(),
            "move:{abc}:0:0:1920:1080".to_string(),
            "resize:{abc}:0:0:1920:1080".to_string(),
            "foreground:{abc}".to_string()
        ]
    );
    assert!(service
        .registry()
        .managed_app("dolphin").unwrap().visible);
}

#[test]
fn toggle_hides_app_restored_externally_via_taskbar() {
    let managed = managed_app(app("dolphin", "super+f9", "dolphin"), "{abc}", false);
    let registry = AppRegistry::new(vec![managed]);
    let mut kwin = mock_kwin(Some(window(
        "{abc}",
        "dolphin",
        "Dolphin",
        geometry(0, 0, 1920, 1080),
    )));
    let mut service = ToggleService::new(registry, vec![screen()]);

    toggle(&mut service, &mut kwin, "dolphin").unwrap();

    let calls = kwin.calls.clone();
    assert_eq!(
        calls,
        vec![
            "resize:{abc}:0:-1080:1920:1080".to_string(),
            "move:{abc}:0:-1080:1920:1080".to_string(),
            "minimized:{abc}:true".to_string(),
            "move:{abc}:0:0:1920:1080".to_string(),
            "resize:{abc}:0:0:1920:1080".to_string()
        ]
    );
    assert!(!service
        .registry()
        .managed_app("dolphin").unwrap().visible);
}

#[test]
fn active_window_change_hides_app_when_enabled_and_focus_moves_away() {
    let mut config = app("dolphin", "super+f9", "dolphin");
    config.hide_on_focus_lost = true;
    let managed = managed_app(config, "{abc}", true);
    let mut registry = AppRegistry::new(vec![managed]);
    registry.set_visible(&"dolphin".to_string(), true);
    let mut kwin = mock_kwin(Some(window(
        "{abc}",
        "dolphin",
        "Dolphin",
        geometry(0, 0, 1920, 1080),
    )));
    let mut service = ToggleService::new(registry, vec![screen()]);

    focus(&mut service, &mut kwin, Some("{other}")).unwrap();

    let calls = kwin.calls.clone();
    assert_eq!(
        calls,
        vec![
            "resize:{abc}:0:-1080:1920:1080".to_string(),
            "move:{abc}:0:-1080:1920:1080".to_string(),
            "minimized:{abc}:true".to_string(),
            "move:{abc}:0:0:1920:1080".to_string(),
            "resize:{abc}:0:0:1920:1080".to_string()
        ]
    );
    assert!(!service
        .registry()
        .managed_app("dolphin").unwrap().visible);
}

#[test]
fn active_window_change_hides_app_when_nothing_is_focused() {
    let mut config = app("dolphin", "super+f9", "dolphin");
    config.hide_on_focus_lost = true;
    let managed = managed_app(config, "{abc}", true);
    let mut registry = AppRegistry::new(vec![managed]);
    registry.set_visible(&"dolphin".to_string(), true);
    let mut kwin = mock_kwin(Some(window(
        "{abc}",
        "dolphin",
        "Dolphin",
        geometry(0, 0, 1920, 1080),
    )));
    let mut service = ToggleService::new(registry, vec![screen()]);

    focus(&mut service, &mut kwin, None).unwrap();

    assert!(!service
        .registry()
        .managed_app("dolphin").unwrap().visible);
}

#[test]
fn active_window_change_ignores_own_window_becoming_active() {
    let mut config = app("dolphin", "super+f9", "dolphin");
    config.hide_on_focus_lost = true;
    let managed = managed_app(config, "{abc}", true);
    let mut registry = AppRegistry::new(vec![managed]);
    registry.set_visible(&"dolphin".to_string(), true);
    let mut kwin = mock_kwin(Some(window(
        "{abc}",
        "dolphin",
        "Dolphin",
        geometry(0, 0, 1920, 1080),
    )));
    let mut service = ToggleService::new(registry, vec![screen()]);

    focus(&mut service, &mut kwin, Some("{abc}")).unwrap();

    assert!(kwin.calls.is_empty());
    assert!(service
        .registry()
        .managed_app("dolphin").unwrap().visible);
}

#[test]
fn active_window_change_does_nothing_when_disabled() {
    let managed = managed_app(app("dolphin", "super+f9", "dolphin"), "{abc}", true);
    let mut registry = AppRegistry::new(vec![managed]);
    registry.set_visible(&"dolphin".to_string(), true);
    let mut kwin = mock_kwin(Some(window(
        "{abc}",
        "dolphin",
        "Dolphin",
        geometry(0, 0, 1920, 1080),
    )));
    let mut service = ToggleService::new(registry, vec![screen()]);

    focus(&mut service, &mut kwin, Some("{other}")).unwrap();

    assert!(kwin.calls.is_empty());
    assert!(service
        .registry()
        .managed_app("dolphin").unwrap().visible);
}

#[test]
fn active_window_change_does_nothing_when_no_app_is_visible() {
    let managed = managed_app(app("dolphin", "super+f9", "dolphin"), "{abc}", false);
    let registry = AppRegistry::new(vec![managed]);
    let mut kwin = mock_kwin(Some(window(
        "{abc}",
        "dolphin",
        "Dolphin",
        geometry(0, 0, 1920, 1080),
    )));
    let mut service = ToggleService::new(registry, vec![screen()]);

    focus(&mut service, &mut kwin, Some("{other}")).unwrap();

    assert!(kwin.calls.is_empty());
}

fn named<'a>(service: &'a ToggleService, name: &str) -> &'a ManagedApp {
    service.registry().managed_app(name).unwrap()
}

#[test]
fn unknown_names_and_shortcuts_are_reported() {
    let managed = managed_app(app("dolphin", "super+f9", "dolphin"), "{abc}", false);
    let mut service = ToggleService::new(AppRegistry::new(vec![managed]), vec![screen()]);
    let mut kwin = mock_kwin(None);
    let err = toggle(&mut service, &mut kwin, "konsole").unwrap_err();
    assert_eq!(err, ToggleError::UnknownApp("konsole".into()));
    assert_eq!(err.message(), "unknown app 'konsole'");
    match service.handle_shortcut("nothing".into(), 5) {
        Progress::Over(Err(err)) => assert_eq!(err.message(), "unknown shortcut 'nothing'"),
        other => panic!("{other:?}"),
    }
    assert_eq!(
        require_app(service.registry(), &"konsole".to_string()).unwrap_err(),
        ToggleError::UnknownApp("konsole".into())
    );
    assert_eq!(
        require_app(service.registry(), &"dolphin".to_string())
            .unwrap()
            .config
            .name,
        "dolphin"
    );
}

#[test]
fn hotkey_toggles_its_app_once_within_the_window() {
    let one = managed_app(app("one", "super+f1", "one"), "{one}", true);
    let two = managed_app(app("two", "super+f2", "two"), "{two}", true);
    let id = two.shortcut_id.clone();
    let mut service = ToggleService::new(AppRegistry::new(vec![one, two]), vec![screen()]);
    match service.handle_shortcut(id.clone(), 7) {
        Progress::Ask(Action::Window(window), _) => assert_eq!(window, "{two}"),
        other => panic!("{other:?}"),
    }
    match service.handle_shortcut(id.clone(), 7 + HOTKEY_DEBOUNCE_WINDOW) {
        Progress::Over(Ok(())) => {}
        other => panic!("{other:?}"),
    }
    match service.handle_shortcut(id, 8 + HOTKEY_DEBOUNCE_WINDOW) {
        Progress::Ask(Action::Window(window), _) => assert_eq!(window, "{two}"),
        other => panic!("{other:?}"),
    }
}

#[test]
fn presses_of_different_hotkeys_do_not_disturb_each_other() {
    let mut stamps = Stamps::new();
    assert!(!should_ignore_shortcut(&mut stamps, "a", 100));
    assert!(!should_ignore_shortcut(&mut stamps, "b", 200));
    assert!(should_ignore_shortcut(&mut stamps, "a", 300));
    assert_eq!(stamps.get("a"), Some(100));
    assert_eq!(stamps.get("b"), Some(200));
    assert!(!should_ignore_shortcut(
        &mut stamps,
        "a",
        101 + HOTKEY_DEBOUNCE_WINDOW
    ));
    assert_eq!(stamps.get("b"), Some(200));
    assert!(!should_ignore_shortcut(
        &mut stamps,
        "c",
        201 + HOTKEY_DEBOUNCE_WINDOW
    ));
    assert_eq!(stamps.get("b"), None);
}

#[test]
fn other_app_is_hidden_before_one_is_shown() {
    let one = managed_app(app("one", "super+f1", "one"), "{one}", true);
    let mut two = managed_app(app("two", "super+f2", "two"), "{two}", false);
    two.tracked_window_id = None;
    let mut registry = AppRegistry::new(vec![one, two]);
    registry.set_visible(&"one".to_string(), true);
    let mut service = ToggleService::new(registry, vec![screen()]);
    let mut kwin = mock_kwin(Some(window("{one}", "one", "One", geometry(0, 0, 10, 10))));
    kwin.windows = vec![minimized_window("{two}", "two", "Two", geometry(1, 2, 3, 4))];
    let begun = service.toggle_app("two".to_string());
    let mut progress = begun;
    loop {
        match progress {
            Progress::Over(result) => {
                result.unwrap();
                break;
            }
            Progress::Ask(action, stage) => {
                let event = match action {
                    Action::Window(id) if id == "{two}" => {
                        Event::Window(kwin.windows.first().cloned())
                    }
                    other => kwin.answer(other),
                };
                progress = service.step(stage, event, 1);
            }
        }
    }
    assert_eq!(
        kwin.calls,
        vec![
            "resize:{one}:0:-1080:1920:1080",
            "move:{one}:0:-1080:1920:1080",
            "minimized:{one}:true",
            "move:{one}:0:0:1920:1080",
            "resize:{one}:0:0:1920:1080",
            "minimized:{two}:false",
            "move:{two}:0:0:1920:1080",
            "resize:{two}:0:0:1920:1080",
            "foreground:{two}",
        ]
    );
    assert!(!named(&service, "one").visible);
    assert!(named(&service, "two").visible);
    assert_eq!(
        service.registry().currently_visible_name().map(String::as_str),
        Some("two")
    );
    assert_eq!(named(&service, "two").restore_geometry, Some(geometry(1, 2, 3, 4)));
}

#[test]
fn app_without_window_is_started_and_waited_for() {
    let mut managed = managed_app(app("terminal", "super+f6", "kitty"), "{gone}", false);
    managed.config.command = vec!["kitty".into(), "--single-instance".into()];
    let mut service = ToggleService::new(AppRegistry::new(vec![managed]), vec![screen()]);
    let mut kwin = mock_kwin(None);
    kwin.appears_after = Some((4, window("{new}", "kitty", "Kitty", geometry(5, 6, 7, 8))));
    toggle(&mut service, &mut kwin, "terminal").unwrap();
    assert_eq!(kwin.spawned, vec![vec!["kitty", "--single-instance"]]);
    assert_eq!(kwin.slept, vec![250, 250, 250]);
    assert_eq!(
        kwin.calls,
        vec![
            "minimized:{new}:false",
            "move:{new}:0:0:1920:1080",
            "resize:{new}:0:0:1920:1080",
            "foreground:{new}",
        ]
    );
    let app = named(&service, "terminal");
    assert_eq!(app.tracked_window_id.as_deref(), Some("{new}"));
    assert_eq!(app.restore_geometry, Some(geometry(5, 6, 7, 8)));
}

#[test]
fn waiting_for_a_window_ends() {
    let managed = managed_app(app("terminal", "super+f6", "kitty"), "{gone}", false);
    let mut service = ToggleService::new(AppRegistry::new(vec![managed]), vec![screen()]);
    let mut kwin = mock_kwin(None);
    let err = toggle(&mut service, &mut kwin, "terminal").unwrap_err();
    assert_eq!(
        err.message(),
        "spawned app 'terminal' but no matching window appeared"
    );
    assert_eq!(kwin.slept.len(), 40);
    assert_eq!(kwin.spawned.len(), 1);
    toggle(&mut service, &mut kwin, "terminal").unwrap_err();
    assert_eq!(kwin.spawned.len(), 2);
}

#[test]
fn app_is_not_started_while_it_is_being_started() {
    let managed = managed_app(app("terminal", "super+f6", "kitty"), "{gone}", false);
    let mut service = ToggleService::new(AppRegistry::new(vec![managed]), vec![screen()]);
    let mut kwin = mock_kwin(None);
    let mut progress = service.toggle_app("terminal".to_string());
    let stage = loop {
        match progress {
            Progress::Ask(Action::Spawn(_), stage) => break stage,
            Progress::Ask(action, stage) => {
                let event = kwin.answer(action);
                progress = service.step(stage, event, 100);
            }
            Progress::Over(result) => panic!("{result:?}"),
        }
    };
    let begun = service.toggle_app("terminal".to_string());
    let err = drive(&mut service, &mut kwin, begun, 99 + SPAWN_GATE_TTL).unwrap_err();
    assert_eq!(err, ToggleError::NeverAppeared("terminal".into()));
    assert!(kwin.spawned.is_empty());
    let begun = service.toggle_app("terminal".to_string());
    drive(&mut service, &mut kwin, begun, 100 + SPAWN_GATE_TTL).unwrap_err();
    assert_eq!(kwin.spawned.len(), 1);
    match service.step(stage, Event::Done, 100 + SPAWN_GATE_TTL) {
        Progress::Ask(Action::Sleep { milliseconds }, _) => assert_eq!(milliseconds, 250),
        other => panic!("{other:?}"),
    }
}

#[test]
fn failed_start_is_reported_and_may_be_tried_again() {
    let managed = managed_app(app("terminal", "super+f6", "kitty"), "{gone}", false);
    let mut service = ToggleService::new(AppRegistry::new(vec![managed]), vec![screen()]);
    let mut kwin = mock_kwin(None);
    kwin.failing = Some("spawn");
    let err = toggle(&mut service, &mut kwin, "terminal").unwrap_err();
    assert_eq!(err, ToggleError::Outside("spawn failed".into()));
    assert_eq!(err.message(), "spawn failed");
    assert_eq!(err.chain(), "spawn failed");
    kwin.failing = None;
    toggle(&mut service, &mut kwin, "terminal").unwrap_err();
    assert_eq!(kwin.spawned.len(), 1);
}

#[test]
fn app_without_command_cannot_be_started() {
    let mut managed = managed_app(app("terminal", "super+f6", "kitty"), "{gone}", false);
    managed.config.command = Vec::new();
    let mut service = ToggleService::new(AppRegistry::new(vec![managed]), vec![screen()]);
    let mut kwin = mock_kwin(None);
    for _ in 0..2 {
        let err = toggle(&mut service, &mut kwin, "terminal").unwrap_err();
        assert_eq!(
            err.message(),
            "app 'terminal' cannot spawn without filename or command"
        );
    }
}

#[test]
fn placement_that_does_not_fit_is_refused() {
    let mut managed = managed_app(app("dolphin", "super+f9", "dolphin"), "{abc}", false);
    managed.config.placement.width = PlacementMetric::Pixels(1921);
    let mut service = ToggleService::new(AppRegistry::new(vec![managed]), vec![screen()]);
    let mut kwin = mock_kwin(Some(minimized_window(
        "{abc}",
        "dolphin",
        "Dolphin",
        geometry(0, 0, 1, 1),
    )));
    let err = toggle(&mut service, &mut kwin, "dolphin").unwrap_err();
    assert_eq!(err.message(), "invalid placement for 'dolphin'");
    assert_eq!(
        err.chain(),
        "invalid placement for 'dolphin': the window is wider than the screen"
    );
    assert!(kwin.calls.is_empty());
}

#[test]
fn failures_end_a_task_and_change_no_app() {
    for failing in ["cursor", "list", "perform"] {
        let mut managed = managed_app(app("dolphin", "super+f9", "dolphin"), "{abc}", false);
        managed.tracked_window_id = None;
        let mut service = ToggleService::new(AppRegistry::new(vec![managed]), vec![screen()]);
        let mut kwin = mock_kwin(None);
        kwin.windows = vec![minimized_window(
            "{abc}",
            "dolphin",
            "Dolphin",
            geometry(0, 0, 1, 1),
        )];
        kwin.window = kwin.windows.first().cloned();
        kwin.failing = Some(failing);
        let err = toggle(&mut service, &mut kwin, "dolphin").unwrap_err();
        assert_eq!(err.message(), format!("{failing} failed"));
        assert!(!named(&service, "dolphin").visible);
        assert_eq!(named(&service, "dolphin").restore_geometry, None);
    }
}

#[test]
fn screens_that_cannot_be_fetched_or_read_stay_as_they_were() {
    for (failing, information) in [
        (Some("support"), None),
        (None, None),
        (None, Some("nothing of use".to_string())),
        (None, Some("Screen 0:\nGeometry: 1,2,3\n".to_string())),
    ] {
        let managed = managed_app(app("dolphin", "super+f9", "dolphin"), "{abc}", true);
        let mut service = ToggleService::new(AppRegistry::new(vec![managed]), vec![screen()]);
        let mut kwin = mock_kwin(Some(window(
            "{abc}",
            "dolphin",
            "Dolphin",
            geometry(0, 0, 1920, 1080),
        )));
        kwin.failing = failing;
        kwin.support_information = information;
        toggle(&mut service, &mut kwin, "dolphin").unwrap();
        assert_eq!(kwin.calls[0], "resize:{abc}:0:-1080:1920:1080");
    }
}

#[test]
fn answer_to_another_question_ends_a_task() {
    let managed = managed_app(app("dolphin", "super+f9", "dolphin"), "{abc}", true);
    let mut service = ToggleService::new(AppRegistry::new(vec![managed]), vec![screen()]);
    match service.toggle_app("dolphin".to_string()) {
        Progress::Ask(_, stage) => match service.step(stage, Event::Done, 0) {
            Progress::Over(Err(err)) => {
                assert_eq!(err, ToggleError::Unexpected);
                assert_eq!(err.message(), "unexpected reply");
            }
            other => panic!("{other:?}"),
        },
        other => panic!("{other:?}"),
    }
}

#[test]
fn animation_is_run_frame_by_frame() {
    let mut managed = managed_app(app("dolphin", "super+f9", "dolphin"), "{abc}", false);
    managed.config.animation = AnimationConfig {
        style: AnimationStyle::SlideFade,
        easing: AnimationEasing::Linear,
        duration_ms: 32,
    };
    managed.config.hide_decorations = true;
    let mut service = ToggleService::new(AppRegistry::new(vec![managed]), vec![screen()]);
    let mut kwin = mock_kwin(Some(minimized_window(
        "{abc}",
        "dolphin",
        "Dolphin",
        geometry(0, 0, 1, 1),
    )));
    let at = |y: i32, opacity: f64| WindowState {
        geometry: Some(geometry(0, y, 10, 10)),
        opacity: Some(Opacity {
            bits: opacity.to_bits(),
        }),
    };
    let plan = || TransitionPlan {
        setup: at(-10, 0.0),
        frames: vec![at(-5, 0.5), at(0, 1.0)],
        last: at(0, 1.0),
        teardown: WindowState {
            geometry: None,
            opacity: Some(Opacity {
                bits: 1.0_f64.to_bits(),
            }),
        },
    };
    kwin.plan = Some(plan());
    toggle(&mut service, &mut kwin, "dolphin").unwrap();
    assert_eq!(
        kwin.calls,
        vec![
            "move:{abc}:0:-10:10:10",
            "resize:{abc}:0:-10:10:10",
            "opacity:{abc}:0.000",
            "minimized:{abc}:false",
            "no_border:{abc}:true",
            "foreground:{abc}",
            "move:{abc}:0:-5:10:10",
            "resize:{abc}:0:-5:10:10",
            "opacity:{abc}:0.500",
            "pause:16",
            "move:{abc}:0:0:10:10",
            "resize:{abc}:0:0:10:10",
            "opacity:{abc}:1.000",
            "move:{abc}:0:0:10:10",
            "resize:{abc}:0:0:10:10",
            "opacity:{abc}:1.000",
            "opacity:{abc}:1.000",
        ]
    );
    assert_eq!(kwin.phases, vec![TransitionPhase::Show]);
    kwin.calls.clear();
    kwin.window = Some(window("{abc}", "dolphin", "Dolphin", geometry(0, 0, 10, 10)));
    kwin.plan = Some(plan());
    toggle(&mut service, &mut kwin, "dolphin").unwrap();
    assert_eq!(kwin.phases, vec![TransitionPhase::Show, TransitionPhase::Hide]);
    assert_eq!(kwin.calls.len(), 17);
    assert_eq!(
        kwin.calls[14..],
        [
            "minimized:{abc}:true",
            "move:{abc}:0:0:1920:1080",
            "resize:{abc}:0:0:1920:1080",
        ]
    );
}

#[test]
fn first_geometry_and_border_are_remembered() {
    let mut managed = managed_app(app("dolphin", "super+f9", "dolphin"), "{abc}", false);
    managed.config.hide_decorations = true;
    let mut service = ToggleService::new(AppRegistry::new(vec![managed]), vec![screen()]);
    let mut kwin = mock_kwin(Some(minimized_window(
        "{abc}",
        "dolphin",
        "Dolphin",
        geometry(10, 20, 300, 400),
    )));
    toggle(&mut service, &mut kwin, "dolphin").unwrap();
    let mut moved = window("{abc}", "dolphin", "Dolphin", geometry(0, 0, 1920, 1080));
    moved.no_border = true;
    kwin.window = Some(moved);
    toggle(&mut service, &mut kwin, "dolphin").unwrap();
    assert!(!named(&service, "dolphin").visible);
    let mut parked = minimized_window("{abc}", "dolphin", "Dolphin", geometry(0, 0, 1920, 1080));
    parked.no_border = true;
    kwin.window = Some(parked);
    toggle(&mut service, &mut kwin, "dolphin").unwrap();
    let app = named(&service, "dolphin");
    assert!(app.visible);
    assert_eq!(app.restore_geometry, Some(geometry(10, 20, 300, 400)));
    assert_eq!(app.restore_no_border, Some(false));
    kwin.calls.clear();
    restore(&mut service, &mut kwin).unwrap();
    assert_eq!(
        kwin.calls,
        vec![
            "move:{abc}:10:20:300:400",
            "resize:{abc}:10:20:300:400",
            "no_border:{abc}:false",
        ]
    );
}

#[test]
fn shutdown_passes_over_windows_that_are_gone() {
    let one = managed_app(app("one", "super+f1", "one"), "{one}", false);
    let two = managed_app(app("two", "super+f2", "two"), "{two}", false);
    let mut three = managed_app(app("three", "super+f3", "three"), "{three}", false);
    three.tracked_window_id = None;
    let service = ToggleService::new(AppRegistry::new(vec![one, three, two]), vec![screen()]);
    let mut service = service;
    let mut asked = Vec::new();
    let mut calls = Vec::new();
    let mut progress = service.restore_tracked_windows_on_shutdown();
    loop {
        match progress {
            Progress::Over(result) => {
                result.unwrap();
                break;
            }
            Progress::Ask(action, stage) => {
                let event = match action {
                    Action::Window(id) => {
                        asked.push(id.clone());
                        Event::Window((id == "{two}").then_some(window(
                            "{two}",
                            "two",
                            "Two",
                            geometry(0, 0, 1, 1),
                        )))
                    }
                    Action::Perform(commands) => {
                        calls.extend(commands);
                        Event::Done
                    }
                    other => panic!("{other:?}"),
                };
                progress = service.step(stage, event, 0);
            }
        }
    }
    assert_eq!(asked, vec!["{one}", "{two}"]);
    assert_eq!(
        calls,
        vec![Command::SetMinimized {
            id: "{two}".into(),
            minimized: false
        }]
    );
}

#[test]
fn window_on_two_screens_belongs_to_the_one_it_covers_most() {
    let left = screen();
    let right = ScreenInfo {
        index: 1,
        name: "right".into(),
        x: 1920,
        ..screen()
    };
    for (x, wanted) in [(1000, 0), (1500, 1920), (5000, 1920), (1420, 1920)] {
        let managed = managed_app(app("dolphin", "super+f9", "dolphin"), "{abc}", true);
        let mut service = ToggleService::new(
            AppRegistry::new(vec![managed]),
            vec![left.clone(), right.clone()],
        );
        let mut kwin = mock_kwin(Some(window(
            "{abc}",
            "dolphin",
            "Dolphin",
            geometry(x, 0, 1000, 500),
        )));
        toggle(&mut service, &mut kwin, "dolphin").unwrap();
        assert_eq!(kwin.calls[3], format!("move:{{abc}}:{wanted}:0:1920:1080"));
    }
}

#[test]
fn starts_of_different_apps_do_not_disturb_each_other() {
    let mut pending = Stamps::new();
    assert!(claim_spawn_gate(&mut pending, "a", 100));
    assert!(claim_spawn_gate(&mut pending, "b", 200));
    assert!(!claim_spawn_gate(&mut pending, "a", 99 + SPAWN_GATE_TTL));
    release_spawn_gate(&mut pending, "b");
    assert!(!claim_spawn_gate(&mut pending, "a", 99 + SPAWN_GATE_TTL));
    assert!(claim_spawn_gate(&mut pending, "b", 99 + SPAWN_GATE_TTL));
    assert!(claim_spawn_gate(&mut pending, "a", 100 + SPAWN_GATE_TTL));
}

#[test]
fn tasks_end_whatever_is_answered() {
    let answers: Vec<fn() -> Event> = vec![
        || Event::SupportInformation(None),
        || Event::CursorPosition(None),
        || Event::ActiveWindow(None),
        || Event::Window(None),
        || Event::WindowList(Vec::new()),
        || Event::Planned(None),
        || Event::Done,
    ];
    for answer in answers {
        let managed = managed_app(app("dolphin", "super+f9", "dolphin"), "{abc}", false);
        let mut service = ToggleService::new(AppRegistry::new(vec![managed]), vec![screen()]);
        let mut progress = service.toggle_app("dolphin".to_string());
        for _ in 0..102 {
            if let Progress::Ask(_, stage) = progress {
                progress = service.step(stage, answer(), 0);
            }
        }
        assert!(matches!(progress, Progress::Over(Err(_))));
    }
}

#[test]
fn window_that_was_found_last_is_the_known_one() {
    let managed = managed_app(app("dolphin", "super+f9", "dolphin"), "{stale}", false);
    let mut service = ToggleService::new(AppRegistry::new(vec![managed]), vec![screen()]);
    let mut kwin = mock_kwin(None);
    kwin.windows = vec![minimized_window("{new}", "dolphin", "Dolphin", geometry(0, 0, 9, 9))];
    toggle(&mut service, &mut kwin, "dolphin").unwrap();
    assert!(named(&service, "dolphin").visible);
    assert_eq!(
        named(&service, "dolphin").tracked_window_id.as_deref(),
        Some("{new}")
    );
    kwin.windows = vec![window("{newer}", "dolphin", "Dolphin", geometry(0, 0, 9, 9))];
    toggle(&mut service, &mut kwin, "dolphin").unwrap();
    assert!(!named(&service, "dolphin").visible);
    assert_eq!(
        named(&service, "dolphin").tracked_window_id.as_deref(),
        Some("{newer}")
    );
}

#[test]
fn app_without_window_is_only_noted_as_hidden() {
    let mut config = app("dolphin", "super+f9", "dolphin");
    config.hide_on_focus_lost = true;
    let managed = managed_app(config, "{gone}", true);
    let mut registry = AppRegistry::new(vec![managed]);
    registry.set_visible(&"dolphin".to_string(), true);
    let mut service = ToggleService::new(registry, vec![screen()]);
    let mut kwin = mock_kwin(None);
    focus(&mut service, &mut kwin, None).unwrap();
    assert!(kwin.calls.is_empty());
    assert!(!named(&service, "dolphin").visible);
    assert_eq!(
        named(&service, "dolphin").tracked_window_id.as_deref(),
        Some("{gone}")
    );
    assert!(service.registry().currently_visible_name().is_none());
}

#[test]
fn other_app_is_hidden_even_if_its_window_is_gone() {
    let one = managed_app(app("one", "super+f1", "one"), "{one}", true);
    let two = managed_app(app("two", "super+f2", "two"), "{two}", false);
    let mut registry = AppRegistry::new(vec![one, two]);
    registry.set_visible(&"one".to_string(), true);
    let mut service = ToggleService::new(registry, vec![screen()]);
    let mut kwin = mock_kwin(None);
    kwin.windows = vec![minimized_window("{two}", "two", "Two", geometry(1, 2, 3, 4))];
    toggle(&mut service, &mut kwin, "two").unwrap();
    assert!(!named(&service, "one").visible);
    assert!(named(&service, "two").visible);
    assert_eq!(
        service.registry().currently_visible_name().map(String::as_str),
        Some("two")
    );
}

#[test]
fn app_without_animation_ignores_a_plan() {
    let managed = managed_app(app("dolphin", "super+f9", "dolphin"), "{abc}", false);
    assert_eq!(managed.config.animation.style, AnimationStyle::Off);
    let mut service = ToggleService::new(AppRegistry::new(vec![managed]), vec![screen()]);
    let mut kwin = mock_kwin(Some(minimized_window(
        "{abc}",
        "dolphin",
        "Dolphin",
        geometry(0, 0, 1, 1),
    )));
    let state = || WindowState {
        geometry: Some(geometry(1, 2, 3, 4)),
        opacity: Some(Opacity {
            bits: 0.5_f64.to_bits(),
        }),
    };
    let plan = || TransitionPlan {
        setup: state(),
        frames: vec![state(), state()],
        last: state(),
        teardown: state(),
    };
    kwin.plan = Some(plan());
    toggle(&mut service, &mut kwin, "dolphin").unwrap();
    assert_eq!(
        kwin.calls,
        vec![
            "minimized:{abc}:false",
            "move:{abc}:0:0:1920:1080",
            "resize:{abc}:0:0:1920:1080",
            "foreground:{abc}",
        ]
    );
    kwin.calls.clear();
    kwin.window = Some(window("{abc}", "dolphin", "Dolphin", geometry(0, 0, 1920, 1080)));
    kwin.plan = Some(plan());
    toggle(&mut service, &mut kwin, "dolphin").unwrap();
    assert_eq!(
        kwin.calls,
        vec![
            "resize:{abc}:0:-1080:1920:1080",
            "move:{abc}:0:-1080:1920:1080",
            "minimized:{abc}:true",
            "move:{abc}:0:0:1920:1080",
            "resize:{abc}:0:0:1920:1080",
        ]
    );
}
