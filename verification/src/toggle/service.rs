//! The service that shows and hides apps.
//!
//! Whatever has to be asked of the window manager, or done outside, is an action that the service
//! hands out. The answer comes back as an event, and the service goes on from there.

use crate::animation;
use crate::animation::{TransitionPhase, TransitionPlan};
use crate::app_registry;
use crate::app_registry::{AppRegistry, ManagedApp};
use crate::config::{AnimationStyle, AttachMode};
use crate::screen;
use crate::screen::{hidden_rect_for_screens, parse_support_information, ScreenInfo};
use crate::text;
use crate::toggle::commands::{hide_window, restore_window, reveal_window, show_window};
use crate::toggle::model;
use crate::toggle::model::{ToggleView, SPAWN_POLL_ATTEMPTS, SPAWN_POLL_INTERVAL_MS};
use crate::toggle::stamps::Stamps;
use crate::toggle::timing::{claim_spawn_gate, release_spawn_gate, should_ignore_shortcut};
use crate::toggle::types;
use crate::toggle::types::{
    Action, AfterHide, Event, Poll, Progress, RestoreEntry, ScreenGoal, ScreenList, ScreensGoal,
    SpawnRequest, Stage, ToggleError, ToggleRest, WindowGoal,
};
use crate::wm::{find_best_match, FrameGeometry, ManagedWindow, Point};
use vstd::prelude::*;

verus! {

/// The app with a name, or the error that there is none.
pub fn require_app<'r>(registry: &'r AppRegistry, name: &String) -> (app: Result<
    &'r ManagedApp,
    ToggleError,
>)
    ensures
        match app_registry::app_named(registry@, name@) {
            Some(found) => app is Ok && *app->Ok_0 == found,
            None => app == Err::<&ManagedApp, ToggleError>(ToggleError::UnknownApp(*name)),
        },
{
    match registry.managed_app(name.as_str()) {
        Some(app) => Ok(app),
        None => Err(ToggleError::UnknownApp(name.clone())),
    }
}

/// The first of some screens that a point is on.
pub fn screen_containing_point<'a>(screens: &'a Vec<ScreenInfo>, position: &Point) -> (found:
    Option<&'a ScreenInfo>)
    ensures
        match (found, model::first_containing(screen::views(screens@), *position)) {
            (Some(s), Some(i)) => 0 <= i < screens@.len() && *s == screens@[i],
            (None, None) => true,
            _ => false,
        },
{
    let mut i: usize = 0;
    let ghost views = screen::views(screens@);
    while i < screens.len()
        invariant
            views == screen::views(screens@),
            i <= screens@.len(),
            model::first_containing(views.take(i as int), *position) is None,
        decreases screens.len() - i,
    {
        proof {
            assert(views.take(i + 1).drop_last() == views.take(i as int));
            assert(views.take(i + 1).last() == screens@[i as int]@);
        }
        if screens[i].contains_point(position.x, position.y) {
            proof {
                lemma_first_containing(views, *position, i + 1);
            }
            return Some(&screens[i]);
        }
        i += 1;
    }
    assert(views.take(screens@.len() as int) == views);
    None
}

proof fn lemma_first_containing(views: Seq<screen::ScreenView>, position: Point, count: int)
    requires
        0 <= count <= views.len(),
        model::first_containing(views.take(count), position) is Some,
    ensures
        model::first_containing(views, position) == model::first_containing(
            views.take(count),
            position,
        ),
    decreases views.len() - count,
{
    if count < views.len() {
        assert(views.take(count + 1).drop_last() == views.take(count));
        lemma_first_containing(views, position, count + 1);
    } else {
        assert(views.take(count) == views);
    }
}

/// The screen that most of a geometry is on.
pub fn screen_for_geometry<'a>(screens: &'a Vec<ScreenInfo>, geometry: &FrameGeometry) -> (found:
    &'a ScreenInfo)
    requires
        screens@.len() > 0,
    ensures
        found@ == model::screen_for(screen::views(screens@), *geometry),
{
    let ghost views = screen::views(screens@);
    let mut best: usize = 0;
    let mut best_area: i64 = screens[0].overlap_area(geometry);
    let mut i: usize = 1;
    while i < screens.len()
        invariant
            views == screen::views(screens@),
            1 <= i <= screens@.len(),
            best < i,
            best == model::most_covered(views.take(i as int), *geometry),
            best_area == screen::overlap(views[best as int], *geometry),
        decreases screens.len() - i,
    {
        proof {
            assert(views.take(i + 1).drop_last() == views.take(i as int));
            assert(views.take(i + 1).last() == screens@[i as int]@);
        }
        let area = screens[i].overlap_area(geometry);
        if area >= best_area {
            best = i;
            best_area = area;
        }
        i += 1;
    }
    assert(views.take(screens@.len() as int) == views);
    &screens[best]
}

/// The screen that most of a window is on.
pub fn screen_for_window<'a>(screens: &'a Vec<ScreenInfo>, window: &ManagedWindow) -> (found:
    &'a ScreenInfo)
    requires
        screens@.len() > 0,
    ensures
        found@ == model::screen_for(screen::views(screens@), window.frame_geometry),
{
    screen_for_geometry(screens, &window.frame_geometry)
}

/// The service that shows and hides apps.
#[derive(Debug)]
pub struct ToggleService {
    registry: AppRegistry,
    screens: ScreenList,
    recent_hotkeys: Stamps,
    pending_spawns: Stamps,
}

impl View for ToggleService {
    type V = ToggleView;

    closed spec fn view(&self) -> ToggleView {
        ToggleView {
            registry: self.registry@,
            screens: self.screens@,
            pressed: self.recent_hotkeys@,
            pending: self.pending_spawns@,
        }
    }
}

fn look_for(goal: WindowGoal, known: Option<String>) -> (p: Progress)
    ensures
        p@ == model::look_for(goal@, known),
{
    match known {
        Some(id) => Progress::Ask(Action::Window(id), Stage::Known(goal)),
        None => Progress::Ask(Action::WindowList, Stage::Listed(goal)),
    }
}

fn after_hide(then: AfterHide) -> (p: Progress)
    ensures
        p@ == model::after_hide(then@),
{
    match then {
        AfterHide::Finish => Progress::Over(Ok(())),
        AfterHide::Resume(rest) => {
            let known = rest.known.clone();
            look_for(WindowGoal::Toggle(rest), known)
        },
    }
}

fn wait(name: String, screen: Option<ScreenInfo>, claimed: bool, left: u32) -> (p: Progress)
    ensures
        p@ == model::wait(name, types::optional_screen(screen), claimed, left),
{
    Progress::Ask(
        Action::Sleep { milliseconds: SPAWN_POLL_INTERVAL_MS },
        Stage::PollWait(Poll { name, screen, claimed, left }),
    )
}

fn restore_from(entries: Vec<RestoreEntry>, next: usize) -> (p: Progress)
    ensures
        p@ == model::restore_from(entries@, next as int),
{
    if next < entries.len() {
        let id = entries[next].window_id.clone();
        Progress::Ask(Action::Window(id), Stage::RestoreFind { entries, next })
    } else {
        Progress::Over(Ok(()))
    }
}

fn restore_entries(apps: &Vec<ManagedApp>) -> (entries: Vec<RestoreEntry>)
    ensures
        entries@ == model::restore_entries(apps@),
{
    let mut entries: Vec<RestoreEntry> = Vec::new();
    let mut i: usize = 0;
    while i < apps.len()
        invariant
            i <= apps@.len(),
            entries@ == model::restore_entries(apps@.take(i as int)),
        decreases apps.len() - i,
    {
        assert(apps@.take(i + 1).drop_last() == apps@.take(i as int));
        let app = &apps[i];
        if let Some(id) = &app.tracked_window_id {
            entries.push(
                RestoreEntry {
                    name: app.config.name.clone(),
                    window_id: id.clone(),
                    geometry: app.restore_geometry,
                    no_border: app.restore_no_border,
                    visible: app.visible,
                },
            );
        }
        i += 1;
    }
    assert(apps@.take(apps@.len() as int) == apps@);
    entries
}

fn spawn_request(app: &ManagedApp) -> (request: Option<SpawnRequest>)
    ensures
        match (request, model::spawn_request(*app)) {
            (Some(r), Some(v)) => r.program == v.program && r.arguments@ == v.arguments
                && r.directory == v.directory,
            (None, None) => true,
            _ => false,
        },
{
    let command = &app.config.command;
    if command.len() == 0 {
        return None;
    }
    let mut arguments: Vec<String> = Vec::new();
    let mut i: usize = 1;
    while i < command.len()
        invariant
            1 <= i <= command@.len(),
            arguments@ == command@.subrange(1, i as int),
        decreases command.len() - i,
    {
        arguments.push(command[i].clone());
        i += 1;
        assert(arguments@ =~= command@.subrange(1, i as int));
    }
    assert(command@.subrange(1, command@.len() as int) =~= command@.skip(1));
    Some(
        SpawnRequest {
            program: command[0].clone(),
            arguments,
            directory: app.config.working_directory.clone(),
        },
    )
}

fn first_match(windows: &Vec<ManagedWindow>, app: &ManagedApp) -> (window: Option<ManagedWindow>)
    ensures
        window == model::first_match(windows@, *app),
{
    match find_best_match(windows.as_slice(), &app.config).0 {
        Some(window) => Some(window.clone()),
        None => None,
    }
}

impl ToggleService {
    /// A service for the given apps on the given screens.
    pub fn new(registry: AppRegistry, screens: Vec<ScreenInfo>) -> (service: ToggleService)
        requires
            screens@.len() > 0,
        ensures
            service@ == (ToggleView {
                registry: registry@,
                screens: screen::views(screens@),
                pressed: Map::empty(),
                pending: Map::empty(),
            }),
    {
        ToggleService {
            registry,
            screens: ScreenList::new(screens),
            recent_hotkeys: Stamps::new(),
            pending_spawns: Stamps::new(),
        }
    }

    /// The apps and what is known of them.
    pub fn registry(&self) -> (registry: &AppRegistry)
        ensures
            registry@ == self@.registry,
    {
        &self.registry
    }

    fn hide_app(&self, name: String, then: AfterHide) -> (p: Progress)
        ensures
            p@ == model::begin_hide(self@, name, then@),
    {
        match require_app(&self.registry, &name) {
            Err(error) => Progress::Over(Err(error)),
            Ok(app) => look_for(WindowGoal::Hide { name, then }, app.tracked_window_id.clone()),
        }
    }

    fn show_app(&self, name: String, screen: Option<ScreenInfo>) -> (p: Progress)
        ensures
            p@ == model::begin_show(self@, name, types::optional_screen(screen)),
    {
        match require_app(&self.registry, &name) {
            Err(error) => Progress::Over(Err(error)),
            Ok(app) => look_for(WindowGoal::Show { name, screen }, app.tracked_window_id.clone()),
        }
    }

    fn clear_way(&self, rest: ToggleRest, other: Option<String>) -> (p: Progress)
        ensures
            p@ == model::clear_way(self@, rest@, other),
    {
        match other {
            Some(other) => self.hide_app(other, AfterHide::Resume(rest)),
            None => {
                let known = rest.known.clone();
                look_for(WindowGoal::Toggle(rest), known)
            },
        }
    }

    /// Begins to show the app if its window is hidden, and to hide it if it is shown.
    pub fn toggle_app(&self, name: String) -> (p: Progress)
        ensures
            p@ == model::toggle(self@, name),
    {
        let other = match self.registry.currently_visible_name() {
            Some(current) => if text::same_text(current.as_str(), name.as_str()) {
                None
            } else {
                Some(current.clone())
            },
            None => None,
        };
        match require_app(&self.registry, &name) {
            Err(error) => Progress::Over(Err(error)),
            Ok(app) => {
                let known = app.tracked_window_id.clone();
                if app.visible {
                    self.clear_way(ToggleRest { name, known, screen: None }, other)
                } else {
                    Progress::Ask(
                        Action::SupportInformation,
                        Stage::Screens(
                            ScreensGoal::Choose(ScreenGoal::Toggle { name, known, other }),
                        ),
                    )
                }
            },
        }
    }

    /// Begins what a press of a hotkey asks for.
    pub fn handle_shortcut(&mut self, shortcut_id: String, now: u64) -> (p: Progress)
        ensures
            (final(self)@, p@) == model::pressed(old(self)@, shortcut_id, now),
    {
        let ignore = should_ignore_shortcut(&mut self.recent_hotkeys, shortcut_id.as_str(), now);
        if ignore {
            return Progress::Over(Ok(()));
        }
        let name = match self.registry.app_for_shortcut(shortcut_id.as_str()) {
            Some(name) => name.clone(),
            None => {
                return Progress::Over(Err(ToggleError::UnknownShortcut(shortcut_id)));
            },
        };
        self.toggle_app(name)
    }

    /// Begins what a change of the window that has the focus asks for.
    pub fn handle_active_window_changed(&self, active_window_id: Option<&str>) -> (p: Progress)
        ensures
            p@ == model::focus_changed(
                self@,
                match active_window_id {
                    Some(id) => Some(id@),
                    None => None,
                },
            ),
    {
        let name = match self.registry.currently_visible_name() {
            Some(name) => name.clone(),
            None => {
                return Progress::Over(Ok(()));
            },
        };
        let own = match require_app(&self.registry, &name) {
            Err(error) => {
                return Progress::Over(Err(error));
            },
            Ok(app) => if app.config.hide_on_focus_lost {
                match (&app.tracked_window_id, active_window_id) {
                    (Some(known), Some(active)) => text::same_text(known.as_str(), active),
                    (None, None) => true,
                    _ => false,
                }
            } else {
                true
            },
        };
        if own {
            Progress::Over(Ok(()))
        } else {
            self.hide_app(name, AfterHide::Finish)
        }
    }

    /// Begins to put every known window back as it was, for the end of the program.
    pub fn restore_tracked_windows_on_shutdown(&self) -> (p: Progress)
        ensures
            p@ == model::restore_from(model::restore_entries(self@.registry.apps), 0),
    {
        restore_from(restore_entries(self.registry.managed_apps()), 0)
    }

    fn fit(&self, name: String, window: ManagedWindow, on: &ScreenInfo) -> (p: Progress)
        ensures
            p@ == model::fit(self@, name, window, on@),
    {
        match require_app(&self.registry, &name) {
            Err(error) => Progress::Over(Err(error)),
            Ok(app) => match on.validate_placement(&app.config.placement) {
                Err(error) => Progress::Over(Err(ToggleError::InvalidPlacement { name, error })),
                Ok(()) => {
                    let visible = on.placement_rect(&app.config.placement);
                    Progress::Ask(
                        Action::SupportInformation,
                        Stage::Screens(ScreensGoal::Show { name, window, visible }),
                    )
                },
            },
        }
    }

    fn have_window(&self, name: String, window: ManagedWindow, on: Option<ScreenInfo>) -> (p:
        Progress)
        ensures
            p@ == model::have_window(self@, name, window, types::optional_screen(on)),
    {
        match on {
            Some(on) => self.fit(name, window, &on),
            None => Progress::Ask(
                Action::SupportInformation,
                Stage::Screens(ScreensGoal::Choose(ScreenGoal::Show { name, window })),
            ),
        }
    }

    fn screen_chosen(&self, goal: ScreenGoal, on: &ScreenInfo) -> (p: Progress)
        ensures
            p@ == model::screen_chosen(self@, goal, on@),
    {
        match goal {
            ScreenGoal::Toggle { name, known, other } => self.clear_way(
                ToggleRest { name, known, screen: Some(on.clone()) },
                other,
            ),
            ScreenGoal::Show { name, window } => self.fit(name, window, on),
        }
    }

    /// Takes over fresh support information, where it can be read.
    fn refresh(&mut self, information: &Option<String>)
        ensures
            final(self)@ == (ToggleView {
                screens: model::refreshed(old(self)@.screens, text::optional(*information)),
                ..old(self)@
            }),
    {
        if let Some(information) = information {
            if let Ok(screens) = parse_support_information(information.as_str()) {
                self.screens = ScreenList::new(screens);
            }
        }
    }

    fn have_screens(&mut self, goal: ScreensGoal, information: &Option<String>) -> (p: Progress)
        ensures
            (final(self)@, p@) == model::have_screens(
                old(self)@,
                goal@,
                text::optional(*information),
            ),
    {
        self.refresh(information);
        match goal {
            ScreensGoal::Choose(goal) => Progress::Ask(
                Action::CursorPosition,
                Stage::Cursor { goal, screens: self.screens.copy() },
            ),
            ScreensGoal::Hide { name, then, window } => match require_app(&self.registry, &name) {
                Err(error) => Progress::Over(Err(error)),
                Ok(app) => {
                    let screens = self.screens.list();
                    let on = screen_for_window(screens, &window);
                    let visible = on.placement_rect(&app.config.placement);
                    let hidden = hidden_rect_for_screens(screens, &visible);
                    Progress::Ask(
                        Action::Plan {
                            animation: app.config.animation,
                            visible,
                            hidden,
                            phase: TransitionPhase::Hide,
                        },
                        Stage::HidePlan { name, then, id: window.internal_id, visible, hidden },
                    )
                },
            },
            ScreensGoal::Show { name, window, visible } => match require_app(
                &self.registry,
                &name,
            ) {
                Err(error) => Progress::Over(Err(error)),
                Ok(app) => {
                    let hidden = hidden_rect_for_screens(self.screens.list(), &visible);
                    Progress::Ask(
                        Action::Plan {
                            animation: app.config.animation,
                            visible,
                            hidden,
                            phase: TransitionPhase::Show,
                        },
                        Stage::ShowPlan { name, window, visible },
                    )
                },
            },
        }
    }

    fn have_cursor(&self, goal: ScreenGoal, screens: ScreenList, position: Option<Point>) -> (p:
        Progress)
        ensures
            p@ == model::have_cursor(self@, goal, screens@, position),
    {
        if let Some(point) = &position {
            if let Some(on) = screen_containing_point(screens.list(), point) {
                return self.screen_chosen(goal, on);
            }
        }
        Progress::Ask(Action::ActiveWindow, Stage::ActiveWindow { goal, screens })
    }

    fn have_active(&self, goal: ScreenGoal, screens: &ScreenList, window: &Option<
        ManagedWindow,
    >) -> (p: Progress)
        ensures
            p@ == model::have_active(self@, goal, screens@, *window),
    {
        let list = screens.list();
        match window {
            Some(window) => self.screen_chosen(goal, screen_for_window(list, window)),
            None => self.screen_chosen(goal, &list[0]),
        }
    }

    fn without_window(&mut self, name: String, on: Option<ScreenInfo>, now: u64) -> (p: Progress)
        ensures
            (final(self)@, p@) == model::without_window(
                old(self)@,
                name,
                types::optional_screen(on),
                now,
            ),
    {
        let request = match require_app(&self.registry, &name) {
            Err(error) => {
                return Progress::Over(Err(error));
            },
            Ok(app) => match app.config.attach_mode {
                AttachMode::Find => {
                    return Progress::Over(Err(ToggleError::NoWindow(name)));
                },
                AttachMode::FindOrStart => spawn_request(app),
            },
        };
        let claimed = claim_spawn_gate(&mut self.pending_spawns, name.as_str(), now);
        if !claimed {
            return wait(name, on, false, SPAWN_POLL_ATTEMPTS);
        }
        match request {
            None => {
                release_spawn_gate(&mut self.pending_spawns, name.as_str());
                Progress::Over(Err(ToggleError::CannotSpawn(name)))
            },
            Some(request) => Progress::Ask(
                Action::Spawn(request),
                Stage::Spawning { name, screen: on },
            ),
        }
    }

    fn found(&mut self, goal: WindowGoal, window: Option<ManagedWindow>, now: u64) -> (p: Progress)
        ensures
            (final(self)@, p@) == model::found(old(self)@, goal@, window, now),
    {
        match goal {
            WindowGoal::Toggle(rest) => {
                let (id, visible) = match window {
                    Some(window) => (Some(window.internal_id), !window.minimized),
                    None => (None, false),
                };
                self.registry.set_tracked(rest.name.as_str(), id);
                self.registry.set_visible(&rest.name, visible);
                if visible {
                    self.hide_app(rest.name, AfterHide::Finish)
                } else {
                    self.show_app(rest.name, rest.screen)
                }
            },
            WindowGoal::Hide { name, then } => match window {
                Some(window) => Progress::Ask(
                    Action::SupportInformation,
                    Stage::Screens(ScreensGoal::Hide { name, then, window }),
                ),
                None => {
                    self.registry.set_visible(&name, false);
                    after_hide(then)
                },
            },
            WindowGoal::Show { name, screen } => match window {
                Some(window) => self.have_window(name, window, screen),
                None => self.without_window(name, screen, now),
            },
        }
    }

    fn have_list(&mut self, goal: WindowGoal, windows: &Vec<ManagedWindow>, now: u64) -> (p:
        Progress)
        ensures
            (final(self)@, p@) == model::have_list(old(self)@, goal@, windows@, now),
    {
        let name = match &goal {
            WindowGoal::Toggle(rest) => rest.name.clone(),
            WindowGoal::Hide { name, .. } => name.clone(),
            WindowGoal::Show { name, .. } => name.clone(),
        };
        let window = match require_app(&self.registry, &name) {
            Err(error) => {
                return Progress::Over(Err(error));
            },
            Ok(app) => first_match(windows, app),
        };
        self.found(goal, window, now)
    }

    fn polled(&mut self, poll: Poll, windows: &Vec<ManagedWindow>) -> (p: Progress)
        ensures
            (final(self)@, p@) == model::polled(old(self)@, poll@, windows@),
    {
        let window = match require_app(&self.registry, &poll.name) {
            Err(error) => {
                return Progress::Over(Err(error));
            },
            Ok(app) => first_match(windows, app),
        };
        if window.is_none() && poll.left > 1 {
            return wait(poll.name, poll.screen, poll.claimed, poll.left - 1);
        }
        if poll.claimed {
            release_spawn_gate(&mut self.pending_spawns, poll.name.as_str());
        }
        match window {
            Some(window) => self.have_window(poll.name, window, poll.screen),
            None => Progress::Over(Err(ToggleError::NeverAppeared(poll.name))),
        }
    }

    fn hidden(&mut self, name: String, then: AfterHide, id: String) -> (p: Progress)
        ensures
            (final(self)@, p@) == model::hidden(old(self)@, name, then@, id),
    {
        if let Err(error) = require_app(&self.registry, &name) {
            return Progress::Over(Err(error));
        }
        self.registry.set_tracked(name.as_str(), Some(id));
        self.registry.set_visible(&name, false);
        after_hide(then)
    }

    fn plan_for(&self, name: &String, plan: Option<TransitionPlan>) -> (counted: Option<
        TransitionPlan,
    >)
        ensures
            animation::optional_plan(counted) == model::plan_for(
                self@,
                name@,
                animation::optional_plan(plan),
            ),
    {
        match require_app(&self.registry, name) {
            Ok(app) => if app.config.animation.style == AnimationStyle::Off {
                None
            } else {
                plan
            },
            Err(_) => None,
        }
    }

    fn revealed(
        &mut self,
        name: String,
        window: ManagedWindow,
        visible: &FrameGeometry,
        plan: &Option<TransitionPlan>,
    ) -> (p: Progress)
        ensures
            (final(self)@, p@) == model::revealed(
                old(self)@,
                name,
                window,
                *visible,
                animation::optional_plan(*plan),
            ),
    {
        let (hide_decorations, animated) = match require_app(&self.registry, &name) {
            Err(error) => {
                return Progress::Over(Err(error));
            },
            Ok(app) => (
                app.config.hide_decorations,
                app.config.animation.style != AnimationStyle::Off,
            ),
        };
        if hide_decorations {
            self.registry.note_border(name.as_str(), &window);
        }
        let commands = if animated {
            show_window(&window, hide_decorations, visible, plan)
        } else {
            show_window(&window, hide_decorations, visible, &None)
        };
        Progress::Ask(Action::Perform(commands), Stage::Showing { name, window })
    }

    fn shown(&mut self, name: String, window: ManagedWindow) -> (p: Progress)
        ensures
            (final(self)@, p@) == model::shown(old(self)@, name, window),
    {
        if let Err(error) = require_app(&self.registry, &name) {
            return Progress::Over(Err(error));
        }
        self.registry.note_shown(&name, &window);
        Progress::Over(Ok(()))
    }

    /// Goes on with a task once what it waits for has come.
    pub fn step(&mut self, stage: Stage, event: Event, now: u64) -> (p: Progress)
        ensures
            (final(self)@, p@) == model::step(old(self)@, stage@, event@, now),
    {
        match (stage, event) {
            (Stage::Screens(goal), Event::SupportInformation(information)) => self.have_screens(
                goal,
                &information,
            ),
            (Stage::Screens(goal), Event::Failed(_)) => self.have_screens(goal, &None),
            (Stage::Spawning { name, .. }, Event::Failed(reason)) => {
                release_spawn_gate(&mut self.pending_spawns, name.as_str());
                Progress::Over(Err(ToggleError::Outside(reason)))
            },
            (_, Event::Failed(reason)) => Progress::Over(Err(ToggleError::Outside(reason))),
            (Stage::Cursor { goal, screens }, Event::CursorPosition(position)) => self.have_cursor(
                goal,
                screens,
                position,
            ),
            (Stage::ActiveWindow { goal, screens }, Event::ActiveWindow(window)) =>
                self.have_active(goal, &screens, &window),
            (Stage::Known(goal), Event::Window(Some(window))) => self.found(
                goal,
                Some(window),
                now,
            ),
            (Stage::Known(goal), Event::Window(None)) => Progress::Ask(
                Action::WindowList,
                Stage::Listed(goal),
            ),
            (Stage::Listed(goal), Event::WindowList(windows)) => self.have_list(
                goal,
                &windows,
                now,
            ),
            (Stage::Spawning { name, screen }, Event::Done) => wait(
                name,
                screen,
                true,
                SPAWN_POLL_ATTEMPTS,
            ),
            (Stage::PollWait(poll), Event::Done) => Progress::Ask(
                Action::WindowList,
                Stage::PollList(poll),
            ),
            (Stage::PollList(poll), Event::WindowList(windows)) => self.polled(poll, &windows),
            (Stage::HidePlan { name, then, id, visible, hidden }, Event::Planned(plan)) => {
                let plan = self.plan_for(&name, plan);
                let commands = hide_window(&id, &visible, &hidden, &plan);
                Progress::Ask(Action::Perform(commands), Stage::Hiding { name, then, id })
            },
            (Stage::Hiding { name, then, id }, Event::Done) => self.hidden(name, then, id),
            (Stage::ShowPlan { name, window, visible }, Event::Planned(plan)) => {
                let plan = self.plan_for(&name, plan);
                let commands = reveal_window(&window.internal_id, &plan);
                Progress::Ask(
                    Action::Perform(commands),
                    Stage::Revealing { name, window, visible, plan },
                )
            },
            (Stage::Revealing { name, window, visible, plan }, Event::Done) => self.revealed(
                name,
                window,
                &visible,
                &plan,
            ),
            (Stage::Showing { name, window }, Event::Done) => self.shown(name, window),
            (Stage::RestoreFind { entries, next }, Event::Window(window)) => {
                if next >= entries.len() {
                    Progress::Over(Err(ToggleError::Unexpected))
                } else if window.is_none() {
                    restore_from(entries, next + 1)
                } else {
                    let commands = restore_window(&entries[next]);
                    Progress::Ask(Action::Perform(commands), Stage::Restoring { entries, next })
                }
            },
            (Stage::Restoring { entries, next }, Event::Done) => {
                if next >= entries.len() {
                    Progress::Over(Err(ToggleError::Unexpected))
                } else {
                    restore_from(entries, next + 1)
                }
            },
            _ => Progress::Over(Err(ToggleError::Unexpected)),
        }
    }
}

} // verus!
