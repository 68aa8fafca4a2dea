//! What each step of a task does, as functions from state to state.

use crate::animation::{PlanView, TransitionPhase};
use crate::app_registry;
use crate::app_registry::{ManagedApp, RegistryView};
use crate::config::{AnimationStyle, AttachMode};
use crate::screen;
use crate::screen::ScreenView;
use crate::toggle::commands;
use crate::toggle::timing;
use crate::toggle::types::{
    ActionView, AfterHideView, EventView, PollView, ProgressView, RestView, RestoreEntry,
    ScreenGoal, ScreensGoalView, SpawnView, StageView, ToggleError, WindowGoalView,
};
use crate::wm::types;
use crate::wm::{FrameGeometry, ManagedWindow, Point};
use vstd::prelude::*;

verus! {

/// How often the windows are looked through for the one of an app that was started.
pub const SPAWN_POLL_ATTEMPTS: u32 = 40;

/// The time before each look, in milliseconds.
pub const SPAWN_POLL_INTERVAL_MS: u64 = 250;

/// What is remembered between tasks.
pub struct ToggleView {
    pub registry: RegistryView,
    pub screens: Seq<ScreenView>,
    pub pressed: Map<Seq<char>, u64>,
    pub pending: Map<Seq<char>, u64>,
}

/// The end of a task that concerns no known app.
pub open spec fn unknown(name: String) -> ProgressView {
    ProgressView::Over(Err(ToggleError::UnknownApp(name)))
}

/// The first of some screens that a point is on.
pub open spec fn first_containing(screens: Seq<ScreenView>, point: Point) -> Option<int>
    decreases screens.len(),
{
    if screens.len() == 0 {
        None
    } else {
        match first_containing(screens.drop_last(), point) {
            Some(i) => Some(i),
            None => if screen::on_screen(screens.last(), point.x as int, point.y as int) {
                Some(screens.len() - 1)
            } else {
                None
            },
        }
    }
}

/// The last of the screens that a window covers most of.
pub open spec fn most_covered(screens: Seq<ScreenView>, geometry: FrameGeometry) -> int
    decreases screens.len(),
{
    if screens.len() <= 1 {
        0
    } else {
        let best = most_covered(screens.drop_last(), geometry);
        if screen::overlap(screens.last(), geometry) >= screen::overlap(screens[best], geometry) {
            screens.len() - 1
        } else {
            best
        }
    }
}

/// The screen that a window is on.
pub open spec fn screen_for(screens: Seq<ScreenView>, geometry: FrameGeometry) -> ScreenView {
    screens[most_covered(screens, geometry)]
}

/// The screens that fresh support information describes, or the ones known before where there
/// is none or it cannot be read.
pub open spec fn refreshed(known: Seq<ScreenView>, information: Option<Seq<char>>) -> Seq<
    ScreenView,
> {
    match information {
        None => known,
        Some(information) => match screen::support::screens_of(information) {
            Ok(screens) => screens,
            Err(_) => known,
        },
    }
}

/// Looking for an app's window: first under the identifier that is known, if one is.
pub open spec fn look_for(goal: WindowGoalView, known: Option<String>) -> ProgressView {
    match known {
        Some(id) => ProgressView::Ask(ActionView::Window(id), StageView::Known(goal)),
        None => ProgressView::Ask(ActionView::WindowList, StageView::Listed(goal)),
    }
}

/// The beginning of hiding an app.
pub open spec fn begin_hide(t: ToggleView, name: String, then: AfterHideView) -> ProgressView {
    match app_registry::app_named(t.registry, name@) {
        None => unknown(name),
        Some(app) => look_for(WindowGoalView::Hide { name, then }, app.tracked_window_id),
    }
}

/// The beginning of showing an app, on a given screen if one is given.
pub open spec fn begin_show(t: ToggleView, name: String, screen: Option<ScreenView>) -> ProgressView {
    match app_registry::app_named(t.registry, name@) {
        None => unknown(name),
        Some(app) => look_for(WindowGoalView::Show { name, screen }, app.tracked_window_id),
    }
}

/// What is done once an app is hidden.
pub open spec fn after_hide(then: AfterHideView) -> ProgressView {
    match then {
        AfterHideView::Finish => ProgressView::Over(Ok(())),
        AfterHideView::Resume(rest) => look_for(WindowGoalView::Toggle(rest), rest.known),
    }
}

/// The app that is shown, where it is another one than the given one.
pub open spec fn other_shown(r: RegistryView, name: Seq<char>) -> Option<String> {
    match r.current {
        Some(current) => if current@ == name {
            None
        } else {
            Some(current)
        },
        None => None,
    }
}

/// Hiding the app that is in the way of another one, where there is such an app.
pub open spec fn clear_way(t: ToggleView, rest: RestView, other: Option<String>) -> ProgressView {
    match other {
        Some(other) => begin_hide(t, other, AfterHideView::Resume(rest)),
        None => look_for(WindowGoalView::Toggle(rest), rest.known),
    }
}

/// The beginning of toggling an app. A screen is chosen first for an app that is thought to be
/// hidden.
pub open spec fn toggle(t: ToggleView, name: String) -> ProgressView {
    match app_registry::app_named(t.registry, name@) {
        None => unknown(name),
        Some(app) => {
            let known = app.tracked_window_id;
            let other = other_shown(t.registry, name@);
            if app.visible {
                clear_way(t, RestView { name, known, screen: None }, other)
            } else {
                ProgressView::Ask(
                    ActionView::SupportInformation,
                    StageView::Screens(
                        ScreensGoalView::Choose(ScreenGoal::Toggle { name, known, other }),
                    ),
                )
            }
        },
    }
}

/// What a press of a hotkey begins: nothing where it repeats one of a moment ago, and else the
/// toggling of its app.
pub open spec fn pressed(t: ToggleView, id: String, now: u64) -> (ToggleView, ProgressView) {
    let noted = ToggleView { pressed: timing::after_press(t.pressed, id@, now), ..t };
    (
        noted,
        if timing::repeated(t.pressed, id@, now) {
            ProgressView::Over(Ok(()))
        } else {
            match app_registry::shortcut_position(t.registry.apps, id@) {
                None => ProgressView::Over(Err(ToggleError::UnknownShortcut(id))),
                Some(i) => toggle(noted, t.registry.apps[i].config.name),
            }
        },
    )
}

/// Whether the app that is shown is to be hidden when a window gets the focus, or none does:
/// it asks for that, and the window is not its own.
pub open spec fn loses_focus(app: ManagedApp, active: Option<Seq<char>>) -> bool {
    app.config.hide_on_focus_lost && crate::text::optional(app.tracked_window_id) != active
}

/// What a change of the focus begins: the hiding of the app that is shown, if it is to be hidden
/// then.
pub open spec fn focus_changed(t: ToggleView, active: Option<Seq<char>>) -> ProgressView {
    match t.registry.current {
        None => ProgressView::Over(Ok(())),
        Some(name) => match app_registry::app_named(t.registry, name@) {
            None => unknown(name),
            Some(app) => if loses_focus(app, active) {
                begin_hide(t, name, AfterHideView::Finish)
            } else {
                ProgressView::Over(Ok(()))
            },
        },
    }
}

/// What is put back for each app whose window is known.
pub open spec fn restore_entries(apps: Seq<ManagedApp>) -> Seq<RestoreEntry>
    decreases apps.len(),
{
    if apps.len() == 0 {
        Seq::empty()
    } else {
        let app = apps.last();
        let before = restore_entries(apps.drop_last());
        match app.tracked_window_id {
            None => before,
            Some(id) => before.push(
                RestoreEntry {
                    name: app.config.name,
                    window_id: id,
                    geometry: app.restore_geometry,
                    no_border: app.restore_no_border,
                    visible: app.visible,
                },
            ),
        }
    }
}

/// Putting windows back, from the given one on.
pub open spec fn restore_from(entries: Seq<RestoreEntry>, next: int) -> ProgressView {
    if next < entries.len() {
        ProgressView::Ask(
            ActionView::Window(entries[next].window_id),
            StageView::RestoreFind { entries, next },
        )
    } else {
        ProgressView::Over(Ok(()))
    }
}

/// Showing a window on a screen: refused where its placement does not fit.
pub open spec fn fit(
    t: ToggleView,
    name: String,
    window: ManagedWindow,
    on: ScreenView,
) -> ProgressView {
    match app_registry::app_named(t.registry, name@) {
        None => unknown(name),
        Some(app) => match screen::misfit(on, app.config.placement) {
            Some(error) => ProgressView::Over(Err(ToggleError::InvalidPlacement { name, error })),
            None => ProgressView::Ask(
                ActionView::SupportInformation,
                StageView::Screens(
                    ScreensGoalView::Show {
                        name,
                        window,
                        visible: screen::placed(on, app.config.placement),
                    },
                ),
            ),
        },
    }
}

/// Showing a window: a screen is chosen where none was before.
pub open spec fn have_window(
    t: ToggleView,
    name: String,
    window: ManagedWindow,
    on: Option<ScreenView>,
) -> ProgressView {
    match on {
        Some(on) => fit(t, name, window, on),
        None => ProgressView::Ask(
            ActionView::SupportInformation,
            StageView::Screens(ScreensGoalView::Choose(ScreenGoal::Show { name, window })),
        ),
    }
}

/// What is done once a screen is chosen.
pub open spec fn screen_chosen(t: ToggleView, goal: ScreenGoal, on: ScreenView) -> ProgressView {
    match goal {
        ScreenGoal::Toggle { name, known, other } => clear_way(
            t,
            RestView { name, known, screen: Some(on) },
            other,
        ),
        ScreenGoal::Show { name, window } => fit(t, name, window, on),
    }
}

/// What is done once the screens are known.
pub open spec fn have_screens(
    t: ToggleView,
    goal: ScreensGoalView,
    information: Option<Seq<char>>,
) -> (ToggleView, ProgressView) {
    let screens = refreshed(t.screens, information);
    let t = ToggleView { screens, ..t };
    (
        t,
        match goal {
            ScreensGoalView::Choose(goal) => ProgressView::Ask(
                ActionView::CursorPosition,
                StageView::Cursor { goal, screens },
            ),
            ScreensGoalView::Hide { name, then, window } => match app_registry::app_named(
                t.registry,
                name@,
            ) {
                None => unknown(name),
                Some(app) => {
                    let visible = screen::placed(
                        screen_for(screens, window.frame_geometry),
                        app.config.placement,
                    );
                    let hidden = screen::parked(screens, visible);
                    ProgressView::Ask(
                        ActionView::Plan {
                            animation: app.config.animation,
                            visible,
                            hidden,
                            phase: TransitionPhase::Hide,
                        },
                        StageView::HidePlan {
                            name,
                            then,
                            id: window.internal_id,
                            visible,
                            hidden,
                        },
                    )
                },
            },
            ScreensGoalView::Show { name, window, visible } => match app_registry::app_named(
                t.registry,
                name@,
            ) {
                None => unknown(name),
                Some(app) => ProgressView::Ask(
                    ActionView::Plan {
                        animation: app.config.animation,
                        visible,
                        hidden: screen::parked(screens, visible),
                        phase: TransitionPhase::Show,
                    },
                    StageView::ShowPlan { name, window, visible },
                ),
            },
        },
    )
}

/// What is done once the position of the pointer is known.
pub open spec fn have_cursor(
    t: ToggleView,
    goal: ScreenGoal,
    screens: Seq<ScreenView>,
    position: Option<Point>,
) -> ProgressView {
    let under = match position {
        Some(point) => first_containing(screens, point),
        None => None,
    };
    match under {
        Some(i) => screen_chosen(t, goal, screens[i]),
        None => ProgressView::Ask(
            ActionView::ActiveWindow,
            StageView::ActiveWindow { goal, screens },
        ),
    }
}

/// What is done once the window that has the focus is known.
pub open spec fn have_active(
    t: ToggleView,
    goal: ScreenGoal,
    screens: Seq<ScreenView>,
    window: Option<ManagedWindow>,
) -> ProgressView {
    match window {
        Some(window) => screen_chosen(t, goal, screen_for(screens, window.frame_geometry)),
        None => screen_chosen(t, goal, screens[0]),
    }
}

/// How an app is started; nothing where there is nothing to start it by.
pub open spec fn spawn_request(app: ManagedApp) -> Option<SpawnView> {
    let command = app.config.command@;
    if command.len() == 0 {
        None
    } else {
        Some(
            SpawnView {
                program: command[0],
                arguments: command.skip(1),
                directory: app.config.working_directory,
            },
        )
    }
}

/// The beginning of waiting for an app's window.
pub open spec fn wait(name: String, on: Option<ScreenView>, claimed: bool, left: u32) -> ProgressView {
    ProgressView::Ask(
        ActionView::Sleep { milliseconds: SPAWN_POLL_INTERVAL_MS },
        StageView::PollWait(PollView { name, screen: on, claimed, left }),
    )
}

/// What is done for an app that has no window: it is started if that is wanted, unless it is
/// being started already, and then its window is waited for.
pub open spec fn without_window(t: ToggleView, name: String, on: Option<ScreenView>, now: u64) -> (
    ToggleView,
    ProgressView,
) {
    match app_registry::app_named(t.registry, name@) {
        None => (t, unknown(name)),
        Some(app) => match app.config.attach_mode {
            AttachMode::Find => (t, ProgressView::Over(Err(ToggleError::NoWindow(name)))),
            AttachMode::FindOrStart => {
                let claimed = ToggleView {
                    pending: timing::after_claim(t.pending, name@, now),
                    ..t
                };
                if timing::starting(t.pending, name@, now) {
                    (claimed, wait(name, on, false, SPAWN_POLL_ATTEMPTS))
                } else {
                    match spawn_request(app) {
                        None => (
                            released(claimed, name@),
                            ProgressView::Over(Err(ToggleError::CannotSpawn(name))),
                        ),
                        Some(request) => (
                            claimed,
                            ProgressView::Ask(
                                ActionView::Spawn(request),
                                StageView::Spawning { name, screen: on },
                            ),
                        ),
                    }
                }
            },
        },
    }
}

/// The state once an app is no longer being started.
pub open spec fn released(t: ToggleView, name: Seq<char>) -> ToggleView {
    ToggleView { pending: t.pending.remove(name), ..t }
}

/// What is done once it is known whether an app has a window.
pub open spec fn found(
    t: ToggleView,
    goal: WindowGoalView,
    window: Option<ManagedWindow>,
    now: u64,
) -> (ToggleView, ProgressView) {
    match goal {
        WindowGoalView::Toggle(rest) => {
            let visible = window is Some && !window->0.minimized;
            let id = match window {
                Some(window) => Some(window.internal_id),
                None => None,
            };
            let t = ToggleView {
                registry: app_registry::with_visible(
                    app_registry::with_tracked(t.registry, rest.name@, id),
                    rest.name,
                    visible,
                ),
                ..t
            };
            (
                t,
                if visible {
                    begin_hide(t, rest.name, AfterHideView::Finish)
                } else {
                    begin_show(t, rest.name, rest.screen)
                },
            )
        },
        WindowGoalView::Hide { name, then } => match window {
            Some(window) => (
                t,
                ProgressView::Ask(
                    ActionView::SupportInformation,
                    StageView::Screens(ScreensGoalView::Hide { name, then, window }),
                ),
            ),
            None => (
                ToggleView {
                    registry: app_registry::with_visible(t.registry, name, false),
                    ..t
                },
                after_hide(then),
            ),
        },
        WindowGoalView::Show { name, screen } => match window {
            Some(window) => (t, have_window(t, name, window, screen)),
            None => without_window(t, name, screen, now),
        },
    }
}

/// The app that a window is looked for.
pub open spec fn goal_name(goal: WindowGoalView) -> String {
    match goal {
        WindowGoalView::Toggle(rest) => rest.name,
        WindowGoalView::Hide { name, .. } => name,
        WindowGoalView::Show { name, .. } => name,
    }
}

/// The first of some windows that belongs to an app.
pub open spec fn first_match(windows: Seq<ManagedWindow>, app: ManagedApp) -> Option<
    ManagedWindow,
> {
    let matching = types::matching(windows, app.config);
    if matching.len() > 0 {
        Some(matching[0])
    } else {
        None
    }
}

/// What is done once all windows are known.
pub open spec fn have_list(
    t: ToggleView,
    goal: WindowGoalView,
    windows: Seq<ManagedWindow>,
    now: u64,
) -> (ToggleView, ProgressView) {
    match app_registry::app_named(t.registry, goal_name(goal)@) {
        None => (t, unknown(goal_name(goal))),
        Some(app) => found(t, goal, first_match(windows, app), now),
    }
}

/// What is done once all windows are known while an app's window is waited for.
pub open spec fn polled(t: ToggleView, poll: PollView, windows: Seq<ManagedWindow>) -> (
    ToggleView,
    ProgressView,
) {
    let ended = if poll.claimed {
        released(t, poll.name@)
    } else {
        t
    };
    match app_registry::app_named(t.registry, poll.name@) {
        None => (t, unknown(poll.name)),
        Some(app) => match first_match(windows, app) {
            Some(window) => (ended, have_window(ended, poll.name, window, poll.screen)),
            None => if poll.left <= 1 {
                (ended, ProgressView::Over(Err(ToggleError::NeverAppeared(poll.name))))
            } else {
                (t, wait(poll.name, poll.screen, poll.claimed, (poll.left - 1) as u32))
            },
        },
    }
}

/// What is done once an app's window has been hidden.
pub open spec fn hidden(t: ToggleView, name: String, then: AfterHideView, id: String) -> (
    ToggleView,
    ProgressView,
) {
    match app_registry::app_named(t.registry, name@) {
        None => (t, unknown(name)),
        Some(_) => (
            ToggleView {
                registry: app_registry::with_visible(
                    app_registry::with_tracked(t.registry, name@, Some(id)),
                    name,
                    false,
                ),
                ..t
            },
            after_hide(then),
        ),
    }
}

/// The transition that an app's window goes through: none where the app has no animation.
pub open spec fn plan_of(app: ManagedApp, plan: Option<PlanView>) -> Option<PlanView> {
    if app.config.animation.style == AnimationStyle::Off {
        None
    } else {
        plan
    }
}

/// The transition that the window of the app with a name goes through.
pub open spec fn plan_for(t: ToggleView, name: Seq<char>, plan: Option<PlanView>) -> Option<
    PlanView,
> {
    match app_registry::app_named(t.registry, name) {
        Some(app) => plan_of(app, plan),
        None => None,
    }
}

/// What is done once an app's window is minimized no longer.
pub open spec fn revealed(
    t: ToggleView,
    name: String,
    window: ManagedWindow,
    visible: FrameGeometry,
    plan: Option<PlanView>,
) -> (ToggleView, ProgressView) {
    match app_registry::app_named(t.registry, name@) {
        None => (t, unknown(name)),
        Some(app) => (
            if app.config.hide_decorations {
                ToggleView {
                    registry: app_registry::with_border(t.registry, name@, window),
                    ..t
                }
            } else {
                t
            },
            ProgressView::Ask(
                ActionView::Perform(
                    commands::show_commands(
                        window,
                        app.config.hide_decorations,
                        visible,
                        plan_of(app, plan),
                    ),
                ),
                StageView::Showing { name, window },
            ),
        ),
    }
}

/// What is done once an app's window has been shown.
pub open spec fn shown(t: ToggleView, name: String, window: ManagedWindow) -> (
    ToggleView,
    ProgressView,
) {
    match app_registry::app_named(t.registry, name@) {
        None => (t, unknown(name)),
        Some(_) => (
            ToggleView { registry: app_registry::with_shown(t.registry, name, window), ..t },
            ProgressView::Over(Ok(())),
        ),
    }
}

/// What a task does when it is told what it waits for. A transition that was worked out for an
/// app without an animation counts as none. Support information that cannot be fetched leaves the
/// screens as they were. Anything else that fails ends the task, and so does an answer to
/// something that was not asked.
pub open spec fn step(t: ToggleView, stage: StageView, event: EventView, now: u64) -> (
    ToggleView,
    ProgressView,
) {
    match (stage, event) {
        (StageView::Screens(goal), EventView::SupportInformation(information)) => have_screens(
            t,
            goal,
            information,
        ),
        (StageView::Screens(goal), EventView::Failed(_)) => have_screens(t, goal, None),
        (StageView::Spawning { name, .. }, EventView::Failed(reason)) => (
            released(t, name@),
            ProgressView::Over(Err(ToggleError::Outside(reason))),
        ),
        (_, EventView::Failed(reason)) => (
            t,
            ProgressView::Over(Err(ToggleError::Outside(reason))),
        ),
        (StageView::Cursor { goal, screens }, EventView::CursorPosition(position)) => (
            t,
            have_cursor(t, goal, screens, position),
        ),
        (StageView::ActiveWindow { goal, screens }, EventView::ActiveWindow(window)) => (
            t,
            have_active(t, goal, screens, window),
        ),
        (StageView::Known(goal), EventView::Window(Some(window))) => found(
            t,
            goal,
            Some(window),
            now,
        ),
        (StageView::Known(goal), EventView::Window(None)) => (
            t,
            ProgressView::Ask(ActionView::WindowList, StageView::Listed(goal)),
        ),
        (StageView::Listed(goal), EventView::WindowList(windows)) => have_list(
            t,
            goal,
            windows,
            now,
        ),
        (StageView::Spawning { name, screen }, EventView::Done) => (
            t,
            wait(name, screen, true, SPAWN_POLL_ATTEMPTS),
        ),
        (StageView::PollWait(poll), EventView::Done) => (
            t,
            ProgressView::Ask(ActionView::WindowList, StageView::PollList(poll)),
        ),
        (StageView::PollList(poll), EventView::WindowList(windows)) => polled(t, poll, windows),
        (
            StageView::HidePlan { name, then, id, visible, hidden },
            EventView::Planned(plan),
        ) => (
            t,
            ProgressView::Ask(
                ActionView::Perform(
                    commands::hide_commands(id, visible, hidden, plan_for(t, name@, plan)),
                ),
                StageView::Hiding { name, then, id },
            ),
        ),
        (StageView::Hiding { name, then, id }, EventView::Done) => hidden(t, name, then, id),
        (StageView::ShowPlan { name, window, visible }, EventView::Planned(plan)) => (
            t,
            ProgressView::Ask(
                ActionView::Perform(
                    commands::reveal_commands(window.internal_id, plan_for(t, name@, plan)),
                ),
                StageView::Revealing { name, window, visible, plan: plan_for(t, name@, plan) },
            ),
        ),
        (StageView::Revealing { name, window, visible, plan }, EventView::Done) => revealed(
            t,
            name,
            window,
            visible,
            plan,
        ),
        (StageView::Showing { name, window }, EventView::Done) => shown(t, name, window),
        (StageView::RestoreFind { entries, next }, EventView::Window(window)) => (
            t,
            if next >= entries.len() {
                ProgressView::Over(Err(ToggleError::Unexpected))
            } else if window is None {
                restore_from(entries, next + 1)
            } else {
                ProgressView::Ask(
                    ActionView::Perform(commands::restore_commands(entries[next])),
                    StageView::Restoring { entries, next },
                )
            },
        ),
        (StageView::Restoring { entries, next }, EventView::Done) => (
            t,
            if next >= entries.len() {
                ProgressView::Over(Err(ToggleError::Unexpected))
            } else {
                restore_from(entries, next + 1)
            },
        ),
        _ => (t, ProgressView::Over(Err(ToggleError::Unexpected))),
    }
}

} // verus!
