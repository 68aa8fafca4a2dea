//! What holds of showing and hiding apps, whatever the answers from outside are.

use crate::animation::{PlanView, WindowState};
use crate::app_registry;
use crate::app_registry::{ManagedApp, RegistryView};
use crate::screen;
use crate::screen::ScreenView;
use crate::toggle::commands;
use crate::toggle::model;
use crate::toggle::model::ToggleView;
use crate::toggle::timing;
use crate::toggle::types;
use crate::toggle::types::{
    AfterHideView, Command, EventView, PollView, ProgressView, RestView, RestoreEntry, ScreenGoal,
    ScreensGoalView, StageView, ToggleError, WindowGoalView,
};
use crate::wm::{FrameGeometry, ManagedWindow, Point};
use vstd::prelude::*;

verus! {

/// Whether two lists hold the same apps in the same order, whatever is known of their windows.
pub open spec fn same_apps(a: Seq<ManagedApp>, b: Seq<ManagedApp>) -> bool {
    a.len() == b.len() && forall|j: int|
        0 <= j < a.len() ==> (#[trigger] a[j]).config == b[j].config && a[j].shortcut_id
            == b[j].shortcut_id
}

/// Whether the app that is said to be shown is one of the apps, and is noted as visible.
pub open spec fn consistent(r: RegistryView) -> bool {
    match r.current {
        None => true,
        Some(name) => match app_registry::app_named(r, name@) {
            Some(app) => app.visible,
            None => false,
        },
    }
}

/// Whether a registry differs from another one in what is known of one app alone, and in
/// whether that app is the one that is shown.
pub open spec fn touches_only(before: RegistryView, after: RegistryView, name: Seq<char>) -> bool {
    &&& same_apps(before.apps, after.apps)
    &&& forall|other: Seq<char>|
        other != name ==> #[trigger] app_registry::app_named(after, other)
            == app_registry::app_named(before, other)
    &&& after.current != before.current ==> {
        ||| after.current is None && before.current is Some && before.current->0@ == name
        ||| after.current is Some && after.current->0@ == name
    }
    &&& consistent(before) ==> consistent(after)
}

proof fn lemma_same_app_found(a: Seq<ManagedApp>, b: Seq<ManagedApp>, name: Seq<char>)
    requires
        same_apps(a, b),
    ensures
        app_registry::position(a, name) == app_registry::position(b, name),
{
    app_registry::lemma_same_names(a, b, name);
}

proof fn lemma_with_app(r: RegistryView, name: Seq<char>, app: ManagedApp)
    requires
        app_registry::app_named(r, name) is Some,
        app.config == app_registry::app_named(r, name)->0.config,
        app.shortcut_id == app_registry::app_named(r, name)->0.shortcut_id,
    ensures
        same_apps(r.apps, app_registry::with_app(r, name, app).apps),
        app_registry::with_app(r, name, app).current == r.current,
        app_registry::app_named(app_registry::with_app(r, name, app), name) == Some(app),
        forall|other: Seq<char>|
            other != name ==> #[trigger] app_registry::app_named(
                app_registry::with_app(r, name, app),
                other,
            ) == app_registry::app_named(r, other),
{
    let after = app_registry::with_app(r, name, app);
    app_registry::lemma_position(r.apps, name);
    assert(same_apps(r.apps, after.apps));
    lemma_same_app_found(r.apps, after.apps, name);
    assert forall|other: Seq<char>| other != name implies #[trigger] app_registry::app_named(
        after,
        other,
    ) == app_registry::app_named(r, other) by {
        lemma_same_app_found(r.apps, after.apps, other);
        app_registry::lemma_position(r.apps, other);
    }
}

proof fn lemma_touches_twice(a: RegistryView, b: RegistryView, c: RegistryView, name: Seq<char>)
    requires
        touches_only(a, b, name),
        touches_only(b, c, name),
        a.current == b.current,
    ensures
        touches_only(a, c, name),
{
    assert(same_apps(a.apps, c.apps)) by {
        assert forall|j: int| 0 <= j < a.apps.len() implies (#[trigger] a.apps[j]).config
            == c.apps[j].config && a.apps[j].shortcut_id == c.apps[j].shortcut_id by {
            assert(b.apps[j].config == a.apps[j].config);
        }
    }
    assert forall|other: Seq<char>| other != name implies #[trigger] app_registry::app_named(
        c,
        other,
    ) == app_registry::app_named(a, other) by {
        assert(app_registry::app_named(b, other) == app_registry::app_named(a, other));
    }
}

proof fn lemma_with_tracked(r: RegistryView, name: Seq<char>, id: Option<String>)
    ensures
        touches_only(r, app_registry::with_tracked(r, name, id), name),
        app_registry::with_tracked(r, name, id).current == r.current,
        match app_registry::app_named(r, name) {
            Some(app) => app_registry::app_named(app_registry::with_tracked(r, name, id), name)
                == Some(ManagedApp { tracked_window_id: id, ..app }),
            None => app_registry::with_tracked(r, name, id) == r,
        },
{
    if let Some(app) = app_registry::app_named(r, name) {
        lemma_with_app(r, name, ManagedApp { tracked_window_id: id, ..app });
    }
}

proof fn lemma_with_visible(r: RegistryView, name: String, visible: bool)
    ensures
        touches_only(r, app_registry::with_visible(r, name, visible), name@),
        match app_registry::app_named(r, name@) {
            Some(app) => app_registry::app_named(
                app_registry::with_visible(r, name, visible),
                name@,
            ) == Some(ManagedApp { visible, ..app }),
            None => app_registry::with_visible(r, name, visible) == r,
        },
{
    if let Some(app) = app_registry::app_named(r, name@) {
        let changed = app_registry::with_app(r, name@, ManagedApp { visible, ..app });
        let after = app_registry::with_visible(r, name, visible);
        lemma_with_app(r, name@, ManagedApp { visible, ..app });
        assert(after.apps == changed.apps);
        assert forall|other: Seq<char>| #[trigger] app_registry::app_named(after, other)
            == app_registry::app_named(changed, other) by {}
    }
}

proof fn lemma_with_shown(r: RegistryView, name: String, window: ManagedWindow)
    ensures
        touches_only(r, app_registry::with_shown(r, name, window), name@),
        match app_registry::app_named(r, name@) {
            Some(app) => {
                let after = app_registry::app_named(
                    app_registry::with_shown(r, name, window),
                    name@,
                );
                &&& after is Some
                &&& after->0.visible
                &&& after->0.tracked_window_id == Some(window.internal_id)
                &&& after->0.restore_no_border == app.restore_no_border
                &&& after->0.restore_geometry == if app_registry::is_new_window(app, window)
                    || app.restore_geometry is None {
                    Some(window.frame_geometry)
                } else {
                    app.restore_geometry
                }
            },
            None => app_registry::with_shown(r, name, window) == r,
        },
        app_registry::app_named(r, name@) is Some ==> app_registry::with_shown(
            r,
            name,
            window,
        ).current == Some(name),
{
    if let Some(app) = app_registry::app_named(r, name@) {
        let changed = ManagedApp {
            restore_geometry: if app_registry::is_new_window(app, window)
                || app.restore_geometry is None {
                Some(window.frame_geometry)
            } else {
                app.restore_geometry
            },
            tracked_window_id: Some(window.internal_id),
            ..app
        };
        let middle = app_registry::with_app(r, name@, changed);
        lemma_with_app(r, name@, changed);
        lemma_with_visible(middle, name, true);
        assert(touches_only(r, middle, name@));
        lemma_touches_twice(r, middle, app_registry::with_visible(middle, name, true), name@);
    }
}

proof fn lemma_with_border(r: RegistryView, name: Seq<char>, window: ManagedWindow)
    ensures
        touches_only(r, app_registry::with_border(r, name, window), name),
        app_registry::app_named(r, name) matches Some(app) ==> app_registry::app_named(
            app_registry::with_border(r, name, window),
            name,
        ) == Some(
            ManagedApp {
                restore_no_border: if app_registry::is_new_window(app, window)
                    || app.restore_no_border is None {
                    Some(window.no_border)
                } else {
                    app.restore_no_border
                },
                ..app
            },
        ),
{
    if let Some(app) = app_registry::app_named(r, name) {
        lemma_with_app(
            r,
            name,
            ManagedApp {
                restore_no_border: if app_registry::is_new_window(app, window)
                    || app.restore_no_border is None {
                    Some(window.no_border)
                } else {
                    app.restore_no_border
                },
                ..app
            },
        );
    }
}

/// What is known once an app's window has been hidden.
pub proof fn lemma_hidden(t: ToggleView, name: String, id: String)
    requires
        app_registry::app_named(t.registry, name@) is Some,
    ensures
        ({
            let (after, next) = model::hidden(t, name, AfterHideView::Finish, id);
            &&& next == ProgressView::Over(Ok(()))
            &&& after.screens == t.screens
            &&& after.registry.current == if t.registry.current is Some
                && t.registry.current->0@ == name@ {
                None
            } else {
                t.registry.current
            }
            &&& app_registry::app_named(after.registry, name@) == Some(
                ManagedApp {
                    visible: false,
                    tracked_window_id: Some(id),
                    ..app_registry::app_named(t.registry, name@)->0
                },
            )
        }),
{
    lemma_with_tracked(t.registry, name@, Some(id));
    lemma_with_visible(app_registry::with_tracked(t.registry, name@, Some(id)), name, false);
}

/// What is known once an app that has no window has been given up as hidden.
pub proof fn lemma_given_up(t: ToggleView, name: String)
    ensures
        app_registry::app_named(t.registry, name@) matches Some(app) ==> {
            let after = app_registry::with_visible(t.registry, name, false);
            &&& app_registry::app_named(after, name@) == Some(ManagedApp { visible: false, ..app })
            &&& !(after.current is Some && after.current->0@ == name@)
        },
{
    lemma_with_visible(t.registry, name, false);
}

/// What is known once the window of an app that is toggled has been looked for.
pub proof fn lemma_toggled(
    t: ToggleView,
    rest: RestView,
    window: Option<ManagedWindow>,
    now: u64,
)
    requires
        app_registry::app_named(t.registry, rest.name@) is Some,
    ensures
        ({
            let after = model::found(t, WindowGoalView::Toggle(rest), window, now).0;
            let visible = window is Some && !window->0.minimized;
            &&& after.screens == t.screens
            &&& after.registry.current == if visible {
                Some(rest.name)
            } else if t.registry.current is Some && t.registry.current->0@ == rest.name@ {
                None
            } else {
                t.registry.current
            }
            &&& app_registry::app_named(after.registry, rest.name@) == Some(
                ManagedApp {
                    visible,
                    tracked_window_id: match window {
                        Some(window) => Some(window.internal_id),
                        None => None,
                    },
                    ..app_registry::app_named(t.registry, rest.name@)->0
                },
            )
        }),
{
    let visible = window is Some && !window->0.minimized;
    let id = match window {
        Some(window) => Some(window.internal_id),
        None => None,
    };
    lemma_with_tracked(t.registry, rest.name@, id);
    lemma_with_visible(
        app_registry::with_tracked(t.registry, rest.name@, id),
        rest.name,
        visible,
    );
}

/// Toggling an app that is not known notes nothing.
pub proof fn lemma_toggled_unknown(
    t: ToggleView,
    rest: RestView,
    window: Option<ManagedWindow>,
    now: u64,
)
    requires
        app_registry::app_named(t.registry, rest.name@) is None,
    ensures
        model::found(t, WindowGoalView::Toggle(rest), window, now).0 == t,
{
}

/// What is known once an app's window has been brought back and shown.
pub proof fn lemma_noted(
    t: ToggleView,
    name: String,
    window: ManagedWindow,
    visible: FrameGeometry,
    plan: Option<PlanView>,
)
    requires
        app_registry::app_named(t.registry, name@) is Some,
    ensures
        ({
            let app = app_registry::app_named(t.registry, name@)->0;
            let between = model::revealed(t, name, window, visible, plan).0;
            let (after, next) = model::shown(between, name, window);
            let middle = app_registry::app_named(between.registry, name@);
            let shown = app_registry::app_named(after.registry, name@);
            &&& next == ProgressView::Over(Ok(()))
            &&& middle is Some
            &&& middle->0.config == app.config
            &&& shown is Some
            &&& shown->0.visible
            &&& shown->0.tracked_window_id == Some(window.internal_id)
            &&& after.registry.current == Some(name)
        }),
{
    lemma_with_border(t.registry, name@, window);
    lemma_with_shown(
        model::revealed(t, name, window, visible, plan).0.registry,
        name,
        window,
    );
}

/// The app that what a task waits for is about.
pub open spec fn subject(stage: StageView) -> Seq<char> {
    match stage {
        StageView::Screens(ScreensGoalView::Choose(ScreenGoal::Toggle { name, .. })) => name@,
        StageView::Screens(ScreensGoalView::Choose(ScreenGoal::Show { name, .. })) => name@,
        StageView::Screens(ScreensGoalView::Hide { name, .. }) => name@,
        StageView::Screens(ScreensGoalView::Show { name, .. }) => name@,
        StageView::Cursor { goal: ScreenGoal::Toggle { name, .. }, .. } => name@,
        StageView::Cursor { goal: ScreenGoal::Show { name, .. }, .. } => name@,
        StageView::ActiveWindow { goal: ScreenGoal::Toggle { name, .. }, .. } => name@,
        StageView::ActiveWindow { goal: ScreenGoal::Show { name, .. }, .. } => name@,
        StageView::Known(goal) => model::goal_name(goal)@,
        StageView::Listed(goal) => model::goal_name(goal)@,
        StageView::Spawning { name, .. } => name@,
        StageView::PollWait(poll) => poll.name@,
        StageView::PollList(poll) => poll.name@,
        StageView::HidePlan { name, .. } => name@,
        StageView::Hiding { name, .. } => name@,
        StageView::ShowPlan { name, .. } => name@,
        StageView::Revealing { name, .. } => name@,
        StageView::Showing { name, .. } => name@,
        StageView::RestoreFind { entries, next } => entries[next].name@,
        StageView::Restoring { entries, next } => entries[next].name@,
    }
}

proof fn lemma_found_touches(
    t: ToggleView,
    goal: WindowGoalView,
    window: Option<ManagedWindow>,
    now: u64,
)
    ensures
        touches_only(
            t.registry,
            model::found(t, goal, window, now).0.registry,
            model::goal_name(goal)@,
        ),
{
    match goal {
        WindowGoalView::Toggle(rest) => {
            let visible = window is Some && !window->0.minimized;
            let id = match window {
                Some(window) => Some(window.internal_id),
                None => None,
            };
            let middle = app_registry::with_tracked(t.registry, rest.name@, id);
            lemma_with_tracked(t.registry, rest.name@, id);
            lemma_with_visible(middle, rest.name, visible);
            lemma_touches_twice(
                t.registry,
                middle,
                app_registry::with_visible(middle, rest.name, visible),
                rest.name@,
            );
        },
        WindowGoalView::Hide { name, then } => {
            lemma_with_visible(t.registry, name, false);
        },
        WindowGoalView::Show { name, screen } => {},
    }
}

/// No step of a task adds an app, takes one away, or changes what an app is configured to be.
/// What is known of windows changes for the app that the step is about and for no other one. And
/// if the app that is said to be shown was a known app noted as visible, then it still is.
pub proof fn law_step_touches_only_its_app(
    t: ToggleView,
    stage: StageView,
    event: EventView,
    now: u64,
)
    ensures
        touches_only(
            t.registry,
            model::step(t, stage, event, now).0.registry,
            subject(stage),
        ),
{
    match (stage, event) {
        (StageView::Known(goal), EventView::Window(Some(window))) => {
            lemma_found_touches(t, goal, Some(window), now);
        },
        (StageView::Listed(goal), EventView::WindowList(windows)) => {
            if let Some(app) = app_registry::app_named(t.registry, model::goal_name(goal)@) {
                lemma_found_touches(t, goal, model::first_match(windows, app), now);
            }
        },
        (StageView::Hiding { name, then, id }, EventView::Done) => {
            let middle = app_registry::with_tracked(t.registry, name@, Some(id));
            lemma_with_tracked(t.registry, name@, Some(id));
            lemma_with_visible(middle, name, false);
            lemma_touches_twice(
                t.registry,
                middle,
                app_registry::with_visible(middle, name, false),
                name@,
            );
        },
        (StageView::Revealing { name, window, visible, plan }, EventView::Done) => {
            lemma_with_border(t.registry, name@, window);
        },
        (StageView::Showing { name, window }, EventView::Done) => {
            lemma_with_shown(t.registry, name, window);
        },
        _ => {},
    }
}

/// A press of a hotkey changes nothing that is known of apps or screens until something is
/// answered.
pub proof fn law_press_changes_no_app(t: ToggleView, id: String, now: u64)
    ensures
        model::pressed(t, id, now).0.registry == t.registry,
        model::pressed(t, id, now).0.screens == t.screens,
        model::pressed(t, id, now).0.pending == t.pending,
{
}

/// There is always at least one screen.
pub proof fn law_screens_never_run_out(t: ToggleView, stage: StageView, event: EventView, now: u64)
    requires
        t.screens.len() > 0,
    ensures
        model::step(t, stage, event, now).0.screens.len() > 0,
{
}

/// What fails outside leaves everything that is known of apps as it was. Where it is the
/// fetching of support information the task goes on, and else it ends with the reason.
pub proof fn law_failure_changes_no_app(
    t: ToggleView,
    stage: StageView,
    reason: String,
    now: u64,
)
    ensures
        model::step(t, stage, EventView::Failed(reason), now).0.registry == t.registry,
        model::step(t, stage, EventView::Failed(reason), now).0.screens == t.screens,
        !(stage is Screens) ==> model::step(t, stage, EventView::Failed(reason), now).1
            == ProgressView::Over(Err(ToggleError::Outside(reason))),
{
}

/// Whether a toggle hides or shows an app depends on the window alone: it is hidden if there is
/// one that is not minimized, and shown if not, whatever was noted of the app before.
pub proof fn law_toggle_goes_by_the_window(
    t: ToggleView,
    rest: RestView,
    window: Option<ManagedWindow>,
    now: u64,
)
    requires
        app_registry::app_named(t.registry, rest.name@) is Some,
    ensures
        ({
            let (after, next) = model::found(t, WindowGoalView::Toggle(rest), window, now);
            let app = app_registry::app_named(after.registry, rest.name@);
            let shown = window is Some && !window->0.minimized;
            let id = match window {
                Some(window) => Some(window.internal_id),
                None => None,
            };
            &&& app is Some
            &&& app->0.visible == shown
            &&& app->0.tracked_window_id == id
            &&& next == model::look_for(
                if shown {
                    WindowGoalView::Hide { name: rest.name, then: AfterHideView::Finish }
                } else {
                    WindowGoalView::Show { name: rest.name, screen: rest.screen }
                },
                id,
            )
        }),
{
    lemma_toggled(t, rest, window, now);
}

/// An app that is in the way is hidden before another one is toggled, and once it is hidden the
/// toggling goes on as if it had not been there.
pub proof fn law_other_app_is_hidden_first(t: ToggleView, rest: RestView, other: String, id: String)
    requires
        consistent(t.registry),
        model::other_shown(t.registry, rest.name@) == Some(other),
    ensures
        ({
            let app = app_registry::app_named(t.registry, other@);
            &&& app is Some
            &&& model::clear_way(t, rest, Some(other)) == model::look_for(
                WindowGoalView::Hide { name: other, then: AfterHideView::Resume(rest) },
                app->0.tracked_window_id,
            )
            &&& model::hidden(t, other, AfterHideView::Resume(rest), id).1 == model::clear_way(
                model::hidden(t, other, AfterHideView::Resume(rest), id).0,
                rest,
                None,
            )
            &&& model::hidden(t, other, AfterHideView::Resume(rest), id).0.registry.current is None
        }),
{
    lemma_with_tracked(t.registry, other@, Some(id));
}

/// Once an app's window has been hidden, the app is noted as hidden, its window is known, and
/// it is not the app that is shown.
pub proof fn law_hidden_app_is_hidden(
    t: ToggleView,
    name: String,
    then: AfterHideView,
    id: String,
    now: u64,
)
    requires
        app_registry::app_named(t.registry, name@) is Some,
    ensures
        ({
            let after = model::step(
                t,
                StageView::Hiding { name, then, id },
                EventView::Done,
                now,
            ).0.registry;
            let app = app_registry::app_named(after, name@);
            &&& app is Some
            &&& !app->0.visible
            &&& app->0.tracked_window_id == Some(id)
            &&& !(after.current is Some && after.current->0@ == name@)
        }),
{
    lemma_with_tracked(t.registry, name@, Some(id));
    lemma_with_visible(app_registry::with_tracked(t.registry, name@, Some(id)), name, false);
}

/// Once an app's window has been shown, the task is over, the app is noted as visible, its
/// window is known, and it is the app that is shown.
pub proof fn law_shown_app_is_shown(t: ToggleView, name: String, window: ManagedWindow, now: u64)
    requires
        app_registry::app_named(t.registry, name@) is Some,
    ensures
        ({
            let (after, next) = model::step(
                t,
                StageView::Showing { name, window },
                EventView::Done,
                now,
            );
            let app = app_registry::app_named(after.registry, name@);
            &&& next == ProgressView::Over(Ok(()))
            &&& app is Some
            &&& app->0.visible
            &&& app->0.tracked_window_id == Some(window.internal_id)
            &&& after.registry.current == Some(name)
        }),
{
    lemma_with_shown(t.registry, name, window);
}

/// The geometry that is put back at the end is the one from before the first time that the
/// window was shown: showing the same window again does not replace it.
pub proof fn law_first_geometry_is_kept(
    r: RegistryView,
    name: String,
    first: ManagedWindow,
    again: ManagedWindow,
)
    requires
        app_registry::app_named(r, name@) is Some,
        first.internal_id@ == again.internal_id@,
    ensures
        ({
            let once = app_registry::with_shown(r, name, first);
            let twice = app_registry::with_shown(once, name, again);
            app_registry::app_named(twice, name@)->0.restore_geometry == app_registry::app_named(
                once,
                name@,
            )->0.restore_geometry
        }),
{
    lemma_with_shown(r, name, first);
    lemma_with_shown(app_registry::with_shown(r, name, first), name, again);
}

/// Whether the window had a border is noted when its decorations are first hidden. That the
/// same window is shown and comes to have its decorations hidden again does not replace it.
pub proof fn law_first_border_is_kept(
    r: RegistryView,
    name: String,
    first: ManagedWindow,
    again: ManagedWindow,
)
    requires
        app_registry::app_named(r, name@) is Some,
        first.internal_id@ == again.internal_id@,
    ensures
        ({
            let once = app_registry::with_shown(
                app_registry::with_border(r, name@, first),
                name,
                first,
            );
            let twice = app_registry::with_border(once, name@, again);
            app_registry::app_named(twice, name@)->0.restore_no_border == app_registry::app_named(
                once,
                name@,
            )->0.restore_no_border
        }),
{
    let noted = app_registry::with_border(r, name@, first);
    lemma_with_border(r, name@, first);
    lemma_with_shown(noted, name, first);
    lemma_with_border(app_registry::with_shown(noted, name, first), name@, again);
}

/// When an app's window has been shown, the geometry that it had before is noted, unless one was
/// noted of this very window already: a window that takes the place of another one has its own
/// geometry noted. Of the border nothing changes.
pub proof fn law_geometry_is_noted_of_each_window(
    t: ToggleView,
    name: String,
    window: ManagedWindow,
    now: u64,
)
    requires
        app_registry::app_named(t.registry, name@) is Some,
    ensures
        ({
            let before = app_registry::app_named(t.registry, name@)->0;
            let after = app_registry::app_named(
                model::step(
                    t,
                    StageView::Showing { name, window },
                    EventView::Done,
                    now,
                ).0.registry,
                name@,
            )->0;
            let same = match before.tracked_window_id {
                Some(id) => id@ == window.internal_id@,
                None => false,
            };
            &&& same && before.restore_geometry is Some ==> after.restore_geometry
                == before.restore_geometry
            &&& !same || before.restore_geometry is None ==> after.restore_geometry == Some(
                window.frame_geometry,
            )
            &&& after.restore_no_border == before.restore_no_border
        }),
{
    lemma_with_shown(t.registry, name, window);
}

/// Before an app's decorations are hidden it is noted whether its window has a border, unless that
/// was noted of this very window already. Nothing is noted of an app that keeps its decorations,
/// and nothing else of any app.
pub proof fn law_border_is_noted_of_each_window(
    t: ToggleView,
    name: String,
    window: ManagedWindow,
    visible: FrameGeometry,
    plan: Option<PlanView>,
    now: u64,
)
    requires
        app_registry::app_named(t.registry, name@) is Some,
    ensures
        ({
            let before = app_registry::app_named(t.registry, name@)->0;
            let t_after = model::step(
                t,
                StageView::Revealing { name, window, visible, plan },
                EventView::Done,
                now,
            ).0;
            let after = app_registry::app_named(t_after.registry, name@)->0;
            let same = match before.tracked_window_id {
                Some(id) => id@ == window.internal_id@,
                None => false,
            };
            &&& !before.config.hide_decorations ==> t_after == t
            &&& before.config.hide_decorations && same && before.restore_no_border is Some
                ==> after.restore_no_border == before.restore_no_border
            &&& before.config.hide_decorations && (!same || before.restore_no_border is None)
                ==> after.restore_no_border == Some(window.no_border)
            &&& after == (ManagedApp { restore_no_border: after.restore_no_border, ..before })
        }),
{
    lemma_with_border(t.registry, name@, window);
}

/// Waiting for a window comes to an end: as long as it goes on, fewer looks are left, and when
/// it ends an app that was started for it counts as being started no longer.
pub proof fn law_waiting_ends(t: ToggleView, poll: PollView, windows: Seq<ManagedWindow>)
    requires
        app_registry::app_named(t.registry, poll.name@) is Some,
    ensures
        match model::polled(t, poll, windows) {
            (after, ProgressView::Ask(_, StageView::PollWait(next))) => after == t && 0 < next.left
                < poll.left && next.claimed == poll.claimed && next.name == poll.name,
            (after, _) => poll.claimed ==> !after.pending.contains_key(poll.name@),
        },
{
}

/// An app that could not be started, or that has nothing to start it by, does not count as being
/// started afterwards.
pub proof fn law_failed_start_is_released(
    t: ToggleView,
    name: String,
    on: Option<ScreenView>,
    reason: String,
    now: u64,
)
    ensures
        !model::step(
            t,
            StageView::Spawning { name, screen: on },
            EventView::Failed(reason),
            now,
        ).0.pending.contains_key(name@),
        model::without_window(t, name, on, now).1 == ProgressView::Over(
            Err(ToggleError::CannotSpawn(name)),
        ) ==> !model::without_window(t, name, on, now).0.pending.contains_key(name@),
{
}

/// An app is started only where it has no window, it is to be started then, and it is not being
/// started already; from then on it is being started.
pub proof fn law_start_is_claimed(t: ToggleView, name: String, on: Option<ScreenView>, now: u64)
    requires
        model::without_window(t, name, on, now).1 is Ask,
        model::without_window(t, name, on, now).1->Ask_0 is Spawn,
    ensures
        !timing::starting(t.pending, name@, now),
        timing::starting(model::without_window(t, name, on, now).0.pending, name@, now),
        app_registry::app_named(t.registry, name@) is Some,
        app_registry::app_named(t.registry, name@)->0.config.attach_mode
            == crate::config::AttachMode::FindOrStart,
{
}

/// The app that is shown stays where it is when its own window has the focus, and when it is not
/// to be hidden for want of the focus.
pub proof fn law_focus_hides_only_others(t: ToggleView, active: Option<Seq<char>>)
    requires
        consistent(t.registry),
        t.registry.current is Some ==> !model::loses_focus(
            app_registry::app_named(t.registry, t.registry.current->0@)->0,
            active,
        ),
    ensures
        model::focus_changed(t, active) == ProgressView::Over(Ok(())),
{
}

/// A hotkey toggles the app that it is registered for, where no two apps share one.
pub proof fn law_hotkey_toggles_its_app(t: ToggleView, i: int, id: String, now: u64)
    requires
        0 <= i < t.registry.apps.len(),
        forall|j: int|
            0 <= j < t.registry.apps.len() && j != i ==> (#[trigger] t.registry.apps[j])
                .shortcut_id@ != t.registry.apps[i].shortcut_id@,
        id@ == t.registry.apps[i].shortcut_id@,
        !timing::repeated(t.pressed, id@, now),
    ensures
        model::pressed(t, id, now).1 == model::toggle(
            model::pressed(t, id, now).0,
            t.registry.apps[i].config.name,
        ),
{
    app_registry::lemma_shortcut_position(t.registry.apps, id@);
}

/// A hotkey that is pressed again within the window does nothing, whatever the first press did.
pub proof fn law_second_press_does_nothing(
    t: ToggleView,
    after: ToggleView,
    id: String,
    first: u64,
    second: u64,
)
    requires
        !timing::repeated(t.pressed, id@, first),
        after.pressed == model::pressed(t, id, first).0.pressed,
        first <= second <= first + timing::HOTKEY_DEBOUNCE_WINDOW,
    ensures
        model::pressed(after, id, second).1 == ProgressView::Over(Ok(())),
{
    timing::law_repeated_press_is_ignored(t.pressed, id@, first, second);
}

/// A hidden window rests minimized in the place where it is shown, not where it was parked.
pub proof fn law_hidden_window_rests_in_its_place(
    id: String,
    visible: FrameGeometry,
    hidden: FrameGeometry,
    plan: Option<PlanView>,
)
    ensures
        ({
            let done = commands::hide_commands(id, visible, hidden, plan);
            &&& done.len() >= 3
            &&& done[done.len() - 3] == (Command::SetMinimized { id, minimized: true })
            &&& done[done.len() - 2] == (Command::Move { id, geometry: visible })
            &&& done[done.len() - 1] == (Command::Resize { id, geometry: visible })
        }),
{
}

/// A window takes the state from which its animation begins before it can be seen.
pub proof fn law_window_is_readied_before_it_is_seen(id: String, plan: Option<PlanView>)
    ensures
        ({
            let done = commands::reveal_commands(id, plan);
            &&& done.last() == (Command::SetMinimized { id, minimized: false })
            &&& forall|i: int|
                0 <= i < done.len() - 1 ==> !((#[trigger] done[i]) is SetMinimized)
            &&& plan is Some ==> done.drop_last() == commands::state_commands(id, plan->0.setup)
        }),
{
    let done = commands::reveal_commands(id, plan);
    if let Some(plan) = plan {
        assert(done.drop_last() =~= commands::state_commands(id, plan.setup));
    }
}

/// A window that is hidden without an animation gets its size before it leaves the screen.
pub proof fn law_window_is_sized_before_it_is_parked(
    id: String,
    visible: FrameGeometry,
    hidden: FrameGeometry,
)
    ensures
        commands::hide_commands(id, visible, hidden, None) =~= seq![
            Command::Resize { id, geometry: hidden },
            Command::Move { id, geometry: hidden },
            Command::SetMinimized { id, minimized: true },
            Command::Move { id, geometry: visible },
            Command::Resize { id, geometry: visible },
        ],
{
}

proof fn lemma_frames_keep_the_border(id: String, frames: Seq<WindowState>, count: int)
    requires
        count <= frames.len(),
    ensures
        forall|i: int|
            0 <= i < commands::frame_commands(id, frames, count).len() ==> !((
            #[trigger] commands::frame_commands(id, frames, count)[i]) is SetNoBorder),
    decreases count,
{
    if count > 0 {
        lemma_frames_keep_the_border(id, frames, count - 1);
    }
}

/// Showing a window takes its border away first where that is asked for and it has one, and else
/// leaves the border alone.
pub proof fn law_border_goes_only_if_asked(
    window: ManagedWindow,
    hide_decorations: bool,
    visible: FrameGeometry,
    plan: Option<PlanView>,
)
    ensures
        ({
            let done = commands::show_commands(window, hide_decorations, visible, plan);
            let gone = Command::SetNoBorder { id: window.internal_id, no_border: true };
            let first: int = if hide_decorations && !window.no_border {
                1
            } else {
                0
            };
            &&& first == 1 ==> done[0] == gone
            &&& forall|i: int| first <= i < done.len() ==> !((#[trigger] done[i]) is SetNoBorder)
        }),
{
    if let Some(plan) = plan {
        lemma_frames_keep_the_border(window.internal_id, plan.frames, plan.frames.len() as int);
    }
}

/// The screen under a point is one that the point is on, and there is none before it.
pub proof fn law_screen_under_a_point_is_the_first(screens: Seq<ScreenView>, point: Point)
    ensures
        match model::first_containing(screens, point) {
            Some(i) => 0 <= i < screens.len() && screen::on_screen(
                screens[i],
                point.x as int,
                point.y as int,
            ) && forall|j: int|
                0 <= j < i ==> !screen::on_screen(
                    #[trigger] screens[j],
                    point.x as int,
                    point.y as int,
                ),
            None => forall|j: int|
                0 <= j < screens.len() ==> !screen::on_screen(
                    #[trigger] screens[j],
                    point.x as int,
                    point.y as int,
                ),
        },
    decreases screens.len(),
{
    if screens.len() > 0 {
        let before = screens.drop_last();
        law_screen_under_a_point_is_the_first(before, point);
        assert forall|j: int| 0 <= j < before.len() implies before[j] == #[trigger] screens[j] by {}
    }
}

/// The screen that a window is on is one of which it covers no less than of any other, and less
/// of every one after it.
pub proof fn law_window_is_on_the_most_covered_screen(
    screens: Seq<ScreenView>,
    geometry: FrameGeometry,
    i: int,
)
    requires
        0 <= i < screens.len(),
    ensures
        ({
            let best = model::most_covered(screens, geometry);
            &&& 0 <= best < screens.len()
            &&& screen::overlap(screens[i], geometry) <= screen::overlap(screens[best], geometry)
            &&& best < i ==> screen::overlap(screens[i], geometry) < screen::overlap(
                screens[best],
                geometry,
            )
        }),
    decreases screens.len(),
{
    if screens.len() > 1 {
        let before = screens.drop_last();
        if i < before.len() {
            law_window_is_on_the_most_covered_screen(before, geometry, i);
        } else {
            law_window_is_on_the_most_covered_screen(before, geometry, 0);
        }
    }
}

/// What is put back for an app whose window is known.
pub open spec fn entry_for(app: ManagedApp) -> RestoreEntry {
    RestoreEntry {
        name: app.config.name,
        window_id: app.tracked_window_id->0,
        geometry: app.restore_geometry,
        no_border: app.restore_no_border,
        visible: app.visible,
    }
}

/// At the end of the program the window of every app whose window is known is put back.
pub proof fn law_every_known_window_is_put_back(apps: Seq<ManagedApp>, i: int)
    requires
        0 <= i < apps.len(),
        apps[i].tracked_window_id is Some,
    ensures
        model::restore_entries(apps).contains(entry_for(apps[i])),
    decreases apps.len(),
{
    let before = model::restore_entries(apps.drop_last());
    let entries = model::restore_entries(apps);
    if i < apps.len() - 1 {
        law_every_known_window_is_put_back(apps.drop_last(), i);
        let k = choose|k: int| 0 <= k < before.len() && before[k] == entry_for(apps[i]);
        assert(entries[k] == entry_for(apps[i]));
    } else {
        assert(entries[entries.len() - 1] == entry_for(apps[i]));
    }
}

/// At the end of the program nothing is put back but the windows of apps whose window is known.
pub proof fn law_only_known_windows_are_put_back(apps: Seq<ManagedApp>, k: int)
    requires
        0 <= k < model::restore_entries(apps).len(),
    ensures
        exists|i: int|
            0 <= i < apps.len() && (#[trigger] apps[i]).tracked_window_id is Some
                && model::restore_entries(apps)[k] == entry_for(apps[i]),
    decreases apps.len(),
{
    if apps.len() > 0 {
        let before = apps.drop_last();
        if k < model::restore_entries(before).len() {
            law_only_known_windows_are_put_back(before, k);
            let i = choose|i: int|
                0 <= i < before.len() && (#[trigger] before[i]).tracked_window_id is Some
                    && model::restore_entries(before)[k] == entry_for(before[i]);
            assert(apps[i].tracked_window_id is Some);
        } else {
            assert(apps[apps.len() - 1].tracked_window_id is Some);
        }
    }
}

/// What is said to the user of a task that failed names the app or the shortcut that it is about,
/// and says why it failed; what failed outside is passed on as it is.
pub proof fn law_errors_name_what_they_are_about(name: String, error: screen::PlacementError)
    ensures
        types::message_of(ToggleError::UnknownShortcut(name)) == "unknown shortcut '"@ + name@
            + "'"@,
        types::message_of(ToggleError::UnknownApp(name)) == "unknown app '"@ + name@ + "'"@,
        types::message_of(ToggleError::NoWindow(name)) == "no existing window matched app '"@
            + name@ + "'"@,
        types::message_of(ToggleError::NeverAppeared(name)) == "spawned app '"@ + name@
            + "' but no matching window appeared"@,
        types::message_of(ToggleError::CannotSpawn(name)) == "app '"@ + name@
            + "' cannot spawn without filename or command"@,
        types::message_of(ToggleError::InvalidPlacement { name, error })
            == "invalid placement for '"@ + name@ + "'"@,
        types::message_of(ToggleError::Outside(name)) == name@,
        types::chain_of(ToggleError::InvalidPlacement { name, error })
            == "invalid placement for '"@ + name@ + "'"@ + ": "@ + screen::misfit_message(error),
        types::chain_of(ToggleError::NoWindow(name)) == types::message_of(
            ToggleError::NoWindow(name),
        ),
        types::chain_of(ToggleError::Outside(name)) == name@,
{
}

} // verus!
