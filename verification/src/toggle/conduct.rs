//! What holds of single steps of a task: what is asked for, where a window goes, and when an app
//! is started, waited for or hidden.

use crate::animation::{PlanView, TransitionPhase};
use crate::app_registry;
use crate::config::{AnimationStyle, AttachMode, PlacementMetric};
use crate::screen;
use crate::screen::{PlacementError, ScreenView};
use crate::toggle::aims;
use crate::toggle::commands;
use crate::toggle::laws;
use crate::toggle::model;
use crate::toggle::model::ToggleView;
use crate::toggle::runs;
use crate::toggle::types::{
    ActionView, AfterHideView, EventView, PollView, ProgressView, RestView, ScreenGoal,
    ScreensGoalView, StageView, ToggleError, WindowGoalView,
};
use crate::wm;
use crate::wm::types;
use crate::wm::{FrameGeometry, ManagedWindow, Point};
use vstd::prelude::*;

verus! {

/// Whether a task goes on by asking to start a program.
pub open spec fn starts(p: ProgressView) -> bool {
    match p {
        ProgressView::Ask(ActionView::Spawn(_), _) => true,
        _ => false,
    }
}

/// Whenever a task asks to start a program, that is the one of the app that the task is about:
/// the first word of its command, with all the others as arguments in their order, in exactly the
/// directory that is configured, if one is. The app is one that may be started.
pub proof fn law_app_is_started_by_its_command(
    t: ToggleView,
    stage: StageView,
    event: EventView,
    now: u64,
)
    requires
        starts(model::step(t, stage, event, now).1),
    ensures
        ({
            let request = model::step(t, stage, event, now).1->Ask_0->Spawn_0;
            let app = app_registry::app_named(t.registry, laws::subject(stage));
            &&& app is Some
            &&& app->0.config.attach_mode == AttachMode::FindOrStart
            &&& app->0.config.command@.len() == request.arguments.len() + 1
            &&& app->0.config.command@[0] == request.program
            &&& forall|i: int|
                0 <= i < request.arguments.len() ==> app->0.config.command@[i + 1]
                    == #[trigger] request.arguments[i]
            &&& request.directory == app->0.config.working_directory
            &&& match model::step(t, stage, event, now).1->Ask_1 {
                StageView::Spawning { name, .. } => name@ == laws::subject(stage),
                _ => false,
            }
        }),
{
}

/// An app that is only to be found is never started.
pub proof fn law_app_to_be_found_is_never_started(
    t: ToggleView,
    stage: StageView,
    event: EventView,
    now: u64,
)
    requires
        app_registry::app_named(t.registry, laws::subject(stage)) matches Some(app)
            ==> app.config.attach_mode == AttachMode::Find,
    ensures
        !starts(model::step(t, stage, event, now).1),
{
    if starts(model::step(t, stage, event, now).1) {
        law_app_is_started_by_its_command(t, stage, event, now);
    }
}

/// No task begins by starting a program: an app's window is always looked for first.
pub proof fn law_window_is_looked_for_before_a_start(
    t: ToggleView,
    name: String,
    id: String,
    active: Option<Seq<char>>,
    now: u64,
)
    ensures
        !starts(model::toggle(t, name)),
        !starts(model::pressed(t, id, now).1),
        !starts(model::focus_changed(t, active)),
        !starts(model::restore_from(model::restore_entries(t.registry.apps), 0)),
{
}

/// Whether an app counts as being started: a start of it was noted less than fifteen seconds ago.
pub open spec fn started_lately(t: ToggleView, name: Seq<char>, now: u64) -> bool {
    t.pending.contains_key(name) && now < t.pending[name] + 15_000_000_000
}

/// The task that waits for the window of an app, which is looked for so many times more, a quarter
/// of a second apart.
pub open spec fn waits(name: String, on: Option<ScreenView>, claimed: bool, left: u32) -> ProgressView {
    ProgressView::Ask(
        ActionView::Sleep { milliseconds: 250 },
        StageView::PollWait(PollView { name, screen: on, claimed, left }),
    )
}

proof fn lemma_no_match(windows: Seq<ManagedWindow>, app: app_registry::ManagedApp)
    requires
        forall|i: int|
            0 <= i < windows.len() ==> !types::window_matches(#[trigger] windows[i], app.config),
    ensures
        model::first_match(windows, app) is None,
{
    if types::matching(windows, app.config).len() > 0 {
        wm::laws::law_first_match_is_picked(windows, app.config);
    }
}

proof fn lemma_first_match(windows: Seq<ManagedWindow>, app: app_registry::ManagedApp, i: int)
    requires
        0 <= i < windows.len(),
        types::window_matches(windows[i], app.config),
        forall|j: int|
            0 <= j < i ==> !types::window_matches(#[trigger] windows[j], app.config),
    ensures
        model::first_match(windows, app) == Some(windows[i]),
    decreases windows.len(),
{
    let before = windows.drop_last();
    let last = windows.last();
    assert(before.push(last) =~= windows);
    wm::laws::law_every_match_counts_once(before, last, app.config);
    if i < before.len() {
        assert forall|j: int| 0 <= j < before.len() implies before[j] == #[trigger] windows[j] by {}
        lemma_first_match(before, app, i);
    } else {
        lemma_no_match(before, app);
    }
}

/// What is done to show an app for which no listed window is found: one that is only to be found is
/// given up. One that may be started is started, which is noted, unless it was started less than
/// fifteen seconds ago, and then its window is waited for; without anything to start it by it is
/// given up.
pub proof fn law_app_without_window_is_started(
    t: ToggleView,
    name: String,
    on: Option<ScreenView>,
    windows: Seq<ManagedWindow>,
    now: u64,
)
    requires
        app_registry::app_named(t.registry, name@) is Some,
        forall|i: int|
            0 <= i < windows.len() ==> !types::window_matches(
                #[trigger] windows[i],
                app_registry::app_named(t.registry, name@)->0.config,
            ),
    ensures
        ({
            let app = app_registry::app_named(t.registry, name@)->0;
            let (after, next) = model::step(
                t,
                StageView::Listed(WindowGoalView::Show { name, screen: on }),
                EventView::WindowList(windows),
                now,
            );
            match app.config.attach_mode {
                AttachMode::Find => after == t && next == ProgressView::Over(
                    Err(ToggleError::NoWindow(name)),
                ),
                AttachMode::FindOrStart => if started_lately(t, name@, now) {
                    &&& next == waits(name, on, false, 40)
                    &&& after.pending.contains_key(name@)
                    &&& after.pending[name@] == t.pending[name@]
                } else if app.config.command@.len() == 0 {
                    &&& next == ProgressView::Over(Err(ToggleError::CannotSpawn(name)))
                    &&& !after.pending.contains_key(name@)
                } else {
                    &&& starts(next)
                    &&& next->Ask_1 == (StageView::Spawning { name, screen: on })
                    &&& after.pending.contains_key(name@)
                    &&& after.pending[name@] == now
                },
            }
        }),
{
    let app = app_registry::app_named(t.registry, name@)->0;
    lemma_no_match(windows, app);
}

/// The answers to a task that waits for a window, while none of the listed windows is the app's.
pub open spec fn vain_looks(lists: Seq<Seq<ManagedWindow>>) -> Seq<EventView>
    decreases lists.len(),
{
    if lists.len() == 0 {
        Seq::empty()
    } else {
        seq![EventView::Done, EventView::WindowList(lists[0])] + vain_looks(lists.drop_first())
    }
}

/// Whether some lists of windows hold none of an app's.
pub open spec fn in_vain(lists: Seq<Seq<ManagedWindow>>, app: app_registry::ManagedApp) -> bool {
    forall|i: int, j: int|
        0 <= i < lists.len() && 0 <= j < lists[i].len() ==> !types::window_matches(
            #[trigger] lists[i][j],
            app.config,
        )
}

proof fn lemma_vain_looks(
    t: ToggleView,
    poll: PollView,
    lists: Seq<Seq<ManagedWindow>>,
    now: spec_fn(nat) -> u64,
)
    requires
        app_registry::app_named(t.registry, poll.name@) is Some,
        in_vain(lists, app_registry::app_named(t.registry, poll.name@)->0),
        0 < poll.left,
        lists.len() <= poll.left,
    ensures
        ({
            let begun = waits(poll.name, poll.screen, poll.claimed, poll.left);
            let (after, end) = runs::run(t, begun, vain_looks(lists), now);
            if lists.len() < poll.left {
                &&& after == t
                &&& end == waits(
                    poll.name,
                    poll.screen,
                    poll.claimed,
                    (poll.left - lists.len()) as u32,
                )
            } else {
                &&& end == ProgressView::Over(Err(ToggleError::NeverAppeared(poll.name)))
                &&& after == if poll.claimed {
                    ToggleView { pending: t.pending.remove(poll.name@), ..t }
                } else {
                    t
                }
            }
        }),
    decreases lists.len(),
{
    if lists.len() > 0 {
        let app = app_registry::app_named(t.registry, poll.name@)->0;
        let begun = waits(poll.name, poll.screen, poll.claimed, poll.left);
        let answers = vain_looks(lists);
        let rest = lists.drop_first();
        assert forall|j: int| 0 <= j < lists[0].len() implies !types::window_matches(
            #[trigger] lists[0][j],
            app.config,
        ) by {}
        lemma_no_match(lists[0], app);
        assert(answers.drop_first().drop_first() =~= vain_looks(rest));
        reveal_with_fuel(runs::run, 3);
        if poll.left > 1 {
            let later = PollView { left: (poll.left - 1) as u32, ..poll };
            assert forall|i: int, j: int|
                0 <= i < rest.len() && 0 <= j < rest[i].len() implies !types::window_matches(
                #[trigger] rest[i][j],
                app.config,
            ) by {
                assert(rest[i] == lists[i + 1]);
                assert(rest[i][j] == lists[i + 1][j]);
            }
            lemma_vain_looks(t, later, rest, now);
        } else {
            assert(vain_looks(rest) =~= Seq::empty());
        }
    }
}

/// The window of an app that has been started is looked for forty times, a quarter of a second
/// apart, before it is given up; the app counts as being started until then and no longer.
pub proof fn law_window_is_looked_for_forty_times(
    t: ToggleView,
    action: ActionView,
    name: String,
    on: Option<ScreenView>,
    lists: Seq<Seq<ManagedWindow>>,
    now: spec_fn(nat) -> u64,
)
    requires
        app_registry::app_named(t.registry, name@) is Some,
        in_vain(lists, app_registry::app_named(t.registry, name@)->0),
        lists.len() <= 40,
    ensures
        ({
            let begun = ProgressView::Ask(action, StageView::Spawning { name, screen: on });
            let answers = seq![EventView::Done] + vain_looks(lists);
            let (after, end) = runs::run(t, begun, answers, now);
            if lists.len() < 40 {
                &&& after == t
                &&& end == waits(name, on, true, (40 - lists.len()) as u32)
            } else {
                &&& end == ProgressView::Over(Err(ToggleError::NeverAppeared(name)))
                &&& after == (ToggleView { pending: t.pending.remove(name@), ..t })
            }
        }),
{
    let begun = ProgressView::Ask(action, StageView::Spawning { name, screen: on });
    let answers = seq![EventView::Done] + vain_looks(lists);
    assert(answers.drop_first() =~= vain_looks(lists));
    reveal_with_fuel(runs::run, 2);
    lemma_vain_looks(t, PollView { name, screen: on, claimed: true, left: 40 }, lists, now);
}

/// As soon as a window of the app that is waited for is listed, the first such window is shown on
/// the screen that was chosen, and an app that was started for it counts as being started no
/// longer. An app that something else is starting goes on to count as being started.
pub proof fn law_window_that_appears_is_shown(
    t: ToggleView,
    poll: PollView,
    windows: Seq<ManagedWindow>,
    i: int,
    now: u64,
)
    requires
        app_registry::app_named(t.registry, poll.name@) is Some,
        0 <= i < windows.len(),
        types::window_matches(
            windows[i],
            app_registry::app_named(t.registry, poll.name@)->0.config,
        ),
        forall|j: int|
            0 <= j < i ==> !types::window_matches(
                #[trigger] windows[j],
                app_registry::app_named(t.registry, poll.name@)->0.config,
            ),
    ensures
        ({
            let (after, next) = model::step(
                t,
                StageView::PollList(poll),
                EventView::WindowList(windows),
                now,
            );
            &&& after.registry == t.registry
            &&& after.pending == if poll.claimed {
                t.pending.remove(poll.name@)
            } else {
                t.pending
            }
            &&& match poll.screen {
                Some(on) => goes_to(
                    t,
                    ScreenGoal::Show { name: poll.name, window: windows[i] },
                    on,
                    next,
                ),
                None => next == chooses(ScreenGoal::Show { name: poll.name, window: windows[i] }),
            }
        }),
{
    lemma_first_match(windows, app_registry::app_named(t.registry, poll.name@)->0, i);
}

/// The task that chooses a screen: the screens are fetched first.
pub open spec fn chooses(goal: ScreenGoal) -> ProgressView {
    ProgressView::Ask(
        ActionView::SupportInformation,
        StageView::Screens(ScreensGoalView::Choose(goal)),
    )
}

/// The task that looks for a window: under the identifier that is known, or else among all.
pub open spec fn seeks(goal: WindowGoalView, known: Option<String>) -> ProgressView {
    match known {
        Some(id) => ProgressView::Ask(ActionView::Window(id), StageView::Known(goal)),
        None => ProgressView::Ask(ActionView::WindowList, StageView::Listed(goal)),
    }
}

/// Whether a task goes on with a given screen. A window is shown in its place there, unless it is
/// larger than the screen. An app that is toggled keeps the screen until it is shown, and one that
/// is in its way is hidden before.
pub open spec fn goes_to(t: ToggleView, goal: ScreenGoal, on: ScreenView, next: ProgressView) -> bool {
    match goal {
        ScreenGoal::Show { name, window } => match app_registry::app_named(t.registry, name@) {
            None => next == ProgressView::Over(Err(ToggleError::UnknownApp(name))),
            Some(app) => if larger(app.config.placement.width, on.width as int) {
                next == ProgressView::Over(
                    Err(
                        ToggleError::InvalidPlacement { name, error: PlacementError::TooWide },
                    ),
                )
            } else if larger(app.config.placement.height, on.height as int) {
                next == ProgressView::Over(
                    Err(
                        ToggleError::InvalidPlacement { name, error: PlacementError::TooTall },
                    ),
                )
            } else {
                next == ProgressView::Ask(
                    ActionView::SupportInformation,
                    StageView::Screens(
                        ScreensGoalView::Show {
                            name,
                            window,
                            visible: screen::placed(on, app.config.placement),
                        },
                    ),
                )
            },
        },
        ScreenGoal::Toggle { name, known, other } => {
            let rest = RestView { name, known, screen: Some(on) };
            match other {
                None => next == seeks(WindowGoalView::Toggle(rest), known),
                Some(other) => match app_registry::app_named(t.registry, other@) {
                    None => next == ProgressView::Over(Err(ToggleError::UnknownApp(other))),
                    Some(app) => next == seeks(
                        WindowGoalView::Hide { name: other, then: AfterHideView::Resume(rest) },
                        app.tracked_window_id,
                    ),
                },
            }
        },
    }
}

/// Whether a size is a number of pixels that is more than a side.
pub open spec fn larger(size: PlacementMetric, side: int) -> bool {
    match size {
        PlacementMetric::Pixels(n) => n > side,
        PlacementMetric::Percent(_) => false,
    }
}

/// Before a screen is chosen the screens are fetched anew: those that are described then are the
/// ones that are known from then on, and the ones from before stay where none can be read. Then it
/// is asked where the pointer is.
pub proof fn law_screens_are_fetched_before_one_is_chosen(
    t: ToggleView,
    goal: ScreenGoal,
    information: Seq<char>,
    reason: String,
    now: u64,
)
    ensures
        ({
            let stage = StageView::Screens(ScreensGoalView::Choose(goal));
            let fresh = model::step(
                t,
                stage,
                EventView::SupportInformation(Some(information)),
                now,
            );
            let none = model::step(t, stage, EventView::SupportInformation(None), now);
            let failed = model::step(t, stage, EventView::Failed(reason), now);
            &&& match screen::support::screens_of(information) {
                Ok(screens) => fresh.0 == (ToggleView { screens, ..t }),
                Err(_) => fresh.0 == t,
            }
            &&& none.0 == t
            &&& failed.0 == t
            &&& fresh.1 == ProgressView::Ask(
                ActionView::CursorPosition,
                StageView::Cursor { goal, screens: fresh.0.screens },
            )
            &&& none.1 == failed.1
            &&& none.1 == ProgressView::Ask(
                ActionView::CursorPosition,
                StageView::Cursor { goal, screens: t.screens },
            )
        }),
{
}

/// The screen that is chosen is the first one that the pointer is on.
pub proof fn law_screen_under_the_pointer_is_chosen(
    t: ToggleView,
    goal: ScreenGoal,
    screens: Seq<ScreenView>,
    point: Point,
    i: int,
    now: u64,
)
    requires
        0 <= i < screens.len(),
        screens[i].x <= point.x < screens[i].x + screens[i].width,
        screens[i].y <= point.y < screens[i].y + screens[i].height,
        forall|j: int|
            0 <= j < i ==> {
                let s = #[trigger] screens[j];
                !(s.x <= point.x < s.x + s.width && s.y <= point.y < s.y + s.height)
            },
    ensures
        model::step(
            t,
            StageView::Cursor { goal, screens },
            EventView::CursorPosition(Some(point)),
            now,
        ).0 == t,
        goes_to(
            t,
            goal,
            screens[i],
            model::step(
                t,
                StageView::Cursor { goal, screens },
                EventView::CursorPosition(Some(point)),
                now,
            ).1,
        ),
{
    laws::law_screen_under_a_point_is_the_first(screens, point);
}

/// Where the pointer is on no screen, or nobody knows where it is, it is asked which window has the
/// focus.
pub proof fn law_focus_counts_where_the_pointer_does_not(
    t: ToggleView,
    goal: ScreenGoal,
    screens: Seq<ScreenView>,
    position: Option<Point>,
    now: u64,
)
    requires
        position matches Some(point) ==> forall|j: int|
            0 <= j < screens.len() ==> {
                let s = #[trigger] screens[j];
                !(s.x <= point.x < s.x + s.width && s.y <= point.y < s.y + s.height)
            },
    ensures
        model::step(
            t,
            StageView::Cursor { goal, screens },
            EventView::CursorPosition(position),
            now,
        ) == (
            t,
            ProgressView::Ask(ActionView::ActiveWindow, StageView::ActiveWindow { goal, screens }),
        ),
{
    if let Some(point) = position {
        laws::law_screen_under_a_point_is_the_first(screens, point);
    }
}

/// The screen that is chosen by the focus is one that the window with the focus covers most of,
/// and the last of those; where no window has the focus it is the first screen of all.
pub proof fn law_screen_of_the_focus_is_chosen(
    t: ToggleView,
    goal: ScreenGoal,
    screens: Seq<ScreenView>,
    window: ManagedWindow,
    i: int,
    now: u64,
)
    requires
        0 <= i < screens.len(),
        forall|j: int|
            0 <= j < screens.len() ==> screen::overlap(#[trigger] screens[j], window.frame_geometry)
                <= screen::overlap(screens[i], window.frame_geometry),
        forall|j: int|
            i < j < screens.len() ==> screen::overlap(#[trigger] screens[j], window.frame_geometry)
                < screen::overlap(screens[i], window.frame_geometry),
    ensures
        ({
            let stage = StageView::ActiveWindow { goal, screens };
            let focused = model::step(t, stage, EventView::ActiveWindow(Some(window)), now);
            let none = model::step(t, stage, EventView::ActiveWindow(None), now);
            &&& focused.0 == t
            &&& none.0 == t
            &&& goes_to(t, goal, screens[i], focused.1)
            &&& goes_to(t, goal, screens[0], none.1)
        }),
{
    laws::law_window_is_on_the_most_covered_screen(screens, window.frame_geometry, i);
}

/// An app whose window was found is shown on the screen that was chosen, and where none was, one is
/// chosen first.
pub proof fn law_found_window_goes_to_the_chosen_screen(
    t: ToggleView,
    name: String,
    on: Option<ScreenView>,
    window: ManagedWindow,
    now: u64,
)
    ensures
        ({
            let (after, next) = model::step(
                t,
                StageView::Known(WindowGoalView::Show { name, screen: on }),
                EventView::Window(Some(window)),
                now,
            );
            &&& after == t
            &&& match on {
                Some(on) => goes_to(t, ScreenGoal::Show { name, window }, on, next),
                None => next == chooses(ScreenGoal::Show { name, window }),
            }
        }),
{
}

/// The transition that is asked for is the one of the app, between the place where the window is
/// shown and the one right above the screens, and it goes the way that the task goes: the window is
/// hidden on the screen that it covers most of, and shown where it is to be shown.
pub proof fn law_transition_is_the_one_of_the_app(
    t: ToggleView,
    name: String,
    then: AfterHideView,
    window: ManagedWindow,
    visible: FrameGeometry,
    information: Option<Seq<char>>,
    i: int,
    now: u64,
)
    requires
        app_registry::app_named(t.registry, name@) is Some,
    ensures
        ({
            let app = app_registry::app_named(t.registry, name@)->0;
            let hiding = model::step(
                t,
                StageView::Screens(ScreensGoalView::Hide { name, then, window }),
                EventView::SupportInformation(information),
                now,
            );
            let screens = hiding.0.screens;
            &&& 0 <= i < screens.len() && (forall|j: int|
                0 <= j < screens.len() ==> screen::overlap(
                    #[trigger] screens[j],
                    window.frame_geometry,
                ) <= screen::overlap(screens[i], window.frame_geometry)) && (forall|j: int|
                i < j < screens.len() ==> screen::overlap(
                    #[trigger] screens[j],
                    window.frame_geometry,
                ) < screen::overlap(screens[i], window.frame_geometry)) ==> {
                let place = screen::placed(screens[i], app.config.placement);
                hiding.1 == ProgressView::Ask(
                    ActionView::Plan {
                        animation: app.config.animation,
                        visible: place,
                        hidden: screen::parked(screens, place),
                        phase: TransitionPhase::Hide,
                    },
                    StageView::HidePlan {
                        name,
                        then,
                        id: window.internal_id,
                        visible: place,
                        hidden: screen::parked(screens, place),
                    },
                )
            }
        }),
        ({
            let app = app_registry::app_named(t.registry, name@)->0;
            let (after, next) = model::step(
                t,
                StageView::Screens(ScreensGoalView::Show { name, window, visible }),
                EventView::SupportInformation(information),
                now,
            );
            next == ProgressView::Ask(
                ActionView::Plan {
                    animation: app.config.animation,
                    visible,
                    hidden: screen::parked(after.screens, visible),
                    phase: TransitionPhase::Show,
                },
                StageView::ShowPlan { name, window, visible },
            )
        }),
{
    let screens = model::refreshed(t.screens, information);
    if 0 <= i < screens.len() {
        laws::law_window_is_on_the_most_covered_screen(screens, window.frame_geometry, i);
    }
}

/// When the focus moves, the app that is shown is hidden exactly where it asks for that and the
/// focus is not on its own window; nothing happens where no app is shown.
pub proof fn law_app_is_hidden_where_it_loses_the_focus(t: ToggleView, active: Option<Seq<char>>)
    ensures
        t.registry.current is None ==> model::focus_changed(t, active) == ProgressView::Over(
            Ok(()),
        ),
        t.registry.current matches Some(name) ==> match app_registry::app_named(
            t.registry,
            name@,
        ) {
            None => model::focus_changed(t, active) == ProgressView::Over(
                Err(ToggleError::UnknownApp(name)),
            ),
            Some(app) => {
                let own = match (app.tracked_window_id, active) {
                    (Some(id), Some(active)) => id@ == active,
                    (None, None) => true,
                    _ => false,
                };
                model::focus_changed(t, active) == if app.config.hide_on_focus_lost && !own {
                    seeks(
                        WindowGoalView::Hide { name, then: AfterHideView::Finish },
                        app.tracked_window_id,
                    )
                } else {
                    ProgressView::Over(Ok(()))
                }
            },
        },
{
}

/// A press of a hotkey that no app has is refused, and one of an app that is gone too.
pub proof fn law_unknown_hotkey_is_refused(t: ToggleView, id: String, name: String, now: u64)
    requires
        forall|i: int|
            0 <= i < t.registry.apps.len() ==> (#[trigger] t.registry.apps[i]).shortcut_id@ != id@,
        forall|i: int|
            0 <= i < t.registry.apps.len() ==> (#[trigger] t.registry.apps[i]).config.name@
                != name@,
        t.pressed.contains_key(id@) ==> t.pressed[id@] + 400_000_000 < now,
    ensures
        model::pressed(t, id, now).1 == ProgressView::Over(Err(ToggleError::UnknownShortcut(id))),
        model::toggle(t, name) == ProgressView::Over(Err(ToggleError::UnknownApp(name))),
{
    app_registry::lemma_shortcut_position(t.registry.apps, id@);
    app_registry::lemma_position(t.registry.apps, name@);
}

/// A toggle begins with the app that is in the way: the one that is shown, where it is another one.
/// A screen is chosen before anything else for an app that is noted as hidden, and for no other.
pub proof fn law_toggle_begins_with_what_is_in_the_way(t: ToggleView, name: String)
    requires
        app_registry::app_named(t.registry, name@) is Some,
        t.registry.current matches Some(current) ==> app_registry::app_named(
            t.registry,
            current@,
        ) is Some,
    ensures
        ({
            let app = app_registry::app_named(t.registry, name@)->0;
            let rest = RestView { name, known: app.tracked_window_id, screen: None };
            let in_the_way = t.registry.current is Some && t.registry.current->0@ != name@;
            let begun = model::toggle(t, name);
            if app.visible {
                if in_the_way {
                    let other = t.registry.current->0;
                    begun == seeks(
                        WindowGoalView::Hide { name: other, then: AfterHideView::Resume(rest) },
                        app_registry::app_named(t.registry, other@)->0.tracked_window_id,
                    )
                } else {
                    begun == seeks(WindowGoalView::Toggle(rest), app.tracked_window_id)
                }
            } else {
                begun == chooses(
                    ScreenGoal::Toggle {
                        name,
                        known: app.tracked_window_id,
                        other: if in_the_way {
                            t.registry.current
                        } else {
                            None
                        },
                    },
                )
            }
        }),
{
}

/// When a toggle ends well, the app that was shown before is hidden, if it is another one.
pub proof fn law_one_app_is_shown_at_a_time(
    t: ToggleView,
    name: String,
    other: String,
    answers: Seq<EventView>,
    now: spec_fn(nat) -> u64,
)
    requires
        t.registry.current == Some(other),
        other@ != name@,
        runs::run(t, model::toggle(t, name), answers, now).1 == ProgressView::Over(Ok(())),
    ensures
        ({
            let after = runs::run(t, model::toggle(t, name), answers, now).0;
            let app = app_registry::app_named(after.registry, other@);
            &&& app is Some
            &&& !app->0.visible
            &&& after.registry.current != Some(other)
        }),
{
    aims::law_other_app_ends_hidden(t, name, other, answers, now);
}

/// Whether what a task is told answers what it waits for.
pub open spec fn fits(stage: StageView, event: EventView) -> bool {
    match event {
        EventView::SupportInformation(_) => stage is Screens,
        EventView::CursorPosition(_) => stage is Cursor,
        EventView::ActiveWindow(_) => stage is ActiveWindow,
        EventView::Window(_) => stage is Known || stage is RestoreFind,
        EventView::WindowList(_) => stage is Listed || stage is PollList,
        EventView::Planned(_) => stage is HidePlan || stage is ShowPlan,
        EventView::Done => stage is Spawning || stage is PollWait || stage is Hiding || stage
            is Revealing || stage is Showing || stage is Restoring,
        EventView::Failed(_) => true,
    }
}

/// An answer to something that was not asked ends the task, and changes nothing.
pub proof fn law_answer_that_does_not_fit_ends_the_task(
    t: ToggleView,
    stage: StageView,
    event: EventView,
    now: u64,
)
    requires
        !fits(stage, event),
    ensures
        model::step(t, stage, event, now) == (
            t,
            ProgressView::Over(Err(ToggleError::Unexpected)),
        ),
{
}

/// The window of an app that has an animation goes through the transition that was worked out for
/// it, when it is hidden and when it is shown; where none was worked out it goes through none.
pub proof fn law_animated_app_goes_through_its_transition(
    t: ToggleView,
    name: String,
    then: AfterHideView,
    window: ManagedWindow,
    visible: FrameGeometry,
    hidden: FrameGeometry,
    plan: Option<PlanView>,
    now: u64,
)
    requires
        app_registry::app_named(t.registry, name@) is Some,
        app_registry::app_named(t.registry, name@)->0.config.animation.style
            != AnimationStyle::Off,
    ensures
        ({
            let app = app_registry::app_named(t.registry, name@)->0;
            let id = window.internal_id;
            let hiding = model::step(
                t,
                StageView::HidePlan { name, then, id, visible, hidden },
                EventView::Planned(plan),
                now,
            );
            let showing = model::step(
                t,
                StageView::ShowPlan { name, window, visible },
                EventView::Planned(plan),
                now,
            );
            let revealed = model::step(
                t,
                StageView::Revealing { name, window, visible, plan },
                EventView::Done,
                now,
            );
            &&& hiding == (
                t,
                ProgressView::Ask(
                    ActionView::Perform(commands::hide_commands(id, visible, hidden, plan)),
                    StageView::Hiding { name, then, id },
                ),
            )
            &&& showing == (
                t,
                ProgressView::Ask(
                    ActionView::Perform(commands::reveal_commands(id, plan)),
                    StageView::Revealing { name, window, visible, plan },
                ),
            )
            &&& revealed.1 == ProgressView::Ask(
                ActionView::Perform(
                    commands::show_commands(
                        window,
                        app.config.hide_decorations,
                        visible,
                        plan,
                    ),
                ),
                StageView::Showing { name, window },
            )
        }),
{
}

} // verus!
