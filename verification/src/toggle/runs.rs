//! What holds of tasks from their beginning to their end.

use crate::animation::PlanView;
use crate::app_registry;
use crate::app_registry::ManagedApp;
use crate::config::AnimationStyle;
use crate::screen;
use crate::screen::ScreenView;
use crate::toggle::commands;
use crate::toggle::laws;
use crate::toggle::model;
use crate::toggle::model::ToggleView;
use crate::toggle::types::{
    ActionView, AfterHideView, Command, EventView, ProgressView, RestView, RestoreEntry,
    ScreenGoal, ScreensGoalView, StageView, WindowGoalView,
};
use crate::wm::{ManagedWindow, Point};
use vstd::prelude::*;

verus! {

/// How far a task comes with the given answers, and what is known then. What time it is at an
/// answer is told by how many are still to come.
pub open spec fn run(
    t: ToggleView,
    p: ProgressView,
    answers: Seq<EventView>,
    now: spec_fn(nat) -> u64,
) -> (ToggleView, ProgressView)
    decreases answers.len(),
{
    match p {
        ProgressView::Over(_) => (t, p),
        ProgressView::Ask(_, stage) => if answers.len() == 0 {
            (t, p)
        } else {
            let (after, next) = model::step(t, stage, answers[0], now(answers.len()));
            run(after, next, answers.drop_first(), now)
        },
    }
}

/// Everything that is done to windows along the way.
pub open spec fn performed(
    t: ToggleView,
    p: ProgressView,
    answers: Seq<EventView>,
    now: spec_fn(nat) -> u64,
) -> Seq<Command>
    decreases answers.len(),
{
    match p {
        ProgressView::Over(_) => Seq::empty(),
        ProgressView::Ask(action, stage) => if answers.len() == 0 {
            Seq::empty()
        } else {
            let (after, next) = model::step(t, stage, answers[0], now(answers.len()));
            (match (action, answers[0]) {
                (ActionView::Perform(commands), EventView::Done) => commands,
                _ => Seq::empty(),
            }) + performed(after, next, answers.drop_first(), now)
        },
    }
}

/// However far a task comes, and whatever is answered: the apps and their configuration stay the
/// same, the app that is said to be shown is a known app noted as visible, and there is at least
/// one screen.
pub proof fn law_every_run_keeps_order(
    t: ToggleView,
    p: ProgressView,
    answers: Seq<EventView>,
    now: spec_fn(nat) -> u64,
)
    requires
        laws::consistent(t.registry),
        t.screens.len() > 0,
    ensures
        laws::same_apps(t.registry.apps, run(t, p, answers, now).0.registry.apps),
        laws::consistent(run(t, p, answers, now).0.registry),
        run(t, p, answers, now).0.screens.len() > 0,
    decreases answers.len(),
{
    if let ProgressView::Ask(_, stage) = p {
        if answers.len() > 0 {
            let (after, next) = model::step(t, stage, answers[0], now(answers.len()));
            laws::law_step_touches_only_its_app(t, stage, answers[0], now(answers.len()));
            laws::law_screens_never_run_out(t, stage, answers[0], now(answers.len()));
            law_every_run_keeps_order(after, next, answers.drop_first(), now);
            let a = t.registry.apps;
            let b = after.registry.apps;
            let c = run(t, p, answers, now).0.registry.apps;
            assert forall|j: int| 0 <= j < a.len() implies (#[trigger] a[j]).config == c[j].config
                && a[j].shortcut_id == c[j].shortcut_id by {
                assert(b[j].config == a[j].config);
            }
        }
    }
}

/// How an app's window is looked for: it is found under the identifier that is known, or what is
/// found are the windows that are listed.
pub enum Search {
    Known(ManagedWindow),
    Listed(Seq<ManagedWindow>),
}

/// Whether a search can go this way: only what is known can be found under its identifier.
pub open spec fn possible(known: Option<String>, how: Search) -> bool {
    how is Known ==> known is Some
}

/// The answers that a search meets.
pub open spec fn search_answers(known: Option<String>, how: Search) -> Seq<EventView> {
    match how {
        Search::Known(window) => seq![EventView::Window(Some(window))],
        Search::Listed(windows) => if known is Some {
            seq![EventView::Window(None), EventView::WindowList(windows)]
        } else {
            seq![EventView::WindowList(windows)]
        },
    }
}

/// The window that a search finds, if it finds one.
pub open spec fn search_result(app: ManagedApp, how: Search) -> Option<ManagedWindow> {
    match how {
        Search::Known(window) => Some(window),
        Search::Listed(windows) => model::first_match(windows, app),
    }
}

proof fn lemma_search(
    t: ToggleView,
    goal: WindowGoalView,
    known: Option<String>,
    how: Search,
    tail: Seq<EventView>,
    now: spec_fn(nat) -> u64,
)
    requires
        app_registry::app_named(t.registry, model::goal_name(goal)@) is Some,
        possible(known, how),
    ensures
        ({
            let app = app_registry::app_named(t.registry, model::goal_name(goal)@)->0;
            let begun = model::look_for(goal, known);
            let answers = search_answers(known, how) + tail;
            let (after, next) = model::found(
                t,
                goal,
                search_result(app, how),
                now((tail.len() + 1) as nat),
            );
            &&& run(t, begun, answers, now) == run(after, next, tail, now)
            &&& performed(t, begun, answers, now) == performed(after, next, tail, now)
        }),
{
    let app = app_registry::app_named(t.registry, model::goal_name(goal)@)->0;
    let begun = model::look_for(goal, known);
    let answers = search_answers(known, how) + tail;
    let (after, next) = model::found(
        t,
        goal,
        search_result(app, how),
        now((tail.len() + 1) as nat),
    );
    if how is Listed && known is Some {
        assert(answers.drop_first().drop_first() =~= tail);
    } else {
        assert(answers.drop_first() =~= tail);
    }
    assert(run(t, begun, answers, now) == run(after, next, tail, now)) by {
        reveal_with_fuel(run, 3);
    }
    assert(performed(t, begun, answers, now) =~= performed(after, next, tail, now)) by {
        reveal_with_fuel(performed, 3);
    }
}

/// The answers that the hiding of an app meets once its window is found.
pub open spec fn hiding_answers(information: Option<Seq<char>>, plan: Option<PlanView>) -> Seq<
    EventView,
> {
    seq![
        EventView::SupportInformation(information),
        EventView::Planned(plan),
        EventView::Done,
    ]
}

/// Hiding an app whose window is found does exactly what hides a window, and leaves the app
/// hidden.
pub proof fn law_hide_runs_to_its_end(
    t: ToggleView,
    name: String,
    how: Search,
    information: Option<Seq<char>>,
    plan: Option<PlanView>,
    now: spec_fn(nat) -> u64,
)
    requires
        app_registry::app_named(t.registry, name@) is Some,
        possible(app_registry::app_named(t.registry, name@)->0.tracked_window_id, how),
        search_result(app_registry::app_named(t.registry, name@)->0, how) is Some,
    ensures
        ({
            let app = app_registry::app_named(t.registry, name@)->0;
            let window = search_result(app, how)->0;
            let begun = model::begin_hide(t, name, AfterHideView::Finish);
            let answers = search_answers(app.tracked_window_id, how) + hiding_answers(
                information,
                plan,
            );
            let (after, end) = run(t, begun, answers, now);
            let screens = model::refreshed(t.screens, information);
            let visible = screen::placed(
                model::screen_for(screens, window.frame_geometry),
                app.config.placement,
            );
            &&& end == ProgressView::Over(Ok(()))
            &&& after.screens == screens
            &&& after.registry.current == if t.registry.current is Some
                && t.registry.current->0@ == name@ {
                None
            } else {
                t.registry.current
            }
            &&& app_registry::app_named(after.registry, name@) == Some(
                ManagedApp {
                    visible: false,
                    tracked_window_id: Some(window.internal_id),
                    ..app
                },
            )
            &&& performed(t, begun, answers, now) == commands::hide_commands(
                window.internal_id,
                visible,
                screen::parked(screens, visible),
                model::plan_of(app, plan),
            )
        }),
{
    let app = app_registry::app_named(t.registry, name@)->0;
    let window = search_result(app, how)->0;
    let goal = WindowGoalView::Hide { name, then: AfterHideView::Finish };
    let tail = hiding_answers(information, plan);
    let (found, next) = model::found(t, goal, Some(window), now((tail.len() + 1) as nat));
    let screens = model::refreshed(t.screens, information);
    let visible = screen::placed(
        model::screen_for(screens, window.frame_geometry),
        app.config.placement,
    );
    let wanted = commands::hide_commands(
        window.internal_id,
        visible,
        screen::parked(screens, visible),
        model::plan_of(app, plan),
    );
    lemma_search(t, goal, app.tracked_window_id, how, tail, now);
    laws::lemma_hidden(t, name, window.internal_id);
    reveal_with_fuel(run, 4);
    reveal_with_fuel(performed, 4);
    assert(performed(found, next, tail, now) =~= wanted);
}

/// Hiding an app that turns out to have no window does nothing to any window. The app is noted as
/// hidden all the same.
pub proof fn law_hide_without_window_only_notes_it(
    t: ToggleView,
    name: String,
    how: Search,
    now: spec_fn(nat) -> u64,
)
    requires
        app_registry::app_named(t.registry, name@) is Some,
        possible(app_registry::app_named(t.registry, name@)->0.tracked_window_id, how),
        search_result(app_registry::app_named(t.registry, name@)->0, how) is None,
    ensures
        ({
            let app = app_registry::app_named(t.registry, name@)->0;
            let begun = model::begin_hide(t, name, AfterHideView::Finish);
            let answers = search_answers(app.tracked_window_id, how);
            let (after, end) = run(t, begun, answers, now);
            &&& end == ProgressView::Over(Ok(()))
            &&& after.screens == t.screens
            &&& after.registry.current == if t.registry.current is Some
                && t.registry.current->0@ == name@ {
                None
            } else {
                t.registry.current
            }
            &&& app_registry::app_named(after.registry, name@) == Some(
                ManagedApp { visible: false, ..app },
            )
            &&& performed(t, begun, answers, now) == Seq::<Command>::empty()
        }),
{
    let app = app_registry::app_named(t.registry, name@)->0;
    let goal = WindowGoalView::Hide { name, then: AfterHideView::Finish };
    let answers = search_answers(app.tracked_window_id, how);
    lemma_search(t, goal, app.tracked_window_id, how, Seq::empty(), now);
    assert(answers + Seq::<EventView>::empty() =~= answers);
    laws::lemma_given_up(t, name);
}

/// Toggling an app that is noted as visible, whose window is found and is not minimized, hides
/// it; the next toggle begins by choosing a screen to show it on. The window is looked for twice,
/// and what is hidden is what is found the second time, if there is something then.
pub proof fn law_toggle_hides_a_shown_app(
    t: ToggleView,
    name: String,
    first: Search,
    second: Search,
    information: Option<Seq<char>>,
    plan: Option<PlanView>,
    now: spec_fn(nat) -> u64,
)
    requires
        app_registry::app_named(t.registry, name@) is Some,
        app_registry::app_named(t.registry, name@)->0.visible,
        model::other_shown(t.registry, name@) is None,
        possible(app_registry::app_named(t.registry, name@)->0.tracked_window_id, first),
        search_result(app_registry::app_named(t.registry, name@)->0, first) is Some,
        !search_result(app_registry::app_named(t.registry, name@)->0, first)->0.minimized,
    ensures
        ({
            let app = app_registry::app_named(t.registry, name@)->0;
            let seen = search_result(app, first)->0;
            let window = search_result(app, second);
            let begun = model::toggle(t, name);
            let answers = search_answers(app.tracked_window_id, first) + (search_answers(
                Some(seen.internal_id),
                second,
            ) + if window is Some {
                hiding_answers(information, plan)
            } else {
                Seq::empty()
            });
            let (after, end) = run(t, begun, answers, now);
            let screens = model::refreshed(t.screens, information);
            let id = if window is Some {
                window->0.internal_id
            } else {
                seen.internal_id
            };
            &&& end == ProgressView::Over(Ok(()))
            &&& app_registry::app_named(after.registry, name@) == Some(
                ManagedApp { visible: false, tracked_window_id: Some(id), ..app },
            )
            &&& after.registry.current is None
            &&& performed(t, begun, answers, now) == if window is Some {
                let visible = screen::placed(
                    model::screen_for(screens, window->0.frame_geometry),
                    app.config.placement,
                );
                commands::hide_commands(
                    id,
                    visible,
                    screen::parked(screens, visible),
                    model::plan_of(app, plan),
                )
            } else {
                Seq::empty()
            }
            &&& model::toggle(after, name) == ProgressView::Ask(
                ActionView::SupportInformation,
                StageView::Screens(
                    ScreensGoalView::Choose(
                        ScreenGoal::Toggle { name, known: Some(id), other: None },
                    ),
                ),
            )
        }),
{
    let app = app_registry::app_named(t.registry, name@)->0;
    let seen = search_result(app, first)->0;
    let rest = RestView { name, known: app.tracked_window_id, screen: None };
    let goal = WindowGoalView::Toggle(rest);
    let again = search_answers(Some(seen.internal_id), second);
    let tail = again + if search_result(app, second) is Some {
        hiding_answers(information, plan)
    } else {
        Seq::empty()
    };
    let at = now((tail.len() + 1) as nat);
    let (found, next) = model::found(t, goal, Some(seen), at);
    laws::lemma_toggled(t, rest, Some(seen), at);
    lemma_search(t, goal, app.tracked_window_id, first, tail, now);
    assert(next == model::begin_hide(found, name, AfterHideView::Finish));
    if search_result(app, second) is Some {
        law_hide_runs_to_its_end(found, name, second, information, plan, now);
    } else {
        assert(tail =~= again);
        law_hide_without_window_only_notes_it(found, name, second, now);
    }
}

/// The answers that the showing of an app on a given screen meets once its window is found.
pub open spec fn showing_answers(information: Option<Seq<char>>, plan: Option<PlanView>) -> Seq<
    EventView,
> {
    seq![
        EventView::SupportInformation(information),
        EventView::Planned(plan),
        EventView::Done,
        EventView::Done,
    ]
}

proof fn lemma_found_window_is_shown(
    t: ToggleView,
    name: String,
    on: ScreenView,
    window: ManagedWindow,
    information: Option<Seq<char>>,
    plan: Option<PlanView>,
    now: spec_fn(nat) -> u64,
)
    requires
        app_registry::app_named(t.registry, name@) is Some,
        screen::misfit(
            on,
            app_registry::app_named(t.registry, name@)->0.config.placement,
        ) is None,
    ensures
        ({
            let app = app_registry::app_named(t.registry, name@)->0;
            let begun = model::fit(t, name, window, on);
            let answers = showing_answers(information, plan);
            let (after, end) = run(t, begun, answers, now);
            let shown = app_registry::app_named(after.registry, name@);
            &&& end == ProgressView::Over(Ok(()))
            &&& shown is Some
            &&& shown->0.visible
            &&& shown->0.tracked_window_id == Some(window.internal_id)
            &&& after.registry.current == Some(name)
            &&& performed(t, begun, answers, now) == commands::reveal_commands(
                window.internal_id,
                model::plan_of(app, plan),
            ) + commands::show_commands(
                window,
                app.config.hide_decorations,
                screen::placed(on, app.config.placement),
                model::plan_of(app, plan),
            )
        }),
{
    let app = app_registry::app_named(t.registry, name@)->0;
    let begun = model::fit(t, name, window, on);
    let answers = showing_answers(information, plan);
    let visible = screen::placed(on, app.config.placement);
    let fresh = ToggleView { screens: model::refreshed(t.screens, information), ..t };
    let wanted = commands::reveal_commands(
        window.internal_id,
        model::plan_of(app, plan),
    ) + commands::show_commands(
        window,
        app.config.hide_decorations,
        visible,
        model::plan_of(app, plan),
    );
    laws::lemma_noted(fresh, name, window, visible, model::plan_of(app, plan));
    reveal_with_fuel(run, 5);
    reveal_with_fuel(performed, 5);
    assert(performed(t, begun, answers, now) =~= wanted);
}

/// Showing an app on a screen that its placement fits, with its window found, does exactly what
/// shows a window, and leaves the app shown.
pub proof fn law_show_runs_to_its_end(
    t: ToggleView,
    name: String,
    on: ScreenView,
    how: Search,
    information: Option<Seq<char>>,
    plan: Option<PlanView>,
    now: spec_fn(nat) -> u64,
)
    requires
        app_registry::app_named(t.registry, name@) is Some,
        possible(app_registry::app_named(t.registry, name@)->0.tracked_window_id, how),
        search_result(app_registry::app_named(t.registry, name@)->0, how) is Some,
        screen::misfit(
            on,
            app_registry::app_named(t.registry, name@)->0.config.placement,
        ) is None,
    ensures
        ({
            let app = app_registry::app_named(t.registry, name@)->0;
            let window = search_result(app, how)->0;
            let begun = model::begin_show(t, name, Some(on));
            let answers = search_answers(app.tracked_window_id, how) + showing_answers(
                information,
                plan,
            );
            let (after, end) = run(t, begun, answers, now);
            let shown = app_registry::app_named(after.registry, name@);
            &&& end == ProgressView::Over(Ok(()))
            &&& shown is Some
            &&& shown->0.visible
            &&& shown->0.tracked_window_id == Some(window.internal_id)
            &&& after.registry.current == Some(name)
            &&& performed(t, begun, answers, now) == commands::reveal_commands(
                window.internal_id,
                model::plan_of(app, plan),
            ) + commands::show_commands(
                window,
                app.config.hide_decorations,
                screen::placed(on, app.config.placement),
                model::plan_of(app, plan),
            )
        }),
{
    let app = app_registry::app_named(t.registry, name@)->0;
    let window = search_result(app, how)->0;
    let goal = WindowGoalView::Show { name, screen: Some(on) };
    let tail = showing_answers(information, plan);
    lemma_search(t, goal, app.tracked_window_id, how, tail, now);
    lemma_found_window_is_shown(t, name, on, window, information, plan, now);
}

/// Toggling an app that is noted as hidden, which has no window or a minimized one, shows it on
/// the screen under the pointer, if its placement fits there and a window is found to be shown;
/// the next toggle begins by looking for that window.
pub proof fn law_toggle_shows_a_hidden_app(
    t: ToggleView,
    name: String,
    before: Option<Seq<char>>,
    pointer: Point,
    first: Search,
    second: Search,
    information: Option<Seq<char>>,
    plan: Option<PlanView>,
    now: spec_fn(nat) -> u64,
)
    requires
        app_registry::app_named(t.registry, name@) is Some,
        !app_registry::app_named(t.registry, name@)->0.visible,
        model::other_shown(t.registry, name@) is None,
        possible(app_registry::app_named(t.registry, name@)->0.tracked_window_id, first),
        search_result(
            app_registry::app_named(t.registry, name@)->0,
            first,
        ) matches Some(seen) ==> seen.minimized,
        search_result(app_registry::app_named(t.registry, name@)->0, first) is None
            ==> second is Listed,
        search_result(app_registry::app_named(t.registry, name@)->0, second) is Some,
        model::first_containing(model::refreshed(t.screens, before), pointer) is Some,
        screen::misfit(
            model::refreshed(t.screens, before)[model::first_containing(
                model::refreshed(t.screens, before),
                pointer,
            )->0],
            app_registry::app_named(t.registry, name@)->0.config.placement,
        ) is None,
    ensures
        ({
            let app = app_registry::app_named(t.registry, name@)->0;
            let seen = match search_result(app, first) {
                Some(window) => Some(window.internal_id),
                None => None,
            };
            let window = search_result(app, second)->0;
            let begun = model::toggle(t, name);
            let answers = seq![
                EventView::SupportInformation(before),
                EventView::CursorPosition(Some(pointer)),
            ] + (search_answers(app.tracked_window_id, first) + (search_answers(seen, second)
                + showing_answers(information, plan)));
            let (after, end) = run(t, begun, answers, now);
            let screens = model::refreshed(t.screens, before);
            let visible = screen::placed(
                screens[model::first_containing(screens, pointer)->0],
                app.config.placement,
            );
            let shown = app_registry::app_named(after.registry, name@);
            &&& end == ProgressView::Over(Ok(()))
            &&& shown is Some
            &&& shown->0.visible
            &&& shown->0.tracked_window_id == Some(window.internal_id)
            &&& after.registry.current == Some(name)
            &&& performed(t, begun, answers, now) == commands::reveal_commands(
                window.internal_id,
                model::plan_of(app, plan),
            ) + commands::show_commands(
                window,
                app.config.hide_decorations,
                visible,
                model::plan_of(app, plan),
            )
            &&& model::toggle(after, name) == ProgressView::Ask(
                ActionView::Window(window.internal_id),
                StageView::Known(
                    WindowGoalView::Toggle(
                        RestView { name, known: Some(window.internal_id), screen: None },
                    ),
                ),
            )
        }),
{
    let app = app_registry::app_named(t.registry, name@)->0;
    let seen = match search_result(app, first) {
        Some(window) => Some(window.internal_id),
        None => None,
    };
    let begun = model::toggle(t, name);
    let tail = search_answers(seen, second) + showing_answers(information, plan);
    let searching = search_answers(app.tracked_window_id, first) + tail;
    let answers = seq![
        EventView::SupportInformation(before),
        EventView::CursorPosition(Some(pointer)),
    ] + searching;
    let screens = model::refreshed(t.screens, before);
    let on = screens[model::first_containing(screens, pointer)->0];
    let chosen = ToggleView { screens, ..t };
    let rest = RestView { name, known: app.tracked_window_id, screen: Some(on) };
    let goal = WindowGoalView::Toggle(rest);
    let at = now((tail.len() + 1) as nat);
    let (found, next) = model::found(chosen, goal, search_result(app, first), at);
    let looking = model::look_for(goal, app.tracked_window_id);
    laws::lemma_toggled(chosen, rest, search_result(app, first), at);
    assert(next == model::begin_show(found, name, Some(on)));
    assert(answers.drop_first().drop_first() =~= searching);
    assert(run(t, begun, answers, now) == run(chosen, looking, searching, now)) by {
        reveal_with_fuel(run, 3);
    }
    assert(performed(t, begun, answers, now) =~= performed(chosen, looking, searching, now)) by {
        reveal_with_fuel(performed, 3);
    }
    lemma_search(chosen, goal, app.tracked_window_id, first, tail, now);
    law_show_runs_to_its_end(found, name, on, second, information, plan, now);
}

/// Whether no app has an animation.
pub open spec fn none_animated(t: ToggleView) -> bool {
    forall|i: int|
        0 <= i < t.registry.apps.len() ==> (#[trigger] t.registry.apps[i]).config.animation.style
            == AnimationStyle::Off
}

/// The answers with no transition worked out in any of them.
pub open spec fn without_plans(answers: Seq<EventView>) -> Seq<EventView> {
    Seq::new(
        answers.len(),
        |i: int|
            match answers[i] {
                EventView::Planned(_) => EventView::Planned(None),
                other => other,
            },
    )
}

/// An app that has no animation is hidden and shown without one, whatever transition is worked
/// out: what is done, what is known and what comes next are as if there were none.
pub proof fn law_app_without_animation_is_not_animated(
    t: ToggleView,
    stage: StageView,
    plan: Option<PlanView>,
    now: u64,
)
    requires
        app_registry::app_named(t.registry, laws::subject(stage)) matches Some(app)
            ==> app.config.animation.style == AnimationStyle::Off,
    ensures
        model::step(t, stage, EventView::Planned(plan), now) == model::step(
            t,
            stage,
            EventView::Planned(None),
            now,
        ),
{
}

/// Where no app has an animation, every task comes as far, and does exactly the same to windows,
/// with transitions worked out as without.
pub proof fn law_nothing_is_animated_without_animations(
    t: ToggleView,
    p: ProgressView,
    answers: Seq<EventView>,
    now: spec_fn(nat) -> u64,
)
    requires
        none_animated(t),
    ensures
        run(t, p, answers, now) == run(t, p, without_plans(answers), now),
        performed(t, p, answers, now) == performed(t, p, without_plans(answers), now),
    decreases answers.len(),
{
    if let ProgressView::Ask(_, stage) = p {
        if answers.len() > 0 {
            let at = now(answers.len());
            let (after, next) = model::step(t, stage, answers[0], at);
            let rest = answers.drop_first();
            assert(without_plans(answers).drop_first() =~= without_plans(rest));
            if let EventView::Planned(plan) = answers[0] {
                app_registry::lemma_position(t.registry.apps, laws::subject(stage));
                law_app_without_animation_is_not_animated(t, stage, plan, at);
            }
            laws::law_step_touches_only_its_app(t, stage, answers[0], at);
            assert(none_animated(after)) by {
                assert forall|i: int| 0 <= i < after.registry.apps.len() implies (
                #[trigger] after.registry.apps[i]).config.animation.style
                    == AnimationStyle::Off by {
                    assert(t.registry.apps[i].config == after.registry.apps[i].config);
                }
            }
            law_nothing_is_animated_without_animations(after, next, rest, now);
        }
    }
}

/// Hiding an app without an animation, once its window is found, does what hides a window at once,
/// whatever transition is worked out.
pub proof fn law_app_without_animation_is_hidden_at_once(
    t: ToggleView,
    name: String,
    how: Search,
    information: Option<Seq<char>>,
    plan: Option<PlanView>,
    now: spec_fn(nat) -> u64,
)
    requires
        app_registry::app_named(t.registry, name@) is Some,
        app_registry::app_named(t.registry, name@)->0.config.animation.style
            == AnimationStyle::Off,
        possible(app_registry::app_named(t.registry, name@)->0.tracked_window_id, how),
        search_result(app_registry::app_named(t.registry, name@)->0, how) is Some,
    ensures
        ({
            let app = app_registry::app_named(t.registry, name@)->0;
            let window = search_result(app, how)->0;
            let answers = search_answers(app.tracked_window_id, how) + hiding_answers(
                information,
                plan,
            );
            let screens = model::refreshed(t.screens, information);
            let visible = screen::placed(
                model::screen_for(screens, window.frame_geometry),
                app.config.placement,
            );
            performed(t, model::begin_hide(t, name, AfterHideView::Finish), answers, now)
                == commands::hide_commands(
                window.internal_id,
                visible,
                screen::parked(screens, visible),
                None,
            )
        }),
{
    law_hide_runs_to_its_end(t, name, how, information, plan, now);
}

/// Showing an app without an animation, once its window is found, does what shows a window at
/// once, whatever transition is worked out.
pub proof fn law_app_without_animation_is_shown_at_once(
    t: ToggleView,
    name: String,
    on: ScreenView,
    how: Search,
    information: Option<Seq<char>>,
    plan: Option<PlanView>,
    now: spec_fn(nat) -> u64,
)
    requires
        app_registry::app_named(t.registry, name@) is Some,
        app_registry::app_named(t.registry, name@)->0.config.animation.style
            == AnimationStyle::Off,
        possible(app_registry::app_named(t.registry, name@)->0.tracked_window_id, how),
        search_result(app_registry::app_named(t.registry, name@)->0, how) is Some,
        screen::misfit(
            on,
            app_registry::app_named(t.registry, name@)->0.config.placement,
        ) is None,
    ensures
        ({
            let app = app_registry::app_named(t.registry, name@)->0;
            let window = search_result(app, how)->0;
            let answers = search_answers(app.tracked_window_id, how) + showing_answers(
                information,
                plan,
            );
            performed(t, model::begin_show(t, name, Some(on)), answers, now)
                == commands::reveal_commands(window.internal_id, None) + commands::show_commands(
                window,
                app.config.hide_decorations,
                screen::placed(on, app.config.placement),
                None,
            )
        }),
{
    law_show_runs_to_its_end(t, name, on, how, information, plan, now);
}

/// The answers that putting windows back meets, from the given one on: each is looked for, and
/// what is to be done to it is done if it is there.
pub open spec fn restoring_answers(windows: Seq<Option<ManagedWindow>>, from: int) -> Seq<EventView>
    decreases windows.len() - from,
{
    if from >= windows.len() {
        Seq::empty()
    } else {
        (if windows[from] is Some {
            seq![EventView::Window(windows[from]), EventView::Done]
        } else {
            seq![EventView::Window(None)]
        }) + restoring_answers(windows, from + 1)
    }
}

/// What puts back those windows that are there, from the given one on.
pub open spec fn restoring_commands(
    entries: Seq<RestoreEntry>,
    windows: Seq<Option<ManagedWindow>>,
    from: int,
) -> Seq<Command>
    decreases entries.len() - from,
{
    if from >= entries.len() {
        Seq::empty()
    } else {
        (if windows[from] is Some {
            commands::restore_commands(entries[from])
        } else {
            Seq::empty()
        }) + restoring_commands(entries, windows, from + 1)
    }
}

/// At the end of the program every known window that is still there is put back, in the order of
/// the apps, and nothing that is known changes.
pub proof fn law_restore_runs_to_its_end(
    t: ToggleView,
    entries: Seq<RestoreEntry>,
    windows: Seq<Option<ManagedWindow>>,
    from: int,
    now: spec_fn(nat) -> u64,
)
    requires
        0 <= from <= entries.len(),
        windows.len() == entries.len(),
    ensures
        run(t, model::restore_from(entries, from), restoring_answers(windows, from), now) == (
            t,
            ProgressView::Over(Ok(())),
        ),
        performed(t, model::restore_from(entries, from), restoring_answers(windows, from), now)
            == restoring_commands(entries, windows, from),
    decreases entries.len() - from,
{
    if from < entries.len() {
        let begun = model::restore_from(entries, from);
        let answers = restoring_answers(windows, from);
        let rest = restoring_answers(windows, from + 1);
        law_restore_runs_to_its_end(t, entries, windows, from + 1, now);
        reveal_with_fuel(run, 3);
        reveal_with_fuel(performed, 3);
        if windows[from] is Some {
            assert(answers.drop_first().drop_first() =~= rest);
        } else {
            assert(answers.drop_first() =~= rest);
        }
        assert(performed(t, begun, answers, now) =~= restoring_commands(entries, windows, from));
    }
}

} // verus!
