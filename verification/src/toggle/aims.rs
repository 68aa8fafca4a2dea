//! What a task aims at, and that it gets there or fails.

use crate::app_registry;
use crate::screen::ScreenView;
use crate::toggle::laws;
use crate::toggle::model;
use crate::toggle::model::ToggleView;
use crate::toggle::runs;
use crate::toggle::types::{
    AfterHideView, EventView, PollView, ProgressView, RestView, ScreenGoal, ScreensGoalView,
    StageView, WindowGoalView,
};
use crate::wm::ManagedWindow;
use vstd::prelude::*;

verus! {

/// What a task is to have done when it is over.
pub enum Aim {
    /// Show the app with this name or hide it, whichever it is not.
    Toggle(Seq<char>),
    Hide(Seq<char>),
    Show(Seq<char>),
    /// Put every known window back.
    Restore,
}

/// What the hiding of an app is done for.
pub open spec fn aim_of_hiding(name: Seq<char>, then: AfterHideView) -> Aim {
    match then {
        AfterHideView::Finish => Aim::Hide(name),
        AfterHideView::Resume(rest) => Aim::Toggle(rest.name@),
    }
}

/// What a screen is chosen for.
pub open spec fn aim_of_choice(goal: ScreenGoal) -> Aim {
    match goal {
        ScreenGoal::Toggle { name, .. } => Aim::Toggle(name@),
        ScreenGoal::Show { name, .. } => Aim::Show(name@),
    }
}

/// What a window is looked for.
pub open spec fn aim_of_search(goal: WindowGoalView) -> Aim {
    match goal {
        WindowGoalView::Toggle(rest) => Aim::Toggle(rest.name@),
        WindowGoalView::Hide { name, then } => aim_of_hiding(name@, then),
        WindowGoalView::Show { name, .. } => Aim::Show(name@),
    }
}

/// What a task aims at, by what it waits for.
pub open spec fn aim_of(stage: StageView) -> Aim {
    match stage {
        StageView::Screens(ScreensGoalView::Choose(goal)) => aim_of_choice(goal),
        StageView::Screens(ScreensGoalView::Hide { name, then, .. }) => aim_of_hiding(name@, then),
        StageView::Screens(ScreensGoalView::Show { name, .. }) => Aim::Show(name@),
        StageView::Cursor { goal, .. } => aim_of_choice(goal),
        StageView::ActiveWindow { goal, .. } => aim_of_choice(goal),
        StageView::Known(goal) => aim_of_search(goal),
        StageView::Listed(goal) => aim_of_search(goal),
        StageView::Spawning { name, .. } => Aim::Show(name@),
        StageView::PollWait(poll) => Aim::Show(poll.name@),
        StageView::PollList(poll) => Aim::Show(poll.name@),
        StageView::HidePlan { name, then, .. } => aim_of_hiding(name@, then),
        StageView::Hiding { name, then, .. } => aim_of_hiding(name@, then),
        StageView::ShowPlan { name, .. } => Aim::Show(name@),
        StageView::Revealing { name, .. } => Aim::Show(name@),
        StageView::Showing { name, .. } => Aim::Show(name@),
        StageView::RestoreFind { .. } => Aim::Restore,
        StageView::Restoring { .. } => Aim::Restore,
    }
}

/// Whether an app is noted as shown, is the one that is, and has the given window.
pub open spec fn is_shown(t: ToggleView, name: Seq<char>, id: Option<String>) -> bool {
    &&& app_registry::app_named(t.registry, name) is Some
    &&& app_registry::app_named(t.registry, name)->0.visible
    &&& app_registry::app_named(t.registry, name)->0.tracked_window_id == id
    &&& id is Some
    &&& t.registry.current is Some
    &&& t.registry.current->0@ == name
}

/// Whether an app is noted as hidden, and is not the one that is shown.
pub open spec fn is_out_of_sight(t: ToggleView, name: Seq<char>) -> bool {
    &&& app_registry::app_named(t.registry, name) is Some
    &&& !app_registry::app_named(t.registry, name)->0.visible
    &&& !(t.registry.current is Some && t.registry.current->0@ == name)
}

/// Whether an app is noted as hidden, is not the one that is shown, and has the given window.
pub open spec fn is_hidden(t: ToggleView, name: Seq<char>, id: Option<String>) -> bool {
    &&& is_out_of_sight(t, name)
    &&& app_registry::app_named(t.registry, name)->0.tracked_window_id == id
}

/// Whether what a task aims at is the case, with the window that was found.
pub open spec fn achieved(t: ToggleView, aim: Aim, found: Option<String>) -> bool {
    match aim {
        Aim::Toggle(_) => false,
        Aim::Hide(name) => is_hidden(t, name, found),
        Aim::Show(name) => is_shown(t, name, found),
        Aim::Restore => true,
    }
}

/// The window that an answer brings to light for the app that it is looked for, if it does.
pub open spec fn finding(t: ToggleView, stage: StageView, event: EventView) -> Option<String> {
    let window = match (stage, event) {
        (StageView::Known(_), EventView::Window(window)) => window,
        (StageView::Listed(_), EventView::WindowList(windows)) => match app_registry::app_named(
            t.registry,
            laws::subject(stage),
        ) {
            Some(app) => model::first_match(windows, app),
            None => None,
        },
        (StageView::PollList(_), EventView::WindowList(windows)) => match app_registry::app_named(
            t.registry,
            laws::subject(stage),
        ) {
            Some(app) => model::first_match(windows, app),
            None => None,
        },
        _ => None,
    };
    match window {
        Some(window) => Some(window.internal_id),
        None => None,
    }
}

/// The window that was found last, once more may have been found.
pub open spec fn newest(found: Option<String>, finding: Option<String>) -> Option<String> {
    if finding is Some {
        finding
    } else {
        found
    }
}

/// The window that a task has found and works with.
pub open spec fn in_hand(stage: StageView) -> Option<String> {
    match stage {
        StageView::Screens(ScreensGoalView::Choose(ScreenGoal::Show { window, .. })) => Some(
            window.internal_id,
        ),
        StageView::Screens(ScreensGoalView::Hide { window, .. }) => Some(window.internal_id),
        StageView::Screens(ScreensGoalView::Show { window, .. }) => Some(window.internal_id),
        StageView::Cursor { goal: ScreenGoal::Show { window, .. }, .. } => Some(
            window.internal_id,
        ),
        StageView::ActiveWindow { goal: ScreenGoal::Show { window, .. }, .. } => Some(
            window.internal_id,
        ),
        StageView::HidePlan { id, .. } => Some(id),
        StageView::Hiding { id, .. } => Some(id),
        StageView::ShowPlan { window, .. } => Some(window.internal_id),
        StageView::Revealing { window, .. } => Some(window.internal_id),
        StageView::Showing { window, .. } => Some(window.internal_id),
        _ => None,
    }
}

/// Whether what a task waits for goes with the window that was found last: that is the window that
/// it works with, or, before one is found to be hidden, the one that is known of the app.
pub open spec fn goes_with(t: ToggleView, stage: StageView, found: Option<String>) -> bool {
    if in_hand(stage) is Some {
        in_hand(stage) == found
    } else {
        match aim_of(stage) {
            Aim::Hide(name) => match app_registry::app_named(t.registry, name) {
                Some(app) => app.tracked_window_id == found,
                None => true,
            },
            _ => true,
        }
    }
}

/// Whether an answer settles which way a toggle goes, and if so, whether the app's window is
/// there to be seen.
pub open spec fn verdict(t: ToggleView, stage: StageView, event: EventView) -> Option<bool> {
    match (stage, event) {
        (StageView::Known(WindowGoalView::Toggle(_)), EventView::Window(Some(window))) => Some(
            !window.minimized,
        ),
        (
            StageView::Listed(WindowGoalView::Toggle(rest)),
            EventView::WindowList(windows),
        ) => match app_registry::app_named(t.registry, rest.name@) {
            None => None,
            Some(app) => Some(
                model::first_match(windows, app) is Some && !model::first_match(
                    windows,
                    app,
                )->0.minimized,
            ),
        },
        _ => None,
    }
}

/// What a toggle aims at once it is settled which way it goes.
pub open spec fn aim_after(aim: Aim, verdict: Option<bool>) -> Aim {
    match (aim, verdict) {
        (Aim::Toggle(name), Some(true)) => Aim::Hide(name),
        (Aim::Toggle(name), Some(false)) => Aim::Show(name),
        _ => aim,
    }
}

/// How many answers are left of hiding an app once this many are left of hiding alone.
pub open spec fn left_of_hiding(then: AfterHideView, own: nat) -> nat {
    match then {
        AfterHideView::Finish => own,
        AfterHideView::Resume(_) => own + 94,
    }
}

/// How many answers a task needs at most.
pub open spec fn answers_left(stage: StageView) -> nat {
    match stage {
        StageView::Showing { .. } => 1,
        StageView::Revealing { .. } => 2,
        StageView::ShowPlan { .. } => 3,
        StageView::Screens(ScreensGoalView::Show { .. }) => 4,
        StageView::ActiveWindow { goal: ScreenGoal::Show { .. }, .. } => 5,
        StageView::Cursor { goal: ScreenGoal::Show { .. }, .. } => 6,
        StageView::Screens(ScreensGoalView::Choose(ScreenGoal::Show { .. })) => 7,
        StageView::PollList(poll) => 8 + 2 * poll.left as nat,
        StageView::PollWait(poll) => 9 + 2 * poll.left as nat,
        StageView::Spawning { .. } => 90,
        StageView::Listed(WindowGoalView::Show { .. }) => 91,
        StageView::Known(WindowGoalView::Show { .. }) => 92,
        StageView::Listed(WindowGoalView::Toggle(_)) => 93,
        StageView::Known(WindowGoalView::Toggle(_)) => 94,
        StageView::Hiding { then, .. } => left_of_hiding(then, 1),
        StageView::HidePlan { then, .. } => left_of_hiding(then, 2),
        StageView::Screens(ScreensGoalView::Hide { then, .. }) => left_of_hiding(then, 3),
        StageView::Listed(WindowGoalView::Hide { then, .. }) => left_of_hiding(then, 4),
        StageView::Known(WindowGoalView::Hide { then, .. }) => left_of_hiding(then, 5),
        StageView::ActiveWindow { goal: ScreenGoal::Toggle { .. }, .. } => 100,
        StageView::Cursor { goal: ScreenGoal::Toggle { .. }, .. } => 101,
        StageView::Screens(ScreensGoalView::Choose(ScreenGoal::Toggle { .. })) => 102,
        StageView::RestoreFind { entries, next } => if next < entries.len() {
            (2 * (entries.len() - next)) as nat
        } else {
            1
        },
        StageView::Restoring { entries, next } => if next < entries.len() {
            (2 * (entries.len() - next) - 1) as nat
        } else {
            1
        },
    }
}

/// Whether a task, told something, either fails, or goes on with an aim in mind, a window found
/// last, and fewer answers to come than a given number, or ends with that aim achieved.
pub open spec fn moves_on(
    after: ToggleView,
    next: ProgressView,
    aim: Aim,
    found: Option<String>,
    left: nat,
) -> bool {
    match next {
        ProgressView::Ask(_, later) => {
            &&& aim_of(later) == aim
            &&& goes_with(after, later, found)
            &&& answers_left(later) < left
        },
        ProgressView::Over(Ok(())) => achieved(after, aim, found),
        ProgressView::Over(Err(_)) => true,
    }
}

proof fn lemma_hide_moves_on(
    t: ToggleView,
    name: String,
    then: AfterHideView,
    found: Option<String>,
)
    requires
        then is Finish ==> match app_registry::app_named(t.registry, name@) {
            Some(app) => app.tracked_window_id == found,
            None => true,
        },
    ensures
        moves_on(
            t,
            model::begin_hide(t, name, then),
            aim_of_hiding(name@, then),
            found,
            left_of_hiding(then, 6),
        ),
{
}

proof fn lemma_show_moves_on(
    t: ToggleView,
    name: String,
    on: Option<ScreenView>,
    found: Option<String>,
)
    ensures
        moves_on(t, model::begin_show(t, name, on), Aim::Show(name@), found, 93),
{
}

proof fn lemma_fit_moves_on(t: ToggleView, name: String, window: ManagedWindow, on: ScreenView)
    ensures
        moves_on(
            t,
            model::fit(t, name, window, on),
            Aim::Show(name@),
            Some(window.internal_id),
            5,
        ),
{
}

proof fn lemma_have_window_moves_on(
    t: ToggleView,
    name: String,
    window: ManagedWindow,
    on: Option<ScreenView>,
)
    ensures
        moves_on(
            t,
            model::have_window(t, name, window, on),
            Aim::Show(name@),
            Some(window.internal_id),
            8,
        ),
{
    if let Some(on) = on {
        lemma_fit_moves_on(t, name, window, on);
    }
}

proof fn lemma_screen_chosen_moves_on(
    t: ToggleView,
    goal: ScreenGoal,
    on: ScreenView,
    found: Option<String>,
)
    requires
        goal matches ScreenGoal::Show { window, .. } ==> found == Some(window.internal_id),
    ensures
        moves_on(
            t,
            model::screen_chosen(t, goal, on),
            aim_of_choice(goal),
            found,
            if goal is Toggle {
                100
            } else {
                5
            },
        ),
{
    match goal {
        ScreenGoal::Toggle { name, known, other } => {
            if let Some(other) = other {
                let rest = RestView { name, known, screen: Some(on) };
                lemma_hide_moves_on(t, other, AfterHideView::Resume(rest), found);
            }
        },
        ScreenGoal::Show { name, window } => {
            lemma_fit_moves_on(t, name, window, on);
        },
    }
}

proof fn lemma_have_screens_moves_on(
    t: ToggleView,
    goal: ScreensGoalView,
    information: Option<Seq<char>>,
    found: Option<String>,
)
    requires
        goes_with(t, StageView::Screens(goal), found),
    ensures
        moves_on(
            model::have_screens(t, goal, information).0,
            model::have_screens(t, goal, information).1,
            aim_of(StageView::Screens(goal)),
            found,
            answers_left(StageView::Screens(goal)),
        ),
{
}

proof fn lemma_without_window_moves_on(
    t: ToggleView,
    name: String,
    on: Option<ScreenView>,
    found: Option<String>,
    now: u64,
)
    ensures
        moves_on(
            model::without_window(t, name, on, now).0,
            model::without_window(t, name, on, now).1,
            Aim::Show(name@),
            found,
            91,
        ),
{
}

proof fn lemma_found_moves_on(
    t: ToggleView,
    goal: WindowGoalView,
    window: Option<ManagedWindow>,
    found: Option<String>,
    now: u64,
)
    requires
        window is None ==> app_registry::app_named(t.registry, model::goal_name(goal)@) is Some,
        window is None ==> goes_with(t, StageView::Listed(goal), found),
    ensures
        moves_on(
            model::found(t, goal, window, now).0,
            model::found(t, goal, window, now).1,
            aim_after(
                aim_of_search(goal),
                if goal is Toggle {
                    Some(window is Some && !window->0.minimized)
                } else {
                    None
                },
            ),
            match window {
                Some(window) => Some(window.internal_id),
                None => found,
            },
            answers_left(StageView::Listed(goal)),
        ),
{
    let after = model::found(t, goal, window, now).0;
    let newest = match window {
        Some(window) => Some(window.internal_id),
        None => found,
    };
    match goal {
        WindowGoalView::Toggle(rest) => {
            if app_registry::app_named(t.registry, rest.name@) is Some {
                laws::lemma_toggled(t, rest, window, now);
            } else {
                laws::lemma_toggled_unknown(t, rest, window, now);
            }
            if window is Some && !window->0.minimized {
                lemma_hide_moves_on(after, rest.name, AfterHideView::Finish, newest);
            } else {
                lemma_show_moves_on(after, rest.name, rest.screen, newest);
            }
        },
        WindowGoalView::Hide { name, then } => {
            laws::lemma_given_up(t, name);
        },
        WindowGoalView::Show { name, screen } => match window {
            Some(window) => {
                lemma_have_window_moves_on(t, name, window, screen);
            },
            None => {
                lemma_without_window_moves_on(t, name, screen, found, now);
            },
        },
    }
}

proof fn lemma_polled_moves_on(
    t: ToggleView,
    poll: PollView,
    windows: Seq<ManagedWindow>,
    found: Option<String>,
)
    ensures
        moves_on(
            model::polled(t, poll, windows).0,
            model::polled(t, poll, windows).1,
            Aim::Show(poll.name@),
            newest(
                found,
                finding(t, StageView::PollList(poll), EventView::WindowList(windows)),
            ),
            answers_left(StageView::PollList(poll)),
        ),
{
    let ended = if poll.claimed {
        model::released(t, poll.name@)
    } else {
        t
    };
    if let Some(app) = app_registry::app_named(t.registry, poll.name@) {
        if let Some(window) = model::first_match(windows, app) {
            lemma_have_window_moves_on(ended, poll.name, window, poll.screen);
        }
    }
}

/// Every step of a task brings it closer to its end. A task holds on to its aim and to the window
/// that was found last, and it ends well only where its aim is achieved with that window. What a
/// toggle aims at is settled by whether the app's window is there to be seen.
pub proof fn law_step_moves_on(
    t: ToggleView,
    stage: StageView,
    event: EventView,
    found: Option<String>,
    now: u64,
)
    requires
        goes_with(t, stage, found),
    ensures
        moves_on(
            model::step(t, stage, event, now).0,
            model::step(t, stage, event, now).1,
            aim_after(aim_of(stage), verdict(t, stage, event)),
            newest(found, finding(t, stage, event)),
            answers_left(stage),
        ),
        answers_left(stage) > 0,
{
    match (stage, event) {
        (StageView::Screens(goal), EventView::SupportInformation(information)) => {
            lemma_have_screens_moves_on(t, goal, information, found);
        },
        (StageView::Screens(goal), EventView::Failed(_)) => {
            lemma_have_screens_moves_on(t, goal, None, found);
        },
        (_, EventView::Failed(_)) => {},
        (StageView::Cursor { goal, screens }, EventView::CursorPosition(Some(point))) => {
            if let Some(i) = model::first_containing(screens, point) {
                lemma_screen_chosen_moves_on(t, goal, screens[i], found);
            }
        },
        (StageView::ActiveWindow { goal, screens }, EventView::ActiveWindow(window)) => {
            lemma_screen_chosen_moves_on(
                t,
                goal,
                match window {
                    Some(window) => model::screen_for(screens, window.frame_geometry),
                    None => screens[0],
                },
                found,
            );
        },
        (StageView::Known(goal), EventView::Window(Some(window))) => {
            lemma_found_moves_on(t, goal, Some(window), found, now);
        },
        (StageView::Listed(goal), EventView::WindowList(windows)) => {
            if let Some(app) = app_registry::app_named(t.registry, model::goal_name(goal)@) {
                lemma_found_moves_on(t, goal, model::first_match(windows, app), found, now);
            }
        },
        (StageView::PollList(poll), EventView::WindowList(windows)) => {
            lemma_polled_moves_on(t, poll, windows, found);
        },
        (StageView::Hiding { name, then, id }, EventView::Done) => {
            if app_registry::app_named(t.registry, name@) is Some {
                laws::law_hidden_app_is_hidden(t, name, then, id, now);
            }
        },
        (StageView::Showing { name, window }, EventView::Done) => {
            if app_registry::app_named(t.registry, name@) is Some {
                laws::law_shown_app_is_shown(t, name, window, now);
            }
        },
        _ => {},
    }
}

/// Which way a toggle turns out to go along its course, if that comes to be settled: whether the
/// app's window was there to be seen.
pub open spec fn settled(
    t: ToggleView,
    p: ProgressView,
    answers: Seq<EventView>,
    now: spec_fn(nat) -> u64,
) -> Option<bool>
    decreases answers.len(),
{
    match p {
        ProgressView::Over(_) => None,
        ProgressView::Ask(_, stage) => if answers.len() == 0 {
            None
        } else {
            match verdict(t, stage, answers[0]) {
                Some(seen) => Some(seen),
                None => {
                    let (after, next) = model::step(t, stage, answers[0], now(answers.len()));
                    settled(after, next, answers.drop_first(), now)
                },
            }
        },
    }
}

/// The window that a task finds last along its course; the given one where it finds none.
pub open spec fn last_found(
    t: ToggleView,
    p: ProgressView,
    answers: Seq<EventView>,
    now: spec_fn(nat) -> u64,
    found: Option<String>,
) -> Option<String>
    decreases answers.len(),
{
    match p {
        ProgressView::Over(_) => found,
        ProgressView::Ask(_, stage) => if answers.len() == 0 {
            found
        } else {
            let (after, next) = model::step(t, stage, answers[0], now(answers.len()));
            last_found(
                after,
                next,
                answers.drop_first(),
                now,
                newest(found, finding(t, stage, answers[0])),
            )
        },
    }
}

/// A task that is to hide an app, or to show one, or to put windows back, has done so when it
/// ends well, whatever was answered on the way, and the window that it found last is the one that
/// is known of the app then.
pub proof fn law_task_achieves_its_aim(
    t: ToggleView,
    p: ProgressView,
    answers: Seq<EventView>,
    now: spec_fn(nat) -> u64,
    found: Option<String>,
)
    requires
        p is Ask,
        !(aim_of(p->Ask_1) is Toggle),
        goes_with(t, p->Ask_1, found),
        runs::run(t, p, answers, now).1 == ProgressView::Over(Ok(())),
    ensures
        achieved(
            runs::run(t, p, answers, now).0,
            aim_of(p->Ask_1),
            last_found(t, p, answers, now, found),
        ),
        found is Some ==> last_found(t, p, answers, now, found) is Some,
    decreases answers.len(),
{
    let stage = p->Ask_1;
    reveal_with_fuel(last_found, 2);
    if answers.len() > 0 {
        let at = now(answers.len());
        let (after, next) = model::step(t, stage, answers[0], at);
        law_step_moves_on(t, stage, answers[0], found, at);
        if next is Ask {
            law_task_achieves_its_aim(
                after,
                next,
                answers.drop_first(),
                now,
                newest(found, finding(t, stage, answers[0])),
            );
        }
    }
}

proof fn lemma_toggle_achieves_its_aim(
    t: ToggleView,
    p: ProgressView,
    answers: Seq<EventView>,
    now: spec_fn(nat) -> u64,
    found: Option<String>,
)
    requires
        p is Ask,
        aim_of(p->Ask_1) is Toggle,
        goes_with(t, p->Ask_1, found),
        runs::run(t, p, answers, now).1 == ProgressView::Over(Ok(())),
    ensures
        settled(t, p, answers, now) is Some,
        achieved(
            runs::run(t, p, answers, now).0,
            aim_after(aim_of(p->Ask_1), settled(t, p, answers, now)),
            last_found(t, p, answers, now, found),
        ),
        last_found(t, p, answers, now, found) is Some,
    decreases answers.len(),
{
    let stage = p->Ask_1;
    if answers.len() > 0 {
        let at = now(answers.len());
        let (after, next) = model::step(t, stage, answers[0], at);
        let newest = newest(found, finding(t, stage, answers[0]));
        law_step_moves_on(t, stage, answers[0], found, at);
        if next is Ask {
            if verdict(t, stage, answers[0]) is Some {
                law_task_achieves_its_aim(after, next, answers.drop_first(), now, newest);
            } else {
                lemma_toggle_achieves_its_aim(after, next, answers.drop_first(), now, newest);
            }
        }
    }
}

/// A toggle that ends well has hidden the app if its window was there to be seen, and has shown
/// it if not, whatever was answered on the way and whatever was noted of the app before. A window
/// was found then, and the one that was found last is the one that is known of the app.
pub proof fn law_toggle_turns_the_app_over(
    t: ToggleView,
    name: String,
    answers: Seq<EventView>,
    now: spec_fn(nat) -> u64,
)
    requires
        runs::run(t, model::toggle(t, name), answers, now).1 == ProgressView::Over(Ok(())),
    ensures
        ({
            let begun = model::toggle(t, name);
            let after = runs::run(t, begun, answers, now).0;
            let found = last_found(t, begun, answers, now, None);
            &&& found is Some
            &&& match settled(t, begun, answers, now) {
                Some(true) => is_hidden(after, name@, found),
                Some(false) => is_shown(after, name@, found),
                None => false,
            }
        }),
{
    lemma_toggle_achieves_its_aim(t, model::toggle(t, name), answers, now, None);
}

/// An app that is to be hidden for want of the focus is hidden when its task ends well. The window
/// that is known of it is the one that was found, or the one from before where none was.
pub proof fn law_app_without_focus_is_hidden(
    t: ToggleView,
    active: Option<Seq<char>>,
    answers: Seq<EventView>,
    now: spec_fn(nat) -> u64,
)
    requires
        laws::consistent(t.registry),
        t.registry.current is Some,
        model::loses_focus(
            app_registry::app_named(t.registry, t.registry.current->0@)->0,
            active,
        ),
        runs::run(t, model::focus_changed(t, active), answers, now).1 == ProgressView::Over(Ok(())),
    ensures
        ({
            let name = t.registry.current->0@;
            let known = app_registry::app_named(t.registry, name)->0.tracked_window_id;
            let begun = model::focus_changed(t, active);
            is_hidden(
                runs::run(t, begun, answers, now).0,
                name,
                last_found(t, begun, answers, now, known),
            )
        }),
{
    let known = app_registry::app_named(t.registry, t.registry.current->0@)->0.tracked_window_id;
    law_task_achieves_its_aim(t, model::focus_changed(t, active), answers, now, known);
}

/// Every task ends, whatever is answered.
pub proof fn law_every_task_ends(
    t: ToggleView,
    p: ProgressView,
    answers: Seq<EventView>,
    now: spec_fn(nat) -> u64,
)
    requires
        p is Ask ==> answers.len() >= answers_left(p->Ask_1),
    ensures
        runs::run(t, p, answers, now).1 is Over,
    decreases answers.len(),
{
    if let ProgressView::Ask(_, stage) = p {
        let at = now(answers.len());
        law_step_comes_closer(t, stage, answers[0], at);
        let (after, next) = model::step(t, stage, answers[0], at);
        law_every_task_ends(after, next, answers.drop_first(), now);
    }
}

/// Every answer brings a task closer to its end.
pub proof fn law_step_comes_closer(t: ToggleView, stage: StageView, event: EventView, now: u64)
    ensures
        answers_left(stage) > 0,
        model::step(t, stage, event, now).1 matches ProgressView::Ask(_, later)
            ==> answers_left(later) < answers_left(stage),
{
    let found = if in_hand(stage) is Some {
        in_hand(stage)
    } else {
        match aim_of(stage) {
            Aim::Hide(name) => match app_registry::app_named(t.registry, name) {
                Some(app) => app.tracked_window_id,
                None => None,
            },
            _ => None,
        }
    };
    law_step_moves_on(t, stage, event, found, now);
}

/// Whether a task is about one app alone: nothing is left to be hidden for its sake.
pub open spec fn alone(stage: StageView, name: Seq<char>) -> bool {
    &&& laws::subject(stage) == name
    &&& match stage {
        StageView::Screens(ScreensGoalView::Choose(ScreenGoal::Toggle { other, .. })) => other
            is None,
        StageView::Cursor { goal: ScreenGoal::Toggle { other, .. }, .. } => other is None,
        StageView::ActiveWindow { goal: ScreenGoal::Toggle { other, .. }, .. } => other is None,
        StageView::Screens(ScreensGoalView::Hide { then, .. }) => then is Finish,
        StageView::Known(WindowGoalView::Hide { then, .. }) => then is Finish,
        StageView::Listed(WindowGoalView::Hide { then, .. }) => then is Finish,
        StageView::HidePlan { then, .. } => then is Finish,
        StageView::Hiding { then, .. } => then is Finish,
        StageView::RestoreFind { .. } => false,
        StageView::Restoring { .. } => false,
        _ => true,
    }
}

/// Whether what is done once an app is hidden is the toggling of another one.
pub open spec fn makes_way(then: AfterHideView, name: Seq<char>) -> bool {
    match then {
        AfterHideView::Finish => false,
        AfterHideView::Resume(rest) => rest.name@ == name,
    }
}

/// Whether a screen is chosen for the toggling of an app for which another one is to be hidden.
pub open spec fn is_to_clear(goal: ScreenGoal, name: Seq<char>, other: Seq<char>) -> bool {
    match goal {
        ScreenGoal::Toggle { name: own, other: Some(in_the_way), .. } => own@ == name
            && in_the_way@ == other,
        _ => false,
    }
}

/// Whether a task has still to hide an app that is in the way of another one.
pub open spec fn clearing(stage: StageView, name: Seq<char>, other: Seq<char>) -> bool {
    match stage {
        StageView::Screens(ScreensGoalView::Choose(goal)) => is_to_clear(goal, name, other),
        StageView::Cursor { goal, .. } => is_to_clear(goal, name, other),
        StageView::ActiveWindow { goal, .. } => is_to_clear(goal, name, other),
        StageView::Screens(ScreensGoalView::Hide { name: own, then, .. }) => own@ == other
            && makes_way(then, name),
        StageView::Known(WindowGoalView::Hide { name: own, then }) => own@ == other && makes_way(
            then,
            name,
        ),
        StageView::Listed(WindowGoalView::Hide { name: own, then }) => own@ == other && makes_way(
            then,
            name,
        ),
        StageView::HidePlan { name: own, then, .. } => own@ == other && makes_way(then, name),
        StageView::Hiding { name: own, then, .. } => own@ == other && makes_way(then, name),
        _ => false,
    }
}

proof fn lemma_clearing_goes_on(
    t: ToggleView,
    stage: StageView,
    event: EventView,
    now: u64,
    name: Seq<char>,
    other: Seq<char>,
)
    requires
        clearing(stage, name, other),
    ensures
        ({
            let (after, next) = model::step(t, stage, event, now);
            match next {
                ProgressView::Ask(_, later) => clearing(later, name, other) || (alone(later, name)
                    && is_out_of_sight(after, other)),
                ProgressView::Over(result) => result is Err,
            }
        }),
{
    match (stage, event) {
        (StageView::Hiding { name: own, then, id }, EventView::Done) => {
            if app_registry::app_named(t.registry, own@) is Some {
                laws::law_hidden_app_is_hidden(t, own, then, id, now);
            }
        },
        (StageView::Listed(WindowGoalView::Hide { name: own, .. }), EventView::WindowList(_)) => {
            laws::lemma_given_up(t, own);
        },
        _ => {},
    }
}

/// Whether a task that goes on does so about one app alone.
spec fn goes_on_alone(next: ProgressView, name: Seq<char>) -> bool {
    match next {
        ProgressView::Ask(_, later) => alone(later, name),
        ProgressView::Over(_) => true,
    }
}

proof fn lemma_chosen_stays_alone(
    t: ToggleView,
    goal: ScreenGoal,
    screens: Seq<ScreenView>,
    on: ScreenView,
    name: Seq<char>,
)
    requires
        alone(StageView::Cursor { goal, screens }, name),
    ensures
        goes_on_alone(model::screen_chosen(t, goal, on), name),
{
}

proof fn lemma_screens_stay_alone(
    t: ToggleView,
    goal: ScreensGoalView,
    information: Option<Seq<char>>,
    name: Seq<char>,
)
    requires
        alone(StageView::Screens(goal), name),
    ensures
        goes_on_alone(model::have_screens(t, goal, information).1, name),
{
}

proof fn lemma_found_stays_alone(
    t: ToggleView,
    goal: WindowGoalView,
    window: Option<ManagedWindow>,
    now: u64,
)
    requires
        alone(StageView::Listed(goal), model::goal_name(goal)@),
    ensures
        goes_on_alone(model::found(t, goal, window, now).1, model::goal_name(goal)@),
{
}

proof fn lemma_polled_stays_alone(t: ToggleView, poll: PollView, windows: Seq<ManagedWindow>)
    ensures
        goes_on_alone(model::polled(t, poll, windows).1, poll.name@),
{
}

proof fn lemma_stays_alone(
    t: ToggleView,
    stage: StageView,
    event: EventView,
    now: u64,
    name: Seq<char>,
)
    requires
        alone(stage, name),
    ensures
        goes_on_alone(model::step(t, stage, event, now).1, name),
{
    match (stage, event) {
        (StageView::Screens(goal), EventView::SupportInformation(information)) => {
            lemma_screens_stay_alone(t, goal, information, name);
        },
        (StageView::Screens(goal), EventView::Failed(_)) => {
            lemma_screens_stay_alone(t, goal, None, name);
        },
        (_, EventView::Failed(_)) => {},
        (StageView::Cursor { goal, screens }, EventView::CursorPosition(Some(point))) => {
            if let Some(i) = model::first_containing(screens, point) {
                lemma_chosen_stays_alone(t, goal, screens, screens[i], name);
            }
        },
        (StageView::ActiveWindow { goal, screens }, EventView::ActiveWindow(window)) => {
            let on = match window {
                Some(window) => model::screen_for(screens, window.frame_geometry),
                None => screens[0],
            };
            lemma_chosen_stays_alone(t, goal, screens, on, name);
        },
        (StageView::Known(goal), EventView::Window(Some(window))) => {
            lemma_found_stays_alone(t, goal, Some(window), now);
        },
        (StageView::Listed(goal), EventView::WindowList(windows)) => {
            if let Some(app) = app_registry::app_named(t.registry, name) {
                lemma_found_stays_alone(t, goal, model::first_match(windows, app), now);
            }
        },
        (StageView::PollList(poll), EventView::WindowList(windows)) => {
            lemma_polled_stays_alone(t, poll, windows);
        },
        _ => {},
    }
}

proof fn lemma_other_stays_out_of_sight(
    t: ToggleView,
    p: ProgressView,
    answers: Seq<EventView>,
    now: spec_fn(nat) -> u64,
    name: Seq<char>,
    other: Seq<char>,
)
    requires
        name != other,
        is_out_of_sight(t, other),
        p matches ProgressView::Ask(_, stage) ==> alone(stage, name),
    ensures
        is_out_of_sight(runs::run(t, p, answers, now).0, other),
    decreases answers.len(),
{
    if let ProgressView::Ask(_, stage) = p {
        if answers.len() > 0 {
            let at = now(answers.len());
            let (after, next) = model::step(t, stage, answers[0], at);
            laws::law_step_touches_only_its_app(t, stage, answers[0], at);
            lemma_stays_alone(t, stage, answers[0], at, name);
            assert(app_registry::app_named(after.registry, other) == app_registry::app_named(
                t.registry,
                other,
            ));
            lemma_other_stays_out_of_sight(after, next, answers.drop_first(), now, name, other);
        }
    }
}

proof fn lemma_way_is_cleared(
    t: ToggleView,
    p: ProgressView,
    answers: Seq<EventView>,
    now: spec_fn(nat) -> u64,
    name: Seq<char>,
    other: Seq<char>,
)
    requires
        name != other,
        p is Ask,
        clearing(p->Ask_1, name, other),
        runs::run(t, p, answers, now).1 == ProgressView::Over(Ok(())),
    ensures
        is_out_of_sight(runs::run(t, p, answers, now).0, other),
    decreases answers.len(),
{
    let stage = p->Ask_1;
    if answers.len() > 0 {
        let at = now(answers.len());
        let (after, next) = model::step(t, stage, answers[0], at);
        let rest = answers.drop_first();
        lemma_clearing_goes_on(t, stage, answers[0], at, name, other);
        if next is Ask && clearing(next->Ask_1, name, other) {
            lemma_way_is_cleared(after, next, rest, now, name, other);
        } else if next is Ask {
            lemma_other_stays_out_of_sight(after, next, rest, now, name, other);
        }
    }
}

/// When a toggle ends well, the app that was shown before in place of the toggled one is hidden,
/// whatever was answered on the way.
pub proof fn law_other_app_ends_hidden(
    t: ToggleView,
    name: String,
    other: String,
    answers: Seq<EventView>,
    now: spec_fn(nat) -> u64,
)
    requires
        model::other_shown(t.registry, name@) == Some(other),
        runs::run(t, model::toggle(t, name), answers, now).1 == ProgressView::Over(Ok(())),
    ensures
        is_out_of_sight(runs::run(t, model::toggle(t, name), answers, now).0, other@),
{
    lemma_way_is_cleared(t, model::toggle(t, name), answers, now, name@, other@);
}

proof fn lemma_third_app_is_left_alone(
    t: ToggleView,
    p: ProgressView,
    answers: Seq<EventView>,
    now: spec_fn(nat) -> u64,
    name: Seq<char>,
    other: Seq<char>,
    third: Seq<char>,
)
    requires
        third != name,
        third != other,
        p matches ProgressView::Ask(_, stage) ==> alone(stage, name) || clearing(
            stage,
            name,
            other,
        ),
    ensures
        app_registry::app_named(runs::run(t, p, answers, now).0.registry, third)
            == app_registry::app_named(t.registry, third),
    decreases answers.len(),
{
    if let ProgressView::Ask(_, stage) = p {
        if answers.len() > 0 {
            let at = now(answers.len());
            let (after, next) = model::step(t, stage, answers[0], at);
            laws::law_step_touches_only_its_app(t, stage, answers[0], at);
            if alone(stage, name) {
                lemma_stays_alone(t, stage, answers[0], at, name);
            } else {
                lemma_clearing_goes_on(t, stage, answers[0], at, name, other);
            }
            assert(app_registry::app_named(after.registry, third) == app_registry::app_named(
                t.registry,
                third,
            ));
            lemma_third_app_is_left_alone(
                after,
                next,
                answers.drop_first(),
                now,
                name,
                other,
                third,
            );
        }
    }
}

/// A toggle changes nothing that is known of any app but the one that is toggled and the one that
/// is shown, whatever is answered on the way and however it ends.
pub proof fn law_toggle_leaves_other_apps_alone(
    t: ToggleView,
    name: String,
    third: Seq<char>,
    answers: Seq<EventView>,
    now: spec_fn(nat) -> u64,
)
    requires
        third != name@,
        t.registry.current matches Some(current) ==> third != current@,
    ensures
        app_registry::app_named(
            runs::run(t, model::toggle(t, name), answers, now).0.registry,
            third,
        ) == app_registry::app_named(t.registry, third),
{
    let other = match t.registry.current {
        Some(current) => current@,
        None => name@,
    };
    lemma_third_app_is_left_alone(t, model::toggle(t, name), answers, now, name@, other, third);
}

} // verus!
