//! What becomes of a window by what is done to it.

use crate::animation::{Opacity, PlanView, WindowState};
use crate::toggle::commands;
use crate::toggle::types::{Command, RestoreEntry};
use crate::wm::{FrameGeometry, ManagedWindow};
use vstd::prelude::*;

verus! {

/// How a window stands: where, how large, and how it can be seen.
pub struct Sight {
    pub x: i32,
    pub y: i32,
    pub width: i32,
    pub height: i32,
    pub opacity: Opacity,
    pub no_border: bool,
    pub minimized: bool,
    pub in_front: bool,
}

/// How a window stands once one thing has been done. What is done to another window, or waited
/// for, does not matter to it.
pub open spec fn done_to(s: Sight, id: String, command: Command) -> Sight {
    match command {
        Command::Move { id: of, geometry } => if of == id {
            Sight { x: geometry.x, y: geometry.y, ..s }
        } else {
            s
        },
        Command::Resize { id: of, geometry } => if of == id {
            Sight { width: geometry.width, height: geometry.height, ..s }
        } else {
            s
        },
        Command::SetOpacity { id: of, opacity } => if of == id {
            Sight { opacity, ..s }
        } else {
            s
        },
        Command::SetNoBorder { id: of, no_border } => if of == id {
            Sight { no_border, ..s }
        } else {
            s
        },
        Command::SetMinimized { id: of, minimized } => if of == id {
            Sight { minimized, ..s }
        } else {
            s
        },
        Command::BringToForeground { id: of } => if of == id {
            Sight { in_front: true, ..s }
        } else {
            s
        },
        Command::Pause { .. } => s,
    }
}

/// How a window stands once some things have been done in order.
pub open spec fn after(s: Sight, id: String, done: Seq<Command>) -> Sight
    decreases done.len(),
{
    if done.len() == 0 {
        s
    } else {
        done_to(after(s, id, done.drop_last()), id, done.last())
    }
}

/// How a window stands at each pause along the way: what the user sees of it.
pub open spec fn looks(s: Sight, id: String, done: Seq<Command>) -> Seq<Sight>
    decreases done.len(),
{
    if done.len() == 0 {
        Seq::empty()
    } else if done.last() is Pause {
        looks(s, id, done.drop_last()).push(after(s, id, done.drop_last()))
    } else {
        looks(s, id, done.drop_last())
    }
}

/// How a window stands once it has taken a state; what the state leaves out stays as it is.
pub open spec fn dressed(s: Sight, state: WindowState) -> Sight {
    let placed = match state.geometry {
        Some(geometry) => standing_at(s, geometry),
        None => s,
    };
    match state.opacity {
        Some(opacity) => Sight { opacity, ..placed },
        None => placed,
    }
}

/// How a window stands once it has a geometry.
pub open spec fn standing_at(s: Sight, geometry: FrameGeometry) -> Sight {
    Sight {
        x: geometry.x,
        y: geometry.y,
        width: geometry.width,
        height: geometry.height,
        ..s
    }
}

/// How a window stands once it has gone through the first of some frames.
pub open spec fn played(s: Sight, frames: Seq<WindowState>, count: int) -> Sight
    decreases count,
{
    if count <= 0 {
        s
    } else {
        dressed(played(s, frames, count - 1), frames[count - 1])
    }
}

/// Whether everything that is done is done to one window, and every pause is one sixtieth of a
/// second in whole milliseconds.
pub open spec fn concerns(done: Seq<Command>, id: String) -> bool {
    forall|i: int|
        0 <= i < done.len() ==> match #[trigger] done[i] {
            Command::Move { id: of, .. } => of == id,
            Command::Resize { id: of, .. } => of == id,
            Command::SetOpacity { id: of, .. } => of == id,
            Command::SetNoBorder { id: of, .. } => of == id,
            Command::SetMinimized { id: of, .. } => of == id,
            Command::BringToForeground { id: of } => of == id,
            Command::Pause { milliseconds } => milliseconds == 16,
        }
}

proof fn lemma_one(s: Sight, id: String, command: Command)
    ensures
        after(s, id, seq![command]) == done_to(s, id, command),
        looks(s, id, seq![command]) == if command is Pause {
            seq![s]
        } else {
            Seq::empty()
        },
{
    reveal_with_fuel(after, 2);
    reveal_with_fuel(looks, 2);
    assert(seq![command].drop_last() =~= Seq::<Command>::empty());
    assert(looks(s, id, seq![command]) =~= if command is Pause {
        seq![s]
    } else {
        Seq::empty()
    });
}

proof fn lemma_both(s: Sight, id: String, first: Seq<Command>, second: Seq<Command>)
    ensures
        after(s, id, first + second) == after(after(s, id, first), id, second),
        looks(s, id, first + second) == looks(s, id, first) + looks(
            after(s, id, first),
            id,
            second,
        ),
    decreases second.len(),
{
    let all = first + second;
    if second.len() == 0 {
        assert(all =~= first);
        assert(looks(s, id, first) =~= looks(s, id, first) + Seq::<Sight>::empty());
    } else {
        assert(all.drop_last() =~= first + second.drop_last());
        assert(all.last() == second.last());
        lemma_both(s, id, first, second.drop_last());
        assert(looks(s, id, all) =~= looks(s, id, first) + looks(
            after(s, id, first),
            id,
            second,
        ));
    }
}

proof fn lemma_two(s: Sight, id: String, first: Command, second: Command)
    ensures
        after(s, id, seq![first, second]) == done_to(done_to(s, id, first), id, second),
        !(first is Pause) && !(second is Pause) ==> looks(s, id, seq![first, second])
            == Seq::<Sight>::empty(),
{
    lemma_one(s, id, first);
    lemma_one(done_to(s, id, first), id, second);
    lemma_both(s, id, seq![first], seq![second]);
    assert(seq![first] + seq![second] =~= seq![first, second]);
}

proof fn lemma_state(s: Sight, id: String, state: WindowState)
    ensures
        after(s, id, commands::state_commands(id, state)) == dressed(s, state),
        looks(s, id, commands::state_commands(id, state)) == Seq::<Sight>::empty(),
        concerns(commands::state_commands(id, state), id),
{
    let placing = match state.geometry {
        Some(geometry) => commands::geometry_commands(id, geometry),
        None => Seq::empty(),
    };
    let fading = match state.opacity {
        Some(opacity) => seq![Command::SetOpacity { id, opacity }],
        None => Seq::empty(),
    };
    if let Some(geometry) = state.geometry {
        lemma_two(s, id, Command::Move { id, geometry }, Command::Resize { id, geometry });
    }
    if let Some(opacity) = state.opacity {
        lemma_one(after(s, id, placing), id, Command::SetOpacity { id, opacity });
    }
    lemma_both(s, id, placing, fading);
    assert(looks(s, id, placing + fading) =~= Seq::<Sight>::empty());
}

proof fn lemma_frames(s: Sight, id: String, frames: Seq<WindowState>, count: int)
    requires
        0 <= count <= frames.len(),
    ensures
        ({
            let done = commands::frame_commands(id, frames, count);
            &&& after(s, id, done) == played(s, frames, count)
            &&& looks(s, id, done).len() == if count < frames.len() {
                count
            } else if count > 0 {
                count - 1
            } else {
                0
            }
            &&& forall|i: int|
                0 <= i < looks(s, id, done).len() ==> #[trigger] looks(s, id, done)[i] == played(
                    s,
                    frames,
                    i + 1,
                )
            &&& concerns(done, id)
        }),
    decreases count,
{
    if count > 0 {
        let before = commands::frame_commands(id, frames, count - 1);
        let state = commands::state_commands(id, frames[count - 1]);
        let pause: Seq<Command> = if count < frames.len() {
            seq![Command::Pause { milliseconds: commands::FRAME_DELAY_MS }]
        } else {
            Seq::empty()
        };
        lemma_frames(s, id, frames, count - 1);
        lemma_state(played(s, frames, count - 1), id, frames[count - 1]);
        lemma_both(s, id, before, state);
        lemma_both(s, id, before + state, pause);
        if count < frames.len() {
            lemma_one(
                played(s, frames, count),
                id,
                Command::Pause { milliseconds: commands::FRAME_DELAY_MS },
            );
        }
        let done = commands::frame_commands(id, frames, count);
        assert(done =~= before + state + pause);
        assert forall|i: int| 0 <= i < looks(s, id, done).len() implies #[trigger] looks(
            s,
            id,
            done,
        )[i] == played(s, frames, i + 1) by {
            if i < looks(s, id, before).len() {
                assert(looks(s, id, done)[i] == looks(s, id, before)[i]);
            }
        }
    }
}

proof fn lemma_animation(s: Sight, id: String, plan: PlanView, to_front: bool)
    ensures
        ({
            let done = commands::animation_commands(id, plan, to_front);
            let begun = Sight { in_front: s.in_front || to_front, ..s };
            let count = plan.frames.len() as int;
            &&& after(s, id, done) == dressed(
                dressed(played(begun, plan.frames, count), plan.last),
                plan.teardown,
            )
            &&& looks(s, id, done).len() == if count > 0 {
                count - 1
            } else {
                0
            }
            &&& forall|i: int|
                0 <= i < looks(s, id, done).len() ==> #[trigger] looks(s, id, done)[i] == played(
                    begun,
                    plan.frames,
                    i + 1,
                )
            &&& concerns(done, id)
        }),
{
    let begun = Sight { in_front: s.in_front || to_front, ..s };
    let count = plan.frames.len() as int;
    let front = if to_front {
        seq![Command::BringToForeground { id }]
    } else {
        Seq::empty()
    };
    let frames = commands::frame_commands(id, plan.frames, count);
    let last = commands::state_commands(id, plan.last);
    let teardown = commands::state_commands(id, plan.teardown);
    if to_front {
        lemma_one(s, id, Command::BringToForeground { id });
    }
    assert(after(s, id, front) == begun);
    lemma_frames(begun, id, plan.frames, count);
    lemma_state(played(begun, plan.frames, count), id, plan.last);
    lemma_state(dressed(played(begun, plan.frames, count), plan.last), id, plan.teardown);
    lemma_both(s, id, front, frames);
    lemma_both(s, id, front + frames, last);
    lemma_both(s, id, front + frames + last, teardown);
    let done = commands::animation_commands(id, plan, to_front);
    assert(done =~= front + frames + last + teardown);
    assert(looks(s, id, done) =~= looks(begun, id, frames));
}

/// Putting a window back gives it the geometry and the border that are known of it, whatever else
/// is known and whether or not it can be seen, and shows it if it is hidden. What is not known
/// stays as it is, and so does everything else.
pub proof fn law_window_is_put_back_as_it_was(s: Sight, entry: RestoreEntry)
    ensures
        ({
            let end = after(s, entry.window_id, commands::restore_commands(entry));
            &&& match entry.geometry {
                Some(geometry) => end.x == geometry.x && end.y == geometry.y && end.width
                    == geometry.width && end.height == geometry.height,
                None => end.x == s.x && end.y == s.y && end.width == s.width && end.height
                    == s.height,
            }
            &&& match entry.no_border {
                Some(no_border) => end.no_border == no_border,
                None => end.no_border == s.no_border,
            }
            &&& end.minimized == (s.minimized && entry.visible)
            &&& end.opacity == s.opacity
            &&& end.in_front == s.in_front
        }),
        concerns(commands::restore_commands(entry), entry.window_id),
{
    let id = entry.window_id;
    let showing = if entry.visible {
        Seq::empty()
    } else {
        seq![Command::SetMinimized { id, minimized: false }]
    };
    let placing = match entry.geometry {
        Some(geometry) => commands::geometry_commands(id, geometry),
        None => Seq::empty(),
    };
    let framing = match entry.no_border {
        Some(no_border) => seq![Command::SetNoBorder { id, no_border }],
        None => Seq::empty(),
    };
    lemma_one(s, id, Command::SetMinimized { id, minimized: false });
    let shown = after(s, id, showing);
    if let Some(geometry) = entry.geometry {
        lemma_two(shown, id, Command::Move { id, geometry }, Command::Resize { id, geometry });
    }
    let placed = after(shown, id, placing);
    if let Some(no_border) = entry.no_border {
        lemma_one(placed, id, Command::SetNoBorder { id, no_border });
    }
    lemma_both(s, id, showing, placing);
    lemma_both(s, id, showing + placing, framing);
    assert(commands::restore_commands(entry) =~= showing + placing + framing);
}

/// What puts a window back holds a move and a resize to the geometry that is known, and those
/// alone; it holds a border command exactly where the border is known, and one that brings the
/// window back exactly where it is hidden.
pub proof fn law_what_is_known_is_put_back_and_nothing_else(entry: RestoreEntry)
    ensures
        ({
            let done = commands::restore_commands(entry);
            let id = entry.window_id;
            &&& forall|geometry: FrameGeometry| #[trigger]
                done.contains(Command::Move { id, geometry }) <==> entry.geometry == Some(geometry)
            &&& forall|geometry: FrameGeometry| #[trigger]
                done.contains(Command::Resize { id, geometry }) <==> entry.geometry == Some(
                    geometry,
                )
            &&& forall|no_border: bool| #[trigger]
                done.contains(Command::SetNoBorder { id, no_border }) <==> entry.no_border == Some(
                    no_border,
                )
            &&& forall|minimized: bool| #[trigger]
                done.contains(Command::SetMinimized { id, minimized }) <==> !minimized
                    && !entry.visible
        }),
{
    let done = commands::restore_commands(entry);
    let id = entry.window_id;
    let shown: int = if entry.visible {
        0
    } else {
        1
    };
    let placed: int = if entry.geometry is Some {
        shown + 2
    } else {
        shown
    };
    if !entry.visible {
        assert(done[0] == (Command::SetMinimized { id, minimized: false }));
    }
    if let Some(geometry) = entry.geometry {
        assert(done[shown] == (Command::Move { id, geometry }));
        assert(done[shown + 1] == (Command::Resize { id, geometry }));
    }
    if let Some(no_border) = entry.no_border {
        assert(done[placed] == (Command::SetNoBorder { id, no_border }));
    }
}

/// Hiding a window leaves it minimized in the place where it is shown, with its border as it was.
/// Without a transition it is out of sight, in the place where it is parked, when it is minimized.
/// Nothing is waited for.
pub proof fn law_window_is_hidden_out_of_sight(
    s: Sight,
    id: String,
    visible: FrameGeometry,
    hidden: FrameGeometry,
)
    ensures
        ({
            let done = commands::hide_commands(id, visible, hidden, None);
            &&& after(s, id, done) == standing_at(Sight { minimized: true, ..s }, visible)
            &&& looks(s, id, done).len() == 0
            &&& concerns(done, id)
            &&& forall|i: int|
                0 <= i < done.len() && (#[trigger] done[i]) is SetMinimized ==> after(
                    s,
                    id,
                    done.take(i),
                ) == standing_at(s, hidden)
        }),
{
    let done = commands::hide_commands(id, visible, hidden, None);
    let parking = commands::parking_commands(id, hidden);
    let minimizing = seq![Command::SetMinimized { id, minimized: true }];
    let placing = commands::geometry_commands(id, visible);
    let parked = standing_at(s, hidden);
    let minimized = Sight { minimized: true, ..parked };
    lemma_two(
        s,
        id,
        Command::Resize { id, geometry: hidden },
        Command::Move { id, geometry: hidden },
    );
    lemma_one(parked, id, Command::SetMinimized { id, minimized: true });
    lemma_two(
        minimized,
        id,
        Command::Move { id, geometry: visible },
        Command::Resize { id, geometry: visible },
    );
    lemma_both(s, id, parking, minimizing);
    lemma_both(s, id, parking + minimizing, placing);
    assert(done =~= parking + minimizing + placing);
    assert(done.take(2) =~= parking);
}

/// Hiding a window with a transition takes it from the state in which the transition begins
/// through every frame in turn, each to be seen for a moment, to the state in which it ends, and
/// undoes what is to be undone, before the window is minimized. It then rests in the place where
/// it is shown, and neither its border nor what is in front has changed.
pub proof fn law_window_is_hidden_frame_by_frame(
    s: Sight,
    id: String,
    visible: FrameGeometry,
    hidden: FrameGeometry,
    plan: PlanView,
)
    ensures
        ({
            let done = commands::hide_commands(id, visible, hidden, Some(plan));
            let begun = dressed(s, plan.setup);
            let count = plan.frames.len() as int;
            let gone = dressed(dressed(played(begun, plan.frames, count), plan.last), plan.teardown);
            let seen = looks(s, id, done);
            &&& after(s, id, done) == standing_at(Sight { minimized: true, ..gone }, visible)
            &&& seen.len() == if count > 0 {
                count - 1
            } else {
                0
            }
            &&& forall|i: int|
                0 <= i < seen.len() ==> #[trigger] seen[i] == played(begun, plan.frames, i + 1)
            &&& concerns(done, id)
            &&& done.len() >= 3
            &&& after(s, id, done.take(done.len() - 3)) == gone
            &&& done[done.len() - 3] == (Command::SetMinimized { id, minimized: true })
        }),
{
    let done = commands::hide_commands(id, visible, hidden, Some(plan));
    let setup = commands::state_commands(id, plan.setup);
    let moving = commands::animation_commands(id, plan, false);
    let minimizing = seq![Command::SetMinimized { id, minimized: true }];
    let placing = commands::geometry_commands(id, visible);
    let begun = dressed(s, plan.setup);
    let count = plan.frames.len() as int;
    let gone = dressed(dressed(played(begun, plan.frames, count), plan.last), plan.teardown);
    let minimized = Sight { minimized: true, ..gone };
    lemma_state(s, id, plan.setup);
    lemma_animation(begun, id, plan, false);
    lemma_one(gone, id, Command::SetMinimized { id, minimized: true });
    lemma_two(
        minimized,
        id,
        Command::Move { id, geometry: visible },
        Command::Resize { id, geometry: visible },
    );
    lemma_both(s, id, setup, moving);
    lemma_both(s, id, setup + moving, minimizing);
    lemma_both(s, id, setup + moving + minimizing, placing);
    assert(done =~= setup + moving + minimizing + placing);
    assert(done.take(done.len() - 3) =~= setup + moving);
    assert(looks(s, id, done) =~= looks(begun, id, moving));
}

/// Showing a window without a transition brings it back, puts it in its place, and brings it to
/// the front; its border goes if it is to go and the window has one, and stays if not. Nothing is
/// waited for.
pub proof fn law_window_is_shown_in_its_place(
    s: Sight,
    window: ManagedWindow,
    hide_decorations: bool,
    visible: FrameGeometry,
)
    ensures
        ({
            let id = window.internal_id;
            let done = commands::reveal_commands(id, None) + commands::show_commands(
                window,
                hide_decorations,
                visible,
                None,
            );
            let end = Sight {
                minimized: false,
                in_front: true,
                no_border: s.no_border || (hide_decorations && !window.no_border),
                ..s
            };
            &&& after(s, id, done) == standing_at(end, visible)
            &&& looks(s, id, done).len() == 0
            &&& concerns(done, id)
        }),
{
    let id = window.internal_id;
    let reveal = commands::reveal_commands(id, None);
    let border: Seq<Command> = if hide_decorations && !window.no_border {
        seq![Command::SetNoBorder { id, no_border: true }]
    } else {
        Seq::empty()
    };
    let placing = commands::geometry_commands(id, visible);
    let front = seq![Command::BringToForeground { id }];
    let back = Sight { minimized: false, ..s };
    assert(reveal =~= seq![Command::SetMinimized { id, minimized: false }]);
    lemma_one(s, id, Command::SetMinimized { id, minimized: false });
    lemma_one(back, id, Command::SetNoBorder { id, no_border: true });
    let framed = after(back, id, border);
    lemma_two(
        framed,
        id,
        Command::Move { id, geometry: visible },
        Command::Resize { id, geometry: visible },
    );
    lemma_one(standing_at(framed, visible), id, Command::BringToForeground { id });
    lemma_both(s, id, reveal, border);
    lemma_both(s, id, reveal + border, placing);
    lemma_both(s, id, reveal + border + placing, front);
    let done = reveal + commands::show_commands(window, hide_decorations, visible, None);
    assert(done =~= reveal + border + placing + front);
    assert(looks(s, id, done) =~= Seq::<Sight>::empty());
}

/// Showing a window with a transition lets it take the state in which the transition begins before
/// it is brought back, and then takes it, in front of the others, through every frame in turn, each
/// to be seen for a moment, to the state in which the transition ends, and undoes what is to be
/// undone.
pub proof fn law_window_is_shown_frame_by_frame(
    s: Sight,
    window: ManagedWindow,
    hide_decorations: bool,
    visible: FrameGeometry,
    plan: PlanView,
)
    ensures
        ({
            let id = window.internal_id;
            let reveal = commands::reveal_commands(id, Some(plan));
            let done = reveal + commands::show_commands(
                window,
                hide_decorations,
                visible,
                Some(plan),
            );
            let begun = Sight {
                minimized: false,
                in_front: true,
                no_border: s.no_border || (hide_decorations && !window.no_border),
                ..dressed(s, plan.setup)
            };
            let count = plan.frames.len() as int;
            let seen = looks(s, id, done);
            &&& after(s, id, reveal.drop_last()) == dressed(s, plan.setup)
            &&& reveal.last() == (Command::SetMinimized { id, minimized: false })
            &&& after(s, id, done) == dressed(
                dressed(played(begun, plan.frames, count), plan.last),
                plan.teardown,
            )
            &&& seen.len() == if count > 0 {
                count - 1
            } else {
                0
            }
            &&& forall|i: int|
                0 <= i < seen.len() ==> #[trigger] seen[i] == played(begun, plan.frames, i + 1)
            &&& concerns(done, id)
        }),
{
    let id = window.internal_id;
    let setup = commands::state_commands(id, plan.setup);
    let bringing = seq![Command::SetMinimized { id, minimized: false }];
    let border: Seq<Command> = if hide_decorations && !window.no_border {
        seq![Command::SetNoBorder { id, no_border: true }]
    } else {
        Seq::empty()
    };
    let moving = commands::animation_commands(id, plan, true);
    let ready = dressed(s, plan.setup);
    let back = Sight { minimized: false, ..ready };
    lemma_state(s, id, plan.setup);
    lemma_one(ready, id, Command::SetMinimized { id, minimized: false });
    lemma_one(back, id, Command::SetNoBorder { id, no_border: true });
    let framed = after(back, id, border);
    lemma_animation(framed, id, plan, true);
    lemma_both(s, id, setup, bringing);
    lemma_both(s, id, setup + bringing, border);
    lemma_both(s, id, setup + bringing + border, moving);
    let reveal = commands::reveal_commands(id, Some(plan));
    let done = reveal + commands::show_commands(window, hide_decorations, visible, Some(plan));
    assert(reveal.drop_last() =~= setup);
    assert(done =~= setup + bringing + border + moving);
    assert(looks(s, id, done) =~= looks(framed, id, moving));
}

/// A window is moved before it is resized, and fades after both. Where it is shown at once its
/// border goes first, and it comes to the front last. Where it is put back it is brought back first,
/// and gets its border last.
pub proof fn law_things_are_done_in_order(
    window: ManagedWindow,
    hide_decorations: bool,
    geometry: FrameGeometry,
    opacity: Opacity,
    entry: RestoreEntry,
)
    ensures
        ({
            let id = window.internal_id;
            let state = WindowState { geometry: Some(geometry), opacity: Some(opacity) };
            let done = commands::show_commands(window, hide_decorations, geometry, None);
            let first: int = if hide_decorations && !window.no_border {
                1
            } else {
                0
            };
            &&& commands::state_commands(id, state) =~= seq![
                Command::Move { id, geometry },
                Command::Resize { id, geometry },
                Command::SetOpacity { id, opacity },
            ]
            &&& done.len() == first + 3
            &&& first == 1 ==> done[0] == (Command::SetNoBorder { id, no_border: true })
            &&& done[first] == (Command::Move { id, geometry })
            &&& done[first + 1] == (Command::Resize { id, geometry })
            &&& done[first + 2] == (Command::BringToForeground { id })
        }),
        ({
            let id = entry.window_id;
            let done = commands::restore_commands(entry);
            let shown: int = if entry.visible {
                0
            } else {
                1
            };
            let placed: int = if entry.geometry is Some {
                shown + 2
            } else {
                shown
            };
            &&& done.len() == placed + if entry.no_border is Some {
                1int
            } else {
                0
            }
            &&& !entry.visible ==> done[0] == (Command::SetMinimized { id, minimized: false })
            &&& entry.geometry matches Some(geometry) ==> done[shown] == (Command::Move {
                id,
                geometry,
            }) && done[shown + 1] == (Command::Resize { id, geometry })
            &&& entry.no_border matches Some(no_border) ==> done[placed] == (
            Command::SetNoBorder { id, no_border })
        }),
{
}

} // verus!
