//! The order in which things are done to a window.

use crate::animation;
use crate::animation::{PlanView, TransitionPlan, WindowState};
use crate::toggle::types::{Command, RestoreEntry};
use crate::wm::{FrameGeometry, ManagedWindow};
use vstd::prelude::*;

verus! {

/// The time between two frames of an animation, in milliseconds.
pub const FRAME_DELAY_MS: u64 = 16;

/// Putting a window somewhere: it is moved, then resized.
pub open spec fn geometry_commands(id: String, geometry: FrameGeometry) -> Seq<Command> {
    seq![Command::Move { id, geometry }, Command::Resize { id, geometry }]
}

/// Parking a window: it is resized before it leaves the screen, then moved.
pub open spec fn parking_commands(id: String, geometry: FrameGeometry) -> Seq<Command> {
    seq![Command::Resize { id, geometry }, Command::Move { id, geometry }]
}

/// Giving a window a state: its geometry, then its opacity, so far as the state sets them.
pub open spec fn state_commands(id: String, state: WindowState) -> Seq<Command> {
    (match state.geometry {
        Some(geometry) => geometry_commands(id, geometry),
        None => Seq::empty(),
    }) + (match state.opacity {
        Some(opacity) => seq![Command::SetOpacity { id, opacity }],
        None => Seq::empty(),
    })
}

/// The first frames of an animation, with a pause after each but the last of all.
pub open spec fn frame_commands(id: String, frames: Seq<WindowState>, count: int) -> Seq<Command>
    decreases count,
{
    if count <= 0 {
        Seq::empty()
    } else {
        frame_commands(id, frames, count - 1) + state_commands(id, frames[count - 1]) + if count
            < frames.len() {
            seq![Command::Pause { milliseconds: FRAME_DELAY_MS }]
        } else {
            Seq::empty()
        }
    }
}

/// Running an animation: the window comes to the front if it is to be seen, then the frames
/// follow, then the state in which they end, then what is undone.
pub open spec fn animation_commands(id: String, plan: PlanView, to_front: bool) -> Seq<Command> {
    (if to_front {
        seq![Command::BringToForeground { id }]
    } else {
        Seq::empty()
    }) + frame_commands(id, plan.frames, plan.frames.len() as int) + state_commands(id, plan.last)
        + state_commands(id, plan.teardown)
}

/// Hiding a window: it leaves the screen, is minimized, and is then put back where it is shown,
/// so that it rests on a real screen.
pub open spec fn hide_commands(
    id: String,
    visible: FrameGeometry,
    hidden: FrameGeometry,
    plan: Option<PlanView>,
) -> Seq<Command> {
    (match plan {
        Some(plan) => state_commands(id, plan.setup) + animation_commands(id, plan, false),
        None => parking_commands(id, hidden),
    }) + seq![Command::SetMinimized { id, minimized: true }] + geometry_commands(id, visible)
}

/// Bringing a window back: while it is still minimized it takes the state from which its
/// animation begins.
pub open spec fn reveal_commands(id: String, plan: Option<PlanView>) -> Seq<Command> {
    (match plan {
        Some(plan) => state_commands(id, plan.setup),
        None => Seq::empty(),
    }) + seq![Command::SetMinimized { id, minimized: false }]
}

/// Showing a window that is minimized no longer: its border goes if it is to go, and it moves
/// to its place.
pub open spec fn show_commands(
    window: ManagedWindow,
    hide_decorations: bool,
    visible: FrameGeometry,
    plan: Option<PlanView>,
) -> Seq<Command> {
    let id = window.internal_id;
    (if hide_decorations && !window.no_border {
        seq![Command::SetNoBorder { id, no_border: true }]
    } else {
        Seq::empty()
    }) + (match plan {
        Some(plan) => animation_commands(id, plan, true),
        None => geometry_commands(id, visible) + seq![Command::BringToForeground { id }],
    })
}

/// Putting a window back as it was before: it is shown if it is hidden, then it gets its
/// geometry and its border back, so far as they are known.
pub open spec fn restore_commands(entry: RestoreEntry) -> Seq<Command> {
    let id = entry.window_id;
    (if entry.visible {
        Seq::empty()
    } else {
        seq![Command::SetMinimized { id, minimized: false }]
    }) + (match entry.geometry {
        Some(geometry) => geometry_commands(id, geometry),
        None => Seq::empty(),
    }) + (match entry.no_border {
        Some(no_border) => seq![Command::SetNoBorder { id, no_border }],
        None => Seq::empty(),
    })
}

fn add_geometry(commands: &mut Vec<Command>, id: &String, geometry: &FrameGeometry)
    ensures
        final(commands)@ == old(commands)@ + geometry_commands(*id, *geometry),
{
    commands.push(Command::Move { id: id.clone(), geometry: *geometry });
    commands.push(Command::Resize { id: id.clone(), geometry: *geometry });
    assert(commands@ =~= old(commands)@ + geometry_commands(*id, *geometry));
}

fn add_state(commands: &mut Vec<Command>, id: &String, state: &WindowState)
    ensures
        final(commands)@ == old(commands)@ + state_commands(*id, *state),
{
    if let Some(geometry) = &state.geometry {
        add_geometry(commands, id, geometry);
    }
    if let Some(opacity) = state.opacity {
        commands.push(Command::SetOpacity { id: id.clone(), opacity });
    }
    assert(commands@ =~= old(commands)@ + state_commands(*id, *state));
}

fn add_animation(commands: &mut Vec<Command>, id: &String, plan: &TransitionPlan, to_front: bool)
    ensures
        final(commands)@ == old(commands)@ + animation_commands(*id, plan@, to_front),
{
    let ghost before = commands@;
    if to_front {
        commands.push(Command::BringToForeground { id: id.clone() });
    }
    let ghost begun = commands@;
    let mut i: usize = 0;
    assert(begun =~= begun + frame_commands(*id, plan.frames@, 0));
    while i < plan.frames.len()
        invariant
            i <= plan.frames@.len(),
            commands@ == begun + frame_commands(*id, plan.frames@, i as int),
        decreases plan.frames.len() - i,
    {
        add_state(commands, id, &plan.frames[i]);
        i += 1;
        if i < plan.frames.len() {
            commands.push(Command::Pause { milliseconds: FRAME_DELAY_MS });
        }
        assert(commands@ =~= begun + frame_commands(*id, plan.frames@, i as int));
    }
    add_state(commands, id, &plan.last);
    add_state(commands, id, &plan.teardown);
    assert(commands@ =~= before + animation_commands(*id, plan@, to_front));
}

/// What is done to hide a window.
pub fn hide_window(
    id: &String,
    visible: &FrameGeometry,
    hidden: &FrameGeometry,
    plan: &Option<TransitionPlan>,
) -> (commands: Vec<Command>)
    ensures
        commands@ == hide_commands(*id, *visible, *hidden, animation::optional_plan(*plan)),
{
    let mut commands: Vec<Command> = Vec::new();
    match plan {
        Some(plan) => {
            add_state(&mut commands, id, &plan.setup);
            add_animation(&mut commands, id, plan, false);
        },
        None => {
            commands.push(Command::Resize { id: id.clone(), geometry: *hidden });
            commands.push(Command::Move { id: id.clone(), geometry: *hidden });
        },
    }
    commands.push(Command::SetMinimized { id: id.clone(), minimized: true });
    add_geometry(&mut commands, id, visible);
    assert(commands@ =~= hide_commands(*id, *visible, *hidden, animation::optional_plan(*plan)));
    commands
}

/// What is done to bring a minimized window back.
pub fn reveal_window(id: &String, plan: &Option<TransitionPlan>) -> (commands: Vec<Command>)
    ensures
        commands@ == reveal_commands(*id, animation::optional_plan(*plan)),
{
    let mut commands: Vec<Command> = Vec::new();
    if let Some(plan) = plan {
        add_state(&mut commands, id, &plan.setup);
    }
    commands.push(Command::SetMinimized { id: id.clone(), minimized: false });
    assert(commands@ =~= reveal_commands(*id, animation::optional_plan(*plan)));
    commands
}

/// What is done to show a window that is minimized no longer.
pub fn show_window(
    window: &ManagedWindow,
    hide_decorations: bool,
    visible: &FrameGeometry,
    plan: &Option<TransitionPlan>,
) -> (commands: Vec<Command>)
    ensures
        commands@ == show_commands(
            *window,
            hide_decorations,
            *visible,
            animation::optional_plan(*plan),
        ),
{
    let id = &window.internal_id;
    let mut commands: Vec<Command> = Vec::new();
    if hide_decorations && !window.no_border {
        commands.push(Command::SetNoBorder { id: id.clone(), no_border: true });
    }
    match plan {
        Some(plan) => {
            add_animation(&mut commands, id, plan, true);
        },
        None => {
            add_geometry(&mut commands, id, visible);
            commands.push(Command::BringToForeground { id: id.clone() });
        },
    }
    assert(commands@ =~= show_commands(
        *window,
        hide_decorations,
        *visible,
        animation::optional_plan(*plan),
    ));
    commands
}

/// What is done to put a window back as it was.
pub fn restore_window(entry: &RestoreEntry) -> (commands: Vec<Command>)
    ensures
        commands@ == restore_commands(*entry),
{
    let id = &entry.window_id;
    let mut commands: Vec<Command> = Vec::new();
    if !entry.visible {
        commands.push(Command::SetMinimized { id: id.clone(), minimized: false });
    }
    if let Some(geometry) = &entry.geometry {
        add_geometry(&mut commands, id, geometry);
    }
    if let Some(no_border) = entry.no_border {
        commands.push(Command::SetNoBorder { id: id.clone(), no_border });
    }
    assert(commands@ =~= restore_commands(*entry));
    commands
}

} // verus!
