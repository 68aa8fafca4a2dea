//! Transitions of a window between hidden and shown, as lists of states to pass through.

use crate::wm::FrameGeometry;
use vstd::prelude::*;

verus! {

/// Which way a transition goes.
#[derive(Debug, Clone, Copy, PartialEq, Eq, Structural)]
pub enum TransitionPhase {
    Show,
    Hide,
}

/// A window's opacity: the bits of a double-precision number from 0, invisible, to 1, opaque.
#[derive(Debug, Clone, Copy, PartialEq, Eq, Structural)]
pub struct Opacity {
    pub bits: u64,
}

/// What a window is to look like at one moment; what is left out stays as it is.
#[derive(Debug, Clone, Copy, PartialEq, Eq, Structural)]
pub struct WindowState {
    pub geometry: Option<FrameGeometry>,
    pub opacity: Option<Opacity>,
}

/// A transition: the state it begins from, its frames, the state it ends in, and what is
/// undone after it.
#[derive(Debug)]
pub struct TransitionPlan {
    pub setup: WindowState,
    pub frames: Vec<WindowState>,
    pub last: WindowState,
    pub teardown: WindowState,
}

/// A transition by the states that it holds.
pub struct PlanView {
    pub setup: WindowState,
    pub frames: Seq<WindowState>,
    pub last: WindowState,
    pub teardown: WindowState,
}

impl View for TransitionPlan {
    type V = PlanView;

    open spec fn view(&self) -> PlanView {
        PlanView {
            setup: self.setup,
            frames: self.frames@,
            last: self.last,
            teardown: self.teardown,
        }
    }
}

/// A transition that may be left out, by the states that it holds.
pub open spec fn optional_plan(plan: Option<TransitionPlan>) -> Option<PlanView> {
    match plan {
        Some(plan) => Some(plan@),
        None => None,
    }
}

/// A transition holds the state that it begins from, its frames in their order, the state that it
/// ends in, and what is undone after it.
pub proof fn law_transition_holds_its_states(plan: TransitionPlan)
    ensures
        plan@.setup == plan.setup,
        plan@.frames == plan.frames@,
        plan@.last == plan.last,
        plan@.teardown == plan.teardown,
        optional_plan(Some(plan)) == Some(plan@),
        optional_plan(None) is None,
{
}

} // verus!
