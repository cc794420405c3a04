//! What a reaction to a message comes to.
use crate::state::{Ajour, AjourView, ExpandView};
use crate::task::{idle, Step, StepView};
use vstd::prelude::*;

verus! {

/// The program after a message, and what is to be done then.
pub struct Outcome {
    pub ajour: AjourView,
    pub step: StepView,
}

/// What a reaction came to.
pub open spec fn outcome(ajour: Ajour, step: Step) -> Outcome {
    Outcome { ajour: ajour.deep_view(), step: step.deep_view() }
}

/// The program is as given, and nothing is to be done.
pub open spec fn only(ajour: AjourView) -> Outcome {
    Outcome { ajour, step: idle() }
}

/// The program with the settings closed.
pub open spec fn settings_closed(ajour: AjourView) -> AjourView {
    AjourView { is_showing_settings: false, ..ajour }
}

/// The program with the settings closed and nothing unfolded.
pub open spec fn tidied(ajour: AjourView) -> AjourView {
    AjourView { is_showing_settings: false, expanded_type: ExpandView::Nothing, ..ajour }
}

} // verus!
