//! The two-stage reveal of the failures collected while gathering.
//!
//! An explicit state machine rather than nested branching, so that the
//! polarity of every transition is a stated decision. The machine only
//! decides what to show next; it never touches the error list itself, so
//! the errors keep their original order and numbering throughout.
//!
//! Polarity: at the first prompt an affirmative answer reveals the
//! summaries; at the second prompt an affirmative answer reveals the full
//! diagnostic detail, and any other answer proceeds without it. After the
//! detail is shown, one acknowledging input of any kind ends the stage.

use vstd::prelude::*;

verus! {

/// Where the reveal stands.
#[derive(Clone, Copy, Debug, PartialEq, Eq, Structural)]
pub enum DisclosureState {
    /// Nothing shown yet.
    Suppressed,
    /// The summaries (index and short message, in original order) are on
    /// screen; the operator is asked about the full detail.
    SummaryShown,
    /// The full detail is on screen; the operator is asked to acknowledge.
    DetailShown,
    /// The reveal is over; the run proceeds to selection.
    Done,
}

/// The next state, given whether the error list is non-empty and whether
/// the operator's answer was affirmative.
pub open spec fn spec_advance(
    state: DisclosureState,
    has_errors: bool,
    affirmative: bool,
) -> DisclosureState {
    match state {
        DisclosureState::Suppressed => {
            if !has_errors {
                DisclosureState::Done
            } else if affirmative {
                DisclosureState::SummaryShown
            } else {
                DisclosureState::Done
            }
        },
        DisclosureState::SummaryShown => {
            if affirmative {
                DisclosureState::DetailShown
            } else {
                DisclosureState::Done
            }
        },
        DisclosureState::DetailShown => DisclosureState::Done,
        DisclosureState::Done => DisclosureState::Done,
    }
}

/// The state the reveal starts in.
pub fn start() -> (s: DisclosureState)
    ensures
        s == DisclosureState::Suppressed,
{
    DisclosureState::Suppressed
}

/// Drives the machine one step.
pub fn advance(state: DisclosureState, has_errors: bool, affirmative: bool) -> (next:
    DisclosureState)
    ensures
        next == spec_advance(state, has_errors, affirmative),
{
    match state {
        DisclosureState::Suppressed => {
            if !has_errors {
                DisclosureState::Done
            } else if affirmative {
                DisclosureState::SummaryShown
            } else {
                DisclosureState::Done
            }
        },
        DisclosureState::SummaryShown => {
            if affirmative {
                DisclosureState::DetailShown
            } else {
                DisclosureState::Done
            }
        },
        DisclosureState::DetailShown => DisclosureState::Done,
        DisclosureState::Done => DisclosureState::Done,
    }
}

/// Whether a state asks the operator for input before the next step.
pub fn needs_input(state: DisclosureState, has_errors: bool) -> (r: bool)
    ensures
        r == match state {
            DisclosureState::Suppressed => has_errors,
            DisclosureState::SummaryShown => true,
            DisclosureState::DetailShown => true,
            DisclosureState::Done => false,
        },
{
    match state {
        DisclosureState::Suppressed => has_errors,
        DisclosureState::SummaryShown => true,
        DisclosureState::DetailShown => true,
        DisclosureState::Done => false,
    }
}

/// With an empty error list the reveal is over at once: no prompt, no
/// output, whatever the operator might have answered.
pub proof fn lemma_empty_list_skips_reveal(affirmative: bool)
    ensures
        spec_advance(DisclosureState::Suppressed, false, affirmative)
            == DisclosureState::Done,
{
}

/// The reveal always ends: from any state, three steps reach `Done`, so
/// the run always arrives at the selection phase.
pub proof fn lemma_reveal_terminates(
    state: DisclosureState,
    has_errors: bool,
    a1: bool,
    a2: bool,
    a3: bool,
)
    ensures
        spec_advance(
            spec_advance(spec_advance(state, has_errors, a1), has_errors, a2),
            has_errors,
            a3,
        ) == DisclosureState::Done,
{
}

} // verus!
