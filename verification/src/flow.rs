//! The run's normal early terminations, and the reading of operator input.
//!
//! Three situations end the run normally, with exit code zero and a
//! message, before any deletion is attempted: an empty gathered result
//! set, an empty selection, and a declined confirmation. Everything else
//! proceeds. The decisions live here; printing and exiting stay outside
//! the library.

use vstd::prelude::*;

use crate::media::{item_label, CompleteMediaItem};

verus! {

/// A normal, non-error end of the run before any deletion.
#[derive(Clone, Copy, Debug, PartialEq, Eq, Structural)]
pub enum EarlyExit {
    /// Nothing was gathered: there is nothing to offer for deletion.
    NoValidRequests,
    /// The operator selected nothing.
    NothingSelected,
    /// The operator declined the confirmation.
    Declined,
}

impl EarlyExit {
    /// The message printed for this termination.
    pub fn message(&self) -> (m: &'static str)
        ensures
            *self is NoValidRequests ==> m@
                == "You do not seem to have any valid requests, with data available."@,
            *self is NothingSelected ==> m@ == "No items selected. Exiting..."@,
            *self is Declined ==> m@ == "Cancelling..."@,
    {
        match self {
            EarlyExit::NoValidRequests => {
                "You do not seem to have any valid requests, with data available."
            },
            EarlyExit::NothingSelected => "No items selected. Exiting...",
            EarlyExit::Declined => "Cancelling...",
        }
    }
}

/// An operator's answer is affirmative exactly when it starts with a `y`,
/// in either case; input is interpreted case-insensitively.
pub open spec fn affirmative(input: Seq<char>) -> bool {
    input.len() > 0 && (input[0] == 'y' || input[0] == 'Y')
}

/// Decides whether an input line is affirmative.
pub fn is_affirmative(input: &str) -> (r: bool)
    ensures
        r == affirmative(input@),
{
    if input.unicode_len() == 0 {
        false
    } else {
        let c = input.get_char(0);
        c == 'y' || c == 'Y'
    }
}

/// After gathering: an empty result set ends the run normally.
pub fn review_gathered(item_count: usize) -> (r: Option<EarlyExit>)
    ensures
        item_count == 0 ==> r == Some(EarlyExit::NoValidRequests),
        item_count != 0 ==> r is None,
{
    if item_count == 0 {
        Some(EarlyExit::NoValidRequests)
    } else {
        None
    }
}

/// After selection: an empty selection ends the run normally.
pub fn review_selection(selection_count: usize) -> (r: Option<EarlyExit>)
    ensures
        selection_count == 0 ==> r == Some(EarlyExit::NothingSelected),
        selection_count != 0 ==> r is None,
{
    if selection_count == 0 {
        Some(EarlyExit::NothingSelected)
    } else {
        None
    }
}

/// After the confirmation prompt: anything but an affirmative answer ends
/// the run normally, and no deletion is attempted.
pub fn review_confirmation(input: &str) -> (r: Option<EarlyExit>)
    ensures
        affirmative(input@) ==> r is None,
        !affirmative(input@) ==> r == Some(EarlyExit::Declined),
{
    if is_affirmative(input) {
        None
    } else {
        Some(EarlyExit::Declined)
    }
}

/// The line a chosen index gets on the confirmation screen: the item's
/// label behind a dash, or an explicit placeholder for an index that no
/// longer resolves — a stale index renders as unknown instead of failing.
pub fn confirmation_line(items: &Vec<CompleteMediaItem>, index: usize) -> (r: String)
    ensures
        index < items@.len() ==> r@ == "- "@ + item_label(items@[index as int]),
        index >= items@.len() ==> r@ == "- Unknown item"@,
{
    if index < items.len() {
        let mut line = String::from_str("- ");
        line.append(items[index].choice_label().as_str());
        line
    } else {
        String::from_str("- Unknown item")
    }
}

} // verus!
