//! The error kinds the run collects.
//!
//! A `FetchError` records one failed interaction with a data source during
//! gathering; it is never fatal, only collected and, on request, shown. A
//! `DeletionError` records one item whose backend removal failed; it is
//! reported after the whole batch has run. A `FatalError` is the one kind
//! that aborts the run: a configuration or connectivity precondition that
//! makes the rest of the program meaningless.

use vstd::prelude::*;

verus! {

/// One failed interaction with a data source during gathering.
///
/// The short summary is always a prefix of the full diagnostic detail, so
/// the detail never says less than the summary.
#[derive(Clone, Debug, PartialEq, Eq)]
pub struct FetchError {
    /// Human-readable summary of the failure.
    pub summary: String,
    /// Full diagnostic detail; carries the summary and whatever follows it.
    pub detail: String,
}

impl FetchError {
    /// The summary is a prefix of the detail.
    pub open spec fn wf(self) -> bool {
        self.summary@.is_prefix_of(self.detail@)
    }

    /// Builds a fetch error whose detail is the summary followed by `extra`.
    pub fn new(summary: String, extra: &str) -> (r: FetchError)
        ensures
            r.summary@ == summary@,
            r.detail@ == summary@ + extra@,
            r.wf(),
    {
        let detail = summary.clone().concat(extra);
        let r = FetchError { summary, detail };
        proof {
            assert(r.summary@.is_prefix_of(r.detail@)) by {
                assert(r.detail@.subrange(0, r.summary@.len() as int) =~= r.summary@);
            }
        }
        r
    }

    /// An exact copy, field for field.
    pub fn duplicate(&self) -> (r: FetchError)
        ensures
            r == *self,
    {
        FetchError { summary: self.summary.clone(), detail: self.detail.clone() }
    }
}

/// One item whose backend removal failed: the item's title paired with the
/// failure detail.
#[derive(Clone, Debug, PartialEq, Eq)]
pub struct DeletionError {
    /// Title of the item that was not removed.
    pub title: String,
    /// What the backend reported.
    pub detail: String,
}

/// A startup precondition failure: the one error kind that aborts the run.
#[derive(Clone, Debug, PartialEq, Eq)]
pub struct FatalError {
    /// The message surfaced verbatim before the non-zero exit.
    pub message: String,
}

} // verus!
