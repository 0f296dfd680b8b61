//! The aggregate record the operator reviews.
//!
//! A `CompleteMediaItem` is built once per run by the aggregator, from the
//! pieces that the independent data sources contributed, and is immutable
//! afterwards except for its removal from the working collection.

use vstd::prelude::*;

verus! {

/// The kind of a media item.
#[derive(Clone, Copy, Debug, PartialEq, Eq, Structural)]
pub enum MediaType {
    Movie,
    Series,
}

/// The display name of a kind, as text.
pub open spec fn kind_name(t: MediaType) -> Seq<char> {
    match t {
        MediaType::Movie => "Movie"@,
        MediaType::Series => "Series"@,
    }
}

impl MediaType {
    /// The display name of the kind.
    pub fn name(&self) -> (r: &'static str)
        ensures
            r@ == kind_name(*self),
    {
        match self {
            MediaType::Movie => "Movie",
            MediaType::Series => "Series",
        }
    }
}

/// One fully merged record: the shared identity key under which the sources
/// were correlated, the display metadata, and the per-backend attributes
/// that the run needs to show and to remove the item.
#[derive(Clone, Debug, PartialEq, Eq)]
pub struct CompleteMediaItem {
    /// Identity shared across the backends.
    pub key: u64,
    /// Display title.
    pub title: String,
    /// Kind of the item.
    pub media_type: MediaType,
    /// How often the item was played, from the watch-history source.
    pub play_count: u64,
    /// The library manager's own identifier, needed to remove the item.
    pub manager_id: u64,
}

/// The label under which an item is offered for selection:
/// title, a dash, and the kind.
pub open spec fn item_label(item: CompleteMediaItem) -> Seq<char> {
    item.title@ + " - "@ + kind_name(item.media_type)
}

impl CompleteMediaItem {
    /// The label under which the item is offered for selection.
    pub fn choice_label(&self) -> (r: String)
        ensures
            r@ == item_label(*self),
    {
        let mut label = self.title.clone();
        label.append(" - ");
        label.append(self.media_type.name());
        label
    }
}

} // verus!
