//! The aggregator: merging per-item contributions from several independent,
//! unreliable data sources into one collection of complete records.
//!
//! Each requested identity arrives with one contribution per source. A
//! source may have found data, found nothing (the item is simply not there
//! yet), or failed outright. An item enters the result set only when every
//! source found data — the completeness filter; an item that never reached
//! completeness is dropped silently, while hard failures are collected
//! out of band, in the order they were recorded, and never abort the merge.

use vstd::prelude::*;

use crate::errors::{FatalError, FetchError};
use crate::media::{CompleteMediaItem, MediaType};

verus! {

/// What one data source contributed for one requested identity.
#[derive(Clone, Debug, PartialEq, Eq)]
pub enum Sourced<T> {
    /// The source answered with data.
    Found(T),
    /// The source answered, but has nothing for this identity.
    Absent,
    /// The interaction with the source failed.
    Failed(FetchError),
}

/// Display metadata, from the descriptive-metadata source.
#[derive(Clone, Debug, PartialEq, Eq)]
pub struct MetadataInfo {
    /// Display title.
    pub title: String,
    /// Kind of the item.
    pub media_type: MediaType,
}

/// Watch history, from the watch/availability source.
#[derive(Clone, Copy, Debug, PartialEq, Eq, Structural)]
pub struct WatchInfo {
    /// How often the item was played.
    pub play_count: u64,
}

/// Removability data, from the library-manager source.
#[derive(Clone, Copy, Debug, PartialEq, Eq, Structural)]
pub struct ManagerInfo {
    /// The manager's own identifier for the item.
    pub manager_id: u64,
}

/// Everything the sources contributed for one requested identity.
#[derive(Clone, Debug, PartialEq, Eq)]
pub struct ItemSources {
    /// The identity under which the contributions were correlated.
    pub key: u64,
    /// Contribution of the descriptive-metadata source.
    pub metadata: Sourced<MetadataInfo>,
    /// Contribution of the watch/availability source.
    pub watch: Sourced<WatchInfo>,
    /// Contribution of the library-manager source.
    pub manager: Sourced<ManagerInfo>,
}

/// A row is complete when every source found data.
pub open spec fn is_complete(row: ItemSources) -> bool {
    &&& row.metadata is Found
    &&& row.watch is Found
    &&& row.manager is Found
}

/// A row carries a hard failure when some source failed.
pub open spec fn has_failure(row: ItemSources) -> bool {
    ||| row.metadata is Failed
    ||| row.watch is Failed
    ||| row.manager is Failed
}

/// The failure one contribution carries, if any.
pub open spec fn failure_of<T>(s: Sourced<T>) -> Seq<FetchError> {
    match s {
        Sourced::Failed(e) => seq![e],
        _ => Seq::empty(),
    }
}

/// The failures one row carries, in source order.
pub open spec fn row_failures(row: ItemSources) -> Seq<FetchError> {
    failure_of(row.metadata) + failure_of(row.watch) + failure_of(row.manager)
}

/// The record a complete row merges into.
pub open spec fn merged_item(row: ItemSources) -> CompleteMediaItem
    recommends
        is_complete(row),
{
    CompleteMediaItem {
        key: row.key,
        title: row.metadata->Found_0.title,
        media_type: row.metadata->Found_0.media_type,
        play_count: row.watch->Found_0.play_count,
        manager_id: row.manager->Found_0.manager_id,
    }
}

/// The result set: every complete row merged, in row order.
pub open spec fn gathered_items(rows: Seq<ItemSources>) -> Seq<CompleteMediaItem>
    decreases rows.len(),
{
    if rows.len() == 0 {
        Seq::empty()
    } else {
        gathered_items(rows.drop_last()) + if is_complete(rows.last()) {
            seq![merged_item(rows.last())]
        } else {
            Seq::empty()
        }
    }
}

/// The failure list: every row's failures, in row order.
pub open spec fn gathered_errors(rows: Seq<ItemSources>) -> Seq<FetchError>
    decreases rows.len(),
{
    if rows.len() == 0 {
        Seq::empty()
    } else {
        gathered_errors(rows.drop_last()) + row_failures(rows.last())
    }
}

/// How many hard failures the rows carry in all.
pub open spec fn failure_count(rows: Seq<ItemSources>) -> nat
    decreases rows.len(),
{
    if rows.len() == 0 {
        0
    } else {
        failure_count(rows.drop_last()) + row_failures(rows.last()).len()
    }
}

/// Merges the rows into the result set and the failure list.
///
/// The merge is total: whatever mixture of found, absent and failed
/// contributions the rows carry — including every source failing — it
/// returns, with the complete rows merged in order and the failures
/// collected in order.
pub fn merge_sources(rows: &Vec<ItemSources>) -> (r: (Vec<CompleteMediaItem>, Vec<FetchError>))
    ensures
        r.0@ == gathered_items(rows@),
        r.1@ == gathered_errors(rows@),
{
    let mut items: Vec<CompleteMediaItem> = Vec::new();
    let mut errs: Vec<FetchError> = Vec::new();
    let mut i: usize = 0;
    while i < rows.len()
        invariant
            0 <= i <= rows@.len(),
            items@ == gathered_items(rows@.take(i as int)),
            errs@ == gathered_errors(rows@.take(i as int)),
        decreases rows@.len() - i,
    {
        let row = &rows[i];
        let ghost prefix = rows@.take(i as int);
        if let Sourced::Failed(e) = &row.metadata {
            errs.push(e.duplicate());
        }
        if let Sourced::Failed(e) = &row.watch {
            errs.push(e.duplicate());
        }
        if let Sourced::Failed(e) = &row.manager {
            errs.push(e.duplicate());
        }
        proof {
            assert(errs@ =~= gathered_errors(prefix) + row_failures(rows@[i as int]));
        }
        match (&row.metadata, &row.watch, &row.manager) {
            (Sourced::Found(meta), Sourced::Found(watch), Sourced::Found(manager)) => {
                items.push(CompleteMediaItem {
                    key: row.key,
                    title: meta.title.clone(),
                    media_type: meta.media_type,
                    play_count: watch.play_count,
                    manager_id: manager.manager_id,
                });
                proof {
                    assert(items@ =~= gathered_items(prefix) + seq![
                        merged_item(rows@[i as int]),
                    ]);
                }
            },
            _ => {
                assert(!is_complete(rows@[i as int]));
            },
        }
        proof {
            let next = rows@.take(i + 1 as int);
            assert(next.drop_last() =~= prefix);
            assert(next.last() == rows@[i as int]);
            assert(items@ =~= gathered_items(next));
            assert(errs@ =~= gathered_errors(next));
        }
        i = i + 1;
    }
    proof {
        assert(rows@.take(rows@.len() as int) =~= rows@);
    }
    (items, errs)
}

/// Merging rows gathered in two parts gives the two result sets and the
/// two failure lists back to back: the merge keeps row order, so items and
/// failures are reported in exactly the order they were recorded, whatever
/// order the sources completed in.
pub proof fn lemma_gather_in_order(a: Seq<ItemSources>, b: Seq<ItemSources>)
    ensures
        gathered_items(a + b) == gathered_items(a) + gathered_items(b),
        gathered_errors(a + b) == gathered_errors(a) + gathered_errors(b),
    decreases b.len(),
{
    if b.len() == 0 {
        assert(a + b =~= a);
        assert(gathered_items(a) + gathered_items(b) =~= gathered_items(a));
        assert(gathered_errors(a) + gathered_errors(b) =~= gathered_errors(a));
    } else {
        lemma_gather_in_order(a, b.drop_last());
        assert((a + b).drop_last() =~= a + b.drop_last());
        assert((a + b).last() == b.last());
        assert(gathered_items(a + b) =~= gathered_items(a) + gathered_items(b));
        assert(gathered_errors(a + b) =~= gathered_errors(a) + gathered_errors(b));
    }
}

/// The failure list's length is exactly the number of hard failures the
/// rows carry: none is lost, none is invented, and no mixture of failures
/// keeps the merge from returning.
pub proof fn lemma_error_count(rows: Seq<ItemSources>)
    ensures
        gathered_errors(rows).len() == failure_count(rows),
    decreases rows.len(),
{
    if rows.len() > 0 {
        lemma_error_count(rows.drop_last());
    }
}

/// The completeness filter: a row whose enrichment is merely missing — no
/// source failed, some source found nothing — contributes nothing at all.
/// Dropping it changes neither the result set nor the failure list, so the
/// item never appears among the results and its absence is never reported
/// as a fetch failure.
pub proof fn lemma_incomplete_row_invisible(rows: Seq<ItemSources>, j: int)
    requires
        0 <= j < rows.len(),
        !is_complete(rows[j]),
        !has_failure(rows[j]),
    ensures
        gathered_items(rows) == gathered_items(rows.remove(j)),
        gathered_errors(rows) == gathered_errors(rows.remove(j)),
{
    let front = rows.take(j);
    let middle = seq![rows[j]];
    let back = rows.skip(j + 1);
    assert(rows =~= front + middle + back);
    assert(rows.remove(j) =~= front + back);
    assert(middle.last() == rows[j]);
    assert(middle.drop_last() =~= Seq::<ItemSources>::empty());
    assert(gathered_items(middle) =~= gathered_items(middle.drop_last()));
    assert(gathered_items(middle) =~= Seq::<CompleteMediaItem>::empty());
    assert(row_failures(rows[j]) =~= Seq::<FetchError>::empty());
    assert(gathered_errors(middle) =~= gathered_errors(middle.drop_last()) + row_failures(
        rows[j],
    ));
    assert(gathered_errors(middle) =~= Seq::<FetchError>::empty());
    lemma_gather_in_order(front + middle, back);
    lemma_gather_in_order(front, middle);
    lemma_gather_in_order(front, back);
    assert(gathered_items(rows) =~= gathered_items(rows.remove(j)));
    assert(gathered_errors(rows) =~= gathered_errors(rows.remove(j)));
}

/// When no row is complete — for instance because every source failed for
/// every row — the result set is empty, while the failure list still
/// carries every failure.
pub proof fn lemma_no_complete_rows(rows: Seq<ItemSources>)
    requires
        forall|k: int| 0 <= k < rows.len() ==> !is_complete(#[trigger] rows[k]),
    ensures
        gathered_items(rows) == Seq::<CompleteMediaItem>::empty(),
    decreases rows.len(),
{
    if rows.len() > 0 {
        lemma_no_complete_rows(rows.drop_last());
        assert(gathered_items(rows) =~= Seq::<CompleteMediaItem>::empty());
    }
}

/// The aggregator's outcome for the whole run.
///
/// The request list is the precondition of everything that follows: if it
/// could not be had at all, the run fails fast with the fatal kind. Any
/// other mixture of per-source outcomes merges into a (possibly empty)
/// result set plus the collected failures.
pub fn gather(base: Result<Vec<ItemSources>, FatalError>) -> (r: Result<
    (Vec<CompleteMediaItem>, Vec<FetchError>),
    FatalError,
>)
    ensures
        base matches Ok(rows) ==> {
            &&& r is Ok
            &&& r->Ok_0.0@ == gathered_items(rows@)
            &&& r->Ok_0.1@ == gathered_errors(rows@)
        },
        base matches Err(e) ==> r == Err::<(Vec<CompleteMediaItem>, Vec<FetchError>), FatalError>(
            e,
        ),
{
    match base {
        Ok(rows) => Ok(merge_sources(&rows)),
        Err(e) => Err(e),
    }
}

} // verus!
