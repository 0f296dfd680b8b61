//! The deletion batch: removing the selected items from the working
//! collection, one at a time, by swapping with the last element.
//!
//! Removal by swapping invalidates every index greater than the removed
//! one, so the selected indices are consumed in strictly descending
//! order; every index still pending is then below every index already
//! consumed and still names its original item. This is the one genuinely
//! order-sensitive invariant of the whole run, and it is what the batch's
//! contracts pin down: each item handed out for backend removal is
//! exactly the item that stood at the selected index when the selection
//! was made, and afterwards exactly the selected items are gone.

use vstd::prelude::*;
use vstd::seq_lib::group_to_multiset_ensures;
use vstd::multiset::Multiset;
use vstd::seq_lib::lemma_multiset_commutative;

use crate::errors::DeletionError;
use crate::media::CompleteMediaItem;
use crate::selection::valid_selection;

verus! {

/// The sequence after removing index `i` by swapping with the last
/// element, as `Vec::swap_remove` does.
pub open spec fn swap_removed<T>(s: Seq<T>, i: int) -> Seq<T>
    recommends
        0 <= i < s.len(),
{
    s.update(i, s.last()).drop_last()
}

/// The collection left after consuming the selection from the back:
/// the largest selected index is removed by swapping first, and so on
/// down.
pub open spec fn after_removals<T>(s: Seq<T>, sel: Seq<usize>) -> Seq<T>
    decreases sel.len(),
{
    if sel.len() == 0 {
        s
    } else {
        after_removals(swap_removed(s, sel.last() as int), sel.drop_last())
    }
}

/// The items taken out, in processing order: highest selected index
/// first.
pub open spec fn extracted<T>(s: Seq<T>, sel: Seq<usize>) -> Seq<T>
    decreases sel.len(),
{
    if sel.len() == 0 {
        Seq::empty()
    } else {
        seq![s[sel.last() as int]] + extracted(
            swap_removed(s, sel.last() as int),
            sel.drop_last(),
        )
    }
}

/// Swapping out one element removes exactly that element, as multisets.
pub proof fn lemma_swap_removed_multiset<T>(s: Seq<T>, i: int)
    requires
        0 <= i < s.len(),
    ensures
        swap_removed(s, i).to_multiset() == s.to_multiset().remove(s[i]),
{
    broadcast use group_to_multiset_ensures;
    broadcast use vstd::multiset::group_multiset_axioms;

    let u = s.update(i, s.last());
    assert(u.last() == s.last());
    assert(u.drop_last() =~= u.remove(u.len() - 1));
    assert(u.remove(u.len() - 1).to_multiset() == u.to_multiset().remove(u.last()));
    assert(u.to_multiset() == s.to_multiset().insert(s.last()).remove(s[i]));
    assert(swap_removed(s, i).to_multiset() =~= s.to_multiset().remove(s[i]));
}

/// Positions below the removed index are untouched by the swap.
pub proof fn lemma_swap_removed_below<T>(s: Seq<T>, i: int)
    requires
        0 <= i < s.len(),
    ensures
        swap_removed(s, i).len() == s.len() - 1,
        forall|j: int| 0 <= j < i ==> swap_removed(s, i)[j] == s[j],
{
}

/// Index-safety of descending removal: consuming a valid selection from
/// the back takes out exactly the items that stood at the selected
/// indices — the k-th item processed is the original occupant of the
/// k-th-largest selected index — and leaves the rest, nothing more and
/// nothing less, as multisets.
pub proof fn lemma_descending_removal<T>(s: Seq<T>, sel: Seq<usize>)
    requires
        valid_selection(sel, s.len() as int),
    ensures
        after_removals(s, sel).len() == s.len() - sel.len(),
        extracted(s, sel).len() == sel.len(),
        forall|k: int|
            0 <= k < sel.len() ==> extracted(s, sel)[k] == s[sel[sel.len() - 1 - k] as int],
        after_removals(s, sel).to_multiset().add(extracted(s, sel).to_multiset())
            == s.to_multiset(),
    decreases sel.len(),
{
    broadcast use group_to_multiset_ensures;
    broadcast use vstd::multiset::group_multiset_axioms;

    if sel.len() == 0 {
        assert(extracted(s, sel).to_multiset().len() == 0);
        assert(after_removals(s, sel).to_multiset().add(extracted(s, sel).to_multiset())
            =~= s.to_multiset());
    } else {
        let i = sel.last() as int;
        let s2 = swap_removed(s, i);
        let sel2 = sel.drop_last();
        lemma_swap_removed_below(s, i);
        assert(valid_selection(sel2, s2.len() as int)) by {
            assert(forall|k: int| 0 <= k < sel2.len() ==> #[trigger] sel2[k] == sel[k]);
            assert(forall|k: int|
                0 <= k < sel2.len() ==> #[trigger] sel[k] < sel[sel.len() - 1]);
        }
        lemma_descending_removal(s2, sel2);
        // Each later extraction hits an index below `i`, where `s2` still
        // agrees with `s`.
        assert(forall|k: int|
            0 <= k < sel2.len() ==> #[trigger] extracted(s, sel)[k + 1] == s[sel[sel.len() - 2
                - k] as int]) by {
            assert(forall|k: int|
                0 <= k < sel2.len() ==> #[trigger] extracted(s2, sel2)[k] == s2[sel2[sel2.len()
                    - 1 - k] as int]);
            assert(forall|k: int|
                0 <= k < sel2.len() ==> s2[#[trigger] sel2[k] as int] == s[sel2[k] as int]);
        }
        assert(forall|k: int|
            0 <= k < sel.len() ==> #[trigger] extracted(s, sel)[k] == s[sel[sel.len() - 1
                - k] as int]);
        // Multisets: the head extraction accounts for the removed element.
        lemma_swap_removed_multiset(s, i);
        let head = seq![s[i]];
        let tail = extracted(s2, sel2);
        lemma_multiset_commutative(head, tail);
        assert(head.to_multiset() == Seq::<T>::empty().push(s[i]).to_multiset()) by {
            assert(head =~= Seq::<T>::empty().push(s[i]));
        }
        assert(head.to_multiset() == Multiset::<T>::empty().insert(s[i]));
        assert(extracted(s, sel) == head + tail);
        assert(extracted(s, sel).to_multiset() == head.to_multiset().add(tail.to_multiset()));
        assert(after_removals(s, sel) == after_removals(s2, sel2));
        assert(after_removals(s2, sel2).to_multiset().add(tail.to_multiset())
            == s2.to_multiset());
        assert(s2.to_multiset() == s.to_multiset().remove(s[i]));
        assert(s.to_multiset().count(s[i]) > 0) by {
            assert(s.contains(s[i]));
        }
        assert forall|x: T|
            after_removals(s, sel).to_multiset().add(extracted(s, sel).to_multiset()).count(x)
                == s.to_multiset().count(x) by {
            assert(after_removals(s2, sel2).to_multiset().count(x) + tail.to_multiset().count(x)
                == s2.to_multiset().count(x));
            assert(head.to_multiset().count(x) == if x == s[i] {
                1nat
            } else {
                0nat
            });
            assert(s2.to_multiset().count(x) == if x == s[i] {
                (s.to_multiset().count(x) - 1) as nat
            } else {
                s.to_multiset().count(x)
            });
        }
        assert(after_removals(s, sel).to_multiset().add(extracted(s, sel).to_multiset())
            =~= s.to_multiset());
    }
}

/// One batch of removals over the working collection.
///
/// Built from the collection and a valid selection, the batch hands out
/// the selected items one at a time, highest index first; the caller
/// attempts the backend removal of each and records a failure when one
/// occurs. An item leaves the working collection when it is handed out,
/// whether or not its backend removal then succeeds, and a failure never
/// stops the rest of the batch.
pub struct DeletionBatch {
    items: Vec<CompleteMediaItem>,
    pending: Vec<usize>,
    errors: Vec<DeletionError>,
    snap: Ghost<Seq<CompleteMediaItem>>,
    sel0: Ghost<Seq<usize>>,
    taken: Ghost<Seq<CompleteMediaItem>>,
}

impl DeletionBatch {
    /// The working collection as it stands now.
    pub closed spec fn remaining(&self) -> Seq<CompleteMediaItem> {
        self.items@
    }

    /// The selected indices not yet processed.
    pub closed spec fn pending_indices(&self) -> Seq<usize> {
        self.pending@
    }

    /// The failures recorded so far, in the order they were recorded.
    pub closed spec fn failures(&self) -> Seq<DeletionError> {
        self.errors@
    }

    /// The working collection as it stood when the batch was built.
    pub closed spec fn initial_items(&self) -> Seq<CompleteMediaItem> {
        self.snap@
    }

    /// The selection the batch was built with.
    pub closed spec fn selected_indices(&self) -> Seq<usize> {
        self.sel0@
    }

    /// The items handed out so far, in processing order.
    pub closed spec fn taken_items(&self) -> Seq<CompleteMediaItem> {
        self.taken@
    }

    /// The batch's invariant: the pending indices are a valid selection of
    /// the current collection, every pending index still names its
    /// original item, and processing what is pending completes exactly the
    /// processing of the original selection.
    pub closed spec fn inv(&self) -> bool {
        &&& valid_selection(self.pending@, self.items@.len() as int)
        &&& valid_selection(self.sel0@, self.snap@.len() as int)
        &&& after_removals(self.snap@, self.sel0@) == after_removals(self.items@, self.pending@)
        &&& extracted(self.snap@, self.sel0@) == self.taken@ + extracted(
            self.items@,
            self.pending@,
        )
        &&& forall|k: int|
            0 <= k < self.pending@.len() ==> self.items@[#[trigger] self.pending@[k] as int]
                == self.snap@[self.pending@[k] as int]
    }

    /// Opens a batch over `items` for a valid selection `chosen`.
    pub fn new(items: Vec<CompleteMediaItem>, chosen: Vec<usize>) -> (b: DeletionBatch)
        requires
            valid_selection(chosen@, items@.len() as int),
        ensures
            b.inv(),
            b.remaining() == items@,
            b.initial_items() == items@,
            b.pending_indices() == chosen@,
            b.selected_indices() == chosen@,
            b.failures() == Seq::<DeletionError>::empty(),
            b.taken_items() == Seq::<CompleteMediaItem>::empty(),
    {
        let b = DeletionBatch {
            items,
            pending: chosen,
            errors: Vec::new(),
            snap: Ghost(items@),
            sel0: Ghost(chosen@),
            taken: Ghost(Seq::empty()),
        };
        proof {
            assert(extracted(b.snap@, b.sel0@) =~= b.taken@ + extracted(b.items@, b.pending@));
        }
        b
    }

    /// Hands out the next item to remove: the one at the highest pending
    /// index. The item leaves the working collection here and now; it is
    /// exactly the item that stood at that index when the batch was
    /// built. Returns nothing once the selection is exhausted.
    pub fn next_target(&mut self) -> (r: Option<CompleteMediaItem>)
        requires
            old(self).inv(),
        ensures
            final(self).inv(),
            final(self).initial_items() == old(self).initial_items(),
            final(self).selected_indices() == old(self).selected_indices(),
            final(self).failures() == old(self).failures(),
            old(self).pending_indices().len() == 0 ==> {
                &&& r is None
                &&& final(self).remaining() == old(self).remaining()
                &&& final(self).pending_indices() == old(self).pending_indices()
                &&& final(self).taken_items() == old(self).taken_items()
            },
            old(self).pending_indices().len() > 0 ==> {
                &&& r == Some(
                    old(self).initial_items()[old(self).pending_indices().last() as int],
                )
                &&& final(self).remaining() == swap_removed(
                    old(self).remaining(),
                    old(self).pending_indices().last() as int,
                )
                &&& final(self).pending_indices() == old(self).pending_indices().drop_last()
                &&& final(self).taken_items() == old(self).taken_items().push(
                    old(self).initial_items()[old(self).pending_indices().last() as int],
                )
            },
    {
        let idx = match self.pending.pop() {
            Some(i) => i,
            None => {
                return None;
            },
        };
        let ghost pre_items = self.items@;
        let ghost pre_pending = self.pending@.push(idx);
        let item = self.items.swap_remove(idx);
        proof {
            self.taken@ = self.taken@.push(item);
            assert(pre_pending =~= old(self).pending@);
            assert(self.pending@ =~= pre_pending.drop_last());
            assert(self.items@ =~= swap_removed(pre_items, idx as int));
            lemma_swap_removed_below(pre_items, idx as int);
            assert(forall|k: int|
                0 <= k < self.pending@.len() ==> #[trigger] self.pending@[k] == pre_pending[k]);
            assert(forall|k: int|
                0 <= k < self.pending@.len() ==> self.pending@[k] < idx);
            assert(valid_selection(self.pending@, self.items@.len() as int));
            assert(after_removals(pre_items, pre_pending) == after_removals(
                self.items@,
                self.pending@,
            ));
            assert(extracted(pre_items, pre_pending) == seq![pre_items[idx as int]] + extracted(
                self.items@,
                self.pending@,
            ));
            assert(self.taken@ + extracted(self.items@, self.pending@) =~= old(self).taken@
                + extracted(pre_items, pre_pending));
        }
        Some(item)
    }

    /// Records that the backend removal of one handed-out item failed.
    /// Failures keep the order in which they are recorded.
    pub fn record_failure(&mut self, title: String, detail: String)
        requires
            old(self).inv(),
        ensures
            final(self).inv(),
            final(self).failures() == old(self).failures().push(
                (DeletionError { title: title, detail: detail }),
            ),
            final(self).remaining() == old(self).remaining(),
            final(self).pending_indices() == old(self).pending_indices(),
            final(self).initial_items() == old(self).initial_items(),
            final(self).selected_indices() == old(self).selected_indices(),
            final(self).taken_items() == old(self).taken_items(),
    {
        self.errors.push(DeletionError { title, detail });
    }

    /// Closes the batch once every selected index has been processed, and
    /// returns what is left of the collection together with the recorded
    /// failures. Exactly the selected items are gone: the k-th item handed
    /// out was the original occupant of the k-th-largest selected index,
    /// and what remains plus what was handed out is, as multisets, the
    /// original collection.
    pub fn finish(self) -> (r: (Vec<CompleteMediaItem>, Vec<DeletionError>))
        requires
            self.inv(),
            self.pending_indices().len() == 0,
        ensures
            r.0@ == after_removals(self.initial_items(), self.selected_indices()),
            r.1@ == self.failures(),
            self.taken_items() == extracted(self.initial_items(), self.selected_indices()),
            r.0@.len() == self.initial_items().len() - self.selected_indices().len(),
            self.taken_items().len() == self.selected_indices().len(),
            forall|k: int|
                0 <= k < self.selected_indices().len() ==> self.taken_items()[k]
                    == self.initial_items()[self.selected_indices()[self.selected_indices().len()
                    - 1 - k] as int],
            r.0@.to_multiset().add(self.taken_items().to_multiset())
                == self.initial_items().to_multiset(),
    {
        proof {
            assert(after_removals(self.items@, self.pending@) == self.items@);
            assert(extracted(self.items@, self.pending@) =~= Seq::<CompleteMediaItem>::empty());
            assert(extracted(self.snap@, self.sel0@) =~= self.taken@);
            lemma_descending_removal(self.snap@, self.sel0@);
        }
        (self.items, self.errors)
    }
}

} // verus!
