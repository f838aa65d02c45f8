//! Handles: small integers that name a slot of one append-only arena.

use vstd::prelude::*;

verus! {

/// The largest slot that a handle can name.
pub const MAX_INDEX: usize = 0xffff_ffff;

/// A typed handle into an arena. A handle is issued for the slot that an item
/// is appended at and names that slot from then on.
pub trait Handle: Copy + Sized {
    /// The slot that the handle names.
    spec fn slot(self) -> nat;

    /// The handle of the slot `idx`.
    fn from_usize(idx: usize) -> (h: Self)
        requires
            idx <= MAX_INDEX,
        ensures
            h.slot() == idx,
    ;

    /// The slot of the handle, as an index.
    fn index(self) -> (i: usize)
        ensures
            i == self.slot(),
    ;
}

/// What an arena holds after `items` were appended to it one at a time,
/// where it held `base` before.
pub open spec fn appended<T>(base: Seq<T>, items: Seq<T>) -> Seq<T>
    decreases items.len(),
{
    if items.len() == 0 {
        base
    } else {
        appended(base, items.drop_last()).push(items.last())
    }
}

/// The slot of the handle that the append of `items[k]` returns: the number
/// of items that the arena holds when that append is made.
pub open spec fn issued_slot<T>(base: Seq<T>, items: Seq<T>, k: int) -> nat {
    appended(base, items.take(k)).len()
}

/// Appending and reading back: after `items` were appended one at a time,
/// the arena holds what it held before and then `items` in the order of the
/// appends, and the handle that each append returned names the item that was
/// appended.
pub proof fn lemma_append_round_trip<T>(base: Seq<T>, items: Seq<T>)
    ensures
        appended(base, items) == base + items,
        forall|k: int|
            0 <= k < items.len() ==> {
                &&& #[trigger] issued_slot(base, items, k) == base.len() + k
                &&& appended(base, items)[issued_slot(base, items, k) as int] == items[k]
            },
    decreases items.len(),
{
    if items.len() > 0 {
        lemma_append_round_trip(base, items.drop_last());
        assert(appended(base, items) =~= base + items);
        assert forall|k: int| 0 <= k < items.len() implies {
            &&& #[trigger] issued_slot(base, items, k) == base.len() + k
            &&& appended(base, items)[issued_slot(base, items, k) as int] == items[k]
        } by {
            lemma_append_round_trip(base, items.take(k));
        }
    } else {
        assert(appended(base, items) =~= base + items);
    }
}

} // verus!
