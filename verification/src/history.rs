//! The rule of a bounded history: only the most recent entries are kept.

use vstd::prelude::*;

verus! {

/// The last `cap` entries of `items`, in their order; all of them when there
/// are no more than `cap`.
pub open spec fn keep_last<T>(items: Seq<T>, cap: nat) -> Seq<T> {
    if items.len() <= cap {
        items
    } else {
        items.subrange(items.len() - cap, items.len() as int)
    }
}

/// Trimming after every append keeps the same entries as trimming once at the
/// end: entries leave oldest first, and an entry that has left never returns.
pub proof fn lemma_keep_last_push<T>(items: Seq<T>, item: T, cap: nat)
    ensures
        keep_last(keep_last(items, cap).push(item), cap) == keep_last(items.push(item), cap),
{
    assert(keep_last(keep_last(items, cap).push(item), cap) =~= keep_last(items.push(item), cap));
}

} // verus!
