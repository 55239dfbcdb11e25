//! Sequences: what is kept of one under a condition, and where each kept
//! item came from.

use vstd::prelude::*;

verus! {

/// The items of `rows` that `keep` holds of, in their order.
pub open spec fn kept<T>(rows: Seq<T>, keep: spec_fn(T) -> bool) -> Seq<T>
    decreases rows.len(),
{
    if rows.len() == 0 {
        rows
    } else if keep(rows.last()) {
        kept(rows.drop_last(), keep).push(rows.last())
    } else {
        kept(rows.drop_last(), keep)
    }
}

/// The place in `rows` of the item that stands at `k` in what is kept.
pub open spec fn origin<T>(rows: Seq<T>, keep: spec_fn(T) -> bool, k: int) -> int
    decreases rows.len(),
{
    if rows.len() == 0 {
        0
    } else if keep(rows.last()) && k == kept(rows.drop_last(), keep).len() {
        rows.len() - 1
    } else {
        origin(rows.drop_last(), keep, k)
    }
}

/// Nothing is kept that was not there, and nothing that the condition
/// does not hold of.
pub proof fn lemma_kept_origin<T>(rows: Seq<T>, keep: spec_fn(T) -> bool, k: int)
    requires
        0 <= k < kept(rows, keep).len(),
    ensures
        0 <= origin(rows, keep, k) < rows.len(),
        rows[origin(rows, keep, k)] == kept(rows, keep)[k],
        keep(kept(rows, keep)[k]),
    decreases rows.len(),
{
    if rows.len() > 0 {
        if keep(rows.last()) && k == kept(rows.drop_last(), keep).len() {
        } else {
            lemma_kept_origin(rows.drop_last(), keep, k);
        }
    }
}

/// What is kept stands in the order in which it stood.
pub proof fn lemma_kept_order<T>(rows: Seq<T>, keep: spec_fn(T) -> bool, k1: int, k2: int)
    requires
        0 <= k1 < k2 < kept(rows, keep).len(),
    ensures
        origin(rows, keep, k1) < origin(rows, keep, k2),
    decreases rows.len(),
{
    if rows.len() > 0 {
        if keep(rows.last()) && k2 == kept(rows.drop_last(), keep).len() {
            lemma_kept_origin(rows.drop_last(), keep, k1);
        } else {
            lemma_kept_order(rows.drop_last(), keep, k1, k2);
        }
    }
}

} // verus!
