use vstd::prelude::*;

verus! {

use vstd::multiset::Multiset;

/// The total amount awaiting an external transfer outcome: the sum of the
/// debited amounts over all pending unwraps.  Each pending unwrap is the
/// pair of the debited account and the amount handed to the external
/// transfer, and the same pair may be pending more than once.
pub open spec fn pending_total(pending: Multiset<(u64, u128)>) -> int
    decreases pending.len(),
    when true
    via pending_total_decreases
{
    if pending.len() == 0 {
        0
    } else {
        let p = pending.choose();
        p.1 + pending_total(pending.remove(p))
    }
}

#[via_fn]
proof fn pending_total_decreases(pending: Multiset<(u64, u128)>) {
    broadcast use vstd::multiset::group_multiset_axioms;

    if pending.len() != 0 {
        let p = pending.choose();
        assert(Multiset::singleton(p).subset_of(pending));
    }
}

/// Removing one pending unwrap subtracts exactly its amount from the total.
pub proof fn lemma_pending_total_remove(pending: Multiset<(u64, u128)>, p: (u64, u128))
    requires
        pending.contains(p),
    ensures
        pending_total(pending.remove(p)) == pending_total(pending) - p.1,
    decreases pending.len(),
{
    broadcast use vstd::multiset::group_multiset_axioms;

    let q = pending.choose();
    assert(pending.len() != 0);
    assert(Multiset::singleton(q).subset_of(pending));
    if q == p {
        assert(pending_total(pending) == p.1 + pending_total(pending.remove(p)));
    } else {
        let without_q = pending.remove(q);
        assert(without_q.contains(p));
        lemma_pending_total_remove(without_q, p);
        assert(Multiset::singleton(q).subset_of(pending.remove(p)));
        assert(pending.remove(p).contains(q));
        lemma_pending_total_remove(pending.remove(p), q);
        assert(pending.remove(q).remove(p) =~= pending.remove(p).remove(q));
        assert(pending_total(pending) == q.1 + pending_total(without_q));
    }
}

/// Recording one more pending unwrap adds exactly its amount to the total.
pub proof fn lemma_pending_total_insert(pending: Multiset<(u64, u128)>, p: (u64, u128))
    ensures
        pending_total(pending.insert(p)) == pending_total(pending) + p.1,
{
    broadcast use vstd::multiset::group_multiset_axioms;

    assert(pending.insert(p).contains(p));
    lemma_pending_total_remove(pending.insert(p), p);
    assert(pending.insert(p).remove(p) =~= pending);
}

/// Every pending amount is nonnegative, so the total is too.
pub proof fn lemma_pending_total_nonneg(pending: Multiset<(u64, u128)>)
    ensures
        pending_total(pending) >= 0,
    decreases pending.len(),
{
    broadcast use vstd::multiset::group_multiset_axioms;

    if pending.len() != 0 {
        let p = pending.choose();
        assert(Multiset::singleton(p).subset_of(pending));
        lemma_pending_total_nonneg(pending.remove(p));
    }
}

/// A contract with no unwrap in flight has nothing awaiting an outcome.
pub proof fn lemma_pending_total_empty()
    ensures
        pending_total(Multiset::<(u64, u128)>::empty()) == 0,
{
    broadcast use vstd::multiset::group_multiset_axioms;
}

} // verus!
