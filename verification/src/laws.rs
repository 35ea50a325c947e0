use vstd::prelude::*;

verus! {

use crate::contract::unwrap_effect;
use crate::contract::Contract;
use crate::contract::TransferRequest;
use crate::errors::TokenError;
use crate::ledger::lemma_entries_sum_nonneg;
use crate::ledger::lemma_entry_le_sum;
use crate::pending::lemma_pending_total_nonneg;
use crate::pending::pending_total;
use crate::status::Status;

/// Law: in every reachable state, the sum of all local balances is at most
/// the cumulative accepted deposits minus the cumulative successfully
/// completed unwraps — and so is every single balance, and so is the
/// amount still awaiting an external transfer outcome.  Every entry point
/// preserves the accounting equation this follows from, so no interleaving
/// of deposits, transfers, unwraps and callbacks can pay out more than was
/// deposited.
pub proof fn lemma_local_balances_bounded(c: Contract)
    requires
        c.wf(),
    ensures
        c.ledger.sum() <= c.deposited@ - c.unwrapped@,
        pending_total(c.pending@) <= c.deposited@ - c.unwrapped@,
        forall|a: u64| c.ledger.balance_of(a) <= c.deposited@ - c.unwrapped@,
{
    lemma_pending_total_nonneg(c.pending@);
    lemma_entries_sum_nonneg(c.ledger.accounts@);
    assert forall|a: u64| c.ledger.balance_of(a) <= c.deposited@ - c.unwrapped@ by {
        if c.ledger.contains_account(a) {
            let i = c.ledger.index_of(a);
            assert(0 <= i < c.ledger.accounts@.len() && c.ledger.accounts@[i].0 == a);
            lemma_entry_le_sum(c.ledger.accounts@, i);
        }
    }
}

/// Law: the lock transition is one-way.  After any successful unlock the
/// status is `Unlocked`, and a second unlock of that state is owed
/// `InvalidState` when the owner asks again (`PermissionDenied` for anyone
/// else), with the status staying `Unlocked` whatever is attempted.
pub proof fn lemma_unlock_is_one_way(pre: Contract, post: Contract, caller_id: u64, again_id: u64)
    requires
        pre.unlock_result(caller_id) == Ok::<(), TokenError>(()),
        post.status == pre.status_after_unlock(caller_id),
        post.owner_id == pre.owner_id,
    ensures
        post.status == Status::Unlocked,
        post.unlock_result(again_id) == (if again_id == post.owner_id {
            Err::<(), TokenError>(TokenError::InvalidState)
        } else {
            Err::<(), TokenError>(TokenError::PermissionDenied)
        }),
        post.status_after_unlock(again_id) == Status::Unlocked,
{
}

/// Law: a deposit notification from any source other than the configured
/// underlying token is owed `PermissionDenied`, whatever the depositor,
/// the amount, the lock status and the configuration; and `ft_on_transfer`
/// leaves the state unchanged on every refusal.
pub proof fn lemma_foreign_deposit_refused(c: Contract, predecessor_id: u64)
    requires
        predecessor_id != c.locked_token_account_id,
    ensures
        c.deposit_result(predecessor_id) == Err::<u128, TokenError>(TokenError::PermissionDenied),
{
}

/// Law: a gated deployment that has been unlocked is owed `InvalidState`
/// for every deposit notification, even from the underlying token itself:
/// unlocking closes the wrap path.
pub proof fn lemma_unlocked_deposit_refused(c: Contract, predecessor_id: u64)
    requires
        c.gated,
        c.status == Status::Unlocked,
        predecessor_id == c.locked_token_account_id,
    ensures
        c.deposit_result(predecessor_id) == Err::<u128, TokenError>(TokenError::InvalidState),
{
}

/// Law: on the transfer path, permission is exactly whitelist membership.
/// In a gated deployment a non-member caller is owed `PermissionDenied`
/// whatever its balance and whatever the lock status; and in any state
/// that admits the caller — such as the one `add_to_whitelist` leaves
/// behind — the permission check passes.
pub proof fn lemma_whitelist_gates_transfer(pre: Contract, post: Contract, caller_id: u64)
    requires
        pre.gated,
        !pre.whitelisted(caller_id),
        post.gated == pre.gated,
        forall|a: u64| post.whitelisted(a) == (a == caller_id || pre.whitelisted(a)),
    ensures
        pre.transfer_result(caller_id) == Err::<(), TokenError>(TokenError::PermissionDenied),
        post.transfer_result(caller_id) == Ok::<(), TokenError>(()),
{
    assert(post.whitelisted(caller_id));
}

/// Law: each unwrap debits exactly the balance the call sees, so two
/// unwraps by the same account before either resolves debit the full
/// balance and then zero — the debit-before-suspend ordering leaves a
/// second call nothing to withdraw, and no double-spend can arise whatever
/// order the two callbacks later run in.
pub proof fn lemma_concurrent_unwraps_no_double_debit(
    pre: Contract,
    mid: Contract,
    post: Contract,
    caller_id: u64,
    first: TransferRequest,
    second: TransferRequest,
)
    requires
        unwrap_effect(pre, mid, caller_id, first),
        unwrap_effect(mid, post, caller_id, second),
    ensures
        first.amount == pre.ledger.balance_of(caller_id),
        second.amount == 0,
        post.ledger.balance_of(caller_id) == 0,
        post.ledger.sum() == pre.ledger.sum() - first.amount,
        pending_total(post.pending@) == pending_total(pre.pending@) + first.amount,
{
    crate::pending::lemma_pending_total_insert(pre.pending@, (caller_id, first.amount));
    crate::pending::lemma_pending_total_insert(mid.pending@, (caller_id, second.amount));
}

} // verus!
