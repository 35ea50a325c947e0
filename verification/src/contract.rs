use vstd::prelude::*;

verus! {

use vstd::multiset::Multiset;

use crate::errors::TokenError;
use crate::events::LogEvent;
use crate::ledger::Ledger;
use crate::pending::lemma_pending_total_empty;
use crate::pending::lemma_pending_total_insert;
use crate::pending::lemma_pending_total_remove;
use crate::pending::pending_total;
use crate::status::Status;
use crate::whitelist::Whitelist;

/// The external transfer a successful `unwrap` asks the host to issue: the
/// whole debited balance, back to the caller, on the underlying token,
/// under a descriptive memo the host attaches.  The host must later
/// deliver the outcome to `after_ft_transfer` with exactly this account
/// and amount.
#[derive(Clone, Copy, Debug, PartialEq, Eq, Structural)]
pub struct TransferRequest {
    /// The account the underlying token is to be transferred to.
    pub receiver_id: u64,
    /// The amount to transfer: the balance that was debited.
    pub amount: u128,
}

/// The receiver notification a successful `transfer_and_notify` asks the
/// host to deliver after the balances have moved.
#[derive(Debug)]
pub struct NotifyRequest {
    /// The account that received the derivative tokens.
    pub receiver_id: u64,
    /// The amount that was moved.
    pub amount: u128,
    /// The payload to hand to the receiver.
    pub payload: String,
}

/// What the unwrap callback decided.
#[derive(Clone, Copy, Debug, PartialEq, Eq)]
pub struct CallbackOutcome {
    /// Whether the external transfer succeeded; handed back to the host.
    pub success: bool,
    /// The account whose ledger entry was purged and whose storage deposit
    /// the host must now return, if any.
    pub refund_storage_to: Option<u64>,
}

/// The wrapped fungible-token contract.
///
/// Balances live in the owned [`Ledger`]; the lock status and the
/// whitelist gate deposits and transfers in a gated deployment.  The ghost
/// fields account for every unit ever deposited, completed or still in
/// flight, and [`Contract::wf`] ties them together.
pub struct Contract {
    /// The underlying-token contract; immutable after construction.  Only
    /// its deposit notifications are honoured, and unwraps transfer the
    /// underlying token back through it.
    pub locked_token_account_id: u64,
    /// The owner; immutable after construction.  Sole administrator of the
    /// lock status and the whitelist, and an implicit whitelist member.
    pub owner_id: u64,
    /// Whether this deployment gates deposits and transfers.  An ungated
    /// deployment is permanently unlocked and lets anyone transfer.
    pub gated: bool,
    /// The lock status.  A gated deployment starts `Locked`.
    pub status: Status,
    /// The accounts admitted to move the derivative token.
    pub whitelist: Whitelist,
    /// The local balances of the derivative token.
    pub ledger: Ledger,
    /// The token metadata blob, stored verbatim for the host to expose.
    pub meta: String,
    /// Diagnostic records for the host to emit.
    pub log: Vec<LogEvent>,
    /// Ghost: the debited unwraps whose external transfer outcome is still
    /// unknown, as (account, amount) pairs.
    pub pending: Ghost<Multiset<(u64, u128)>>,
    /// Ghost: cumulative amount of all accepted deposits.
    pub deposited: Ghost<int>,
    /// Ghost: cumulative amount of all successfully completed unwraps.
    pub unwrapped: Ghost<int>,
}

impl Contract {
    /// The components are well formed and every unit is accounted for:
    /// what the ledger holds plus what is still in flight is exactly what
    /// was deposited and not yet successfully unwrapped.
    pub open spec fn wf(self) -> bool {
        &&& self.ledger.wf()
        &&& self.whitelist.wf()
        &&& (!self.gated ==> self.status == Status::Unlocked)
        &&& self.ledger.sum() + pending_total(self.pending@) == self.deposited@ - self.unwrapped@
    }

    /// Whether a deposit notification comes from the underlying token.
    pub open spec fn deposit_permitted(self, predecessor_id: u64) -> bool {
        predecessor_id == self.locked_token_account_id
    }

    /// Whether the wrap path is open: always for an ungated deployment,
    /// only while locked for a gated one.
    pub open spec fn deposit_open(self) -> bool {
        !self.gated || self.status == Status::Locked
    }

    /// Whether the account may move the derivative token: the owner or an
    /// admitted account in a gated deployment, anyone in an ungated one.
    pub open spec fn whitelisted(self, account_id: u64) -> bool {
        account_id == self.owner_id || self.whitelist.is_member(account_id)
    }

    /// Whether the transfer entry points accept the caller.
    pub open spec fn may_transfer(self, caller_id: u64) -> bool {
        !self.gated || self.whitelisted(caller_id)
    }

    /// The outcome of the permission check on the transfer path: success
    /// is owed exactly to callers that may transfer, whatever their
    /// balance and whatever the lock status.
    pub open spec fn transfer_result(self, caller_id: u64) -> Result<(), TokenError> {
        if self.may_transfer(caller_id) {
            Ok(())
        } else {
            Err(TokenError::PermissionDenied)
        }
    }

    /// The outcome a deposit notification is owed: refused outright from
    /// anyone but the underlying token, refused while the wrap path is
    /// closed, and accepted in full (nothing handed back) otherwise.
    pub open spec fn deposit_result(self, predecessor_id: u64) -> Result<u128, TokenError> {
        if !self.deposit_permitted(predecessor_id) {
            Err(TokenError::PermissionDenied)
        } else if !self.deposit_open() {
            Err(TokenError::InvalidState)
        } else {
            Ok(0u128)
        }
    }

    /// The outcome an unlock attempt is owed.
    pub open spec fn unlock_result(self, caller_id: u64) -> Result<(), TokenError> {
        if caller_id != self.owner_id {
            Err(TokenError::PermissionDenied)
        } else if self.status == Status::Unlocked {
            Err(TokenError::InvalidState)
        } else {
            Ok(())
        }
    }

    /// The status after an unlock attempt: the one transition that exists
    /// is `Locked` to `Unlocked`, by the owner.
    pub open spec fn status_after_unlock(self, caller_id: u64) -> Status {
        if caller_id == self.owner_id {
            Status::Unlocked
        } else {
            self.status
        }
    }

    /// The fields no entry point ever changes after construction.
    pub open spec fn keeps_config(self, post: Contract) -> bool {
        &&& post.locked_token_account_id == self.locked_token_account_id
        &&& post.owner_id == self.owner_id
        &&& post.gated == self.gated
        &&& post.meta == self.meta
    }
}

/// The documented effect of an accepted deposit of `amount` to
/// `sender_id`: the sender's balance and the deposit tally grow by the
/// amount and nothing else moves.
pub open spec fn deposit_effect(pre: Contract, post: Contract, sender_id: u64, amount: u128) -> bool {
    &&& post.ledger.balance_of(sender_id) == pre.ledger.balance_of(sender_id) + amount
    &&& (forall|a: u64| a != sender_id ==> post.ledger.balance_of(a) == pre.ledger.balance_of(a))
    &&& (forall|a: u64| post.ledger.contains_account(a) == pre.ledger.contains_account(a))
    &&& post.ledger.sum() == pre.ledger.sum() + amount
    &&& post.deposited@ == pre.deposited@ + amount
    &&& post.unwrapped@ == pre.unwrapped@
    &&& post.pending@ == pre.pending@
    &&& post.status == pre.status
    &&& post.whitelist == pre.whitelist
    &&& post.log == pre.log
    &&& pre.keeps_config(post)
}

/// The documented effect of a permitted transfer: `amount` moves from the
/// caller to the receiver and nothing else moves.
pub open spec fn transfer_effect(
    pre: Contract,
    post: Contract,
    caller_id: u64,
    receiver_id: u64,
    amount: u128,
) -> bool {
    &&& post.ledger.balance_of(caller_id) == pre.ledger.balance_of(caller_id) - amount
    &&& post.ledger.balance_of(receiver_id) == pre.ledger.balance_of(receiver_id) + amount
    &&& (forall|a: u64|
        a != caller_id && a != receiver_id ==> post.ledger.balance_of(a)
            == pre.ledger.balance_of(a))
    &&& (forall|a: u64| post.ledger.contains_account(a) == pre.ledger.contains_account(a))
    &&& post.ledger.sum() == pre.ledger.sum()
    &&& post.deposited@ == pre.deposited@
    &&& post.unwrapped@ == pre.unwrapped@
    &&& post.pending@ == pre.pending@
    &&& post.status == pre.status
    &&& post.whitelist == pre.whitelist
    &&& post.log == pre.log
    &&& pre.keeps_config(post)
}

/// The documented effect of an accepted unwrap request: the caller's whole
/// balance is debited before anything else happens, the requested external
/// transfer is for exactly that balance, and the debited pair is recorded
/// as pending until the outcome arrives.
pub open spec fn unwrap_effect(pre: Contract, post: Contract, caller_id: u64, req: TransferRequest) -> bool {
    &&& req.receiver_id == caller_id
    &&& req.amount == pre.ledger.balance_of(caller_id)
    &&& post.ledger.balance_of(caller_id) == 0
    &&& (forall|a: u64| a != caller_id ==> post.ledger.balance_of(a) == pre.ledger.balance_of(a))
    &&& (forall|a: u64| post.ledger.contains_account(a) == pre.ledger.contains_account(a))
    &&& post.ledger.sum() == pre.ledger.sum() - req.amount
    &&& post.pending@ == pre.pending@.insert((caller_id, req.amount))
    &&& post.deposited@ == pre.deposited@
    &&& post.unwrapped@ == pre.unwrapped@
    &&& post.status == pre.status
    &&& post.whitelist == pre.whitelist
    &&& post.log == pre.log
    &&& pre.keeps_config(post)
}

/// The documented effect of a callback that reports success: the unwrap is
/// complete, and if the account's balance is still zero its entry is
/// purged, its storage deposit is owed back, and the closure is logged;
/// balances that arrived while the transfer was in flight are left alone.
pub open spec fn resolve_success_effect(
    pre: Contract,
    post: Contract,
    account_id: u64,
    amount: u128,
    r: CallbackOutcome,
) -> bool {
    &&& r.success == true
    &&& post.pending@ == pre.pending@.remove((account_id, amount))
    &&& post.deposited@ == pre.deposited@
    &&& post.unwrapped@ == pre.unwrapped@ + amount
    &&& post.status == pre.status
    &&& post.whitelist == pre.whitelist
    &&& pre.keeps_config(post)
    &&& if pre.ledger.contains_account(account_id) && pre.ledger.balance_of(account_id) == 0 {
        &&& !post.ledger.contains_account(account_id)
        &&& (forall|a: u64|
            a != account_id ==> post.ledger.contains_account(a) == pre.ledger.contains_account(a))
        &&& (forall|a: u64|
            a != account_id ==> post.ledger.balance_of(a) == pre.ledger.balance_of(a))
        &&& post.ledger.sum() == pre.ledger.sum()
        &&& r.refund_storage_to == Some(account_id)
        &&& post.log@ == pre.log@.push(
            LogEvent::AccountClosed { account_id, balance: 0 },
        )
    } else {
        &&& post.ledger == pre.ledger
        &&& r.refund_storage_to == None::<u64>
        &&& post.log == pre.log
    }
}

/// The documented effect of a callback that reports failure: the debited
/// amount is credited back (the compensating transaction), the failure is
/// logged, and the unwrap does not count as completed.
pub open spec fn resolve_failure_effect(
    pre: Contract,
    post: Contract,
    account_id: u64,
    amount: u128,
    r: CallbackOutcome,
) -> bool {
    &&& r.success == false
    &&& r.refund_storage_to == None::<u64>
    &&& post.pending@ == pre.pending@.remove((account_id, amount))
    &&& post.deposited@ == pre.deposited@
    &&& post.unwrapped@ == pre.unwrapped@
    &&& post.ledger.balance_of(account_id) == pre.ledger.balance_of(account_id) + amount
    &&& (forall|a: u64| a != account_id ==> post.ledger.balance_of(a) == pre.ledger.balance_of(a))
    &&& (forall|a: u64| post.ledger.contains_account(a) == pre.ledger.contains_account(a))
    &&& post.ledger.sum() == pre.ledger.sum() + amount
    &&& post.status == pre.status
    &&& post.whitelist == pre.whitelist
    &&& post.log@ == pre.log@.push(LogEvent::UnwrapFailed { account_id, amount })
    &&& pre.keeps_config(post)
}

impl Contract {
    /// Deploys the contract.  A gated deployment starts locked; an ungated
    /// one is permanently unlocked.  Nothing is registered, nothing is
    /// held, nothing is pending.
    pub fn new(locked_token_account_id: u64, owner_id: u64, gated: bool, meta: String) -> (r:
        Contract)
        ensures
            r.wf(),
            r.locked_token_account_id == locked_token_account_id,
            r.owner_id == owner_id,
            r.gated == gated,
            r.status == (if gated {
                Status::Locked
            } else {
                Status::Unlocked
            }),
            r.meta == meta,
            forall|a: u64| !r.ledger.contains_account(a),
            forall|a: u64| r.ledger.balance_of(a) == 0,
            r.ledger.sum() == 0,
            forall|a: u64| r.whitelisted(a) == (a == owner_id),
            r.pending@ == Multiset::<(u64, u128)>::empty(),
            r.deposited@ == 0,
            r.unwrapped@ == 0,
            r.log@ == Seq::<LogEvent>::empty(),
    {
        let status = if gated {
            Status::Locked
        } else {
            Status::Unlocked
        };
        let r = Contract {
            locked_token_account_id,
            owner_id,
            gated,
            status,
            whitelist: Whitelist::new(),
            ledger: Ledger::new(),
            meta,
            log: Vec::new(),
            pending: Ghost(Multiset::empty()),
            deposited: Ghost(0),
            unwrapped: Ghost(0),
        };
        proof {
            lemma_pending_total_empty();
        }
        r
    }

    /// Hands the whole state back, unchanged; the host serializes what it
    /// needs from it.
    pub fn get_info(self) -> (r: Contract)
        ensures
            r == self,
    {
        self
    }

    /// The stored token metadata blob.
    pub fn ft_metadata(&self) -> (r: &String)
        ensures
            r@ == self.meta@,
    {
        &self.meta
    }

    /// The account's derivative balance; zero when unregistered.
    pub fn ft_balance_of(&self, account_id: u64) -> (r: u128)
        requires
            self.wf(),
        ensures
            r == self.ledger.balance_of(account_id),
    {
        self.ledger.get_balance(account_id)
    }

    /// The total derivative supply.
    pub fn ft_total_supply(&self) -> (r: u128)
        requires
            self.wf(),
        ensures
            r as int == self.ledger.sum(),
    {
        self.ledger.total_supply()
    }

    /// Whether the account may move the derivative token in a gated
    /// deployment: the owner always may, everyone else by admission.
    pub fn is_whitelisted(&self, account_id: u64) -> (r: bool)
        ensures
            r == self.whitelisted(account_id),
    {
        account_id == self.owner_id || self.whitelist.contains(account_id)
    }

    /// Registers an account with the ledger so it can hold a balance; the
    /// host collects the storage deposit for it.  Registering again
    /// changes nothing.
    pub fn register_account(&mut self, account_id: u64)
        requires
            old(self).wf(),
        ensures
            final(self).wf(),
            final(self).ledger.contains_account(account_id),
            forall|a: u64|
                a != account_id ==> final(self).ledger.contains_account(a) == old(
                    self,
                ).ledger.contains_account(a),
            forall|a: u64| final(self).ledger.balance_of(a) == old(self).ledger.balance_of(a),
            final(self).ledger.sum() == old(self).ledger.sum(),
            final(self).status == old(self).status,
            final(self).whitelist == old(self).whitelist,
            final(self).log == old(self).log,
            final(self).pending@ == old(self).pending@,
            final(self).deposited@ == old(self).deposited@,
            final(self).unwrapped@ == old(self).unwrapped@,
            old(self).keeps_config(*final(self)),
    {
        self.ledger.register(account_id);
    }

    /// Opens the unwrap path for good: the owner moves a locked contract
    /// to `Unlocked`.  Anyone else is refused, and a second unlock is
    /// refused with the status left as it is.  The host must collect the
    /// minimal fee confirmation before forwarding the call.
    pub fn unlock(&mut self, caller_id: u64) -> (r: Result<(), TokenError>)
        requires
            old(self).wf(),
        ensures
            final(self).wf(),
            r == old(self).unlock_result(caller_id),
            r is Err ==> *final(self) == *old(self),
            r is Ok ==> final(self).status == old(self).status_after_unlock(caller_id),
            r is Ok ==> final(self).ledger == old(self).ledger && final(self).whitelist == old(
                self,
            ).whitelist && final(self).log == old(self).log && final(self).pending@ == old(
                self,
            ).pending@ && final(self).deposited@ == old(self).deposited@ && final(self).unwrapped@
                == old(self).unwrapped@,
            old(self).keeps_config(*final(self)),
    {
        if caller_id != self.owner_id {
            return Err(TokenError::PermissionDenied);
        }
        if self.status == Status::Unlocked {
            return Err(TokenError::InvalidState);
        }
        self.status = Status::Unlocked;
        Ok(())
    }

    /// Admits an account to the whitelist.  Owner only; the host must
    /// collect the minimal fee confirmation before forwarding the call.
    pub fn add_to_whitelist(&mut self, caller_id: u64, account_id: u64) -> (r: Result<
        (),
        TokenError,
    >)
        requires
            old(self).wf(),
        ensures
            final(self).wf(),
            r == (if caller_id == old(self).owner_id {
                Ok::<(), TokenError>(())
            } else {
                Err::<(), TokenError>(TokenError::PermissionDenied)
            }),
            r is Err ==> *final(self) == *old(self),
            r is Ok ==> forall|a: u64|
                final(self).whitelisted(a) == (a == account_id || old(self).whitelisted(a)),
            final(self).ledger == old(self).ledger,
            final(self).status == old(self).status,
            final(self).log == old(self).log,
            final(self).pending@ == old(self).pending@,
            final(self).deposited@ == old(self).deposited@,
            final(self).unwrapped@ == old(self).unwrapped@,
            old(self).keeps_config(*final(self)),
    {
        if caller_id != self.owner_id {
            return Err(TokenError::PermissionDenied);
        }
        self.whitelist.add(account_id);
        Ok(())
    }

    /// Expels an account from the whitelist; the owner stays an implicit
    /// member even if expelled.  Owner only; the host must collect the
    /// minimal fee confirmation before forwarding the call.
    pub fn remove_from_whitelist(&mut self, caller_id: u64, account_id: u64) -> (r: Result<
        (),
        TokenError,
    >)
        requires
            old(self).wf(),
        ensures
            final(self).wf(),
            r == (if caller_id == old(self).owner_id {
                Ok::<(), TokenError>(())
            } else {
                Err::<(), TokenError>(TokenError::PermissionDenied)
            }),
            r is Err ==> *final(self) == *old(self),
            r is Ok ==> forall|a: u64|
                final(self).whitelisted(a) == (a == old(self).owner_id || (a != account_id && old(
                    self,
                ).whitelist.is_member(a))),
            final(self).ledger == old(self).ledger,
            final(self).status == old(self).status,
            final(self).log == old(self).log,
            final(self).pending@ == old(self).pending@,
            final(self).deposited@ == old(self).deposited@,
            final(self).unwrapped@ == old(self).unwrapped@,
            old(self).keeps_config(*final(self)),
    {
        if caller_id != self.owner_id {
            return Err(TokenError::PermissionDenied);
        }
        self.whitelist.remove(account_id);
        Ok(())
    }

    /// The deposit notification hook, invoked when the underlying token
    /// moves tokens into the contract's custody.  Only the underlying
    /// token itself may credit anyone, and a gated deployment accepts new
    /// wrapping only while locked.  On acceptance the depositor is
    /// credited in full and nothing is handed back.
    pub fn ft_on_transfer(&mut self, predecessor_id: u64, sender_id: u64, amount: u128) -> (r:
        Result<u128, TokenError>)
        requires
            old(self).wf(),
            old(self).deposit_result(predecessor_id) is Ok ==> old(self).ledger.contains_account(
                sender_id,
            ) && old(self).ledger.sum() + amount <= u128::MAX,
        ensures
            final(self).wf(),
            r == old(self).deposit_result(predecessor_id),
            r is Err ==> *final(self) == *old(self),
            r is Ok ==> deposit_effect(*old(self), *final(self), sender_id, amount),
    {
        if predecessor_id != self.locked_token_account_id {
            return Err(TokenError::PermissionDenied);
        }
        if self.gated && self.status == Status::Unlocked {
            return Err(TokenError::InvalidState);
        }
        self.ledger.deposit(sender_id, amount);
        proof {
            self.deposited@ = self.deposited@ + amount;
        }
        Ok(0)
    }

    /// Moves derivative tokens to another registered account.  In a gated
    /// deployment the caller must be whitelisted, whatever its balance and
    /// whatever the lock status; balance checks are the ledger's.
    pub fn transfer(&mut self, caller_id: u64, receiver_id: u64, amount: u128) -> (r: Result<
        (),
        TokenError,
    >)
        requires
            old(self).wf(),
            old(self).may_transfer(caller_id) ==> old(self).ledger.contains_account(caller_id)
                && old(self).ledger.contains_account(receiver_id) && caller_id != receiver_id && 0
                < amount <= old(self).ledger.balance_of(caller_id),
        ensures
            final(self).wf(),
            r == old(self).transfer_result(caller_id),
            r is Err ==> *final(self) == *old(self),
            r is Ok ==> transfer_effect(*old(self), *final(self), caller_id, receiver_id, amount),
    {
        if self.gated && !self.is_whitelisted(caller_id) {
            return Err(TokenError::PermissionDenied);
        }
        self.ledger.withdraw(caller_id, amount);
        self.ledger.deposit(receiver_id, amount);
        Ok(())
    }

    /// Like [`Contract::transfer`], and additionally asks the host to
    /// notify the receiver with the payload once the balances have moved.
    pub fn transfer_and_notify(
        &mut self,
        caller_id: u64,
        receiver_id: u64,
        amount: u128,
        payload: String,
    ) -> (r: Result<NotifyRequest, TokenError>)
        requires
            old(self).wf(),
            old(self).may_transfer(caller_id) ==> old(self).ledger.contains_account(caller_id)
                && old(self).ledger.contains_account(receiver_id) && caller_id != receiver_id && 0
                < amount <= old(self).ledger.balance_of(caller_id),
        ensures
            final(self).wf(),
            r is Ok <==> old(self).may_transfer(caller_id),
            r is Err ==> r == Err::<NotifyRequest, TokenError>(TokenError::PermissionDenied)
                && *final(self) == *old(self),
            r matches Ok(n) ==> n.receiver_id == receiver_id && n.amount == amount && n.payload
                == payload && transfer_effect(
                *old(self),
                *final(self),
                caller_id,
                receiver_id,
                amount,
            ),
    {
        if self.gated && !self.is_whitelisted(caller_id) {
            return Err(TokenError::PermissionDenied);
        }
        self.ledger.withdraw(caller_id, amount);
        self.ledger.deposit(receiver_id, amount);
        Ok(NotifyRequest { receiver_id, amount, payload })
    }

    /// Starts an unwrap: debits the caller's whole balance synchronously,
    /// before any asynchronous step, and hands the host the external
    /// transfer to issue together with the callback binding.  Refused with
    /// `InvalidState` while the contract is still locked.  The host must
    /// collect the minimal fee confirmation before forwarding the call.
    pub fn unwrap(&mut self, caller_id: u64) -> (r: Result<TransferRequest, TokenError>)
        requires
            old(self).wf(),
            old(self).status == Status::Unlocked ==> old(self).ledger.contains_account(caller_id),
        ensures
            final(self).wf(),
            r is Ok <==> old(self).status == Status::Unlocked,
            r is Err ==> r == Err::<TransferRequest, TokenError>(TokenError::InvalidState)
                && *final(self) == *old(self),
            r matches Ok(req) ==> unwrap_effect(*old(self), *final(self), caller_id, req),
    {
        if self.status != Status::Unlocked {
            return Err(TokenError::InvalidState);
        }
        let amount = self.ledger.get_balance(caller_id);
        self.ledger.withdraw(caller_id, amount);
        proof {
            lemma_pending_total_insert(self.pending@, (caller_id, amount));
            self.pending@ = self.pending@.insert((caller_id, amount));
        }
        Ok(TransferRequest { receiver_id: caller_id, amount })
    }

    /// The unwrap callback, run once the external transfer's outcome is
    /// known.  The host delivers each requested transfer's outcome exactly
    /// once, with the account and amount the request was registered with.
    /// On success the unwrap is complete: a balance still at zero has its
    /// entry purged and its storage deposit returned, while a balance that
    /// grew in the meantime is left alone.  On failure the debited amount
    /// is credited back and the failure is logged; no retry is scheduled.
    pub fn after_ft_transfer(&mut self, account_id: u64, amount: u128, promise_success: bool) -> (r:
        CallbackOutcome)
        requires
            old(self).wf(),
            old(self).pending@.contains((account_id, amount)),
            !promise_success ==> old(self).ledger.contains_account(account_id) && old(
                self,
            ).ledger.sum() + amount <= u128::MAX,
        ensures
            final(self).wf(),
            r.success == promise_success,
            promise_success ==> resolve_success_effect(
                *old(self),
                *final(self),
                account_id,
                amount,
                r,
            ),
            !promise_success ==> resolve_failure_effect(
                *old(self),
                *final(self),
                account_id,
                amount,
                r,
            ),
    {
        proof {
            lemma_pending_total_remove(self.pending@, (account_id, amount));
            self.pending@ = self.pending@.remove((account_id, amount));
        }
        if promise_success {
            proof {
                self.unwrapped@ = self.unwrapped@ + amount;
            }
            if self.ledger.is_registered(account_id) {
                let balance = self.ledger.get_balance(account_id);
                if balance == 0 {
                    self.ledger.remove_account(account_id);
                    self.on_account_closed(account_id, 0);
                    return CallbackOutcome { success: true, refund_storage_to: Some(account_id) };
                }
            }
            CallbackOutcome { success: true, refund_storage_to: None }
        } else {
            self.ledger.deposit(account_id, amount);
            self.log.push(LogEvent::UnwrapFailed { account_id, amount });
            CallbackOutcome { success: false, refund_storage_to: None }
        }
    }

    /// Records that an account's ledger entry was closed with the given
    /// remaining balance; the host emits the record.
    pub fn on_account_closed(&mut self, account_id: u64, balance: u128)
        requires
            old(self).wf(),
        ensures
            final(self).wf(),
            final(self).log@ == old(self).log@.push(LogEvent::AccountClosed { account_id, balance }),
            final(self).ledger == old(self).ledger,
            final(self).status == old(self).status,
            final(self).whitelist == old(self).whitelist,
            final(self).pending@ == old(self).pending@,
            final(self).deposited@ == old(self).deposited@,
            final(self).unwrapped@ == old(self).unwrapped@,
            old(self).keeps_config(*final(self)),
    {
        self.log.push(LogEvent::AccountClosed { account_id, balance });
    }

    /// Records that a transfer implicitly burned derivative balance under
    /// the ledger's resolution rules; the host emits the record.
    pub fn on_tokens_burned(&mut self, account_id: u64, amount: u128)
        requires
            old(self).wf(),
        ensures
            final(self).wf(),
            final(self).log@ == old(self).log@.push(LogEvent::TokensBurned { account_id, amount }),
            final(self).ledger == old(self).ledger,
            final(self).status == old(self).status,
            final(self).whitelist == old(self).whitelist,
            final(self).pending@ == old(self).pending@,
            final(self).deposited@ == old(self).deposited@,
            final(self).unwrapped@ == old(self).unwrapped@,
            old(self).keeps_config(*final(self)),
    {
        self.log.push(LogEvent::TokensBurned { account_id, amount });
    }
}

} // verus!
