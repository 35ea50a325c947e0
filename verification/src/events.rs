use vstd::prelude::*;

verus! {

/// A diagnostic record appended to the contract's log.
///
/// The library never performs output itself; the host boundary renders and
/// emits these records.
#[derive(Clone, Copy, Debug, PartialEq, Eq, Structural)]
pub enum LogEvent {
    /// An account's ledger entry was removed after a successful unwrap left
    /// its balance at zero; its storage deposit is returned.
    AccountClosed { account_id: u64, balance: u128 },
    /// A transfer implicitly burned derivative balance under the ledger's
    /// resolution rules.
    TokensBurned { account_id: u64, amount: u128 },
    /// The external transfer of an unwrap failed; the debited amount was
    /// credited back to the account.
    UnwrapFailed { account_id: u64, amount: u128 },
}

} // verus!
