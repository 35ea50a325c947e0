//! A wrapped fungible token.
//!
//! The contract takes custody of deposits of an underlying token and credits
//! the depositor with a one-to-one derivative balance.  A gated deployment
//! starts in a locked state in which deposits are accepted and transfers are
//! restricted to an owner-managed whitelist; the owner may unlock it once,
//! which closes the deposit path.  Holders exchange their derivative balance
//! back into the underlying token through `unwrap`: the balance is debited
//! up front, an external transfer request is handed to the host, and a
//! callback later either completes the exchange or restores the balance.
//!
//! Account identifiers are opaque numeric handles; the host boundary maps
//! real account names to handles and performs the actual cross-contract
//! calls that the library's entry points request.

mod contract;
mod errors;
mod events;
mod laws;
mod ledger;
mod pending;
mod status;
mod whitelist;

pub use contract::deposit_effect;
pub use contract::resolve_failure_effect;
pub use contract::resolve_success_effect;
pub use contract::transfer_effect;
pub use contract::unwrap_effect;
pub use contract::CallbackOutcome;
pub use contract::Contract;
pub use contract::NotifyRequest;
pub use contract::TransferRequest;
pub use errors::TokenError;
pub use events::LogEvent;
pub use laws::lemma_concurrent_unwraps_no_double_debit;
pub use laws::lemma_foreign_deposit_refused;
pub use laws::lemma_local_balances_bounded;
pub use laws::lemma_unlock_is_one_way;
pub use laws::lemma_unlocked_deposit_refused;
pub use laws::lemma_whitelist_gates_transfer;
pub use ledger::Ledger;
pub use pending::pending_total;
pub use status::Status;
pub use whitelist::Whitelist;
