use vstd::prelude::*;

verus! {

/// The lock status of the contract.
///
/// A gated deployment starts `Locked`: deposits of the underlying token are
/// accepted and transfers require whitelist membership.  The owner may move
/// it to `Unlocked` exactly once; no transition back exists.  An ungated
/// deployment is permanently `Unlocked`.
#[derive(Clone, Copy, Debug, PartialEq, Eq, Structural)]
pub enum Status {
    /// Deposits are accepted; the unwrap path is closed.
    Locked,
    /// Deposits are refused in a gated deployment; the unwrap path is open.
    Unlocked,
}

} // verus!
