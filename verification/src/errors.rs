use vstd::prelude::*;

verus! {

/// Errors surfaced synchronously by the contract's entry points.
///
/// A failed external transfer during an unwrap is never surfaced to a
/// caller; it is compensated in the callback and recorded as a
/// [`crate::events::LogEvent::UnwrapFailed`] diagnostic instead.
#[derive(Clone, Copy, Debug, PartialEq, Eq, Structural)]
pub enum TokenError {
    /// The caller is not permitted to perform the operation: a non-owner
    /// administrative call, a transfer by a non-whitelisted account, or a
    /// deposit notification from an unrecognized source.
    PermissionDenied,
    /// The operation is not permitted in the current lock status: unlocking
    /// an already unlocked contract, unwrapping while still locked, or a
    /// deposit while a gated contract is unlocked.
    InvalidState,
}

} // verus!
