//! Reasons for which a call is rejected.

use vstd::prelude::*;

verus! {

/// Why the engine rejected a call.
///
/// A rejected call changes nothing: no record is written and no value is
/// asked to move. The caller has to correct the condition and call again.
#[derive(Clone, Copy, Debug, PartialEq, Eq, Structural)]
pub enum StreamError {
    /// The storage location of the pair already holds a stream.
    AlreadyExists,
    /// The stream has been closed.
    NotActive,
    /// The caller is not the party that the operation is reserved for.
    Unauthorized,
    /// Nothing has accrued that could be paid out.
    NothingToWithdraw,
    /// The sender's balance does not cover the deposit.
    InsufficientFunds,
}

} // verus!
