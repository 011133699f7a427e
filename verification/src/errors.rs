//! The closed set of errors an invocation can surface.
//!
//! Every error is terminal for the current invocation: the engine returns the
//! first error it meets and performs no write-back, so no partial state is
//! ever observable.

use vstd::prelude::*;

verus! {

/// Why an invocation was rejected.
#[derive(Clone, Copy, Debug, PartialEq, Eq, Structural)]
pub enum EngineError {
    /// The instruction payload could not be parsed into an operation.
    MalformedPayload,
    /// The payload's operation tag names no member of the operation set.
    UnknownOperation,
    /// The number of supplied account handles is not the number the
    /// operation requires.
    AccountCountMismatch,
    /// A supplied record is not owned by this engine.
    OwnershipMismatch,
    /// A record's bytes do not hold a well-formed entity of the expected
    /// type.
    DecodeError,
    /// The encoded entity would not fit in the record's fixed capacity.
    CapacityExceeded,
    /// The purchase history can hold no further entry within the record's
    /// fixed capacity.
    HistoryCapacityExceeded,
    /// An identity, key, creator or membership check failed.
    IdentityMismatch,
    /// The offered amount does not equal the content's current price.
    PriceMismatch,
    /// The purchaser's balance is smaller than the price.
    InsufficientBalance,
    /// The identity record already carries a display-name.
    AlreadyRegistered,
}

} // verus!
