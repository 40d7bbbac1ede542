//! What an operation of the custodian reports when it declines to act.

use vstd::prelude::*;

verus! {

/// The respect in which a payment differs from what was asked for.
#[derive(Clone, Copy, Debug, PartialEq, Eq, Structural)]
pub enum MismatchKind {
    /// The payment is of another asset class.
    Class,
    /// The class is right, but the quantity is not the one asked for.
    Amount,
    /// The class is right, but the unique item asked for is not in the payment.
    Identity,
}

/// Why an operation was declined. A declined operation changes nothing.
#[derive(Clone, Copy, Debug, PartialEq, Eq, Structural)]
pub enum EscrowError {
    /// Nothing was deposited, or the quantity asked in return is not positive.
    InvalidOffer,
    /// The payment is not what the offer asks for.
    ResourceMismatch(MismatchKind),
    /// The claim token presented is not the one issued for this offer.
    Unauthorized,
    /// Nothing can be collected: the offer was never taken up.
    NotFulfilled,
    /// The offer is no longer open.
    AlreadyFulfilled,
    /// The payment has already been collected.
    AlreadyWithdrawn,
}

/// A declined operation: the reason, and what the caller handed in, given
/// back untouched.
#[derive(Debug)]
pub struct Refused<T> {
    pub error: EscrowError,
    pub returned: T,
}

} // verus!
