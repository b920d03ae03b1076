//! Why a call into a curve or a launcher was refused.

use vstd::prelude::*;

verus! {

/// The reasons for refusing an operation. A refused operation changes nothing.
#[derive(Clone, Copy, Debug, PartialEq, Eq, Structural)]
pub enum CurveError {
    /// The bucket holds another asset than the operation takes.
    InvalidAsset,
    /// The payment sent is less than the operation costs.
    InsufficientFunds,
    /// The tokens sent are fewer than the operation burns.
    InsufficientTokens,
    /// The operation would pass the tradable supply or the payment cap, or
    /// take more than a vault holds.
    CapacityExceeded,
    /// Selling during the fair launch, or trading once the curve is listed.
    InvalidPhase,
    /// A receipt that this curve did not issue, or one already redeemed.
    UnknownOrForeignReceipt,
    /// A fair-launch claim before the fair launch is over.
    PhaseNotEnded,
    /// A parameter name that is not known, or a value that does not parse
    /// or is out of its range.
    InvalidParameter,
    /// A computed amount contradicts the curve's own bounds.
    InternalInvariantViolation,
    /// A computation left the range of the fixed-point types.
    Overflow,
}

} // verus!
