use vstd::prelude::*;

verus! {

/// The canonical error taxonomy of the curve operations.
///
/// `InsufficientSupply` is a user input error: a sell amount above the
/// current supply.  `SupplyOverflow` and `SupplyUnderflow` are
/// arithmetic-bound violations.  `AlreadyInitialized` is an identity-level
/// error from the storage layer: the identity already carries a record.
/// Every failure leaves the curve state exactly as it was.
#[derive(Clone, Copy, Debug, PartialEq, Eq, Structural)]
pub enum CurveError {
    InsufficientSupply,
    SupplyOverflow,
    SupplyUnderflow,
    AlreadyInitialized,
}

} // verus!
