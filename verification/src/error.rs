//! The failures that end a call.

use vstd::prelude::*;

verus! {

/// A checked operation that can leave the range of `u128`.
#[derive(Clone, Copy, Debug, PartialEq, Eq, Structural)]
pub enum OverflowOperation {
    Add,
    Sub,
    Mul,
}

/// The kinds of the host's standard error that the pool itself raises.
#[derive(Clone, Copy, Debug, PartialEq, Eq, Structural)]
pub enum StdErrorKind {
    /// `operation` on `operand1` and `operand2` left the range of `u128`.
    Overflow { operation: OverflowOperation, operand1: u128, operand2: u128 },
    /// `operand` was to be divided by a reserve or a balance that is zero.
    DivideByZero { operand: u128 },
    /// A record that the operation needs has not been stored yet.
    NotFound,
}

/// Why a call was rejected. A rejected call changes nothing and emits nothing.
#[derive(Clone, Copy, Debug, PartialEq, Eq, Structural)]
pub enum Error {
    /// A structural failure of arithmetic or of the stored state.
    Std(StdErrorKind),
    /// The share ledger could not be created.
    LPTokenError,
    /// The second amount offered is below what the first amount calls for.
    InsufficientTokenAmount,
    /// More shares were asked to be redeemed than the caller holds.
    InvalidLPTokenAmount,
    /// The shares to mint, or one of the payouts, round down to nothing.
    InsufficientLiquidity,
}

/// The error for `operation` on `operand1` and `operand2` out of range.
pub open spec fn overflow(operation: OverflowOperation, operand1: u128, operand2: u128) -> Error {
    Error::Std(StdErrorKind::Overflow { operation, operand1, operand2 })
}

/// The error for the division of `operand` by zero.
pub open spec fn divide_by_zero(operand: u128) -> Error {
    Error::Std(StdErrorKind::DivideByZero { operand })
}

} // verus!
