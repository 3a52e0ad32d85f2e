use vstd::prelude::*;

verus! {

/// Failures that the vault reports before it asks the custody service for anything.
#[derive(Debug, Clone, Copy, PartialEq, Eq, Structural)]
pub enum ErrorCode {
    /// A holder asked to redeem more shares than they hold; raised by the
    /// host, whose custody service tracks holdings.
    InsufficientFundUnstake,
    /// A deposit or a withdrawal was asked for with a quantity of zero.
    AmountMustBeGreaterThanZero,
    /// The product in a rate conversion does not fit in 64 bits.
    ArithmeticOverflow,
    /// A withdrawal was asked for while no shares are outstanding.
    DivisionByZero,
}

impl ErrorCode {
    /// The message that a host shows for this error.
    pub fn message(&self) -> &'static str {
        match self {
            ErrorCode::InsufficientFundUnstake => "Insufficient funds to unstake.",
            ErrorCode::AmountMustBeGreaterThanZero => "Amount must be greater than zero.",
            ErrorCode::ArithmeticOverflow => "Arithmetic overflow.",
            ErrorCode::DivisionByZero => "Division by zero.",
        }
    }
}

} // verus!
