//! The failure type shared by the validating constructors and operations.

use vstd::prelude::*;

verus! {

/// A typed failure returned by a validating constructor or an operation.
///
/// Every failure is local to the single operation invoked: the caller
/// receives the error as a value and all previously constructed values
/// remain valid and usable.
#[derive(Debug, Clone, Copy, PartialEq, Eq, Structural)]
pub enum ValobsError {
    /// An amount of zero reached a construction point, directly or as
    /// the result of an operation that re-validates its output.
    InvalidAmount,
    /// A binary operation received operands with different currencies.
    CurrencyMismatch,
    /// A subtraction would underflow: the minuend is smaller than the
    /// subtrahend.
    NegativeResult,
    /// A division scalar of zero was supplied.
    InvalidScalar,
    /// An equal-parts allocation was asked for zero parts.
    InvalidPartCount,
    /// A ratio-weighted allocation received a ratio that is not both
    /// finite and positive.
    InvalidRatio,
    /// A serialized record carried a currency code outside the closed
    /// currency enumeration.
    UnknownCurrency,
    /// Raw e-mail input was rejected by the address validation.
    InvalidEmail,
}

/// The result type used by every validating constructor and operation.
pub type ValobsResult<T> = Result<T, ValobsError>;

impl ValobsError {
    /// The human-readable description of this failure.
    pub open spec fn spec_message(self) -> Seq<char> {
        match self {
            ValobsError::InvalidAmount => "Amount must be greater than 0"@,
            ValobsError::CurrencyMismatch => "Currencies must be the same"@,
            ValobsError::NegativeResult => {
                "Amount must be greater than or equal to the other amount"@
            },
            ValobsError::InvalidScalar => "Scalar must be greater than 0"@,
            ValobsError::InvalidPartCount => "Parts must be greater than 0"@,
            ValobsError::InvalidRatio => "Ratios must be finite and positive"@,
            ValobsError::UnknownCurrency => "Currency code is not recognized"@,
            ValobsError::InvalidEmail => "Email address is not valid"@,
        }
    }

    /// A human-readable description of the failure.
    pub fn message(&self) -> (r: &'static str)
        ensures
            r@ == self.spec_message(),
    {
        match self {
            ValobsError::InvalidAmount => "Amount must be greater than 0",
            ValobsError::CurrencyMismatch => "Currencies must be the same",
            ValobsError::NegativeResult => {
                "Amount must be greater than or equal to the other amount"
            },
            ValobsError::InvalidScalar => "Scalar must be greater than 0",
            ValobsError::InvalidPartCount => "Parts must be greater than 0",
            ValobsError::InvalidRatio => "Ratios must be finite and positive",
            ValobsError::UnknownCurrency => "Currency code is not recognized",
            ValobsError::InvalidEmail => "Email address is not valid",
        }
    }
}

} // verus!
