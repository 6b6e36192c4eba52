//! The ledger's failure taxonomy.

use vstd::prelude::*;

verus! {

/// Why an operation was refused. Every failure is caller-recoverable: the
/// operation takes no effect and the caller sees exactly one of these kinds.
#[derive(Clone, Copy, PartialEq, Eq, Structural, Debug)]
pub enum CustomError {
    /// A requested purchase amount exceeds the property's available shares.
    NotEnoughShares,
    /// An arithmetic operation would overflow the unsigned range.
    MathError,
    /// The caller is not the property's owner on an owner-gated operation.
    NotOwner,
    /// A purchase was attempted while the property is not listed for sale.
    NotListed,
    /// A supplied price is not strictly positive.
    PriceTooLow,
    /// A quantity argument that must be positive was zero.
    ZeroAmount,
}

impl CustomError {
    /// A human-readable description of the failure.
    pub fn message(&self) -> (r: &'static str)
        ensures
            r@.len() > 0,
    {
        let r: &'static str = match self {
            CustomError::NotEnoughShares => "Not enough shares available",
            CustomError::MathError => "Math error occurred",
            CustomError::NotOwner => "You are not the property owner",
            CustomError::NotListed => "Property is not listed for sale",
            CustomError::PriceTooLow => "Price must be greater than zero",
            CustomError::ZeroAmount => "Amount must be greater than zero",
        };
        proof {
            reveal_strlit("Not enough shares available");
            reveal_strlit("Math error occurred");
            reveal_strlit("You are not the property owner");
            reveal_strlit("Property is not listed for sale");
            reveal_strlit("Price must be greater than zero");
            reveal_strlit("Amount must be greater than zero");
        }
        r
    }
}

} // verus!
