//! The failures an operation of this library can report.

use vstd::prelude::*;

verus! {

/// Why an operation was rejected. A rejected operation changes nothing.
#[derive(Clone, Copy, Debug, PartialEq, Eq, Structural)]
pub enum CustomError {
    /// The caller fails an ownership or authority check.
    Unauthorized,
    /// A record already sits at the address where one was to be created.
    KeyAlreadyExists,
    /// The backing balance is below the requested amount plus the reserve.
    InsufficientFunds,
    /// The escrow was released before.
    AlreadyReleased,
    /// The consumer holds fewer redeemable credits than were to be redeemed.
    NotEnoughCredits,
    /// The discount is larger than the payment it is taken from.
    InvalidDiscount,
    /// An exact result does not fit the integer that has to hold it.
    ArithmeticOverflow,
    /// A subtraction would fall below zero.
    ArithmeticUnderflow,
}

impl CustomError {
    /// The message that belongs to this failure.
    pub fn message(&self) -> (text: &'static str)
        ensures
            text@ == Self::message_of(*self)@,
    {
        match self {
            CustomError::Unauthorized => "You are not authorized to update this charger.",
            CustomError::KeyAlreadyExists => "A record already exists at this address.",
            CustomError::InsufficientFunds => "Insufficient funds in the escrow account.",
            CustomError::AlreadyReleased => "Escrow has already been released.",
            CustomError::NotEnoughCredits => "Not enough reward tokens.",
            CustomError::InvalidDiscount => "The discount exceeds the payment amount.",
            CustomError::ArithmeticOverflow => "Arithmetic overflow.",
            CustomError::ArithmeticUnderflow => "Arithmetic underflow.",
        }
    }

    /// The text of `message`, for contracts.
    pub open spec fn message_of(e: CustomError) -> &'static str {
        match e {
            CustomError::Unauthorized => "You are not authorized to update this charger.",
            CustomError::KeyAlreadyExists => "A record already exists at this address.",
            CustomError::InsufficientFunds => "Insufficient funds in the escrow account.",
            CustomError::AlreadyReleased => "Escrow has already been released.",
            CustomError::NotEnoughCredits => "Not enough reward tokens.",
            CustomError::InvalidDiscount => "The discount exceeds the payment amount.",
            CustomError::ArithmeticOverflow => "Arithmetic overflow.",
            CustomError::ArithmeticUnderflow => "Arithmetic underflow.",
        }
    }
}

} // verus!
