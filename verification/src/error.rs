//! The reasons for which an operation is refused.

use vstd::prelude::*;

verus! {

/// Why an operation was refused. A refused operation changes nothing.
#[derive(Clone, Copy, Debug, PartialEq, Eq, Structural)]
pub enum ErrorCode {
    /// A membership was requested from a hotel that is not verified.
    HotelNotVerified,
    /// The caller is not the principal that the record names for this operation.
    InvalidOwner,
    /// The amount to redeem exceeds the balance.
    InsufficientPoints,
    /// The caller is not the configured administrator.
    InvalidAdmin,
    /// A sum, product or difference would leave the range of its integer type.
    ArithmeticOverflow,
    /// The clock reading is not later than the record's last accrual.
    InvalidTimestamp,
    /// The amount to redeem is zero.
    InvalidRedemptionAmount,
    /// The requested multiplier exceeds the configured ceiling.
    MultiplierTooHigh,
    /// The grant would take the window's total over the cap.
    AddPointsLimitExceeded,
    /// A record with this key already exists.
    DuplicateKey,
    /// The hotel's name is longer than the storage cap.
    NameTooLong,
}

impl ErrorCode {
    /// The message that accompanies the error.
    pub fn message(&self) -> (text: &'static str)
        ensures
            text@ == self.spec_message()@,
    {
        match self {
            ErrorCode::HotelNotVerified => "Hotel is not verified.",
            ErrorCode::InvalidOwner => "Invalid hotel owner.",
            ErrorCode::InsufficientPoints => "Insufficient points to redeem.",
            ErrorCode::InvalidAdmin => "Invalid admin.",
            ErrorCode::ArithmeticOverflow => "Arithmetic error.",
            ErrorCode::InvalidTimestamp => "Invalid timestamp.",
            ErrorCode::InvalidRedemptionAmount => "Invalid redemption amount.",
            ErrorCode::MultiplierTooHigh => "Multiplier too high.",
            ErrorCode::AddPointsLimitExceeded => "Add points limit exceeded.",
            ErrorCode::DuplicateKey => "Duplicate key.",
            ErrorCode::NameTooLong => "Name too long.",
        }
    }

    /// The message of each error, as a specification.
    pub open spec fn spec_message(&self) -> &'static str {
        match self {
            ErrorCode::HotelNotVerified => "Hotel is not verified.",
            ErrorCode::InvalidOwner => "Invalid hotel owner.",
            ErrorCode::InsufficientPoints => "Insufficient points to redeem.",
            ErrorCode::InvalidAdmin => "Invalid admin.",
            ErrorCode::ArithmeticOverflow => "Arithmetic error.",
            ErrorCode::InvalidTimestamp => "Invalid timestamp.",
            ErrorCode::InvalidRedemptionAmount => "Invalid redemption amount.",
            ErrorCode::MultiplierTooHigh => "Multiplier too high.",
            ErrorCode::AddPointsLimitExceeded => "Add points limit exceeded.",
            ErrorCode::DuplicateKey => "Duplicate key.",
            ErrorCode::NameTooLong => "Name too long.",
        }
    }
}

} // verus!
