//! The records of the ledger: the configuration, hotels and memberships.

use vstd::prelude::*;
use crate::error::ErrorCode;
use crate::principal::Principal;

verus! {

/// The longest hotel name that a record can store, in bytes.
pub const MAX_NAME_LEN: usize = 50;

/// The number of memberships that one user holds with one hotel.
pub const TOKENS_PER_MEMBERSHIP: u64 = 1;

/// The fee that a user pays to the hotel's owner for a membership, in the
/// smallest unit of the currency.
pub const MINT_FEE: u64 = 10_000_000;

/// The administrative configuration. There is one.
#[derive(Clone, Copy, Debug, PartialEq, Eq)]
pub struct Config {
    /// The only principal that may verify hotels.
    pub admin: Principal,
    /// The highest multiplier that a new membership may ask for.
    pub max_multiplier: u8,
}

/// A hotel.
#[derive(Clone, Debug, PartialEq, Eq)]
pub struct Hotel {
    /// The key of this record; memberships refer to the hotel by it.
    pub hotel_id: Principal,
    pub name: String,
    /// Memberships can be minted only once this is set.
    pub verified: bool,
    /// Receives the minting fees and may grant points.
    pub owner: Principal,
    /// The number of memberships minted so far.
    pub token_supply: u64,
    /// When the hotel was registered.
    pub timestamp: i64,
}

/// The membership of one user with one hotel.
#[derive(Clone, Copy, Debug, PartialEq, Eq)]
pub struct Membership {
    pub user: Principal,
    pub hotel: Principal,
    pub token_count: u64,
    /// The points that the user can spend.
    pub points_balance: u64,
    /// When points were last accrued.
    pub last_points_update: i64,
    /// Points earned per whole day.
    pub multiplier: u8,
    /// When the membership was minted.
    pub timestamp: i64,
    /// The class that the balance fell in at the last accrual.
    pub tier: u8,
    /// When the current grant window began.
    pub last_add_points_timestamp: i64,
    /// The points granted in the current window.
    pub points_added_this_period: u64,
}

/// A statement of a user's balance with a hotel at one moment.
#[derive(Clone, Copy, Debug, PartialEq, Eq)]
pub struct PointsLedger {
    pub user: Principal,
    pub hotel: Principal,
    pub points_balance: u64,
    pub timestamp: i64,
}

/// The number of bytes that a name takes when stored.
pub open spec fn name_byte_len(name: Seq<char>) -> nat {
    vstd::utf8::encode_utf8(name).len()
}

/// Measures a name in bytes.
pub fn name_len(name: &String) -> (len: usize)
    ensures
        len == name_byte_len(name@),
{
    name.as_str().as_bytes().len()
}

impl Hotel {
    /// The bytes that a stored hotel takes.
    pub const LEN: usize = 8 + 32 + (4 + 50) + 1 + 32 + 8 + 8;

    /// Counts one membership more. A supply that cannot grow is left as it is.
    pub fn increment_supply(&mut self) -> (result: Result<(), ErrorCode>)
        ensures
            old(self).token_supply < u64::MAX ==> result.is_ok() && *final(self) == (Hotel {
                token_supply: (old(self).token_supply + 1) as u64,
                ..*old(self)
            }),
            old(self).token_supply == u64::MAX ==> result == Err::<(), ErrorCode>(
                ErrorCode::ArithmeticOverflow,
            ) && *final(self) == *old(self),
    {
        match self.token_supply.checked_add(1) {
            Some(supply) => {
                self.token_supply = supply;
                Ok(())
            },
            None => Err(ErrorCode::ArithmeticOverflow),
        }
    }

    /// A copy of the hotel.
    pub fn duplicate(&self) -> (copy: Hotel)
        ensures
            copy == *self,
    {
        Hotel {
            hotel_id: self.hotel_id,
            name: self.name.clone(),
            verified: self.verified,
            owner: self.owner,
            token_supply: self.token_supply,
            timestamp: self.timestamp,
        }
    }

}

impl Membership {
    /// The bytes that a stored membership takes.
    pub const LEN: usize = 8 + 32 + 32 + 8 + 8 + 8 + 1 + 8 + 1 + 8 + 8;
}

impl PointsLedger {
    /// The bytes that a stored statement takes.
    pub const LEN: usize = 8 + 32 + 32 + 8 + 8;
}

} // verus!
