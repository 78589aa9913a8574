//! The authorization gate: who may perform which operation on which record.
//!
//! Every operation calls its guards before it reads anything else, so a
//! caller without the right is refused whatever the other inputs are.

use vstd::prelude::*;
use crate::error::ErrorCode;
use crate::principal::Principal;
use crate::state::{Config, Hotel, Membership};

verus! {

/// What a guard returns: nothing when `allowed`, else `refusal`.
pub open spec fn gate(allowed: bool, refusal: ErrorCode) -> Result<(), ErrorCode> {
    if allowed {
        Ok(())
    } else {
        Err(refusal)
    }
}

/// Admits only the configured administrator.
pub fn require_admin(config: &Config, caller: &Principal) -> (result: Result<(), ErrorCode>)
    ensures
        result == gate(config.admin == *caller, ErrorCode::InvalidAdmin),
{
    if config.admin.same_as(caller) {
        Ok(())
    } else {
        Err(ErrorCode::InvalidAdmin)
    }
}

/// Admits only the user that the membership belongs to.
pub fn require_member(membership: &Membership, caller: &Principal) -> (result: Result<
    (),
    ErrorCode,
>)
    ensures
        result == gate(membership.user == *caller, ErrorCode::InvalidOwner),
{
    if membership.user.same_as(caller) {
        Ok(())
    } else {
        Err(ErrorCode::InvalidOwner)
    }
}

/// Admits only the owner of the hotel.
pub fn require_hotel_owner(hotel: &Hotel, caller: &Principal) -> (result: Result<(), ErrorCode>)
    ensures
        result == gate(hotel.owner == *caller, ErrorCode::InvalidOwner),
{
    if hotel.owner.same_as(caller) {
        Ok(())
    } else {
        Err(ErrorCode::InvalidOwner)
    }
}

/// Admits only the hotel that issued the membership.
pub fn require_issuer(membership: &Membership, hotel: &Hotel) -> (result: Result<(), ErrorCode>)
    ensures
        result == gate(membership.hotel == hotel.hotel_id, ErrorCode::InvalidOwner),
{
    if membership.hotel.same_as(&hotel.hotel_id) {
        Ok(())
    } else {
        Err(ErrorCode::InvalidOwner)
    }
}

} // verus!
