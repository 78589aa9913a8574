//! The ledger's operations, each on the records and callers that it names.
//!
//! An operation takes a context: the records it reads or writes and the
//! principals that invoke it. It first passes the authorization gate, then
//! checks its inputs, then writes. When it is refused the context is as it
//! was before the call. The time is an input of the operations that need it.
//!
//! For each operation a spec function gives the outcome, a new context or the
//! refusal, and the executable function is specified to produce it.

use vstd::prelude::*;
use crate::auth::{require_admin, require_hotel_owner, require_issuer, require_member};
use crate::error::ErrorCode;
use crate::principal::Principal;
use crate::state::{
    name_byte_len, name_len, Config, Hotel, Membership, MAX_NAME_LEN, MINT_FEE,
    TOKENS_PER_MEMBERSHIP,
};

verus! {

/// The records and callers of `initialize_config`.
#[derive(Clone, Copy, Debug, PartialEq, Eq)]
pub struct InitializeConfig {
    /// The configuration being created.
    pub config: Config,
    /// The caller, who becomes the administrator.
    pub admin: Principal,
}

/// The records and callers of `initialize_hotel`.
#[derive(Clone, Debug, PartialEq, Eq)]
pub struct InitializeHotel {
    /// The hotel being created.
    pub hotel: Hotel,
    /// The key under which the hotel is stored.
    pub hotel_key: Principal,
    /// The caller, who becomes the hotel's owner.
    pub authority: Principal,
}

/// The records and callers of `mint_membership_token`.
#[derive(Clone, Debug, PartialEq, Eq)]
pub struct MintMembershipToken {
    pub hotel: Hotel,
    /// The membership being created.
    pub membership_token: Membership,
    /// The caller, who becomes the member.
    pub user: Principal,
    /// The account that the caller names to receive the fee.
    pub hotel_authority: Principal,
    pub config: Config,
}

/// The records and callers of `calculate_and_update_points`.
#[derive(Clone, Copy, Debug, PartialEq, Eq)]
pub struct CalculateAndUpdatePoints {
    pub membership_token: Membership,
    /// The caller.
    pub user: Principal,
}

/// The records and callers of `redeem_points`.
#[derive(Clone, Copy, Debug, PartialEq, Eq)]
pub struct RedeemPoints {
    pub membership_token: Membership,
    /// The caller.
    pub user: Principal,
}

/// The records and callers of `add_points`.
#[derive(Clone, Debug, PartialEq, Eq)]
pub struct AddPoints {
    pub membership_token: Membership,
    pub hotel: Hotel,
    /// The caller.
    pub authority: Principal,
}

/// The records and callers of `verify_hotel`.
#[derive(Clone, Debug, PartialEq, Eq)]
pub struct VerifyHotel {
    pub hotel: Hotel,
    pub config: Config,
    /// The caller.
    pub admin: Principal,
}

/// A payment that the caller of an operation has to carry out together with
/// the operation: both take effect or neither does.
#[derive(Clone, Copy, Debug, PartialEq, Eq)]
pub struct FeeTransfer {
    pub from: Principal,
    pub to: Principal,
    pub amount: u64,
}

/// The membership that a user gets when it is minted at `now`.
pub open spec fn fresh_membership(user: Principal, hotel: Principal, multiplier: u8, now: i64)
    -> Membership {
    Membership {
        user,
        hotel,
        token_count: 1,
        points_balance: 0,
        last_points_update: now,
        multiplier,
        timestamp: now,
        tier: 0,
        last_add_points_timestamp: 0,
        points_added_this_period: 0,
    }
}

/// The hotel that a registration at `now` creates.
pub open spec fn fresh_hotel(key: Principal, name: String, owner: Principal, now: i64) -> Hotel {
    Hotel { hotel_id: key, name, verified: false, owner, token_supply: 0, timestamp: now }
}

/// The outcome of `initialize_config`: the caller is the administrator.
pub open spec fn initialize_config_outcome(ctx: InitializeConfig, max_multiplier: u8)
    -> InitializeConfig {
    InitializeConfig { config: Config { admin: ctx.admin, max_multiplier }, ..ctx }
}

/// The outcome of `initialize_hotel`: an unverified hotel without
/// memberships, owned by the caller.
pub open spec fn initialize_hotel_outcome(ctx: InitializeHotel, name: String, now: i64) -> Result<
    InitializeHotel,
    ErrorCode,
> {
    if name_byte_len(name@) > MAX_NAME_LEN {
        Err(ErrorCode::NameTooLong)
    } else {
        Ok(InitializeHotel { hotel: fresh_hotel(ctx.hotel_key, name, ctx.authority, now), ..ctx })
    }
}

/// Why `mint_membership_token` is refused, if it is.
pub open spec fn mint_refusal(ctx: MintMembershipToken, multiplier: u8) -> Option<ErrorCode> {
    if ctx.hotel.owner != ctx.hotel_authority {
        Some(ErrorCode::InvalidOwner)
    } else if !ctx.hotel.verified {
        Some(ErrorCode::HotelNotVerified)
    } else if multiplier > ctx.config.max_multiplier {
        Some(ErrorCode::MultiplierTooHigh)
    } else if ctx.hotel.token_supply == u64::MAX {
        Some(ErrorCode::ArithmeticOverflow)
    } else {
        None
    }
}

/// The context after a mint that is not refused: the membership is fresh and
/// the hotel counts one membership more.
pub open spec fn minted(ctx: MintMembershipToken, multiplier: u8, now: i64) -> MintMembershipToken {
    MintMembershipToken {
        membership_token: fresh_membership(ctx.user, ctx.hotel.hotel_id, multiplier, now),
        hotel: Hotel { token_supply: (ctx.hotel.token_supply + 1) as u64, ..ctx.hotel },
        ..ctx
    }
}

/// The fee that a mint in this context asks for: from the user to the
/// hotel's owner.
pub open spec fn mint_fee(ctx: MintMembershipToken) -> FeeTransfer {
    FeeTransfer { from: ctx.user, to: ctx.hotel.owner, amount: MINT_FEE }
}

/// The outcome of `calculate_and_update_points`.
pub open spec fn calculate_and_update_points_outcome(ctx: CalculateAndUpdatePoints, now: i64)
    -> Result<CalculateAndUpdatePoints, ErrorCode> {
    if ctx.membership_token.user != ctx.user {
        Err(ErrorCode::InvalidOwner)
    } else {
        match ctx.membership_token.accrual_outcome(now) {
            Ok(membership) => Ok(CalculateAndUpdatePoints { membership_token: membership, ..ctx }),
            Err(e) => Err(e),
        }
    }
}

/// The outcome of `redeem_points`.
pub open spec fn redeem_points_outcome(ctx: RedeemPoints, points_to_redeem: u64) -> Result<
    RedeemPoints,
    ErrorCode,
> {
    if ctx.membership_token.user != ctx.user {
        Err(ErrorCode::InvalidOwner)
    } else {
        match ctx.membership_token.redemption_outcome(points_to_redeem) {
            Ok(membership) => Ok(RedeemPoints { membership_token: membership, ..ctx }),
            Err(e) => Err(e),
        }
    }
}

/// The outcome of `add_points`.
pub open spec fn add_points_outcome(ctx: AddPoints, points: u64, now: i64) -> Result<
    AddPoints,
    ErrorCode,
> {
    if ctx.membership_token.hotel != ctx.hotel.hotel_id || ctx.hotel.owner != ctx.authority {
        Err(ErrorCode::InvalidOwner)
    } else {
        match ctx.membership_token.grant_outcome(points, now) {
            Ok(membership) => Ok(AddPoints { membership_token: membership, ..ctx }),
            Err(e) => Err(e),
        }
    }
}

/// The outcome of `verify_hotel`. Verifying a verified hotel succeeds and
/// changes nothing.
pub open spec fn verify_hotel_outcome(ctx: VerifyHotel) -> Result<VerifyHotel, ErrorCode> {
    if ctx.config.admin != ctx.admin {
        Err(ErrorCode::InvalidAdmin)
    } else {
        Ok(VerifyHotel { hotel: Hotel { verified: true, ..ctx.hotel }, ..ctx })
    }
}

/// Creates the configuration: the caller becomes the administrator, and
/// `max_multiplier` the ceiling for the multipliers of new memberships.
pub fn initialize_config(ctx: &mut InitializeConfig, max_multiplier: u8) -> (result: Result<
    (),
    ErrorCode,
>)
    ensures
        result.is_ok(),
        *final(ctx) == initialize_config_outcome(*old(ctx), max_multiplier),
{
    ctx.config.admin = ctx.admin;
    ctx.config.max_multiplier = max_multiplier;
    Ok(())
}

/// Registers a hotel under `name` at `now`. The hotel starts unverified, and
/// a name of more than 50 bytes is refused.
pub fn initialize_hotel(ctx: &mut InitializeHotel, name: String, now: i64) -> (result: Result<
    (),
    ErrorCode,
>)
    ensures
        match initialize_hotel_outcome(*old(ctx), name, now) {
            Ok(next) => result.is_ok() && *final(ctx) == next,
            Err(e) => result == Err::<(), ErrorCode>(e) && *final(ctx) == *old(ctx),
        },
{
    if name_len(&name) > MAX_NAME_LEN {
        return Err(ErrorCode::NameTooLong);
    }
    ctx.hotel.hotel_id = ctx.hotel_key;
    ctx.hotel.name = name;
    ctx.hotel.verified = false;
    ctx.hotel.owner = ctx.authority;
    ctx.hotel.token_supply = 0;
    ctx.hotel.timestamp = now;
    Ok(())
}

/// Mints the caller's membership with a verified hotel at `now`, and
/// returns the fee that the caller owes to the hotel's owner.
pub fn mint_membership_token(ctx: &mut MintMembershipToken, multiplier: u8, now: i64) -> (result:
    Result<FeeTransfer, ErrorCode>)
    ensures
        match mint_refusal(*old(ctx), multiplier) {
            None => result == Ok::<FeeTransfer, ErrorCode>(mint_fee(*old(ctx))) && *final(ctx)
                == minted(*old(ctx), multiplier, now),
            Some(e) => result == Err::<FeeTransfer, ErrorCode>(e) && *final(ctx) == *old(ctx),
        },
{
    match require_hotel_owner(&ctx.hotel, &ctx.hotel_authority) {
        Ok(()) => {},
        Err(e) => { return Err(e); },
    }
    if !ctx.hotel.verified {
        return Err(ErrorCode::HotelNotVerified);
    }
    if multiplier > ctx.config.max_multiplier {
        return Err(ErrorCode::MultiplierTooHigh);
    }
    match ctx.hotel.increment_supply() {
        Ok(()) => {},
        Err(e) => { return Err(e); },
    }
    ctx.membership_token.hotel = ctx.hotel.hotel_id;
    ctx.membership_token.user = ctx.user;
    ctx.membership_token.token_count = TOKENS_PER_MEMBERSHIP;
    ctx.membership_token.points_balance = 0;
    ctx.membership_token.last_points_update = now;
    ctx.membership_token.multiplier = multiplier;
    ctx.membership_token.timestamp = now;
    ctx.membership_token.tier = 0;
    ctx.membership_token.last_add_points_timestamp = 0;
    ctx.membership_token.points_added_this_period = 0;
    Ok(FeeTransfer { from: ctx.user, to: ctx.hotel.owner, amount: MINT_FEE })
}

/// Accrues the member's points up to `now`.
pub fn calculate_and_update_points(ctx: &mut CalculateAndUpdatePoints, now: i64) -> (result:
    Result<(), ErrorCode>)
    ensures
        match calculate_and_update_points_outcome(*old(ctx), now) {
            Ok(next) => result.is_ok() && *final(ctx) == next,
            Err(e) => result == Err::<(), ErrorCode>(e) && *final(ctx) == *old(ctx),
        },
{
    match require_member(&ctx.membership_token, &ctx.user) {
        Ok(()) => {},
        Err(e) => { return Err(e); },
    }
    ctx.membership_token.accrue(now)
}

/// Spends `points_to_redeem` of the member's points.
pub fn redeem_points(ctx: &mut RedeemPoints, points_to_redeem: u64) -> (result: Result<
    (),
    ErrorCode,
>)
    ensures
        match redeem_points_outcome(*old(ctx), points_to_redeem) {
            Ok(next) => result.is_ok() && *final(ctx) == next,
            Err(e) => result == Err::<(), ErrorCode>(e) && *final(ctx) == *old(ctx),
        },
{
    match require_member(&ctx.membership_token, &ctx.user) {
        Ok(()) => {},
        Err(e) => { return Err(e); },
    }
    ctx.membership_token.redeem(points_to_redeem)
}

/// Grants `points` to a membership of the caller's hotel at `now`.
pub fn add_points(ctx: &mut AddPoints, points: u64, now: i64) -> (result: Result<(), ErrorCode>)
    ensures
        match add_points_outcome(*old(ctx), points, now) {
            Ok(next) => result.is_ok() && *final(ctx) == next,
            Err(e) => result == Err::<(), ErrorCode>(e) && *final(ctx) == *old(ctx),
        },
{
    match require_issuer(&ctx.membership_token, &ctx.hotel) {
        Ok(()) => {},
        Err(e) => { return Err(e); },
    }
    match require_hotel_owner(&ctx.hotel, &ctx.authority) {
        Ok(()) => {},
        Err(e) => { return Err(e); },
    }
    ctx.membership_token.add_points(points, now)
}

/// Marks the hotel as verified. Only the administrator may.
pub fn verify_hotel(ctx: &mut VerifyHotel) -> (result: Result<(), ErrorCode>)
    ensures
        match verify_hotel_outcome(*old(ctx)) {
            Ok(next) => result.is_ok() && *final(ctx) == next,
            Err(e) => result == Err::<(), ErrorCode>(e) && *final(ctx) == *old(ctx),
        },
{
    match require_admin(&ctx.config, &ctx.admin) {
        Ok(()) => {},
        Err(e) => { return Err(e); },
    }
    ctx.hotel.verified = true;
    Ok(())
}

} // verus!
