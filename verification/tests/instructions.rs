use hotel_loyalty::auth::{require_admin, require_hotel_owner, require_issuer, require_member};
use hotel_loyalty::error::ErrorCode;
use hotel_loyalty::instructions::{
    add_points, calculate_and_update_points, initialize_config, initialize_hotel,
    mint_membership_token, redeem_points, verify_hotel, AddPoints, CalculateAndUpdatePoints,
    FeeTransfer, InitializeConfig, InitializeHotel, MintMembershipToken, RedeemPoints,
    VerifyHotel,
};
use hotel_loyalty::principal::Principal;
use hotel_loyalty::state::{
    name_len, Config, Hotel, Membership, PointsLedger, MAX_NAME_LEN, MINT_FEE,
    TOKENS_PER_MEMBERSHIP,
};

const DAY: i64 = 86_400;
const ADMIN: u8 = 1;
const OWNER: u8 = 2;
const USER: u8 = 3;
const STRANGER: u8 = 4;
const HOTEL: u8 = 10;

fn who(tag: u8) -> Principal {
    Principal::new([tag; 32])
}

fn config() -> Config {
    Config { admin: who(ADMIN), max_multiplier: 5 }
}

fn hotel(verified: bool) -> Hotel {
    Hotel {
        hotel_id: who(HOTEL),
        name: String::from("Aurora"),
        verified,
        owner: who(OWNER),
        token_supply: 0,
        timestamp: 1000,
    }
}

fn blank_hotel() -> Hotel {
    Hotel {
        hotel_id: who(0),
        name: String::new(),
        verified: true,
        owner: who(0),
        token_supply: 9,
        timestamp: 0,
    }
}

fn blank_membership() -> Membership {
    Membership {
        user: who(0),
        hotel: who(0),
        token_count: 0,
        points_balance: 0,
        last_points_update: 0,
        multiplier: 0,
        timestamp: 0,
        tier: 0,
        last_add_points_timestamp: 0,
        points_added_this_period: 0,
    }
}

fn membership(balance: u64) -> Membership {
    Membership {
        user: who(USER),
        hotel: who(HOTEL),
        token_count: 1,
        points_balance: balance,
        last_points_update: 1000,
        multiplier: 2,
        timestamp: 1000,
        tier: 0,
        last_add_points_timestamp: 0,
        points_added_this_period: 0,
    }
}

fn mint_context(hotel: Hotel, recipient: u8) -> MintMembershipToken {
    MintMembershipToken {
        hotel,
        membership_token: blank_membership(),
        user: who(USER),
        hotel_authority: who(recipient),
        config: config(),
    }
}

#[test]
fn principals_are_the_same_when_their_bytes_are() {
    let a = Principal::new([7; 32]);
    let b = Principal::new([7; 32]);
    let mut bytes = [7u8; 32];
    bytes[31] = 8;
    let c = Principal::new(bytes);
    let mut bytes = [7u8; 32];
    bytes[0] = 6;
    let d = Principal::new(bytes);
    assert!(a.same_as(&b));
    assert!(a.same_as(&a));
    assert!(!a.same_as(&c));
    assert!(!c.same_as(&a));
    assert!(!a.same_as(&d));
    assert_eq!(a.bytes, [7; 32]);
}

#[test]
fn record_sizes_and_constants() {
    assert_eq!(Hotel::LEN, 143);
    assert_eq!(Membership::LEN, 122);
    assert_eq!(PointsLedger::LEN, 88);
    assert_eq!(MAX_NAME_LEN, 50);
    assert_eq!(MINT_FEE, 10_000_000);
    assert_eq!(TOKENS_PER_MEMBERSHIP, 1);
}

#[test]
fn names_are_measured_in_bytes() {
    assert_eq!(name_len(&String::new()), 0);
    assert_eq!(name_len(&String::from("Aurora")), 6);
    assert_eq!(name_len(&String::from("Hôtel")), 6);
    assert_eq!(name_len(&"界".repeat(3)), 9);
}

#[test]
fn a_hotel_copy_equals_the_hotel() {
    let h = hotel(true);
    assert_eq!(h.duplicate(), h);
}

#[test]
fn error_messages() {
    assert_eq!(ErrorCode::HotelNotVerified.message(), "Hotel is not verified.");
    assert_eq!(ErrorCode::InvalidOwner.message(), "Invalid hotel owner.");
    assert_eq!(ErrorCode::InsufficientPoints.message(), "Insufficient points to redeem.");
    assert_eq!(ErrorCode::InvalidAdmin.message(), "Invalid admin.");
    assert_eq!(ErrorCode::ArithmeticOverflow.message(), "Arithmetic error.");
    assert_eq!(ErrorCode::InvalidTimestamp.message(), "Invalid timestamp.");
    assert_eq!(ErrorCode::InvalidRedemptionAmount.message(), "Invalid redemption amount.");
    assert_eq!(ErrorCode::MultiplierTooHigh.message(), "Multiplier too high.");
    assert_eq!(ErrorCode::AddPointsLimitExceeded.message(), "Add points limit exceeded.");
    assert_eq!(ErrorCode::DuplicateKey.message(), "Duplicate key.");
    assert_eq!(ErrorCode::NameTooLong.message(), "Name too long.");
}

#[test]
fn guards_admit_the_right_principal_only() {
    assert_eq!(require_admin(&config(), &who(ADMIN)), Ok(()));
    assert_eq!(require_admin(&config(), &who(OWNER)), Err(ErrorCode::InvalidAdmin));
    assert_eq!(require_member(&membership(0), &who(USER)), Ok(()));
    assert_eq!(require_member(&membership(0), &who(OWNER)), Err(ErrorCode::InvalidOwner));
    assert_eq!(require_hotel_owner(&hotel(true), &who(OWNER)), Ok(()));
    assert_eq!(require_hotel_owner(&hotel(true), &who(USER)), Err(ErrorCode::InvalidOwner));
    assert_eq!(require_issuer(&membership(0), &hotel(true)), Ok(()));
    let mut other = hotel(true);
    other.hotel_id = who(HOTEL + 1);
    assert_eq!(require_issuer(&membership(0), &other), Err(ErrorCode::InvalidOwner));
}

#[test]
fn initialize_config_makes_the_caller_administrator() {
    let mut ctx = InitializeConfig {
        config: Config { admin: who(0), max_multiplier: 0 },
        admin: who(ADMIN),
    };
    assert_eq!(initialize_config(&mut ctx, 5), Ok(()));
    assert_eq!(ctx.config, Config { admin: who(ADMIN), max_multiplier: 5 });
    assert_eq!(ctx.admin, who(ADMIN));
}

#[test]
fn initialize_hotel_creates_an_unverified_hotel() {
    let mut ctx =
        InitializeHotel { hotel: blank_hotel(), hotel_key: who(HOTEL), authority: who(OWNER) };
    assert_eq!(initialize_hotel(&mut ctx, String::from("Aurora"), 1234), Ok(()));
    assert_eq!(
        ctx.hotel,
        Hotel {
            hotel_id: who(HOTEL),
            name: String::from("Aurora"),
            verified: false,
            owner: who(OWNER),
            token_supply: 0,
            timestamp: 1234,
        }
    );
    assert_eq!(ctx.hotel_key, who(HOTEL));
    assert_eq!(ctx.authority, who(OWNER));
}

#[test]
fn initialize_hotel_refuses_a_name_over_fifty_bytes() {
    let mut ctx =
        InitializeHotel { hotel: blank_hotel(), hotel_key: who(HOTEL), authority: who(OWNER) };
    let before = ctx.clone();
    assert_eq!(initialize_hotel(&mut ctx, "x".repeat(51), 1), Err(ErrorCode::NameTooLong));
    assert_eq!(ctx, before);
    // Twenty-six letters of two bytes each are fifty-two bytes.
    assert_eq!(initialize_hotel(&mut ctx, "é".repeat(26), 1), Err(ErrorCode::NameTooLong));
    assert_eq!(ctx, before);
    assert_eq!(initialize_hotel(&mut ctx, "é".repeat(25), 1), Ok(()));
    assert_eq!(ctx.hotel.name, "é".repeat(25));
    let mut ctx =
        InitializeHotel { hotel: blank_hotel(), hotel_key: who(HOTEL), authority: who(OWNER) };
    assert_eq!(initialize_hotel(&mut ctx, "x".repeat(50), 1), Ok(()));
    assert_eq!(ctx.hotel.name.len(), 50);
    let mut ctx =
        InitializeHotel { hotel: blank_hotel(), hotel_key: who(HOTEL), authority: who(OWNER) };
    assert_eq!(initialize_hotel(&mut ctx, String::new(), 1), Ok(()));
    assert_eq!(ctx.hotel.name, "");
}

#[test]
fn mint_against_an_unverified_hotel_is_refused() {
    let mut ctx = mint_context(hotel(false), OWNER);
    let before = ctx.clone();
    assert_eq!(mint_membership_token(&mut ctx, 2, 5000), Err(ErrorCode::HotelNotVerified));
    assert_eq!(ctx, before);
}

#[test]
fn mint_with_multiplier_two_under_cap_five_creates_an_empty_membership() {
    let mut ctx = mint_context(hotel(true), OWNER);
    let fee = mint_membership_token(&mut ctx, 2, 5000);
    assert_eq!(fee, Ok(FeeTransfer { from: who(USER), to: who(OWNER), amount: 10_000_000 }));
    assert_eq!(
        ctx.membership_token,
        Membership {
            user: who(USER),
            hotel: who(HOTEL),
            token_count: 1,
            points_balance: 0,
            last_points_update: 5000,
            multiplier: 2,
            timestamp: 5000,
            tier: 0,
            last_add_points_timestamp: 0,
            points_added_this_period: 0,
        }
    );
    assert_eq!(ctx.hotel, Hotel { token_supply: 1, ..hotel(true) });
    assert_eq!(ctx.config, config());
}

#[test]
fn mint_refuses_a_multiplier_over_the_ceiling() {
    let mut ctx = mint_context(hotel(true), OWNER);
    let before = ctx.clone();
    assert_eq!(mint_membership_token(&mut ctx, 6, 5000), Err(ErrorCode::MultiplierTooHigh));
    assert_eq!(ctx, before);
    assert!(mint_membership_token(&mut ctx, 5, 5000).is_ok());
    assert_eq!(ctx.membership_token.multiplier, 5);
}

#[test]
fn mint_refuses_when_the_supply_cannot_grow() {
    let mut full = hotel(true);
    full.token_supply = u64::MAX;
    let mut ctx = mint_context(full, OWNER);
    let before = ctx.clone();
    assert_eq!(mint_membership_token(&mut ctx, 2, 5000), Err(ErrorCode::ArithmeticOverflow));
    assert_eq!(ctx, before);
    let mut nearly = hotel(true);
    nearly.token_supply = u64::MAX - 1;
    let mut ctx = mint_context(nearly, OWNER);
    assert!(mint_membership_token(&mut ctx, 2, 5000).is_ok());
    assert_eq!(ctx.hotel.token_supply, u64::MAX);
}

#[test]
fn mint_refuses_another_fee_recipient_than_the_owner_before_anything_else() {
    let mut ctx = mint_context(hotel(true), STRANGER);
    let before = ctx.clone();
    assert_eq!(mint_membership_token(&mut ctx, 2, 5000), Err(ErrorCode::InvalidOwner));
    assert_eq!(ctx, before);
    // Also when the hotel is unverified and the multiplier too high.
    let mut ctx = mint_context(hotel(false), STRANGER);
    assert_eq!(mint_membership_token(&mut ctx, 200, 5000), Err(ErrorCode::InvalidOwner));
    // The order of the other refusals.
    let mut ctx = mint_context(hotel(false), OWNER);
    assert_eq!(mint_membership_token(&mut ctx, 200, 5000), Err(ErrorCode::HotelNotVerified));
    let mut full = hotel(true);
    full.token_supply = u64::MAX;
    let mut ctx = mint_context(full, OWNER);
    assert_eq!(mint_membership_token(&mut ctx, 200, 5000), Err(ErrorCode::MultiplierTooHigh));
}

#[test]
fn accrual_by_the_member_three_days_on() {
    let mut ctx = CalculateAndUpdatePoints { membership_token: membership(0), user: who(USER) };
    assert_eq!(calculate_and_update_points(&mut ctx, 1000 + 3 * DAY), Ok(()));
    assert_eq!(ctx.membership_token.points_balance, 6);
    assert_eq!(ctx.membership_token.tier, 0);
    assert_eq!(ctx.membership_token.last_points_update, 1000 + 3 * DAY);
    assert_eq!(ctx.user, who(USER));
}

#[test]
fn accrual_by_another_caller_is_refused() {
    let mut ctx = CalculateAndUpdatePoints { membership_token: membership(0), user: who(OWNER) };
    let before = ctx;
    assert_eq!(calculate_and_update_points(&mut ctx, 1000 + 3 * DAY), Err(ErrorCode::InvalidOwner));
    assert_eq!(ctx, before);
    // The caller is judged before the time.
    assert_eq!(calculate_and_update_points(&mut ctx, 0), Err(ErrorCode::InvalidOwner));
    let mut ctx = CalculateAndUpdatePoints { membership_token: membership(0), user: who(USER) };
    assert_eq!(calculate_and_update_points(&mut ctx, 0), Err(ErrorCode::InvalidTimestamp));
    let mut ctx =
        CalculateAndUpdatePoints { membership_token: membership(u64::MAX), user: who(USER) };
    assert_eq!(
        calculate_and_update_points(&mut ctx, 1000 + DAY),
        Err(ErrorCode::ArithmeticOverflow)
    );
    assert_eq!(ctx.membership_token, membership(u64::MAX));
}

#[test]
fn redemption_by_the_member() {
    let mut ctx = RedeemPoints { membership_token: membership(1200), user: who(USER) };
    assert_eq!(redeem_points(&mut ctx, 1300), Err(ErrorCode::InsufficientPoints));
    assert_eq!(ctx.membership_token, membership(1200));
    assert_eq!(redeem_points(&mut ctx, 0), Err(ErrorCode::InvalidRedemptionAmount));
    assert_eq!(redeem_points(&mut ctx, 1200), Ok(()));
    assert_eq!(ctx.membership_token, membership(0));
}

#[test]
fn redemption_by_another_caller_is_refused() {
    let mut ctx = RedeemPoints { membership_token: membership(1200), user: who(OWNER) };
    let before = ctx;
    assert_eq!(redeem_points(&mut ctx, 100), Err(ErrorCode::InvalidOwner));
    assert_eq!(redeem_points(&mut ctx, 0), Err(ErrorCode::InvalidOwner));
    assert_eq!(redeem_points(&mut ctx, 5000), Err(ErrorCode::InvalidOwner));
    assert_eq!(ctx, before);
}

#[test]
fn grants_by_the_owner_are_capped_per_window() {
    let mut ctx =
        AddPoints { membership_token: membership(0), hotel: hotel(true), authority: who(OWNER) };
    let start = 1_700_000_000;
    assert_eq!(add_points(&mut ctx, 600, start), Ok(()));
    assert_eq!(add_points(&mut ctx, 500, start + 60), Err(ErrorCode::AddPointsLimitExceeded));
    assert_eq!(ctx.membership_token.points_balance, 600);
    assert_eq!(add_points(&mut ctx, 500, start + DAY + 1), Ok(()));
    assert_eq!(ctx.membership_token.points_balance, 1100);
    assert_eq!(ctx.membership_token.points_added_this_period, 500);
    assert_eq!(ctx.hotel, hotel(true));
}

#[test]
fn grants_by_anyone_but_the_owner_are_refused() {
    let mut ctx =
        AddPoints { membership_token: membership(0), hotel: hotel(true), authority: who(USER) };
    let before = ctx.clone();
    assert_eq!(add_points(&mut ctx, 10, 5 * DAY), Err(ErrorCode::InvalidOwner));
    assert_eq!(add_points(&mut ctx, 5000, 5 * DAY), Err(ErrorCode::InvalidOwner));
    assert_eq!(ctx, before);
}

#[test]
fn grants_by_the_owner_of_another_hotel_are_refused() {
    let mut other = hotel(true);
    other.hotel_id = who(HOTEL + 1);
    other.owner = who(STRANGER);
    let mut ctx =
        AddPoints { membership_token: membership(0), hotel: other, authority: who(STRANGER) };
    let before = ctx.clone();
    assert_eq!(add_points(&mut ctx, 10, 5 * DAY), Err(ErrorCode::InvalidOwner));
    assert_eq!(ctx, before);
}

#[test]
fn verification_by_the_administrator() {
    let mut ctx = VerifyHotel { hotel: hotel(false), config: config(), admin: who(ADMIN) };
    assert_eq!(verify_hotel(&mut ctx), Ok(()));
    assert_eq!(ctx.hotel, hotel(true));
    // Verifying again succeeds and changes nothing.
    assert_eq!(verify_hotel(&mut ctx), Ok(()));
    assert_eq!(ctx.hotel, hotel(true));
    assert_eq!(ctx.config, config());
}

#[test]
fn verification_by_anyone_else_is_refused() {
    let mut ctx = VerifyHotel { hotel: hotel(false), config: config(), admin: who(OWNER) };
    let before = ctx.clone();
    assert_eq!(verify_hotel(&mut ctx), Err(ErrorCode::InvalidAdmin));
    assert_eq!(ctx, before);
}

#[test]
fn the_supply_of_a_hotel_grows_by_one_until_it_is_full() {
    let mut h = hotel(true);
    assert_eq!(h.increment_supply(), Ok(()));
    assert_eq!(h, Hotel { token_supply: 1, ..hotel(true) });
    h.token_supply = u64::MAX - 1;
    assert_eq!(h.increment_supply(), Ok(()));
    assert_eq!(h.token_supply, u64::MAX);
    assert_eq!(h.increment_supply(), Err(ErrorCode::ArithmeticOverflow));
    assert_eq!(h.token_supply, u64::MAX);
}
