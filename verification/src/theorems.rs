//! What holds of the ledger whatever the inputs are, proved from the
//! outcomes that the operations are specified to produce.

use vstd::prelude::*;
use crate::error::ErrorCode;
use crate::instructions::{
    add_points_outcome, calculate_and_update_points_outcome, mint_refusal,
    redeem_points_outcome, verify_hotel_outcome, AddPoints, CalculateAndUpdatePoints,
    MintMembershipToken, RedeemPoints, VerifyHotel,
};
use crate::points::{tier_for, whole_days};
use crate::principal::Principal;
use crate::records::{
    has_membership, issued, theorem_minted_wf, theorem_outcomes_succeed, MintAttempt, Records,
};
use crate::state::Membership;

verus! {

/// The membership after accrual at `now`: the new record when accrual
/// succeeds, the old one when it is refused.
pub open spec fn after_accrual(m: Membership, now: i64) -> Membership {
    match m.accrual_outcome(now) {
        Ok(next) => next,
        Err(_) => m,
    }
}

/// The membership after accruals at each of `times` in turn.
pub open spec fn after_accruals(m: Membership, times: Seq<i64>) -> Membership
    decreases times.len(),
{
    if times.len() == 0 {
        m
    } else {
        after_accrual(after_accruals(m, times.drop_last()), times.last())
    }
}

/// The membership after a grant of `amount` at `now`: the new record when
/// the grant succeeds, the old one when it is refused.
pub open spec fn after_grant(m: Membership, amount: u64, now: i64) -> Membership {
    match m.grant_outcome(amount, now) {
        Ok(next) => next,
        Err(_) => m,
    }
}

/// The membership after each of `grants`, an amount and a time, in turn.
pub open spec fn after_grants(m: Membership, grants: Seq<(u64, i64)>) -> Membership
    decreases grants.len(),
{
    if grants.len() == 0 {
        m
    } else {
        after_grant(after_grants(m, grants.drop_last()), grants.last().0, grants.last().1)
    }
}

/// The sum of the amounts of those of `grants` that succeed.
pub open spec fn accepted_total(m: Membership, grants: Seq<(u64, i64)>) -> nat
    decreases grants.len(),
{
    if grants.len() == 0 {
        0
    } else {
        let before = after_grants(m, grants.drop_last());
        let rest = accepted_total(m, grants.drop_last());
        if before.grant_outcome(grants.last().0, grants.last().1).is_ok() {
            rest + grants.last().0 as nat
        } else {
            rest
        }
    }
}

/// Whether all of `grants` fall in the window that the membership is in: none
/// of them finds the window ended.
pub open spec fn in_one_window(m: Membership, grants: Seq<(u64, i64)>) -> bool
    decreases grants.len(),
{
    grants.len() == 0 || (in_one_window(m, grants.drop_last()) && !after_grants(
        m,
        grants.drop_last(),
    ).window_expired(grants.last().1))
}

/// The days that have passed at an accrual that is not refused are not
/// negative, so the points earned are not either.
pub proof fn theorem_points_earned_not_negative(m: Membership, now: i64)
    requires
        now > m.last_points_update,
    ensures
        whole_days(m.last_points_update, now) >= 0,
        m.points_earned(now) >= 0,
{
    let days = whole_days(m.last_points_update, now);
    assert(days >= 0);
    assert(days * m.multiplier >= 0) by (nonlinear_arith)
        requires
            days >= 0,
            m.multiplier >= 0,
    ;
}

/// One accrual, refused or not, lowers neither the balance nor the time
/// of the last accrual; when it is not refused, that time is `now`.
pub proof fn theorem_accrual_step_monotonic(m: Membership, now: i64)
    ensures
        after_accrual(m, now).points_balance >= m.points_balance,
        after_accrual(m, now).last_points_update >= m.last_points_update,
        m.accrual_outcome(now).is_ok() ==> after_accrual(m, now).last_points_update == now,
{
    if now > m.last_points_update {
        theorem_points_earned_not_negative(m, now);
    }
}

/// Accrual is monotonic: over any sequence of accruals, whatever their
/// times, the balance never falls and the time of the last accrual never
/// moves back.
pub proof fn theorem_accrual_monotonic(m: Membership, times: Seq<i64>)
    ensures
        after_accruals(m, times).points_balance >= m.points_balance,
        after_accruals(m, times).last_points_update >= m.last_points_update,
    decreases times.len(),
{
    if times.len() > 0 {
        theorem_accrual_monotonic(m, times.drop_last());
        theorem_accrual_step_monotonic(after_accruals(m, times.drop_last()), times.last());
    }
}

/// The tier depends on the balance alone, by the thresholds 1000, 5000 and
/// 15000, and rises with the balance.
pub proof fn theorem_tier_thresholds(balance: u64, other: u64)
    ensures
        tier_for(balance) == 0 <==> balance < 1000,
        tier_for(balance) == 1 <==> 1000 <= balance < 5000,
        tier_for(balance) == 2 <==> 5000 <= balance < 15000,
        tier_for(balance) == 3 <==> balance >= 15000,
        balance <= other ==> tier_for(balance) <= tier_for(other),
{
}

/// After an accrual that is not refused, the tier is that of the new
/// balance, whatever the record held before.
pub proof fn theorem_accrual_sets_tier(m: Membership, now: i64)
    requires
        m.accrual_outcome(now).is_ok(),
    ensures
        m.accrual_outcome(now).unwrap().tier == tier_for(
            m.accrual_outcome(now).unwrap().points_balance,
        ),
{
}

/// Redemption conserves points. A redemption of `amount` takes exactly
/// `amount` from the balance; an accrual then adds exactly the points
/// earned; and redeeming all that is left then empties the balance: it is
/// exactly zero, and the redemption is refused only when nothing is left.
pub proof fn theorem_redemption_conserves_points(m: Membership, amount: u64, now: i64)
    requires
        m.redemption_outcome(amount).is_ok(),
        m.redemption_outcome(amount).unwrap().accrual_outcome(now).is_ok(),
    ensures
        ({
            let redeemed = m.redemption_outcome(amount).unwrap();
            let accrued = redeemed.accrual_outcome(now).unwrap();
            let drained = accrued.redemption_outcome(accrued.points_balance);
            &&& redeemed.points_balance + amount == m.points_balance
            &&& accrued.points_balance == m.points_balance - amount + redeemed.points_earned(now)
            &&& accrued.points_balance > 0 ==> drained.is_ok() && drained.unwrap().points_balance
                == 0
            &&& accrued.points_balance == 0 ==> drained == Err::<Membership, ErrorCode>(
                ErrorCode::InvalidRedemptionAmount,
            )
        }),
{
}

/// The cap on grants holds over any sequence of grants in one window: the
/// window's total grows by exactly the amounts that were accepted, and
/// these never sum to more than 1000.
pub proof fn theorem_grants_capped(m: Membership, grants: Seq<(u64, i64)>)
    requires
        in_one_window(m, grants),
    ensures
        after_grants(m, grants).points_added_this_period == m.points_added_this_period
            + accepted_total(m, grants),
        after_grants(m, grants).last_add_points_timestamp == m.last_add_points_timestamp,
        accepted_total(m, grants) > 0 ==> after_grants(m, grants).points_added_this_period <= 1000,
        accepted_total(m, grants) <= 1000,
    decreases grants.len(),
{
    if grants.len() > 0 {
        theorem_grants_capped(m, grants.drop_last());
    }
}

/// The cap holds of a whole window: the amount of a grant that was
/// accepted and the amounts accepted after it in the same window never sum
/// to more than 1000.
pub proof fn theorem_window_capped(m: Membership, amount: u64, now: i64, rest: Seq<(u64, i64)>)
    requires
        m.grant_outcome(amount, now).is_ok(),
        in_one_window(m.grant_outcome(amount, now).unwrap(), rest),
    ensures
        amount + accepted_total(m.grant_outcome(amount, now).unwrap(), rest) <= 1000,
{
    theorem_grants_capped(m.grant_outcome(amount, now).unwrap(), rest);
}

/// A grant that opens a new window counts from zero: whatever was granted
/// before, the window's total after it is its amount, at most 1000.
pub proof fn theorem_new_window_starts_empty(m: Membership, amount: u64, now: i64)
    requires
        m.window_expired(now),
        m.grant_outcome(amount, now).is_ok(),
    ensures
        m.grant_outcome(amount, now).unwrap().points_added_this_period == amount,
        m.grant_outcome(amount, now).unwrap().last_add_points_timestamp == now,
        amount <= 1000,
{
}

/// A pair of hotel and user gets one membership: once the store holds it, a
/// mint for the same pair by a user who names the hotel's owner as the
/// receiver of the fee is refused as a duplicate, whatever the multiplier.
pub proof fn theorem_second_mint_refused(
    records: Records,
    hotel: int,
    user: Principal,
    multiplier: u8,
)
    requires
        0 <= hotel < records.hotels.len(),
        has_membership(records.memberships, records.hotels[hotel].hotel_id, user),
    ensures
        records.mint_refusal(hotel, user, records.hotels[hotel].owner, multiplier) == Some(
            ErrorCode::DuplicateKey,
        ),
{
}

/// Mint is exactly once: after a mint that was not refused, the next mint
/// for the same hotel and user is refused as a duplicate.
pub proof fn theorem_mint_once(
    records: Records,
    hotel: int,
    user: Principal,
    multiplier: u8,
    now: i64,
    next_multiplier: u8,
)
    requires
        records.wf(),
        0 <= hotel < records.hotels.len(),
        records.mint_refusal(hotel, user, records.hotels[hotel].owner, multiplier).is_none(),
    ensures
        records.minted(hotel, user, multiplier, now).mint_refusal(
            hotel,
            user,
            records.hotels[hotel].owner,
            next_multiplier,
        ) == Some(ErrorCode::DuplicateKey),
        records.minted(hotel, user, multiplier, now).hotels[hotel].token_supply
            == records.hotels[hotel].token_supply + 1,
{
    theorem_minted_wf(records, hotel, user, records.hotels[hotel].owner, multiplier, now);
}

/// A membership stays: whatever operation follows, refused or not, the
/// store still holds the membership of that user with that hotel, so that
/// a later mint for the pair is still a duplicate.
pub proof fn theorem_membership_stays(
    records: Records,
    key: Principal,
    user: Principal,
    name: String,
    other_key: Principal,
    caller: Principal,
    hotel: int,
    membership: int,
    attempt: MintAttempt,
    amount: u64,
    now: i64,
)
    requires
        records.wf(),
        has_membership(records.memberships, key, user),
        0 <= hotel < records.hotels.len(),
        0 <= attempt.hotel < records.hotels.len(),
        0 <= membership < records.memberships.len(),
    ensures
        has_membership(records.after_register(name, other_key, caller, now).memberships, key, user),
        has_membership(records.after_verify(hotel, caller).memberships, key, user),
        has_membership(records.after_mint(attempt).memberships, key, user),
        has_membership(
            records.settled(
                membership,
                records.accrue_outcome(membership, caller, now),
            ).memberships,
            key,
            user,
        ),
        has_membership(
            records.settled(
                membership,
                records.redeem_outcome(membership, caller, amount),
            ).memberships,
            key,
            user,
        ),
        has_membership(
            records.settled(
                membership,
                records.add_points_outcome(membership, caller, amount, now),
            ).memberships,
            key,
            user,
        ),
{
    let i = choose|i: int|
        0 <= i < records.memberships.len() && records.memberships[i].hotel == key
            && records.memberships[i].user == user;
    let m = records.memberships[membership];
    theorem_outcomes_succeed(m, amount, now);
    let minted = records.after_mint(attempt).memberships;
    assert(minted[i] == records.memberships[i]);
    let accrued = records.settled(
        membership,
        records.accrue_outcome(membership, caller, now),
    ).memberships;
    assert(accrued[i].hotel == key && accrued[i].user == user);
    let redeemed = records.settled(
        membership,
        records.redeem_outcome(membership, caller, amount),
    ).memberships;
    assert(redeemed[i].hotel == key && redeemed[i].user == user);
    let granted = records.settled(
        membership,
        records.add_points_outcome(membership, caller, amount, now),
    ).memberships;
    assert(granted[i].hotel == key && granted[i].user == user);
}

/// In well-formed records each hotel's supply is the number of memberships
/// that it has issued.
pub proof fn theorem_supply_counts_memberships(records: Records, hotel: int)
    requires
        records.wf(),
        0 <= hotel < records.hotels.len(),
    ensures
        records.hotels[hotel].token_supply == issued(
            records.memberships,
            records.hotels[hotel].hotel_id,
        ),
{
}

/// The supply counts the mints that were not refused: over any sequence
/// of attempts to mint, the supply of a hotel grows by exactly the number
/// of attempts with that hotel that were accepted, and the records stay
/// well formed.
pub proof fn theorem_supply_counts_mints(records: Records, attempts: Seq<MintAttempt>, hotel: int)
    requires
        records.wf(),
        0 <= hotel < records.hotels.len(),
        forall|k: int|
            0 <= k < attempts.len() ==> 0 <= (#[trigger] attempts[k]).hotel < records.hotels.len(),
    ensures
        records.after_mints(attempts).wf(),
        records.after_mints(attempts).hotels.len() == records.hotels.len(),
        records.after_mints(attempts).hotels[hotel].hotel_id == records.hotels[hotel].hotel_id,
        records.after_mints(attempts).hotels[hotel].token_supply
            == records.hotels[hotel].token_supply + records.accepted_mints(attempts, hotel),
    decreases attempts.len(),
{
    if attempts.len() > 0 {
        let earlier = attempts.drop_last();
        let last = attempts.last();
        theorem_supply_counts_mints(records, earlier, hotel);
        let before = records.after_mints(earlier);
        if before.mint_refusal(last.hotel, last.user, last.fee_recipient, last.multiplier).is_none() {
            theorem_minted_wf(
                before,
                last.hotel,
                last.user,
                last.fee_recipient,
                last.multiplier,
                last.now,
            );
        }
    }
}

/// A caller without the right is refused for that reason whatever the other
/// inputs are: accrual and redemption by anyone but the member, a grant by
/// anyone but the owner of the membership's hotel, a mint that names
/// another receiver of the fee than the hotel's owner, and the verification
/// of a hotel by anyone but the administrator.
pub proof fn theorem_wrong_caller_refused(
    accrual: CalculateAndUpdatePoints,
    redemption: RedeemPoints,
    grant: AddPoints,
    mint: MintMembershipToken,
    verification: VerifyHotel,
    amount: u64,
    multiplier: u8,
    now: i64,
)
    ensures
        accrual.membership_token.user != accrual.user ==> calculate_and_update_points_outcome(
            accrual,
            now,
        ) == Err::<CalculateAndUpdatePoints, ErrorCode>(ErrorCode::InvalidOwner),
        redemption.membership_token.user != redemption.user ==> redeem_points_outcome(
            redemption,
            amount,
        ) == Err::<RedeemPoints, ErrorCode>(ErrorCode::InvalidOwner),
        grant.hotel.owner != grant.authority ==> add_points_outcome(grant, amount, now) == Err::<
            AddPoints,
            ErrorCode,
        >(ErrorCode::InvalidOwner),
        grant.membership_token.hotel != grant.hotel.hotel_id ==> add_points_outcome(
            grant,
            amount,
            now,
        ) == Err::<AddPoints, ErrorCode>(ErrorCode::InvalidOwner),
        mint.hotel.owner != mint.hotel_authority ==> mint_refusal(mint, multiplier) == Some(
            ErrorCode::InvalidOwner,
        ),
        verification.config.admin != verification.admin ==> verify_hotel_outcome(verification)
            == Err::<VerifyHotel, ErrorCode>(ErrorCode::InvalidAdmin),
{
}

/// The same holds of the operations of the store: a caller without the
/// right is refused for that reason whatever the other inputs are.
pub proof fn theorem_store_refuses_wrong_caller(
    records: Records,
    hotel: int,
    membership: int,
    user: Principal,
    caller: Principal,
    amount: u64,
    multiplier: u8,
    now: i64,
)
    ensures
        caller != records.memberships[membership].user ==> records.accrue_outcome(
            membership,
            caller,
            now,
        ) == Err::<Membership, ErrorCode>(ErrorCode::InvalidOwner),
        caller != records.memberships[membership].user ==> records.redeem_outcome(
            membership,
            caller,
            amount,
        ) == Err::<Membership, ErrorCode>(ErrorCode::InvalidOwner),
        caller != records.issuer(membership).owner ==> records.add_points_outcome(
            membership,
            caller,
            amount,
            now,
        ) == Err::<Membership, ErrorCode>(ErrorCode::InvalidOwner),
        caller != records.hotels[hotel].owner ==> records.mint_refusal(
            hotel,
            user,
            caller,
            multiplier,
        ) == Some(ErrorCode::InvalidOwner),
        caller != records.config.admin ==> records.verify_refusal(caller) == Some(
            ErrorCode::InvalidAdmin,
        ),
{
}

} // verus!
