//! The records of a store as one mathematical value, and what each
//! operation makes of it.
//!
//! `Records` is the view of the store in `registry`. Its spec functions say
//! when an operation is refused and what the records are after it; the proof
//! functions show that every operation keeps the records well formed.

use vstd::prelude::*;
use crate::error::ErrorCode;
use crate::instructions::{fresh_hotel, fresh_membership};
use crate::principal::Principal;
use crate::state::{name_byte_len, Config, Hotel, Membership, MAX_NAME_LEN};

verus! {

/// The configuration, the hotels in the order in which they were registered,
/// and the memberships in the order in which they were minted.
pub struct Records {
    pub config: Config,
    pub hotels: Seq<Hotel>,
    pub memberships: Seq<Membership>,
}

/// The number of memberships among `memberships` that `hotel` issued.
pub open spec fn issued(memberships: Seq<Membership>, hotel: Principal) -> nat
    decreases memberships.len(),
{
    if memberships.len() == 0 {
        0
    } else {
        let rest = issued(memberships.drop_last(), hotel);
        if memberships.last().hotel == hotel {
            rest + 1
        } else {
            rest
        }
    }
}

/// Whether `hotels` holds a hotel with the key `key`.
pub open spec fn has_hotel(hotels: Seq<Hotel>, key: Principal) -> bool {
    exists|i: int| 0 <= i < hotels.len() && hotels[i].hotel_id == key
}

/// Whether `hotels` holds a hotel with the name `name`.
pub open spec fn has_hotel_named(hotels: Seq<Hotel>, name: Seq<char>) -> bool {
    exists|i: int| 0 <= i < hotels.len() && hotels[i].name@ == name
}

/// Whether `memberships` holds the membership of `user` with `hotel`.
pub open spec fn has_membership(memberships: Seq<Membership>, hotel: Principal, user: Principal)
    -> bool {
    exists|i: int|
        0 <= i < memberships.len() && memberships[i].hotel == hotel && memberships[i].user == user
}

/// Whether an operation may replace the membership `before` by `after`: the
/// user, the hotel, the count and the multiplier are for ever, and the
/// window's total stays within the cap.
pub open spec fn succeeds(before: Membership, after: Membership) -> bool {
    &&& after.user == before.user
    &&& after.hotel == before.hotel
    &&& after.token_count == before.token_count
    &&& after.multiplier == before.multiplier
    &&& after.timestamp == before.timestamp
    &&& after.points_added_this_period <= 1000
}

impl Records {
    /// The records of a store without hotels.
    pub open spec fn empty(admin: Principal, max_multiplier: u8) -> Records {
        Records {
            config: Config { admin, max_multiplier },
            hotels: Seq::empty(),
            memberships: Seq::empty(),
        }
    }

    /// No two hotels share a key or a name, and no name is over the cap.
    pub open spec fn hotels_wf(self) -> bool {
        &&& forall|i: int, j: int|
            0 <= i < j < self.hotels.len() ==> self.hotels[i].hotel_id != self.hotels[j].hotel_id
                && self.hotels[i].name@ != self.hotels[j].name@
        &&& forall|i: int|
            0 <= i < self.hotels.len() ==> name_byte_len(#[trigger] self.hotels[i].name@)
                <= MAX_NAME_LEN
    }

    /// No two memberships share both hotel and user; each belongs to a hotel
    /// of the store, counts for one, has a multiplier within the ceiling, and
    /// has been granted no more than the cap in its window.
    pub open spec fn memberships_wf(self) -> bool {
        &&& forall|i: int, j: int|
            0 <= i < j < self.memberships.len() ==> !(self.memberships[i].hotel
                == self.memberships[j].hotel && self.memberships[i].user
                == self.memberships[j].user)
        &&& forall|i: int|
            0 <= i < self.memberships.len() ==> {
                let m = #[trigger] self.memberships[i];
                &&& has_hotel(self.hotels, m.hotel)
                &&& m.token_count == 1
                &&& m.multiplier <= self.config.max_multiplier
                &&& m.points_added_this_period <= 1000
            }
    }

    /// Each hotel's supply is the number of memberships that it issued.
    pub open spec fn supplies_wf(self) -> bool {
        forall|i: int|
            0 <= i < self.hotels.len() ==> (#[trigger] self.hotels[i]).token_supply == issued(
                self.memberships,
                self.hotels[i].hotel_id,
            )
    }

    /// The invariant of the records: it holds of the empty store, and every
    /// operation keeps it.
    pub open spec fn wf(self) -> bool {
        &&& self.hotels_wf()
        &&& self.memberships_wf()
        &&& self.supplies_wf()
    }

    /// Why a registration under `name` and `key` is refused, if it is: the
    /// name or the key is taken, or the name is over the cap.
    pub open spec fn register_refusal(self, name: Seq<char>, key: Principal) -> Option<ErrorCode> {
        if has_hotel(self.hotels, key) || has_hotel_named(self.hotels, name) {
            Some(ErrorCode::DuplicateKey)
        } else if name_byte_len(name) > MAX_NAME_LEN {
            Some(ErrorCode::NameTooLong)
        } else {
            None
        }
    }

    /// The records with one more hotel, the last: unverified, without
    /// memberships, owned by `owner`.
    pub open spec fn registered(self, name: String, key: Principal, owner: Principal, now: i64)
        -> Records {
        Records { hotels: self.hotels.push(fresh_hotel(key, name, owner, now)), ..self }
    }

    /// The records after a registration, refused or not.
    pub open spec fn after_register(
        self,
        name: String,
        key: Principal,
        owner: Principal,
        now: i64,
    ) -> Records {
        if self.register_refusal(name@, key).is_none() {
            self.registered(name, key, owner, now)
        } else {
            self
        }
    }

    /// Why a verification by `admin` is refused, if it is: only the
    /// administrator verifies.
    pub open spec fn verify_refusal(self, admin: Principal) -> Option<ErrorCode> {
        if self.config.admin != admin {
            Some(ErrorCode::InvalidAdmin)
        } else {
            None
        }
    }

    /// The records with the hotel at `hotel` verified.
    pub open spec fn verified(self, hotel: int) -> Records {
        Records {
            hotels: self.hotels.update(hotel, (Hotel { verified: true, ..self.hotels[hotel] })),
            ..self
        }
    }

    /// The records after a verification, refused or not.
    pub open spec fn after_verify(self, hotel: int, admin: Principal) -> Records {
        if self.verify_refusal(admin).is_none() {
            self.verified(hotel)
        } else {
            self
        }
    }

    /// Why minting a membership of `user` with the hotel at `hotel` is
    /// refused, if it is. `fee_recipient` is the account that the user names to
    /// receive the fee: it has to be the hotel's owner.
    pub open spec fn mint_refusal(
        self,
        hotel: int,
        user: Principal,
        fee_recipient: Principal,
        multiplier: u8,
    ) -> Option<ErrorCode> {
        let h = self.hotels[hotel];
        if h.owner != fee_recipient {
            Some(ErrorCode::InvalidOwner)
        } else if has_membership(self.memberships, h.hotel_id, user) {
            Some(ErrorCode::DuplicateKey)
        } else if !h.verified {
            Some(ErrorCode::HotelNotVerified)
        } else if multiplier > self.config.max_multiplier {
            Some(ErrorCode::MultiplierTooHigh)
        } else if h.token_supply == u64::MAX {
            Some(ErrorCode::ArithmeticOverflow)
        } else {
            None
        }
    }

    /// The records with one more membership, the last, fresh at `now`, and
    /// with one more in the supply of the hotel at `hotel`.
    pub open spec fn minted(self, hotel: int, user: Principal, multiplier: u8, now: i64) -> Records {
        let h = self.hotels[hotel];
        Records {
            hotels: self.hotels.update(
                hotel,
                (Hotel { token_supply: (h.token_supply + 1) as u64, ..h }),
            ),
            memberships: self.memberships.push(fresh_membership(user, h.hotel_id, multiplier, now)),
            ..self
        }
    }

    /// The records after a mint, refused or not.
    pub open spec fn after_mint(self, attempt: MintAttempt) -> Records {
        if self.mint_refusal(
            attempt.hotel,
            attempt.user,
            attempt.fee_recipient,
            attempt.multiplier,
        ).is_none() {
            self.minted(attempt.hotel, attempt.user, attempt.multiplier, attempt.now)
        } else {
            self
        }
    }

    /// The hotel that issued the membership at `membership`.
    pub open spec fn issuer(self, membership: int) -> Hotel {
        let i = choose|i: int|
            0 <= i < self.hotels.len() && self.hotels[i].hotel_id
                == self.memberships[membership].hotel;
        self.hotels[i]
    }

    /// What accrual at `now` on the membership at `membership`, asked for
    /// by `caller`, yields. Only the member may ask.
    pub open spec fn accrue_outcome(self, membership: int, caller: Principal, now: i64) -> Result<
        Membership,
        ErrorCode,
    > {
        let m = self.memberships[membership];
        if m.user != caller {
            Err(ErrorCode::InvalidOwner)
        } else {
            m.accrual_outcome(now)
        }
    }

    /// What redeeming `amount` points of the membership at `membership`,
    /// asked for by `caller`, yields. Only the member may ask.
    pub open spec fn redeem_outcome(self, membership: int, caller: Principal, amount: u64)
        -> Result<Membership, ErrorCode> {
        let m = self.memberships[membership];
        if m.user != caller {
            Err(ErrorCode::InvalidOwner)
        } else {
            m.redemption_outcome(amount)
        }
    }

    /// What granting `amount` points to the membership at `membership` at
    /// `now`, asked for by `caller`, yields. Only the owner of the
    /// membership's hotel may ask.
    pub open spec fn add_points_outcome(
        self,
        membership: int,
        caller: Principal,
        amount: u64,
        now: i64,
    ) -> Result<Membership, ErrorCode> {
        let m = self.memberships[membership];
        if self.issuer(membership).owner != caller {
            Err(ErrorCode::InvalidOwner)
        } else {
            m.grant_outcome(amount, now)
        }
    }

    /// The records with `next` in place of the membership at `membership`.
    pub open spec fn with_membership(self, membership: int, next: Membership) -> Records {
        Records { memberships: self.memberships.update(membership, next), ..self }
    }

    /// The records after an operation on the membership at `membership`
    /// with the given outcome: the new membership takes the place of the old
    /// one, or, when the operation is refused, nothing changes.
    pub open spec fn settled(self, membership: int, outcome: Result<Membership, ErrorCode>)
        -> Records {
        match outcome {
            Ok(next) => self.with_membership(membership, next),
            Err(_) => self,
        }
    }

    /// The records after each of `attempts` to mint, in turn.
    pub open spec fn after_mints(self, attempts: Seq<MintAttempt>) -> Records
        decreases attempts.len(),
    {
        if attempts.len() == 0 {
            self
        } else {
            self.after_mints(attempts.drop_last()).after_mint(attempts.last())
        }
    }

    /// The number of those of `attempts` that mint with the hotel at `hotel`
    /// and are not refused.
    pub open spec fn accepted_mints(self, attempts: Seq<MintAttempt>, hotel: int) -> nat
        decreases attempts.len(),
    {
        if attempts.len() == 0 {
            0
        } else {
            let before = self.after_mints(attempts.drop_last());
            let rest = self.accepted_mints(attempts.drop_last(), hotel);
            let last = attempts.last();
            if last.hotel == hotel && before.mint_refusal(
                last.hotel,
                last.user,
                last.fee_recipient,
                last.multiplier,
            ).is_none() {
                rest + 1
            } else {
                rest
            }
        }
    }
}

/// A request to mint a membership.
pub struct MintAttempt {
    /// The position of the hotel.
    pub hotel: int,
    pub user: Principal,
    /// The account that the user names to receive the fee.
    pub fee_recipient: Principal,
    pub multiplier: u8,
    pub now: i64,
}

/// A new membership adds one to the count of its hotel and nothing to the
/// others.
pub proof fn lemma_issued_push(memberships: Seq<Membership>, added: Membership, hotel: Principal)
    ensures
        issued(memberships.push(added), hotel) == issued(memberships, hotel) + if added.hotel
            == hotel {
            1nat
        } else {
            0nat
        },
{
    assert(memberships.push(added).drop_last() =~= memberships);
}

/// Replacing a membership by one of the same hotel changes no count.
pub proof fn lemma_issued_update(
    memberships: Seq<Membership>,
    position: int,
    next: Membership,
    hotel: Principal,
)
    requires
        0 <= position < memberships.len(),
        next.hotel == memberships[position].hotel,
    ensures
        issued(memberships.update(position, next), hotel) == issued(memberships, hotel),
    decreases memberships.len(),
{
    let updated = memberships.update(position, next);
    if position == memberships.len() - 1 {
        assert(updated.drop_last() =~= memberships.drop_last());
    } else {
        assert(updated.drop_last() =~= memberships.drop_last().update(position, next));
        lemma_issued_update(memberships.drop_last(), position, next, hotel);
    }
}

/// A hotel that issued none of the memberships has a count of zero.
pub proof fn lemma_issued_none(memberships: Seq<Membership>, hotel: Principal)
    requires
        forall|i: int| 0 <= i < memberships.len() ==> memberships[i].hotel != hotel,
    ensures
        issued(memberships, hotel) == 0,
    decreases memberships.len(),
{
    if memberships.len() > 0 {
        lemma_issued_none(memberships.drop_last(), hotel);
    }
}

/// Replacing a hotel by one with the same key keeps every membership's hotel
/// in the store.
proof fn lemma_hotels_kept(
    hotels: Seq<Hotel>,
    position: int,
    hotel: Hotel,
    memberships: Seq<Membership>,
)
    requires
        0 <= position < hotels.len(),
        hotel.hotel_id == hotels[position].hotel_id,
        forall|i: int|
            0 <= i < memberships.len() ==> has_hotel(hotels, #[trigger] memberships[i].hotel),
    ensures
        forall|i: int|
            0 <= i < memberships.len() ==> has_hotel(
                hotels.update(position, hotel),
                #[trigger] memberships[i].hotel,
            ),
{
    assert forall|i: int| 0 <= i < memberships.len() implies has_hotel(
        hotels.update(position, hotel),
        #[trigger] memberships[i].hotel,
    ) by {
        let j = choose|j: int| 0 <= j < hotels.len() && hotels[j].hotel_id == memberships[i].hotel;
        assert(hotels.update(position, hotel)[j].hotel_id == memberships[i].hotel);
    }
}

/// The empty store is well formed.
pub proof fn theorem_empty_wf(admin: Principal, max_multiplier: u8)
    ensures
        Records::empty(admin, max_multiplier).wf(),
{
}

/// A registration that is not refused keeps the records well formed.
pub proof fn theorem_registered_wf(
    records: Records,
    name: String,
    key: Principal,
    owner: Principal,
    now: i64,
)
    requires
        records.wf(),
        records.register_refusal(name@, key).is_none(),
    ensures
        records.registered(name, key, owner, now).wf(),
{
    let added = fresh_hotel(key, name, owner, now);
    let hotels = records.hotels.push(added);
    lemma_issued_none(records.memberships, key);
    assert forall|i: int| 0 <= i < records.memberships.len() implies has_hotel(
        hotels,
        #[trigger] records.memberships[i].hotel,
    ) by {
        let j = choose|j: int|
            0 <= j < records.hotels.len() && records.hotels[j].hotel_id
                == records.memberships[i].hotel;
        assert(hotels[j].hotel_id == records.memberships[i].hotel);
    }
}

/// A verification keeps the records well formed.
pub proof fn theorem_verified_wf(records: Records, hotel: int)
    requires
        records.wf(),
        0 <= hotel < records.hotels.len(),
    ensures
        records.verified(hotel).wf(),
{
    let next = Hotel { verified: true, ..records.hotels[hotel] };
    lemma_hotels_kept(records.hotels, hotel, next, records.memberships);
}

/// A mint that is not refused keeps the records well formed, and the store
/// then holds the membership of that user with that hotel.
pub proof fn theorem_minted_wf(
    records: Records,
    hotel: int,
    user: Principal,
    fee_recipient: Principal,
    multiplier: u8,
    now: i64,
)
    requires
        records.wf(),
        0 <= hotel < records.hotels.len(),
        records.mint_refusal(hotel, user, fee_recipient, multiplier).is_none(),
    ensures
        records.minted(hotel, user, multiplier, now).wf(),
        has_membership(
            records.minted(hotel, user, multiplier, now).memberships,
            records.hotels[hotel].hotel_id,
            user,
        ),
{
    let h = records.hotels[hotel];
    let next = Hotel { token_supply: (h.token_supply + 1) as u64, ..h };
    let added = fresh_membership(user, h.hotel_id, multiplier, now);
    let after = records.minted(hotel, user, multiplier, now);
    lemma_hotels_kept(records.hotels, hotel, next, records.memberships);
    assert(after.hotels[hotel].hotel_id == added.hotel);
    assert(after.memberships[records.memberships.len() as int] == added);
    assert forall|i: int| 0 <= i < after.hotels.len() implies (
    #[trigger] after.hotels[i]).token_supply == issued(
        after.memberships,
        after.hotels[i].hotel_id,
    ) by {
        lemma_issued_push(records.memberships, added, after.hotels[i].hotel_id);
    }
}

/// Replacing a membership by one that may succeed it keeps the records
/// well formed.
pub proof fn theorem_with_membership_wf(records: Records, membership: int, next: Membership)
    requires
        records.wf(),
        0 <= membership < records.memberships.len(),
        succeeds(records.memberships[membership], next),
    ensures
        records.with_membership(membership, next).wf(),
{
    let after = records.with_membership(membership, next);
    assert forall|i: int| 0 <= i < after.hotels.len() implies (
    #[trigger] after.hotels[i]).token_supply == issued(
        after.memberships,
        after.hotels[i].hotel_id,
    ) by {
        lemma_issued_update(records.memberships, membership, next, after.hotels[i].hotel_id);
    }
}

/// Accrual, redemption and grants yield a membership that may succeed the
/// one they were given, provided that one was within the cap.
pub proof fn theorem_outcomes_succeed(m: Membership, amount: u64, now: i64)
    requires
        m.points_added_this_period <= 1000,
    ensures
        m.accrual_outcome(now).is_ok() ==> succeeds(m, m.accrual_outcome(now).unwrap()),
        m.redemption_outcome(amount).is_ok() ==> succeeds(m, m.redemption_outcome(amount).unwrap()),
        m.grant_outcome(amount, now).is_ok() ==> succeeds(m, m.grant_outcome(amount, now).unwrap()),
{
}

/// In well-formed records the hotel of a membership is the one hotel with
/// the membership's key.
pub proof fn theorem_issuer_unique(records: Records, membership: int, hotel: int)
    requires
        records.wf(),
        0 <= membership < records.memberships.len(),
        0 <= hotel < records.hotels.len(),
        records.hotels[hotel].hotel_id == records.memberships[membership].hotel,
    ensures
        records.issuer(membership) == records.hotels[hotel],
{
}

/// Every operation on a membership of well-formed records, refused or not,
/// leaves the records well formed.
pub proof fn theorem_settled_wf(
    records: Records,
    membership: int,
    caller: Principal,
    amount: u64,
    now: i64,
)
    requires
        records.wf(),
        0 <= membership < records.memberships.len(),
    ensures
        records.settled(membership, records.accrue_outcome(membership, caller, now)).wf(),
        records.settled(membership, records.redeem_outcome(membership, caller, amount)).wf(),
        records.settled(membership, records.add_points_outcome(membership, caller, amount, now)).wf(),
{
    let m = records.memberships[membership];
    theorem_outcomes_succeed(m, amount, now);
    if records.accrue_outcome(membership, caller, now).is_ok() {
        theorem_with_membership_wf(records, membership, m.accrual_outcome(now).unwrap());
    }
    if records.redeem_outcome(membership, caller, amount).is_ok() {
        theorem_with_membership_wf(records, membership, m.redemption_outcome(amount).unwrap());
    }
    if records.add_points_outcome(membership, caller, amount, now).is_ok() {
        theorem_with_membership_wf(records, membership, m.grant_outcome(amount, now).unwrap());
    }
}

} // verus!
