//! An in-memory store of the ledger's records, and the operations on it.
//!
//! The store keeps one hotel per name and per key, and one membership per
//! pair of hotel and user. An operation finds the records it needs, passes
//! them to the operation of `instructions`, and writes the result back when the
//! operation was not refused. Hotels and memberships are named by their
//! position, which `hotel_index` and `membership_index` find.
//!
//! The view of a store is its `Records`; the contracts say what an operation
//! returns and what the records are after it.

use vstd::prelude::*;
use crate::auth::require_hotel_owner;
use crate::error::ErrorCode;
use crate::instructions::{
    add_points, calculate_and_update_points, initialize_hotel, mint_membership_token,
    redeem_points, verify_hotel, AddPoints, CalculateAndUpdatePoints, FeeTransfer,
    InitializeHotel, MintMembershipToken, RedeemPoints, VerifyHotel,
};
use crate::principal::Principal;
use crate::records::{
    has_hotel, has_hotel_named, has_membership, succeeds, theorem_issuer_unique,
    theorem_minted_wf, theorem_outcomes_succeed, theorem_registered_wf, theorem_verified_wf,
    theorem_with_membership_wf, MintAttempt, Records,
};
use crate::state::{Config, Hotel, Membership, MINT_FEE};

verus! {

/// The configuration, the hotels and the memberships.
#[derive(Debug)]
pub struct Registry {
    config: Config,
    hotels: Vec<Hotel>,
    memberships: Vec<Membership>,
}

impl View for Registry {
    type V = Records;

    closed spec fn view(&self) -> Records {
        Records { config: self.config, hotels: self.hotels@, memberships: self.memberships@ }
    }
}

/// What an operation returns that yields nothing but may be refused.
pub open spec fn reply(outcome: Result<Membership, ErrorCode>) -> Result<(), ErrorCode> {
    match outcome {
        Ok(_) => Ok(()),
        Err(e) => Err(e),
    }
}

/// What an operation returns that is refused for `refusal`, if at all, and
/// yields `value` otherwise.
pub open spec fn unless<T>(refusal: Option<ErrorCode>, value: T) -> Result<T, ErrorCode> {
    match refusal {
        Some(e) => Err(e),
        None => Ok(value),
    }
}

impl Registry {
    /// Whether the records of the store are well formed. `new` makes them so
    /// and every operation keeps them so.
    pub open spec fn wf(&self) -> bool {
        self@.wf()
    }

    /// An empty store whose administrator is `admin`.
    pub fn new(admin: Principal, max_multiplier: u8) -> (registry: Registry)
        ensures
            registry.wf(),
            registry@ == Records::empty(admin, max_multiplier),
    {
        Registry { config: Config { admin, max_multiplier }, hotels: Vec::new(), memberships: Vec::new() }
    }

    /// The configuration.
    pub fn configuration(&self) -> (config: Config)
        ensures
            config == self@.config,
    {
        self.config
    }

    /// The number of hotels.
    pub fn hotel_count(&self) -> (count: usize)
        ensures
            count == self@.hotels.len(),
    {
        self.hotels.len()
    }

    /// The number of memberships.
    pub fn membership_count(&self) -> (count: usize)
        ensures
            count == self@.memberships.len(),
    {
        self.memberships.len()
    }

    /// The hotel at `position`.
    pub fn hotel_at(&self, position: usize) -> (hotel: &Hotel)
        requires
            position < self@.hotels.len(),
        ensures
            *hotel == self@.hotels[position as int],
    {
        &self.hotels[position]
    }

    /// The membership at `position`.
    pub fn membership_at(&self, position: usize) -> (membership: Membership)
        requires
            position < self@.memberships.len(),
        ensures
            membership == self@.memberships[position as int],
    {
        self.memberships[position]
    }

    /// The position of the first hotel with the key `key`, if the store has
    /// one. A well-formed store has at most one.
    pub fn hotel_index(&self, key: &Principal) -> (found: Option<usize>)
        ensures
            match found {
                Some(i) => {
                    &&& i < self@.hotels.len()
                    &&& self@.hotels[i as int].hotel_id == *key
                    &&& forall|j: int| 0 <= j < i ==> self@.hotels[j].hotel_id != *key
                },
                None => !has_hotel(self@.hotels, *key),
            },
    {
        let mut i: usize = 0;
        while i < self.hotels.len()
            invariant
                i <= self.hotels@.len(),
                forall|j: int| 0 <= j < i ==> self.hotels@[j].hotel_id != *key,
            decreases self.hotels@.len() - i,
        {
            if self.hotels[i].hotel_id.same_as(key) {
                return Some(i);
            }
            i += 1;
        }
        None
    }

    /// The position of the first hotel with the name `name`, if the store
    /// has one. A well-formed store has at most one.
    pub fn hotel_index_by_name(&self, name: &String) -> (found: Option<usize>)
        ensures
            match found {
                Some(i) => {
                    &&& i < self@.hotels.len()
                    &&& self@.hotels[i as int].name@ == name@
                    &&& forall|j: int| 0 <= j < i ==> self@.hotels[j].name@ != name@
                },
                None => !has_hotel_named(self@.hotels, name@),
            },
    {
        let mut i: usize = 0;
        while i < self.hotels.len()
            invariant
                i <= self.hotels@.len(),
                forall|j: int| 0 <= j < i ==> self.hotels@[j].name@ != name@,
            decreases self.hotels@.len() - i,
        {
            if self.hotels[i].name == *name {
                return Some(i);
            }
            i += 1;
        }
        None
    }

    /// The position of the first membership of `user` with `hotel`, if the
    /// store has one. A well-formed store has at most one.
    pub fn membership_index(&self, hotel: &Principal, user: &Principal) -> (found: Option<usize>)
        ensures
            match found {
                Some(i) => {
                    &&& i < self@.memberships.len()
                    &&& self@.memberships[i as int].hotel == *hotel
                    &&& self@.memberships[i as int].user == *user
                    &&& forall|j: int|
                        0 <= j < i ==> !(self@.memberships[j].hotel == *hotel
                            && self@.memberships[j].user == *user)
                },
                None => !has_membership(self@.memberships, *hotel, *user),
            },
    {
        let mut i: usize = 0;
        while i < self.memberships.len()
            invariant
                i <= self.memberships@.len(),
                forall|j: int|
                    0 <= j < i ==> !(self.memberships@[j].hotel == *hotel
                        && self.memberships@[j].user == *user),
            decreases self.memberships@.len() - i,
        {
            if self.memberships[i].hotel.same_as(hotel) && self.memberships[i].user.same_as(user) {
                return Some(i);
            }
            i += 1;
        }
        None
    }

    /// Registers a hotel under `name`, stored under `key` and owned by
    /// `authority`, and returns its position. The hotel starts unverified
    /// and without memberships. A name or a key that the store already holds is
    /// refused, and so is a name of more than 50 bytes.
    pub fn register(&mut self, name: String, key: Principal, authority: Principal, now: i64) -> (result:
        Result<usize, ErrorCode>)
        requires
            old(self).wf(),
        ensures
            final(self).wf(),
            result == unless(
                old(self)@.register_refusal(name@, key),
                old(self)@.hotels.len() as usize,
            ),
            final(self)@ == old(self)@.after_register(name, key, authority, now),
    {
        if self.hotel_index(&key).is_some() || self.hotel_index_by_name(&name).is_some() {
            return Err(ErrorCode::DuplicateKey);
        }
        let blank = Hotel {
            hotel_id: key,
            name: String::new(),
            verified: false,
            owner: authority,
            token_supply: 0,
            timestamp: now,
        };
        let mut ctx = InitializeHotel { hotel: blank, hotel_key: key, authority };
        match initialize_hotel(&mut ctx, name, now) {
            Ok(()) => {},
            Err(e) => { return Err(e); },
        }
        let position: usize = self.hotels.len();
        proof {
            theorem_registered_wf(self@, name, key, authority, now);
        }
        self.hotels.push(ctx.hotel);
        Ok(position)
    }

    /// Marks the hotel at `hotel` as verified. Only the administrator may.
    /// Verifying a verified hotel succeeds and changes nothing.
    pub fn verify(&mut self, hotel: usize, admin: &Principal) -> (result: Result<(), ErrorCode>)
        requires
            old(self).wf(),
            hotel < old(self)@.hotels.len(),
        ensures
            final(self).wf(),
            result == unless(old(self)@.verify_refusal(*admin), ()),
            final(self)@ == old(self)@.after_verify(hotel as int, *admin),
    {
        let mut ctx = VerifyHotel {
            hotel: self.hotels[hotel].duplicate(),
            config: self.config,
            admin: *admin,
        };
        match verify_hotel(&mut ctx) {
            Ok(()) => {},
            Err(e) => { return Err(e); },
        }
        proof {
            theorem_verified_wf(self@, hotel as int);
        }
        self.hotels.set(hotel, ctx.hotel);
        Ok(())
    }

    /// Decides a mint without carrying it out: the fee that the mint would
    /// ask for, or why it would be refused. A caller whose payment can fail
    /// asks first, pays, and then mints.
    pub fn check_mint(
        &self,
        hotel: usize,
        user: Principal,
        fee_recipient: Principal,
        multiplier: u8,
    ) -> (result: Result<FeeTransfer, ErrorCode>)
        requires
            self.wf(),
            hotel < self@.hotels.len(),
        ensures
            result == unless(
                self@.mint_refusal(hotel as int, user, fee_recipient, multiplier),
                (FeeTransfer { from: user, to: self@.hotels[hotel as int].owner, amount: MINT_FEE }),
            ),
    {
        let h: &Hotel = &self.hotels[hotel];
        match require_hotel_owner(h, &fee_recipient) {
            Ok(()) => {},
            Err(e) => { return Err(e); },
        }
        if self.membership_index(&h.hotel_id, &user).is_some() {
            return Err(ErrorCode::DuplicateKey);
        }
        if !h.verified {
            return Err(ErrorCode::HotelNotVerified);
        }
        if multiplier > self.config.max_multiplier {
            return Err(ErrorCode::MultiplierTooHigh);
        }
        if h.token_supply == u64::MAX {
            return Err(ErrorCode::ArithmeticOverflow);
        }
        Ok(FeeTransfer { from: user, to: h.owner, amount: MINT_FEE })
    }

    /// Mints the membership of `user` with the hotel at `hotel` at `now`,
    /// and returns the fee that the user owes to the hotel's owner. The new
    /// membership is the last of the store, and the hotel counts one more.
    pub fn mint(
        &mut self,
        hotel: usize,
        user: Principal,
        fee_recipient: Principal,
        multiplier: u8,
        now: i64,
    ) -> (result: Result<FeeTransfer, ErrorCode>)
        requires
            old(self).wf(),
            hotel < old(self)@.hotels.len(),
        ensures
            final(self).wf(),
            result == unless(
                old(self)@.mint_refusal(hotel as int, user, fee_recipient, multiplier),
                (FeeTransfer {
                    from: user,
                    to: old(self)@.hotels[hotel as int].owner,
                    amount: MINT_FEE,
                }),
            ),
            final(self)@ == old(self)@.after_mint(
                (MintAttempt {
                    hotel: hotel as int,
                    user,
                    fee_recipient,
                    multiplier,
                    now,
                }),
            ),
    {
        match require_hotel_owner(&self.hotels[hotel], &fee_recipient) {
            Ok(()) => {},
            Err(e) => { return Err(e); },
        }
        let key: Principal = self.hotels[hotel].hotel_id;
        if self.membership_index(&key, &user).is_some() {
            return Err(ErrorCode::DuplicateKey);
        }
        let blank = Membership {
            user,
            hotel: key,
            token_count: 0,
            points_balance: 0,
            last_points_update: 0,
            multiplier: 0,
            timestamp: 0,
            tier: 0,
            last_add_points_timestamp: 0,
            points_added_this_period: 0,
        };
        let mut ctx = MintMembershipToken {
            hotel: self.hotels[hotel].duplicate(),
            membership_token: blank,
            user,
            hotel_authority: fee_recipient,
            config: self.config,
        };
        let fee: FeeTransfer = match mint_membership_token(&mut ctx, multiplier, now) {
            Ok(fee) => fee,
            Err(e) => { return Err(e); },
        };
        proof {
            theorem_minted_wf(self@, hotel as int, user, fee_recipient, multiplier, now);
        }
        self.hotels.set(hotel, ctx.hotel);
        self.memberships.push(ctx.membership_token);
        Ok(fee)
    }

    /// Accrues the points of the membership at `membership` up to `now`.
    /// Only the member may ask.
    pub fn accrue(&mut self, membership: usize, caller: &Principal, now: i64) -> (result: Result<
        (),
        ErrorCode,
    >)
        requires
            old(self).wf(),
            membership < old(self)@.memberships.len(),
        ensures
            final(self).wf(),
            result == reply(old(self)@.accrue_outcome(membership as int, *caller, now)),
            final(self)@ == old(self)@.settled(
                membership as int,
                old(self)@.accrue_outcome(membership as int, *caller, now),
            ),
    {
        let mut ctx = CalculateAndUpdatePoints {
            membership_token: self.memberships[membership],
            user: *caller,
        };
        match calculate_and_update_points(&mut ctx, now) {
            Ok(()) => {},
            Err(e) => { return Err(e); },
        }
        proof {
            theorem_outcomes_succeed(self.memberships@[membership as int], 0, now);
        }
        self.replace_membership(membership, ctx.membership_token);
        Ok(())
    }

    /// Spends `amount` points of the membership at `membership`. Only the
    /// member may ask.
    pub fn redeem(&mut self, membership: usize, caller: &Principal, amount: u64) -> (result: Result<
        (),
        ErrorCode,
    >)
        requires
            old(self).wf(),
            membership < old(self)@.memberships.len(),
        ensures
            final(self).wf(),
            result == reply(old(self)@.redeem_outcome(membership as int, *caller, amount)),
            final(self)@ == old(self)@.settled(
                membership as int,
                old(self)@.redeem_outcome(membership as int, *caller, amount),
            ),
    {
        let mut ctx = RedeemPoints { membership_token: self.memberships[membership], user: *caller };
        match redeem_points(&mut ctx, amount) {
            Ok(()) => {},
            Err(e) => { return Err(e); },
        }
        proof {
            theorem_outcomes_succeed(self.memberships@[membership as int], amount, 0);
        }
        self.replace_membership(membership, ctx.membership_token);
        Ok(())
    }

    /// Grants `amount` points to the membership at `membership` at `now`.
    /// Only the owner of the hotel that issued the membership may ask.
    pub fn add_points(&mut self, membership: usize, caller: &Principal, amount: u64, now: i64) -> (result:
        Result<(), ErrorCode>)
        requires
            old(self).wf(),
            membership < old(self)@.memberships.len(),
        ensures
            final(self).wf(),
            result == reply(old(self)@.add_points_outcome(membership as int, *caller, amount, now)),
            final(self)@ == old(self)@.settled(
                membership as int,
                old(self)@.add_points_outcome(membership as int, *caller, amount, now),
            ),
    {
        let member: Membership = self.memberships[membership];
        let position: usize = match self.hotel_index(&member.hotel) {
            Some(position) => position,
            None => {
                // A well-formed store holds the hotel of each of its memberships.
                proof {
                    assert(has_hotel(self.hotels@, self.memberships@[membership as int].hotel));
                    assert(false);
                }
                return Err(ErrorCode::InvalidOwner);
            },
        };
        proof {
            theorem_issuer_unique(self@, membership as int, position as int);
        }
        let mut ctx = AddPoints {
            membership_token: member,
            hotel: self.hotels[position].duplicate(),
            authority: *caller,
        };
        match add_points(&mut ctx, amount, now) {
            Ok(()) => {},
            Err(e) => { return Err(e); },
        }
        proof {
            theorem_outcomes_succeed(member, amount, now);
        }
        self.replace_membership(membership, ctx.membership_token);
        Ok(())
    }

    /// Writes back a membership that an operation has changed.
    fn replace_membership(&mut self, position: usize, next: Membership)
        requires
            old(self).wf(),
            position < old(self)@.memberships.len(),
            succeeds(old(self)@.memberships[position as int], next),
        ensures
            final(self).wf(),
            final(self)@ == old(self)@.with_membership(position as int, next),
    {
        proof {
            theorem_with_membership_wf(self@, position as int, next);
        }
        self.memberships.set(position, next);
    }
}

} // verus!
