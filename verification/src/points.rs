//! The points engine: accrual over time, tiers, redemption and capped grants.
//!
//! Each operation is described by a spec function that gives its outcome from
//! the record and the inputs; the executable method computes that outcome and,
//! when it is an error, leaves the record untouched.

use vstd::prelude::*;
use crate::error::ErrorCode;
use crate::state::Membership;

verus! {

/// The length of a day, and of a grant window, in seconds.
pub const SECONDS_PER_DAY: i64 = 86_400;

/// The most points that can be granted to one membership in one window.
pub const ADD_POINTS_CAP: u64 = 1000;

/// The least balance of the silver tier.
pub const SILVER_THRESHOLD: u64 = 1000;

/// The least balance of the gold tier.
pub const GOLD_THRESHOLD: u64 = 5000;

/// The least balance of the platinum tier.
pub const PLATINUM_THRESHOLD: u64 = 15000;

/// The tier of a balance: 0 (basic) below 1000, 1 (silver) from 1000,
/// 2 (gold) from 5000, 3 (platinum) from 15000.
pub open spec fn tier_for(balance: u64) -> u8 {
    if balance >= 15000 {
        3
    } else if balance >= 5000 {
        2
    } else if balance >= 1000 {
        1
    } else {
        0
    }
}

/// The whole days from `last` to `now`, for `now` not before `last`.
pub open spec fn whole_days(last: i64, now: i64) -> int {
    (now - last) / 86_400
}

/// Computes the tier of a balance.
pub fn tier_of(balance: u64) -> (tier: u8)
    ensures
        tier == tier_for(balance),
{
    if balance >= PLATINUM_THRESHOLD {
        3
    } else if balance >= GOLD_THRESHOLD {
        2
    } else if balance >= SILVER_THRESHOLD {
        1
    } else {
        0
    }
}

impl Membership {
    /// The points that accrue from the last accrual to `now`: the
    /// multiplier for each whole day.
    pub open spec fn points_earned(&self, now: i64) -> int {
        whole_days(self.last_points_update, now) * self.multiplier
    }

    /// What accrual at `now` yields: the balance grows by the points earned,
    /// the tier follows the new balance, and the watermark moves to `now`.
    pub open spec fn accrual_outcome(&self, now: i64) -> Result<Membership, ErrorCode> {
        if now <= self.last_points_update {
            Err(ErrorCode::InvalidTimestamp)
        } else if self.points_balance + self.points_earned(now) > u64::MAX {
            Err(ErrorCode::ArithmeticOverflow)
        } else {
            let balance = (self.points_balance + self.points_earned(now)) as u64;
            Ok(
                Membership {
                    points_balance: balance,
                    last_points_update: now,
                    tier: tier_for(balance),
                    ..*self
                },
            )
        }
    }

    /// What redeeming `amount` points yields: the balance falls by `amount`.
    pub open spec fn redemption_outcome(&self, amount: u64) -> Result<Membership, ErrorCode> {
        if amount == 0 {
            Err(ErrorCode::InvalidRedemptionAmount)
        } else if self.points_balance < amount {
            Err(ErrorCode::InsufficientPoints)
        } else {
            Ok(Membership { points_balance: (self.points_balance - amount) as u64, ..*self })
        }
    }

    /// Whether the grant window that the record is in has ended by `now`.
    pub open spec fn window_expired(&self, now: i64) -> bool {
        now - self.last_add_points_timestamp > 86_400
    }

    /// The points already granted in the window that `now` falls in.
    pub open spec fn granted_in_window(&self, now: i64) -> u64 {
        if self.window_expired(now) {
            0
        } else {
            self.points_added_this_period
        }
    }

    /// When the window that `now` falls in began.
    pub open spec fn window_start(&self, now: i64) -> i64 {
        if self.window_expired(now) {
            now
        } else {
            self.last_add_points_timestamp
        }
    }

    /// What granting `amount` points at `now` yields: a window that has ended
    /// is replaced by one that begins at `now`, and the balance and the
    /// window's total both grow by `amount`, unless the total would pass
    /// the cap.
    pub open spec fn grant_outcome(&self, amount: u64, now: i64) -> Result<Membership, ErrorCode> {
        let granted = self.granted_in_window(now);
        if granted + amount > u64::MAX {
            Err(ErrorCode::ArithmeticOverflow)
        } else if granted + amount > 1000 {
            Err(ErrorCode::AddPointsLimitExceeded)
        } else if self.points_balance + amount > u64::MAX {
            Err(ErrorCode::ArithmeticOverflow)
        } else {
            Ok(
                Membership {
                    points_balance: (self.points_balance + amount) as u64,
                    points_added_this_period: (granted + amount) as u64,
                    last_add_points_timestamp: self.window_start(now),
                    ..*self
                },
            )
        }
    }

    /// Credits the points earned since the last accrual and recomputes the
    /// tier. `now` must be later than the last accrual. Days that have only
    /// begun earn nothing and are not carried over.
    pub fn accrue(&mut self, now: i64) -> (result: Result<(), ErrorCode>)
        ensures
            match old(self).accrual_outcome(now) {
                Ok(next) => result.is_ok() && *final(self) == next,
                Err(e) => result == Err::<(), ErrorCode>(e) && *final(self) == *old(self),
            },
    {
        if now <= self.last_points_update {
            return Err(ErrorCode::InvalidTimestamp);
        }
        let elapsed: i128 = now as i128 - self.last_points_update as i128;
        let days: u64 = (elapsed / (SECONDS_PER_DAY as i128)) as u64;
        let rate: u64 = self.multiplier as u64;
        assert(days == whole_days(self.last_points_update, now));
        assert(days * rate <= u64::MAX) by (nonlinear_arith)
            requires
                days <= 0x1_0000_0000_0000,
                rate <= 255,
        ;
        let earned: u64 = match days.checked_mul(rate) {
            Some(product) => product,
            None => { return Err(ErrorCode::ArithmeticOverflow); },
        };
        let balance: u64 = match self.points_balance.checked_add(earned) {
            Some(sum) => sum,
            None => { return Err(ErrorCode::ArithmeticOverflow); },
        };
        self.points_balance = balance;
        self.last_points_update = now;
        self.tier = tier_of(balance);
        Ok(())
    }

    /// Spends `amount` points.
    pub fn redeem(&mut self, amount: u64) -> (result: Result<(), ErrorCode>)
        ensures
            match old(self).redemption_outcome(amount) {
                Ok(next) => result.is_ok() && *final(self) == next,
                Err(e) => result == Err::<(), ErrorCode>(e) && *final(self) == *old(self),
            },
    {
        if amount == 0 {
            return Err(ErrorCode::InvalidRedemptionAmount);
        }
        if self.points_balance < amount {
            return Err(ErrorCode::InsufficientPoints);
        }
        match self.points_balance.checked_sub(amount) {
            Some(balance) => {
                self.points_balance = balance;
                Ok(())
            },
            None => Err(ErrorCode::ArithmeticOverflow),
        }
    }

    /// Grants `amount` bonus points at `now`, within the cap of the window.
    pub fn add_points(&mut self, amount: u64, now: i64) -> (result: Result<(), ErrorCode>)
        ensures
            match old(self).grant_outcome(amount, now) {
                Ok(next) => result.is_ok() && *final(self) == next,
                Err(e) => result == Err::<(), ErrorCode>(e) && *final(self) == *old(self),
            },
    {
        let expired: bool = now as i128 - self.last_add_points_timestamp as i128 > SECONDS_PER_DAY as i128;
        let granted: u64 = if expired { 0 } else { self.points_added_this_period };
        let start: i64 = if expired { now } else { self.last_add_points_timestamp };
        let in_window: u64 = match granted.checked_add(amount) {
            Some(sum) => sum,
            None => { return Err(ErrorCode::ArithmeticOverflow); },
        };
        if in_window > ADD_POINTS_CAP {
            return Err(ErrorCode::AddPointsLimitExceeded);
        }
        let balance: u64 = match self.points_balance.checked_add(amount) {
            Some(sum) => sum,
            None => { return Err(ErrorCode::ArithmeticOverflow); },
        };
        self.points_balance = balance;
        self.points_added_this_period = in_window;
        self.last_add_points_timestamp = start;
        Ok(())
    }
}

} // verus!
