//! A hotel-loyalty membership ledger.
//!
//! Hotels issue membership records to users. A record accrues points for
//! every whole day that passes, at the record's own multiplier; its holder can
//! spend the points; and the hotel's owner can grant bonus points, up to a cap
//! per 24-hour window. Every operation either commits all of its updates or
//! leaves the records as they were, and every arithmetic step is checked.

pub mod error;
pub mod principal;
pub mod state;
pub mod points;
pub mod auth;
pub mod instructions;
pub mod records;
pub mod registry;
pub mod theorems;
