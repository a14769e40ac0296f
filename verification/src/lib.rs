//! A single-slot ascending-price bidding core.
//!
//! One `Spot` record is won by successively higher bids. Each accepted bid
//! moves the bid amount from the bidder to the spot's escrow holder and
//! replaces the bidder identity and project metadata in one step. The
//! validation rule (strict monotonic increase), the transfer-then-commit
//! sequence, and the all-or-nothing update of the spot are stated as
//! contracts and proved.

pub mod auth;
pub mod bid;
pub mod laws;
pub mod ledger;
pub mod spot;
