//! A crowdfunding ledger with stake-weighted governance.
//!
//! Contributors fund campaigns, and funded contributors vote on time-bounded
//! proposals tied to a campaign.  Casting a vote computes a reward sized by
//! the voter's fractional share of the campaign's total funds, using exact
//! integer ratio arithmetic with floor rounding.
//!
//! The central invariant, kept by every operation, is that a campaign's
//! `current_funds` equals the exact sum of all committed donation amounts
//! referencing it: the total is a derived aggregate that can never drift.
//! Overflow is always rejected, never wrapped, and votes may only be cast
//! while the proposal's voting window is open.
//!
//! The library owns the state machine only.  The surrounding host performs
//! the actual asset transfer for a computed reward and supplies the current
//! time; both cross the boundary as plain values.

pub mod campaign;
pub mod donation;
pub mod entities;
pub mod errors;
pub mod laws;
pub mod store;
pub mod voting;
