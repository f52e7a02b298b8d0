//! A crowdfunding escrow state machine.
//!
//! Creators open a campaign with a funding goal and a deadline; donors
//! contribute while the campaign is active and the deadline has not passed;
//! the campaign resolves either by the creator collecting the funds (goal met
//! or deadline passed) or by refund (deadline passed, goal unmet).
//!
//! The host ledger that holds balances, verifies caller identities, supplies
//! the current time and applies each operation atomically is an external
//! collaborator: it hands the library plain values (the caller's identity
//! key, the current time) and performs the fund transfers that the library's
//! results call for. Everything the operations decide is verified here.

pub mod donate;
pub mod errors;
pub mod finalize_campaign;
pub mod initialize_campaign;
pub mod refund;
pub mod states;
pub mod store;
