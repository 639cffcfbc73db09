//! Bookkeeping core of an agent marketplace.
//!
//! The crate keeps one record per registered agent identity, a bounded
//! reputation ledger per agent, and the rules that turn signed score
//! deltas into a single trust score clamped into a fixed range. Service
//! listings are validated field by field but never scored.
//!
//! Identities are plain integer keys; timestamps are handed in by the
//! caller. Every state-changing operation either commits fully and hands
//! back a notification value for outside observers, or fails with a
//! specific error and leaves the state untouched.

pub mod errors;
pub mod events;
pub mod listings;
pub mod registry;
pub mod reputation;
pub mod validate;
