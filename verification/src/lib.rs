//! Settlement rules for a staked two-player game: a per-user vault that only
//! its owner may draw from, and a match escrow that pays the pooled stakes to
//! the winner a referee names.
//!
//! Every operation works on the accounts its caller names, either completes
//! or reports an error, and leaves the accounts untouched when it fails.
pub mod pubkey;
pub mod account;
pub mod vault;
pub mod escrow;
