//! A ledger of accounts on which tokens are minted.
//!
//! A mint request is validated against the store of accounts and then
//! applied to it: the creator pays a fee, the token gets the next
//! identifier and the creator's next serial number, and the recipient gets
//! the token. Every change is logged, so that replaying the log on the
//! store as it was gives the store as it is.
//!
//! `mint` says what validating and applying do, `handler` does it, and
//! `laws` proves what follows.

pub mod account;
pub mod big;
pub mod handler;
pub mod laws;
pub mod mint;
pub mod operations;
pub mod params;
pub mod primitives;
pub mod state;
pub mod tokens;
pub mod update;
