//! A pooled-deposit vault: depositors hand in a stable asset and receive a
//! claim token for their share of the pool, on a fixed epoch schedule.
//!
//! The crate holds the rules of the vault as verified functions on plain
//! values: the share ledger, the epoch phase gate, and the ordered calls that
//! each operation makes to the token program and to the lending venue. It
//! performs no call itself; a host reads the accounts and the clock, hands
//! them in, and carries out the calls that it is handed back.

pub mod authority;
pub mod context;
pub mod cpi;
pub mod epoch;
pub mod error;
pub mod ledger;
pub mod name;
pub mod pipeline;
pub mod state;
pub mod strip;
pub mod token;
pub mod vault;
pub mod venue;
