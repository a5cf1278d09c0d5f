//! Authorization and state-transition core of a staking-pool program.
//!
//! Every operation is a function from the account records that a caller
//! supplied to either a named error or the records as they stand afterwards.
//! The caller controls which records it supplies, in which order, and which
//! of them signed, so each operation checks all of that before it writes.

pub mod account;
pub mod cpi;
pub mod error;
pub mod processor;
pub mod pubkey;
pub mod state;
pub mod utils;
pub mod vault;
