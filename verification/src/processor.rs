//! The operations of the program, one module each.

pub mod close_stake_account;
pub mod create_stake_pool;
