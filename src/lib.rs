//! Daily check-in for the forums that an account follows: request signing,
//! the decisions of one account's run, and the account list.

pub mod sign;
pub mod session;
pub mod account;
pub mod config;
