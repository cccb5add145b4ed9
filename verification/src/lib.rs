//! A token-vesting ledger contract: instruction wire protocol, persistent
//! account state layout, and the validation/transition engine that locks a
//! token amount under a release schedule and pays it out once matured.
//!
//! The engine is pure: every operation takes the relevant account values as
//! plain data, validates them, and returns either a typed error or the staged
//! state writes and transfer orders for the host to apply atomically.

pub mod authority;
pub mod error;
pub mod instruction;
pub mod processor;
pub mod state;
pub mod token_account;
