//! Verified campaign arithmetic and precondition checks for the Stellar Raise
//! crowdfund contract.

pub mod contribute_error_handling;
pub mod stellar_token_minter;
pub mod types;

pub use types::{ContractError, Status};
