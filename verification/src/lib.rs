//! A token program for the Solana blockchain, modelled as verified Rust.
//!
//! Accounts are held as plain values (`AccountInfo`), their data as bytes in the
//! program's fixed layouts, and every instruction processor is a function from
//! the accounts before the instruction to the accounts after it (or an error).
#![allow(unused_imports)]

pub mod account_info;
pub mod admissible;
pub mod entrypoint;
pub mod error;
pub mod hints;
pub mod instruction;
pub mod laws;
pub mod native_mint;
pub mod processor;
pub mod pubkey;
pub mod rent;
pub mod state;

pub use hints::{cold_path, likely, unlikely};
pub use pubkey::{check_program_account, ID};
