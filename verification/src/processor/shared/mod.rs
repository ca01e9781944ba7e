//! Processors shared by the plain and the checked variant of an instruction.
pub mod mint_to;
pub mod burn;
pub mod approve;
pub mod toggle_account_state;
pub mod initialize_mint;
pub mod initialize_account;
pub mod initialize_multisig;
