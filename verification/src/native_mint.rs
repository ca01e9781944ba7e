//! The mint that represents the native token (wrapped SOL).
use crate::pubkey::{pubkey_eq, Pubkey};
use vstd::prelude::*;

verus! {

/// There are `10^9` lamports in one SOL
pub const DECIMALS: u8 = 9;

/// The mint for native SOL token accounts (`So11111111111111111111111111111111111111112`).
pub const ID: Pubkey = [
    6, 155, 136, 87, 254, 171, 129, 132, 251, 104, 127, 99, 70, 24, 192, 53, 218, 196, 57, 220, 26,
    235, 59, 85, 152, 160, 240, 0, 0, 0, 0, 1,
];

/// Whether `mint` is the native mint.
pub fn is_native_mint(mint: &Pubkey) -> (r: bool)
    ensures
        r == (mint@ == ID@),
{
    pubkey_eq(mint, &ID)
}

} // verus!
