//! Public keys and the well-known addresses the program uses.
use crate::error::ProgramError;
use vstd::prelude::*;

verus! {

/// Number of bytes in a public key.
pub const PUBKEY_BYTES: usize = 32;

/// A public key: 32 bytes.
pub type Pubkey = [u8; 32];

/// The token program's address (`TokenkegQfeZyiNwAJbNbGKPFXCWuBvf9Ss623VQ5DA`).
pub const ID: Pubkey = [
    6, 221, 246, 225, 215, 101, 161, 147, 217, 203, 225, 70, 206, 235, 121, 172, 28, 180, 133,
    237, 95, 91, 55, 145, 58, 140, 245, 133, 126, 255, 0, 169,
];

/// Compares two public keys byte by byte.
pub fn pubkey_eq(a: &Pubkey, b: &Pubkey) -> (r: bool)
    ensures
        r == (a@ == b@),
{
    let mut i: usize = 0;
    while i < 32
        invariant
            0 <= i <= 32,
            a@.len() == 32,
            b@.len() == 32,
            forall|k: int| 0 <= k < i ==> a@[k] == b@[k],
        decreases 32 - i,
    {
        if a[i] != b[i] {
            return false;
        }
        i = i + 1;
    }
    assert(a@ =~= b@);
    true
}

/// Checks that the supplied program ID is the token program's.
pub fn check_program_account(spl_token_program_id: &Pubkey) -> (r: Result<(), ProgramError>)
    ensures
        r is Ok <==> spl_token_program_id@ == ID@,
        r is Err ==> r->Err_0 == ProgramError::IncorrectProgramId,
{
    if !pubkey_eq(spl_token_program_id, &ID) {
        return Err(ProgramError::IncorrectProgramId);
    }
    Ok(())
}

} // verus!
