//! Program-derived addresses: signing authorities that only the program
//! can produce.

use crate::address::Address;
use anchor_lang::prelude::Pubkey;
use vstd::prelude::*;

verus! {

/// The address that a program derives from one seed, by its bytes, where
/// there is one: what `Pubkey::try_find_program_address` finds for the seed
/// and the program's bytes.
pub uninterp spec fn program_address(seed: Seq<u8>, program: Seq<u8>) -> Option<Seq<u8>>;

/// Calls `Pubkey::try_find_program_address` of `solana_program` with the
/// one seed `seed` and the program `program`. The result is the address
/// found, without its bump seed, or `None` where the search finds none; it
/// depends on the seed and the program's bytes alone. Nothing else is
/// claimed of it.
#[verifier::external_body]
pub(crate) fn find_program_address(seed: &[u8], program: &Address) -> (r: Option<Address>)
    ensures
        match r {
            Some(a) => program_address(seed@, program@) == Some(a@),
            None => program_address(seed@, program@) is None,
        },
{
    match Pubkey::try_find_program_address(&[seed], &Pubkey::new_from_array(program.bytes)) {
        Some((key, _)) => Some(Address { bytes: key.to_bytes() }),
        None => None,
    }
}

} // verus!
