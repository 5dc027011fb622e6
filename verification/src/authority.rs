//! The address under which a pool's program signs for its pools.

use crate::address::Address;
use vstd::prelude::*;

verus! {

/// The seed of the authority's address: the bytes of `amm authority`.
pub const AUTHORITY_AMM: [u8; 13] = [97, 109, 109, 32, 97, 117, 116, 104, 111, 114, 105, 116, 121];

/// The program-derived address for one seed and a program: the address
/// that the ledger's derivation finds for them with the highest bump seed
/// that gives one, or `None` where no bump seed does.
pub uninterp spec fn program_address(seed: Seq<u8>, program_id: Seq<u8>) -> Option<Seq<u8>>;

/// The bytes of an address that may be absent.
pub open spec fn optional_address(a: Option<Address>) -> Option<Seq<u8>> {
    match a {
        Some(address) => Some(address@),
        None => None,
    }
}

/// `solana_program::pubkey::Pubkey::try_find_program_address` with one
/// seed, of which the address is kept and the bump seed dropped.
///
/// Trusted: the derivation hashes the seed, a bump seed and the program's
/// address and reads nothing else, so its result is a function of the seed
/// and the program.
#[verifier::external_body]
fn find_program_address(seed: &[u8], program_id: &Address) -> (r: Option<Address>)
    ensures
        optional_address(r) == program_address(seed@, program_id@),
{
    let program = solana_program::pubkey::Pubkey::new_from_array(program_id.bytes);
    match solana_program::pubkey::Pubkey::try_find_program_address(&[seed], &program) {
        Some((address, _)) => Some(Address { bytes: address.to_bytes() }),
        None => None,
    }
}

/// The authority of the pools of the program at `amm_program_key`: the
/// owner of every open-orders account that such a pool has.
pub fn amm_authority(amm_program_key: &Address) -> (r: Option<Address>)
    ensures
        optional_address(r) == program_address(AUTHORITY_AMM@, amm_program_key@),
{
    let seed: [u8; 13] = AUTHORITY_AMM;
    find_program_address(seed.as_slice(), amm_program_key)
}

} // verus!
