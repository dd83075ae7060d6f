//! Program derived addresses, found by the runtime's own search.

use vstd::prelude::*;
use solana_program::pubkey::Pubkey;

verus! {

/// The address and bump seed that `Pubkey::try_find_program_address` of
/// `solana_program` finds for the given seeds (each as bytes) and program id
/// (as bytes), or `None` where it finds none.
pub uninterp spec fn spec_try_find_program_address(seeds: Seq<Seq<u8>>, program_id: Seq<u8>) -> Option<(Seq<u8>, u8)>;

/// Calls `solana_program::pubkey::Pubkey::try_find_program_address`, the
/// search that `Pubkey::find_program_address` runs and unwraps.
///
/// Claimed of it: its result, taken as bytes, is the named result for the
/// seeds and program id taken as bytes; it is `None` when there are 16 seeds
/// or more (with the bump seed that would exceed the limit of 16) or when a
/// seed is longer than 32 bytes. Which address it returns otherwise (a hash of
/// the seeds, a bump seed and the program id that is off the ed25519 curve) is
/// left to the name.
#[verifier::external_body]
pub(crate) fn try_find_program_address(seeds: &Vec<Vec<u8>>, program_id: &[u8; 32]) -> (r: Option<([u8; 32], u8)>)
    ensures
        r.deep_view() == spec_try_find_program_address(seeds.deep_view(), program_id@),
        seeds@.len() >= 16 || (exists|i: int| 0 <= i < seeds@.len() && #[trigger] seeds@[i]@.len() > 32)
            ==> r is None,
{
    let refs: Vec<&[u8]> = seeds.iter().map(|s| s.as_slice()).collect();
    let found = Pubkey::try_find_program_address(&refs, &Pubkey::new_from_array(*program_id));
    found.map(|(address, bump)| (address.to_bytes(), bump))
}

} // verus!
