use vstd::prelude::*;
use crate::key::Pubkey;
use crate::seeds::seeds_view;

verus! {

/// The program address and bump that `Pubkey::try_find_program_address` of
/// solana-program derives from `seeds` and `program_id` (bytes of each).
pub uninterp spec fn derived_program_address(seeds: Seq<Seq<u8>>, program_id: Seq<u8>) -> Option<(Seq<u8>, u8)>;

/// Whether a list of seeds is beyond what an address derivation admits: more
/// than 15 seeds (16 with the bump) or a seed longer than 32 bytes.
pub open spec fn seeds_exceed_limits(seeds: Seq<Seq<u8>>) -> bool {
    ||| seeds.len() > 15
    ||| exists|i: int| 0 <= i < seeds.len() && #[trigger] seeds[i].len() > 32
}

/// Calls `solana_program::pubkey::Pubkey::try_find_program_address`.
/// Claimed: the result is `derived_program_address` of the seeds' bytes and the
/// program id's bytes, and it is `None` when the seeds exceed the limits (the
/// source breaks its bump search there on `MaxSeedLengthExceeded`). Which
/// address comes out otherwise (a SHA-256 based search) is left unsaid.
#[verifier::external_body]
pub(crate) fn try_find_program_address(seeds: &Vec<Vec<u8>>, program_id: &Pubkey) -> (found: Option<(Pubkey, u8)>)
    ensures
        found matches Some(p) ==> derived_program_address(seeds_view(seeds@), program_id@) == Some((p.0@, p.1)),
        found is None ==> derived_program_address(seeds_view(seeds@), program_id@) is None,
        seeds_exceed_limits(seeds_view(seeds@)) ==> found is None,
{
    let slices: Vec<&[u8]> = seeds.iter().map(|s| s.as_slice()).collect();
    let program = anchor_lang::solana_program::pubkey::Pubkey::new_from_array(program_id.0);
    match anchor_lang::solana_program::pubkey::Pubkey::try_find_program_address(&slices, &program) {
        Some((address, bump)) => Some((Pubkey(address.to_bytes()), bump)),
        None => None,
    }
}

} // verus!
