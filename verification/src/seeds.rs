use vstd::prelude::*;

verus! {

/// The bytes of `b"incubator_v0"`, the first seed of every incubator address.
pub open spec fn spec_incubator_seed() -> Seq<u8> {
    seq![105u8, 110, 99, 117, 98, 97, 116, 111, 114, 95, 118, 48]
}

/// The bytes of `b"update_authority"`.
pub open spec fn spec_update_authority_seed() -> Seq<u8> {
    seq![117u8, 112, 100, 97, 116, 101, 95, 97, 117, 116, 104, 111, 114, 105, 116, 121]
}

/// The bytes of `b"deposit_authority"`.
pub open spec fn spec_deposit_authority_seed() -> Seq<u8> {
    seq![100u8, 101, 112, 111, 115, 105, 116, 95, 97, 117, 116, 104, 111, 114, 105, 116, 121]
}

/// The bytes of `b"metadata"`.
pub open spec fn spec_metadata_seed() -> Seq<u8> {
    seq![109u8, 101, 116, 97, 100, 97, 116, 97]
}

/// The bytes of `b"slot"`.
pub open spec fn spec_slot_seed() -> Seq<u8> {
    seq![115u8, 108, 111, 116]
}

/// `INCUBATOR_SEED`: `b"incubator_v0"`.
pub fn incubator_seed() -> (s: Vec<u8>)
    ensures
        s@ == spec_incubator_seed(),
{
    let s: Vec<u8> = vec![105u8, 110, 99, 117, 98, 97, 116, 111, 114, 95, 118, 48];
    assert(s@ =~= spec_incubator_seed());
    s
}

/// `UPDATE_AUTHORITY_SEED`: `b"update_authority"`.
pub fn update_authority_seed() -> (s: Vec<u8>)
    ensures
        s@ == spec_update_authority_seed(),
{
    let s: Vec<u8> = vec![117u8, 112, 100, 97, 116, 101, 95, 97, 117, 116, 104, 111, 114, 105, 116, 121];
    assert(s@ =~= spec_update_authority_seed());
    s
}

/// `DEPOSIT_AUTHORITY_SEED`: `b"deposit_authority"`.
pub fn deposit_authority_seed() -> (s: Vec<u8>)
    ensures
        s@ == spec_deposit_authority_seed(),
{
    let s: Vec<u8> = vec![100u8, 101, 112, 111, 115, 105, 116, 95, 97, 117, 116, 104, 111, 114, 105, 116, 121];
    assert(s@ =~= spec_deposit_authority_seed());
    s
}

/// `METADATA_SEED`: `b"metadata"`.
pub fn metadata_seed() -> (s: Vec<u8>)
    ensures
        s@ == spec_metadata_seed(),
{
    let s: Vec<u8> = vec![109u8, 101, 116, 97, 100, 97, 116, 97];
    assert(s@ =~= spec_metadata_seed());
    s
}

/// `SLOT_SEED`: `b"slot"`.
pub fn slot_seed() -> (s: Vec<u8>)
    ensures
        s@ == spec_slot_seed(),
{
    let s: Vec<u8> = vec![115u8, 108, 111, 116];
    assert(s@ =~= spec_slot_seed());
    s
}

/// The bytes of each seed in a list of seeds.
pub open spec fn seeds_view(seeds: Seq<Vec<u8>>) -> Seq<Seq<u8>> {
    seeds.map_values(|v: Vec<u8>| v@)
}

/// The signer seeds of an address derived from the incubator seed, a second
/// seed and a bump: `[INCUBATOR_SEED, second, [bump]]`.
pub open spec fn spec_authority_signer_seeds(second: Seq<u8>, bump: u8) -> Seq<Seq<u8>> {
    seq![spec_incubator_seed(), second, seq![bump]]
}

/// Builds `[INCUBATOR_SEED, second, [bump]]`.
pub fn authority_signer_seeds(second: Vec<u8>, bump: u8) -> (s: Vec<Vec<u8>>)
    ensures
        seeds_view(s@) == spec_authority_signer_seeds(second@, bump),
{
    let mut s: Vec<Vec<u8>> = Vec::new();
    s.push(incubator_seed());
    s.push(second);
    let b: Vec<u8> = vec![bump];
    assert(b@ =~= seq![bump]);
    s.push(b);
    assert(seeds_view(s@) =~= spec_authority_signer_seeds(second@, bump));
    s
}

} // verus!
