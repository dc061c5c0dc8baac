use vstd::prelude::*;

use solana_program::pubkey::Pubkey;

verus! {

/// The address and bump seed that the hosting environment's program-address
/// search finds for `seeds` under `program_id`, if one exists.
pub uninterp spec fn found_program_address(seeds: Seq<Seq<u8>>, program_id: Seq<u8>) -> Option<(Seq<u8>, u8)>;

pub open spec fn seeds_view(seeds: Seq<Vec<u8>>) -> Seq<Seq<u8>> {
    seeds.map_values(|s: Vec<u8>| s@)
}

pub open spec fn found_view(r: Option<([u8; 32], u8)>) -> Option<(Seq<u8>, u8)> {
    match r {
        Some((k, b)) => Some((k@, b)),
        None => None,
    }
}

/// Relies on `Pubkey::try_find_program_address`: a pure function of the seeds
/// and the program id (a hash search for an off-curve point).
#[verifier::external_body]
fn try_find_program_address(seeds: &Vec<Vec<u8>>, program_id: &[u8; 32]) -> (r: Option<([u8; 32], u8)>)
    ensures
        found_view(r) == found_program_address(seeds_view(seeds@), program_id@),
{
    let refs: Vec<&[u8]> = seeds.iter().map(|s| s.as_slice()).collect();
    Pubkey::try_find_program_address(&refs, &Pubkey::new_from_array(*program_id)).map(
        |(k, b)| (k.to_bytes(), b),
    )
}

/// The domain tag of this program's profile slots.
pub open spec fn profile_seed() -> Seq<u8> {
    seq![112u8, 114u8, 111u8, 102u8, 105u8, 108u8, 101u8]
}

/// The domain tag of the metadata registry's records.
pub open spec fn metadata_seed() -> Seq<u8> {
    seq![109u8, 101u8, 116u8, 97u8, 100u8, 97u8, 116u8, 97u8]
}

/// Where the profile record of `holder` must live under `program_id`.
pub open spec fn profile_address(holder: Seq<u8>, program_id: Seq<u8>) -> Option<(Seq<u8>, u8)> {
    found_program_address(seq![profile_seed(), holder], program_id)
}

/// Where the metadata registry keeps the metadata of `mint`.
pub open spec fn metadata_address(mint: Seq<u8>, metadata_program_id: Seq<u8>) -> Option<(Seq<u8>, u8)> {
    found_program_address(seq![metadata_seed(), metadata_program_id, mint], metadata_program_id)
}

/// The bytes of the text "profile".
pub fn profile_seed_bytes() -> (r: Vec<u8>)
    ensures
        r@ == profile_seed(),
{
    let r: Vec<u8> = vec![112u8, 114u8, 111u8, 102u8, 105u8, 108u8, 101u8];
    assert(r@ =~= profile_seed());
    r
}

/// The bytes of the text "metadata".
pub fn metadata_seed_bytes() -> (r: Vec<u8>)
    ensures
        r@ == metadata_seed(),
{
    let r: Vec<u8> = vec![109u8, 101u8, 116u8, 97u8, 100u8, 97u8, 116u8, 97u8];
    assert(r@ =~= metadata_seed());
    r
}

fn key_to_vec(k: &[u8; 32]) -> (r: Vec<u8>)
    ensures
        r@ == k@,
{
    let mut r: Vec<u8> = Vec::new();
    let mut i: usize = 0;
    while i < 32
        invariant
            i <= 32,
            k@.len() == 32,
            r@ == k@.subrange(0, i as int),
        decreases 32 - i,
    {
        r.push(k[i]);
        i = i + 1;
        assert(r@ =~= k@.subrange(0, i as int));
    }
    assert(k@.subrange(0, 32) =~= k@);
    r
}

/// Derives the profile slot of `holder` under `program_id`, with its bump seed.
pub fn derive_profile_address(holder: &[u8; 32], program_id: &[u8; 32]) -> (r: Option<([u8; 32], u8)>)
    ensures
        found_view(r) == profile_address(holder@, program_id@),
{
    let seeds: Vec<Vec<u8>> = vec![profile_seed_bytes(), key_to_vec(holder)];
    assert(seeds_view(seeds@) =~= seq![profile_seed(), holder@]);
    try_find_program_address(&seeds, program_id)
}

/// Derives the metadata record of `mint` in the registry `metadata_program_id`.
pub fn derive_metadata_address(mint: &[u8; 32], metadata_program_id: &[u8; 32]) -> (r: Option<([u8; 32], u8)>)
    ensures
        found_view(r) == metadata_address(mint@, metadata_program_id@),
{
    let seeds: Vec<Vec<u8>> = vec![metadata_seed_bytes(), key_to_vec(metadata_program_id), key_to_vec(mint)];
    assert(seeds_view(seeds@) =~= seq![metadata_seed(), metadata_program_id@, mint@]);
    try_find_program_address(&seeds, metadata_program_id)
}

/// Compares two keys byte by byte.
pub fn keys_equal(a: &[u8; 32], b: &[u8; 32]) -> (r: bool)
    ensures
        r == (a@ == b@),
{
    let mut i: usize = 0;
    while i < 32
        invariant
            i <= 32,
            a@.len() == 32,
            b@.len() == 32,
            forall|j: int| 0 <= j < i ==> a@[j] == b@[j],
        decreases 32 - i,
    {
        if a[i] != b[i] {
            return false;
        }
        i = i + 1;
    }
    assert(a@ =~= b@);
    true
}

} // verus!
