use vstd::prelude::*;

verus! {

/// The Keccak-256 digest that `solana_program::keccak::hashv` computes over
/// the given list of byte strings (hashed one after another).
pub uninterp spec fn spec_keccak_hashv(parts: Seq<Seq<u8>>) -> Seq<u8>;

/// Calls `solana_program::keccak::hashv` on the given parts and returns the
/// 32-byte digest. Trusted: the digest equals `spec_keccak_hashv` of the
/// parts' contents, that is, it is a function of the parts alone.
#[verifier::external_body]
pub(crate) fn keccak_hashv(parts: &Vec<Vec<u8>>) -> (digest: [u8; 32])
    ensures
        digest@ == spec_keccak_hashv(parts@.map_values(|p: Vec<u8>| p@)),
{
    let slices: Vec<&[u8]> = parts.iter().map(|p| p.as_slice()).collect();
    solana_program::keccak::hashv(&slices).0
}


/// The SHA-256 digest that `solana_program::hash::hash` computes over the
/// given bytes.
pub uninterp spec fn spec_sha256(data: Seq<u8>) -> Seq<u8>;

/// Calls `solana_program::hash::hash` and returns the 32-byte digest.
/// Trusted: the digest equals `spec_sha256` of the bytes, a function of the
/// bytes alone.
#[verifier::external_body]
pub(crate) fn sha256(data: &[u8]) -> (digest: [u8; 32])
    ensures
        digest@ == spec_sha256(data@),
{
    solana_program::hash::hash(data).to_bytes()
}

/// The program-derived address and bump seed that
/// `solana_program::pubkey::Pubkey::try_find_program_address` finds for the
/// given seeds and program id, or none.
pub uninterp spec fn spec_find_program_address(seeds: Seq<Seq<u8>>, program_id: Seq<u8>) -> Option<(Seq<u8>, u8)>;

/// Calls `solana_program::pubkey::Pubkey::try_find_program_address`.
/// Trusted: the result equals `spec_find_program_address` of the seeds'
/// contents and the program id, a function of them alone.
#[verifier::external_body]
pub(crate) fn find_program_address(seeds: &Vec<Vec<u8>>, program_id: &[u8; 32]) -> (r: Option<([u8; 32], u8)>)
    ensures
        r matches Some(found) ==> spec_find_program_address(seeds@.map_values(|s: Vec<u8>| s@), program_id@) == Some(
            (found.0@, found.1),
        ),
        r is None ==> spec_find_program_address(seeds@.map_values(|s: Vec<u8>| s@), program_id@) is None,
{
    let slices: Vec<&[u8]> = seeds.iter().map(|s| s.as_slice()).collect();
    let program = solana_program::pubkey::Pubkey::new_from_array(*program_id);
    match solana_program::pubkey::Pubkey::try_find_program_address(&slices, &program) {
        Some((key, bump)) => Some((key.to_bytes(), bump)),
        None => None,
    }
}

/// Calls `solana_program::pubkey::Pubkey::new_unique`, which numbers the
/// keys it hands out from a process-wide counter. Trusted: the key's first
/// eight bytes hold the counter and the other 24 are zero; the counter's
/// value depends on the calls made before, so it is left unsaid.
#[verifier::external_body]
pub(crate) fn new_unique_key() -> (r: [u8; 32])
    ensures
        forall|i: int| 8 <= i < 32 ==> r@[i] == 0u8,
{
    solana_program::pubkey::Pubkey::new_unique().to_bytes()
}

} // verus!
