//! Derivation of an attestation's storage address from its identifier.
use vstd::prelude::*;
use vstd::slice::slice_subrange;
use vstd::slice::slice_to_vec;
use vstd::utf8::encode_utf8;
use anchor_lang::solana_program::pubkey::Pubkey;

verus! {

/// Longest seed, in bytes, that the address derivation accepts.
pub const MAX_SEED_LEN: usize = 32;

/// The namespace tag `"attestation"` that every attestation address is derived under.
pub open spec fn attestation_tag() -> Seq<u8> {
    seq![97u8, 116u8, 116u8, 101u8, 115u8, 116u8, 97u8, 116u8, 105u8, 111u8, 110u8]
}

/// The identifier's bytes cut into consecutive seeds of at most `MAX_SEED_LEN`
/// bytes; no seed is empty. The derivation hashes the seeds one after another,
/// so the cut does not change the address.
pub open spec fn seed_chunks(id: Seq<u8>) -> Seq<Seq<u8>>
    decreases id.len(),
{
    if id.len() == 0 {
        seq![]
    } else if id.len() <= MAX_SEED_LEN {
        seq![id]
    } else {
        seq![id.subrange(0, MAX_SEED_LEN as int)] + seed_chunks(
            id.subrange(MAX_SEED_LEN as int, id.len() as int),
        )
    }
}

/// The seeds of the attestation whose identifier has the given UTF-8 bytes.
pub open spec fn attestation_seeds(id: Seq<u8>) -> Seq<Seq<u8>> {
    seq![attestation_tag()] + seed_chunks(id)
}

/// The program-derived address and bump found for `seeds` under `program_id`.
pub uninterp spec fn program_address(seeds: Seq<Seq<u8>>, program_id: Seq<u8>) -> Option<
    (Seq<u8>, u8),
>;

/// The byte strings held by a list of seeds.
pub open spec fn seeds_view(seeds: Seq<Vec<u8>>) -> Seq<Seq<u8>> {
    seeds.map_values(|s: Vec<u8>| s@)
}

/// The address and bump of an outcome of a derivation, as plain values.
pub open spec fn address_view(r: Option<([u8; 32], u8)>) -> Option<(Seq<u8>, u8)> {
    match r {
        Some((a, b)) => Some((a@, b)),
        None => None,
    }
}

/// The address and bump under which the attestation with identifier `id`
/// is stored by the program `program_id`.
pub open spec fn derived_address(program_id: Seq<u8>, id: Seq<char>) -> Option<(Seq<u8>, u8)> {
    program_address(attestation_seeds(encode_utf8(id)), program_id)
}

/// Relies on `Pubkey::try_find_program_address` of solana-program (re-exported
/// by anchor-lang): it searches the bump from 255 down for an address off the
/// ed25519 curve, hashing the seeds, the bump, the program id and a marker,
/// so its result depends on `seeds` and `program_id` alone.
#[verifier::external_body]
fn try_find_program_address(seeds: &Vec<Vec<u8>>, program_id: &[u8; 32]) -> (r: Option<
    ([u8; 32], u8),
>)
    ensures
        address_view(r) == program_address(seeds_view(seeds@), program_id@),
{
    let slices: Vec<&[u8]> = seeds.iter().map(|s| s.as_slice()).collect();
    Pubkey::try_find_program_address(&slices, &Pubkey::new_from_array(*program_id)).map(
        |(key, bump)| (key.to_bytes(), bump),
    )
}

/// Builds the seeds of the attestation whose identifier has the bytes `id`.
pub fn attestation_seed_vec(id: &[u8]) -> (r: Vec<Vec<u8>>)
    ensures
        seeds_view(r@) == attestation_seeds(id@),
{
    let tag: Vec<u8> = vec![97u8, 116u8, 116u8, 101u8, 115u8, 116u8, 97u8, 116u8, 105u8, 111u8, 110u8];
    let mut r: Vec<Vec<u8>> = Vec::new();
    assert(tag@ =~= attestation_tag());
    r.push(tag);
    assert(seeds_view(r@) =~= seq![attestation_tag()]);
    let n: usize = id.len();
    let mut start: usize = 0;
    assert(id@.subrange(0, n as int) =~= id@);
    while start < n
        invariant
            n == id@.len(),
            start <= n,
            seeds_view(r@) + seed_chunks(id@.subrange(start as int, n as int)) == attestation_seeds(
                id@,
            ),
        decreases n - start,
    {
        let rest: Ghost<Seq<u8>> = Ghost(id@.subrange(start as int, n as int));
        let end: usize = if n - start <= MAX_SEED_LEN {
            n
        } else {
            start + MAX_SEED_LEN
        };
        let chunk: Vec<u8> = slice_to_vec(slice_subrange(id, start, end));
        proof {
            assert(chunk@ =~= rest@.subrange(0, (end - start) as int));
            assert(id@.subrange(end as int, n as int) =~= rest@.subrange(
                (end - start) as int,
                rest@.len() as int,
            ));
            if end == n {
                assert(rest@.subrange(0, (end - start) as int) =~= rest@);
                assert(id@.subrange(end as int, n as int) =~= Seq::<u8>::empty());
                assert(seed_chunks(Seq::<u8>::empty()) =~= Seq::<Seq<u8>>::empty());
            }
        }
        let ghost before = seeds_view(r@);
        r.push(chunk);
        assert(seeds_view(r@) =~= before.push(chunk@));
        start = end;
        proof {
            let tail = seed_chunks(id@.subrange(start as int, n as int));
            assert(seed_chunks(rest@) =~= seq![chunk@] + tail);
            assert(before + seed_chunks(rest@) =~= before.push(chunk@) + tail);
        }
    }
    assert(id@.subrange(n as int, n as int) =~= Seq::<u8>::empty());
    assert(seeds_view(r@) + seed_chunks(Seq::<u8>::empty()) =~= seeds_view(r@));
    r
}

/// Finds the storage address, and the bump that led to it, of the
/// attestation with identifier `analysis_id` under the program `program_id`.
pub fn find_attestation_address(program_id: &[u8; 32], analysis_id: &String) -> (r: Option<
    ([u8; 32], u8),
>)
    ensures
        address_view(r) == derived_address(program_id@, analysis_id@),
{
    let seeds = attestation_seed_vec(analysis_id.as_str().as_bytes());
    try_find_program_address(&seeds, program_id)
}

/// Deriving the address of one identifier twice under one program gives the
/// same address and the same bump.
pub proof fn lemma_derivation_is_deterministic(
    program_id: [u8; 32],
    analysis_id: Seq<char>,
    first: Option<([u8; 32], u8)>,
    second: Option<([u8; 32], u8)>,
)
    requires
        address_view(first) == derived_address(program_id@, analysis_id),
        address_view(second) == derived_address(program_id@, analysis_id),
    ensures
        first == second,
{
    if let (Some((a1, b1)), Some((a2, b2))) = (first, second) {
        assert(a1@ == a2@);
        assert(a1 =~= a2);
    }
}

} // verus!
