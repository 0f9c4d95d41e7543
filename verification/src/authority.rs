use vstd::prelude::*;
use crate::errors::CoreError;

verus! {

// Identifiers are modeled as 64-bit values. The even ones stand for the
// ordinary key-reachable identity space — the addresses a wallet can sign
// for. The odd ones can only be produced by derivation, so an account placed
// at an odd identifier is controlled by the program that can rebuild its
// seed, never by a private key.

/// Whether an identifier lies inside the ordinary key-reachable space.
pub open spec fn on_curve(id: u64) -> bool {
    id % 2 == 0
}

/// One folding step: h := h * 31 + b, truncated to 64 bits. Folding is not
/// money arithmetic, so truncation is deliberate here and stated exactly.
#[verifier::opaque]
pub open spec fn mix_step(h: u64, b: u8) -> u64 {
    (((h * 31) + b) % 0x1_0000_0000_0000_0000) as u64
}

/// Folds a byte string into the accumulator, one `mix_step` per byte.
#[verifier::opaque]
pub open spec fn mix_bytes(h: u64, s: Seq<u8>) -> u64
    decreases s.len(),
{
    if s.len() == 0 {
        h
    } else {
        mix_bytes(mix_step(h, s[0]), s.skip(1))
    }
}

/// Folds every entity identifier of a seed, in order.
#[verifier::opaque]
pub open spec fn mix_ids(h: u64, ids: Seq<Seq<u8>>) -> u64
    decreases ids.len(),
{
    if ids.len() == 0 {
        h
    } else {
        mix_ids(mix_bytes(h, ids[0]), ids.skip(1))
    }
}

/// An arbitrary non-zero starting value for the fold.
pub const SEED_INIT: u64 = 0xcbf2_9ce4_8422_2325;

/// The hash of a whole authority seed: the domain tag first, then each
/// entity identifier, in order.
pub open spec fn seed_hash(tag: Seq<u8>, ids: Seq<Seq<u8>>) -> u64 {
    mix_ids(mix_bytes(SEED_INIT, tag), ids)
}

/// The candidate identifier a seed hash yields at a given bump value.
pub open spec fn candidate(h: u64, bump: u8) -> u64 {
    mix_step(h, bump)
}

/// A stored `(id, bump)` pair is a valid derivation for a seed exactly when
/// the bump reproduces the identifier and the identifier is off-curve.
pub open spec fn derives(tag: Seq<u8>, ids: Seq<Seq<u8>>, id: u64, bump: u8) -> bool {
    id == candidate(seed_hash(tag, ids), bump) && !on_curve(id)
}

/// The bump is canonical when it is the first hit of a search descending
/// from 255: every higher bump yields an on-curve candidate.
pub open spec fn canonical(tag: Seq<u8>, ids: Seq<Seq<u8>>, id: u64, bump: u8) -> bool {
    &&& derives(tag, ids, id, bump)
    &&& forall|b: u8| b > bump ==> on_curve(candidate(seed_hash(tag, ids), b))
}

/// Whether a stored bump is the canonical one for a seed, without naming
/// the identifier it yields.
pub open spec fn canonical_bump(tag: Seq<u8>, ids: Seq<Seq<u8>>, bump: u8) -> bool {
    canonical(tag, ids, candidate(seed_hash(tag, ids), bump), bump)
}

/// Derivation is a function of the seed alone: two canonical derivations
/// from equal seeds agree on both the identifier and the bump.
pub proof fn lemma_derive_deterministic(
    tag: Seq<u8>,
    ids: Seq<Seq<u8>>,
    id1: u64,
    bump1: u8,
    id2: u64,
    bump2: u8,
)
    requires
        canonical(tag, ids, id1, bump1),
        canonical(tag, ids, id2, bump2),
    ensures
        id1 == id2,
        bump1 == bump2,
{
    if bump1 < bump2 {
        assert(on_curve(candidate(seed_hash(tag, ids), bump2)));
    }
    if bump2 < bump1 {
        assert(on_curve(candidate(seed_hash(tag, ids), bump1)));
    }
}

/// Candidates at adjacent bumps differ in parity, so of any two consecutive
/// bump values one always yields an off-curve candidate: a descending search
/// is guaranteed to stop within its first two probes.
pub proof fn lemma_adjacent_candidates_differ(h: u64, b: u8)
    requires
        b < 255,
    ensures
        on_curve(candidate(h, b)) != on_curve(candidate(h, (b + 1) as u8)),
{
    reveal(mix_step);
    let x = (h * 31) + b;
    lemma_truncate_keeps_parity(x);
    lemma_truncate_keeps_parity(x + 1);
    assert((x % 2) != ((x + 1) % 2)) by (nonlinear_arith);
}

/// Truncating to 64 bits does not change parity.
proof fn lemma_truncate_keeps_parity(x: int)
    requires
        x >= 0,
    ensures
        (x % 0x1_0000_0000_0000_0000) % 2 == x % 2,
{
    vstd::arithmetic::div_mod::lemma_mod_mod(x, 0x8000_0000_0000_0000, 2);
}

/// One folding step, executed exactly as `mix_step` states it.
fn mix_step_exec(h: u64, b: u8) -> (r: u64)
    ensures
        r == mix_step(h, b),
{
    proof {
        reveal(mix_step);
    }
    let wide: u128 = (h as u128) * 31 + (b as u128);
    (wide % 0x1_0000_0000_0000_0000u128) as u64
}

/// Appending a byte to a folded string folds that byte last.
proof fn lemma_mix_bytes_snoc(h: u64, s: Seq<u8>, b: u8)
    ensures
        mix_bytes(h, s.push(b)) == mix_step(mix_bytes(h, s), b),
    decreases s.len(),
{
    reveal_with_fuel(mix_bytes, 3);
    if s.len() == 0 {
        assert(s.push(b)[0] == b);
        assert(s.push(b).skip(1) =~= Seq::<u8>::empty());
        assert(s =~= Seq::<u8>::empty());
    } else {
        assert(s.push(b)[0] == s[0]);
        assert(s.push(b).skip(1) =~= s.skip(1).push(b));
        lemma_mix_bytes_snoc(mix_step(h, s[0]), s.skip(1), b);
    }
}

/// Appending an identifier to a folded seed folds that identifier last.
proof fn lemma_mix_ids_snoc(h: u64, ids: Seq<Seq<u8>>, id: Seq<u8>)
    ensures
        mix_ids(h, ids.push(id)) == mix_bytes(mix_ids(h, ids), id),
    decreases ids.len(),
{
    reveal_with_fuel(mix_ids, 3);
    if ids.len() == 0 {
        assert(ids.push(id)[0] == id);
        assert(ids.push(id).skip(1) =~= Seq::<Seq<u8>>::empty());
        assert(ids =~= Seq::<Seq<u8>>::empty());
    } else {
        assert(ids.push(id)[0] == ids[0]);
        assert(ids.push(id).skip(1) =~= ids.skip(1).push(id));
        lemma_mix_ids_snoc(mix_bytes(h, ids[0]), ids.skip(1), id);
    }
}

fn mix_bytes_exec(h: u64, s: &Vec<u8>) -> (r: u64)
    ensures
        r == mix_bytes(h, s@),
{
    proof {
        reveal_with_fuel(mix_bytes, 1);
        assert(s@.take(0) =~= Seq::<u8>::empty());
    }
    let mut acc = h;
    let mut i: usize = 0;
    while i < s.len()
        invariant
            i <= s.len(),
            acc == mix_bytes(h, s@.take(i as int)),
        decreases s.len() - i,
    {
        proof {
            assert(s@.take(i + 1) =~= s@.take(i as int).push(s@[i as int]));
            lemma_mix_bytes_snoc(h, s@.take(i as int), s@[i as int]);
        }
        acc = mix_step_exec(acc, s[i]);
        i = i + 1;
    }
    proof {
        assert(s@.take(s@.len() as int) =~= s@);
    }
    acc
}

/// Hashes a whole authority seed: the domain tag, then each identifier.
pub fn seed_hash_exec(tag: &Vec<u8>, ids: &Vec<Vec<u8>>) -> (r: u64)
    ensures
        r == seed_hash(tag@, ids.deep_view()),
{
    proof {
        reveal_with_fuel(mix_ids, 1);
        assert(ids.deep_view().take(0) =~= Seq::<Seq<u8>>::empty());
    }
    let mut acc = mix_bytes_exec(SEED_INIT, tag);
    let mut i: usize = 0;
    while i < ids.len()
        invariant
            i <= ids.len(),
            acc == mix_ids(mix_bytes(SEED_INIT, tag@), ids.deep_view().take(i as int)),
        decreases ids.len() - i,
    {
        proof {
            assert(ids.deep_view().take(i + 1) =~= ids.deep_view().take(i as int).push(
                ids.deep_view()[i as int],
            ));
            lemma_mix_ids_snoc(
                mix_bytes(SEED_INIT, tag@),
                ids.deep_view().take(i as int),
                ids.deep_view()[i as int],
            );
            assert(ids.deep_view()[i as int] == ids@[i as int]@);
        }
        acc = mix_bytes_exec(acc, &ids[i]);
        i = i + 1;
    }
    proof {
        assert(ids.deep_view().take(ids.deep_view().len() as int) =~= ids.deep_view());
    }
    acc
}

/// Derives the custody authority for a seed: the first bump value, searching
/// downward from 255, whose candidate identifier is off-curve. Candidates at
/// adjacent bumps differ in parity, so the search needs at most two probes.
pub fn derive_authority(tag: &Vec<u8>, ids: &Vec<Vec<u8>>) -> (r: (u64, u8))
    ensures
        canonical(tag@, ids.deep_view(), r.0, r.1),
{
    let h = seed_hash_exec(tag, ids);
    let first = mix_step_exec(h, 255);
    if first % 2 == 1 {
        (first, 255)
    } else {
        proof {
            lemma_adjacent_candidates_differ(h, 254);
        }
        let second = mix_step_exec(h, 254);
        (second, 254)
    }
}

/// The re-derivation check done at every use of a stored authority: the
/// stored seed and bump must still reproduce the expected identifier,
/// off-curve. This guards a record against being replayed with a custody
/// account other than the one it was created with.
pub fn verify_authority(tag: &Vec<u8>, ids: &Vec<Vec<u8>>, bump: u8, expected: u64) -> (r: Result<
    (),
    CoreError,
>)
    ensures
        r is Ok <==> derives(tag@, ids.deep_view(), expected, bump),
        r is Err ==> r == Err::<(), CoreError>(CoreError::AuthorityMismatch),
{
    let h = seed_hash_exec(tag, ids);
    let cand = mix_step_exec(h, bump);
    if cand == expected && cand % 2 == 1 {
        Ok(())
    } else {
        Err(CoreError::AuthorityMismatch)
    }
}

/// An identifier rendered as the byte string used to seed a further
/// derivation: eight bytes, least significant first.
#[verifier::opaque]
pub open spec fn spec_id_bytes(x: u64) -> Seq<u8> {
    seq![
        (x % 256) as u8,
        ((x / 256) % 256) as u8,
        ((x / 65536) % 256) as u8,
        ((x / 16777216) % 256) as u8,
        ((x / 4294967296) % 256) as u8,
        ((x / 1099511627776) % 256) as u8,
        ((x / 281474976710656) % 256) as u8,
        ((x / 72057594037927936) % 256) as u8,
    ]
}

/// Renders an identifier as its eight seed bytes, least significant first.
pub fn id_bytes(x: u64) -> (r: Vec<u8>)
    ensures
        r@ == spec_id_bytes(x),
{
    let mut v: Vec<u8> = Vec::new();
    v.push((x % 256) as u8);
    v.push(((x / 256) % 256) as u8);
    v.push(((x / 65536) % 256) as u8);
    v.push(((x / 16777216) % 256) as u8);
    v.push(((x / 4294967296) % 256) as u8);
    v.push(((x / 1099511627776) % 256) as u8);
    v.push(((x / 281474976710656) % 256) as u8);
    v.push(((x / 72057594037927936) % 256) as u8);
    proof {
        reveal(spec_id_bytes);
        assert(v@ =~= spec_id_bytes(x));
    }
    v
}

} // verus!
