//! Deterministic sub-record addressing.
//!
//! Every sub-record of a tenant lives at an address derived from a role tag
//! and the addresses of the records that own it.  Re-deriving with the same
//! inputs always yields the same address, so address equality replaces
//! foreign-key lookups: an operation recomputes the expected address of each
//! record it was handed and rejects the call on a mismatch.
//!
//! Derivation itself is the host's primitive.  The crate gives its result a
//! name, [`pda_of`], says nothing about the value of that name, and proves
//! everything else — in particular that derivation is a function of its
//! inputs alone.

use vstd::bytes::spec_u64_to_le_bytes_open;
use vstd::prelude::*;

use anchor_lang::solana_program::pubkey::Pubkey;

verus! {

/// A 32-byte record address, stored as four 64-bit words in little-endian
/// order.  Addresses are plain values: the engine only ever compares them and
/// feeds them back into derivation.
#[derive(Clone, Copy, Debug, PartialEq, Eq, Hash, Structural)]
pub struct Address {
    pub w0: u64,
    pub w1: u64,
    pub w2: u64,
    pub w3: u64,
}

impl Address {
    /// The all-zero address, used where a reference has not been set yet.
    pub fn zeroed() -> (r: Address)
        ensures
            r == (Address { w0: 0, w1: 0, w2: 0, w3: 0 }),
    {
        Address { w0: 0, w1: 0, w2: 0, w3: 0 }
    }
}

/// The 32-byte little-endian encoding of an address.
pub open spec fn address_le_bytes(a: Address) -> Seq<u8> {
    spec_u64_to_le_bytes_open(a.w0) + spec_u64_to_le_bytes_open(a.w1)
        + spec_u64_to_le_bytes_open(a.w2) + spec_u64_to_le_bytes_open(a.w3)
}

/// Appends the eight little-endian bytes of `x` to `v`.
fn push_le_word(v: &mut Vec<u8>, x: u64)
    ensures
        final(v)@ == old(v)@ + spec_u64_to_le_bytes_open(x),
{
    v.push((x & 0xff) as u8);
    v.push(((x >> 8) & 0xff) as u8);
    v.push(((x >> 16) & 0xff) as u8);
    v.push(((x >> 24) & 0xff) as u8);
    v.push(((x >> 32) & 0xff) as u8);
    v.push(((x >> 40) & 0xff) as u8);
    v.push(((x >> 48) & 0xff) as u8);
    v.push(((x >> 56) & 0xff) as u8);
    proof {
        assert(v@ =~= old(v)@ + spec_u64_to_le_bytes_open(x));
    }
}

/// The 32-byte little-endian encoding of an address, as a byte vector.
pub fn address_to_bytes(a: &Address) -> (r: Vec<u8>)
    ensures
        r@ == address_le_bytes(*a),
        r@.len() == 32,
{
    let mut v: Vec<u8> = Vec::new();
    push_le_word(&mut v, a.w0);
    push_le_word(&mut v, a.w1);
    push_le_word(&mut v, a.w2);
    push_le_word(&mut v, a.w3);
    proof {
        assert(v@ =~= address_le_bytes(*a));
    }
    v
}

/// The 64-bit word whose little-endian bytes start at offset `off` of `s`.
pub open spec fn word_from_le_bytes(s: Seq<u8>, off: int) -> u64 {
    (s[off] as u64) | (s[off + 1] as u64) << 8 | (s[off + 2] as u64) << 16 | (s[off
        + 3] as u64) << 24 | (s[off + 4] as u64) << 32 | (s[off + 5] as u64) << 40 | (s[off
        + 6] as u64) << 48 | (s[off + 7] as u64) << 56
}

/// The address whose 32-byte little-endian encoding is `s`.
pub open spec fn address_from_le_bytes(s: Seq<u8>) -> Address
    recommends
        s.len() == 32,
{
    Address {
        w0: word_from_le_bytes(s, 0),
        w1: word_from_le_bytes(s, 8),
        w2: word_from_le_bytes(s, 16),
        w3: word_from_le_bytes(s, 24),
    }
}

/// The address whose 32-byte little-endian encoding is `b`.
pub fn address_from_bytes(b: &[u8; 32]) -> (r: Address)
    ensures
        r == address_from_le_bytes(b@),
{
    let w0 = word_from_bytes(b, 0);
    let w1 = word_from_bytes(b, 8);
    let w2 = word_from_bytes(b, 16);
    let w3 = word_from_bytes(b, 24);
    Address { w0, w1, w2, w3 }
}

/// Reads the little-endian word at byte offset `off` of `b`.
fn word_from_bytes(b: &[u8; 32], off: usize) -> (r: u64)
    requires
        off + 8 <= 32,
    ensures
        r == word_from_le_bytes(b@, off as int),
{
    (b[off] as u64) | (b[off + 1] as u64) << 8 | (b[off + 2] as u64) << 16 | (b[off
        + 3] as u64) << 24 | (b[off + 4] as u64) << 32 | (b[off + 5] as u64) << 40 | (b[off
        + 6] as u64) << 48 | (b[off + 7] as u64) << 56
}

/// What the host's program-derived-address search returns for a role tag, an
/// ordered list of owning addresses and a deriving program: the derived
/// address with its bump seed, or nothing in the statistically improbable
/// case that no valid address exists for these inputs.  The result depends on
/// the inputs alone.
pub uninterp spec fn pda_of(tag: Seq<char>, inputs: Seq<Address>, program: Address) -> Option<
    (Address, u8),
>;

/// Relies on `Pubkey::try_find_program_address`: searches for a valid
/// program-derived address over the seed list made of the tag's bytes
/// followed by the input addresses' bytes.  The host concatenates the seed
/// bytes, so an empty tag contributes nothing — deriving with the empty tag
/// is deriving from the input addresses alone.  The result is a
/// deterministic function of the seeds and the program id, and is `None`
/// only in the statistically improbable case that no bump seed yields a
/// valid address.
#[verifier::external_body]
fn try_find_pda(tag: &str, inputs: &Vec<Address>, program_id: &Address) -> (r: Option<
    (Address, u8),
>)
    ensures
        r == pda_of(tag@, inputs@, *program_id),
{
    let byte_seeds: Vec<Vec<u8>> = inputs.iter().map(address_to_bytes).collect();
    let mut seeds: Vec<&[u8]> = Vec::new();
    seeds.push(tag.as_bytes());
    for b in byte_seeds.iter() {
        seeds.push(b.as_slice());
    }
    let pid = Pubkey::new_from_array(address_to_bytes(program_id).try_into().unwrap());
    Pubkey::try_find_program_address(&seeds, &pid).map(|(pk, bump)| (
        address_from_bytes(&pk.to_bytes()),
        bump,
    ))
}

/// The derived address of a tenant's signing authority: no role tag, the
/// tenant's own address as the only input.
pub fn derive_crux_authority(crux: &Address, program_id: &Address) -> (r: Option<(Address, u8)>)
    ensures
        r == pda_of(""@, seq![*crux], *program_id),
{
    let mut inputs: Vec<Address> = Vec::new();
    inputs.push(*crux);
    proof {
        assert(inputs@ =~= seq![*crux]);
    }
    try_find_pda("", &inputs, program_id)
}

/// The derived address of a tenant's treasury.
pub fn derive_treasury_address(crux: &Address, program_id: &Address) -> (r: Option<(Address, u8)>)
    ensures
        r == pda_of("treasury"@, seq![*crux], *program_id),
{
    let mut inputs: Vec<Address> = Vec::new();
    inputs.push(*crux);
    proof {
        assert(inputs@ =~= seq![*crux]);
    }
    try_find_pda("treasury", &inputs, program_id)
}

/// The derived address of the profile owned by `owner` under tenant `crux`.
pub fn derive_user_profile_address(crux: &Address, owner: &Address, program_id: &Address) -> (r:
    Option<(Address, u8)>)
    ensures
        r == pda_of("user_profile"@, seq![*crux, *owner], *program_id),
{
    let mut inputs: Vec<Address> = Vec::new();
    inputs.push(*crux);
    inputs.push(*owner);
    proof {
        assert(inputs@ =~= seq![*crux, *owner]);
    }
    try_find_pda("user_profile", &inputs, program_id)
}

/// The derived address of the challenge keyed by `seed` under tenant `crux`.
pub fn derive_challenge_address(crux: &Address, seed: &Address, program_id: &Address) -> (r: Option<
    (Address, u8),
>)
    ensures
        r == pda_of("challenge"@, seq![*crux, *seed], *program_id),
{
    let mut inputs: Vec<Address> = Vec::new();
    inputs.push(*crux);
    inputs.push(*seed);
    proof {
        assert(inputs@ =~= seq![*crux, *seed]);
    }
    try_find_pda("challenge", &inputs, program_id)
}

/// The derived address of the submission a profile made to a challenge.
pub fn derive_submission_address(
    challenge: &Address,
    user_profile: &Address,
    program_id: &Address,
) -> (r: Option<(Address, u8)>)
    ensures
        r == pda_of("submission"@, seq![*challenge, *user_profile], *program_id),
{
    let mut inputs: Vec<Address> = Vec::new();
    inputs.push(*challenge);
    inputs.push(*user_profile);
    proof {
        assert(inputs@ =~= seq![*challenge, *user_profile]);
    }
    try_find_pda("submission", &inputs, program_id)
}

/// The derived address of the question a profile posted to a forum, keyed
/// by a seed address.
pub fn derive_question_address(
    forum: &Address,
    user_profile: &Address,
    seed: &Address,
    program_id: &Address,
) -> (r: Option<(Address, u8)>)
    ensures
        r == pda_of("question"@, seq![*forum, *user_profile, *seed], *program_id),
{
    let mut inputs: Vec<Address> = Vec::new();
    inputs.push(*forum);
    inputs.push(*user_profile);
    inputs.push(*seed);
    proof {
        assert(inputs@ =~= seq![*forum, *user_profile, *seed]);
    }
    try_find_pda("question", &inputs, program_id)
}

/// The derived address of the answer a profile posted to a forum, keyed by
/// a seed address.
pub fn derive_answer_address(
    forum: &Address,
    user_profile: &Address,
    seed: &Address,
    program_id: &Address,
) -> (r: Option<(Address, u8)>)
    ensures
        r == pda_of("answer"@, seq![*forum, *user_profile, *seed], *program_id),
{
    let mut inputs: Vec<Address> = Vec::new();
    inputs.push(*forum);
    inputs.push(*user_profile);
    inputs.push(*seed);
    proof {
        assert(inputs@ =~= seq![*forum, *user_profile, *seed]);
    }
    try_find_pda("answer", &inputs, program_id)
}

/// Derivation is a function of its inputs alone: any two results obtained
/// for the same role tag, owning addresses and program are identical, bump
/// seed included.
pub proof fn lemma_derivation_deterministic(
    tag: Seq<char>,
    inputs: Seq<Address>,
    program: Address,
    r1: Option<(Address, u8)>,
    r2: Option<(Address, u8)>,
)
    requires
        r1 == pda_of(tag, inputs, program),
        r2 == pda_of(tag, inputs, program),
    ensures
        r1 == r2,
{
}

} // verus!
