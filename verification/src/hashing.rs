//! Table-specific hash functions.

use vstd::prelude::*;
use crate::text::{chars_equal, chars_of};

verus! {

/// FNV-1a 32-bit offset basis.
pub const FNV_OFFSET_BASIS: u32 = 0x811C9DC5;

/// FNV-1a 32-bit prime.
pub const FNV_PRIME: u32 = 0x01000193;

/// One FNV-1a round: xor the byte into the state, then multiply by the prime
/// modulo 2^32.
pub open spec fn fnv1a_32_step(h: u32, byte: u8) -> u32 {
    (((h ^ (byte as u32)) as nat * FNV_PRIME as nat) % 0x1_0000_0000) as u32
}

/// FNV-1a over 32 bits of a byte sequence, folding from the left.
pub open spec fn spec_fnv1a_32(bytes: Seq<u8>) -> u32
    decreases bytes.len(),
{
    if bytes.len() == 0 {
        FNV_OFFSET_BASIS
    } else {
        fnv1a_32_step(spec_fnv1a_32(bytes.drop_last()), bytes.last())
    }
}

/// Computes the FNV-1a 32-bit hash of `bytes`.
pub fn fnv1a_32(bytes: &[u8]) -> (h: u32)
    ensures
        h == spec_fnv1a_32(bytes@),
{
    let mut h: u32 = FNV_OFFSET_BASIS;
    let mut i: usize = 0;
    while i < bytes.len()
        invariant
            i <= bytes.len(),
            h == spec_fnv1a_32(bytes@.take(i as int)),
        decreases bytes.len() - i,
    {
        assert(bytes@.take(i + 1).drop_last() =~= bytes@.take(i as int));
        h = (h ^ (bytes[i] as u32)).wrapping_mul(FNV_PRIME);
        i = i + 1;
    }
    assert(bytes@.take(i as int) =~= bytes@);
    h
}

/// The two hash tables the service keeps.
#[derive(Clone, Copy, Debug, PartialEq, Eq, Structural)]
pub enum HashtableType {
    Game,
    Bin,
}

/// The table that a name selects, if any: `"game"` or `"bin"`, exactly.
pub open spec fn spec_parse_table(name: Seq<char>) -> Option<HashtableType> {
    if name == "game"@ {
        Some(HashtableType::Game)
    } else if name == "bin"@ {
        Some(HashtableType::Bin)
    } else {
        None
    }
}

impl HashtableType {
    /// The name that selects the table.
    pub open spec fn spec_name(self) -> Seq<char> {
        match self {
            HashtableType::Game => "game"@,
            HashtableType::Bin => "bin"@,
        }
    }

    /// The name that selects the table.
    pub fn name(&self) -> (r: &'static str)
        ensures
            r@ == self.spec_name(),
    {
        match self {
            HashtableType::Game => "game",
            HashtableType::Bin => "bin",
        }
    }

    /// Each table is selected by its own name.
    pub proof fn lemma_name_selects(self)
        ensures
            spec_parse_table(self.spec_name()) == Some(self),
    {
        reveal_strlit("game");
        reveal_strlit("bin");
        assert("game"@.len() != "bin"@.len());
    }

    /// Resolves a table name. Names other than `"game"` and `"bin"` select
    /// no table.
    pub fn parse(name: &str) -> (r: Option<HashtableType>)
        ensures
            r == spec_parse_table(name@),
    {
        let chars = chars_of(name);
        if chars_equal(chars.as_slice(), chars_of("game").as_slice()) {
            Some(HashtableType::Game)
        } else if chars_equal(chars.as_slice(), chars_of("bin").as_slice()) {
            Some(HashtableType::Bin)
        } else {
            None
        }
    }
}

/// The 64-bit xxHash of `input` under `seed`, as `xxhash_rust` computes it.
pub uninterp spec fn xxh64_of(input: Seq<u8>, seed: u64) -> u64;

/// Calls `xxhash_rust::xxh64::xxh64`. Trusted: the result is the digest that
/// the crate computes, which depends on the input bytes and the seed alone.
#[verifier::external_body]
fn xxh64_digest(input: &[u8], seed: u64) -> (h: u64)
    ensures
        h == xxh64_of(input@, seed),
{
    xxhash_rust::xxh64::xxh64(input, seed)
}

/// The lowercase form of a string, as `str::to_lowercase` produces it.
pub uninterp spec fn lowercase_of(s: Seq<char>) -> Seq<char>;

/// Calls `str::to_lowercase`. Trusted: the result is the Unicode lowercase
/// form of the argument, which depends on its characters alone.
#[verifier::external_body]
fn lowercase(s: &str) -> (r: String)
    ensures
        r@ == lowercase_of(s@),
{
    s.to_lowercase()
}

/// The hash of an already lowercased byte string in the given table:
/// xxHash64 with seed 0 for `Game`, FNV-1a-32 zero-extended for `Bin`.
pub open spec fn spec_hash_bytes(table: HashtableType, bytes: Seq<u8>) -> u64 {
    match table {
        HashtableType::Game => xxh64_of(bytes, 0),
        HashtableType::Bin => spec_fnv1a_32(bytes) as u64,
    }
}

/// The key under which `input` is stored in the given table: the table's
/// hash over the UTF-8 bytes of the lowercased input.
pub open spec fn spec_compute(table: HashtableType, input: Seq<char>) -> u64 {
    spec_hash_bytes(table, vstd::utf8::encode_utf8(lowercase_of(input)))
}

/// The key of a string depends on the table and on the characters of the
/// string alone: equal inputs have equal keys, whenever and wherever they
/// are computed.
pub proof fn lemma_compute_is_a_function(table: HashtableType, a: Seq<char>, b: Seq<char>)
    requires
        a == b,
    ensures
        spec_compute(table, a) == spec_compute(table, b),
{
}

/// A key of the bin table is a 32-bit number, zero-extended.
pub proof fn lemma_bin_key_fits_32_bits(input: Seq<char>)
    ensures
        spec_compute(HashtableType::Bin, input) <= u32::MAX,
{
}

/// Hashes bytes with the table's algorithm, without lowercasing.
pub fn hash_bytes(table: HashtableType, bytes: &[u8]) -> (h: u64)
    ensures
        h == spec_hash_bytes(table, bytes@),
{
    match table {
        HashtableType::Game => xxh64_digest(bytes, 0),
        HashtableType::Bin => fnv1a_32(bytes) as u64,
    }
}

/// Computes the key of `input` in the given table. The result is a function
/// of the table and the input alone.
pub fn compute(table: HashtableType, input: &str) -> (h: u64)
    ensures
        h == spec_compute(table, input@),
{
    let lowered = lowercase(input);
    hash_bytes(table, lowered.as_str().as_bytes())
}

} // verus!
