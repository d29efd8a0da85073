//! Selector computation: the first four bytes of the Keccak-256 digest of a
//! signature, rendered as eight lowercase hex characters, and the same four
//! bytes packed big-endian into a `u32` used as the registry key.

use vstd::prelude::*;

verus! {

/// The Keccak-256 digest of the UTF-8 bytes of a string, as a byte sequence.
/// The digest is a function of the characters alone.
pub uninterp spec fn keccak256_of(s: Seq<char>) -> Seq<u8>;

/// Relies on tiny_keccak's `Keccak::v256`, `Hasher::update` and
/// `Hasher::finalize`: a 32-byte digest computed from the input bytes alone.
#[verifier::external_body]
fn keccak256(s: &str) -> (r: Vec<u8>)
    ensures
        r@ == keccak256_of(s@),
        r@.len() == 32,
{
    let mut state = tiny_keccak::Keccak::v256();
    let mut out = [0u8; 32];
    tiny_keccak::Hasher::update(&mut state, s.as_bytes());
    tiny_keccak::Hasher::finalize(state, &mut out);
    out.to_vec()
}

/// The lowercase hex character of a value below 16.
pub open spec fn hex_char_of_nibble(n: u8) -> char {
    if n == 0 {
        '0'
    } else if n == 1 {
        '1'
    } else if n == 2 {
        '2'
    } else if n == 3 {
        '3'
    } else if n == 4 {
        '4'
    } else if n == 5 {
        '5'
    } else if n == 6 {
        '6'
    } else if n == 7 {
        '7'
    } else if n == 8 {
        '8'
    } else if n == 9 {
        '9'
    } else if n == 10 {
        'a'
    } else if n == 11 {
        'b'
    } else if n == 12 {
        'c'
    } else if n == 13 {
        'd'
    } else if n == 14 {
        'e'
    } else {
        'f'
    }
}

/// Lowercase hex encoding: two characters per byte, high nibble first.
pub open spec fn hex_of(bytes: Seq<u8>) -> Seq<char> {
    Seq::new(
        2 * bytes.len(),
        |i: int|
            if i % 2 == 0 {
                hex_char_of_nibble(bytes[i / 2] / 16)
            } else {
                hex_char_of_nibble(bytes[i / 2] % 16)
            },
    )
}

/// Relies on hex::encode: two lowercase hex digits per input byte, high
/// nibble first, in input order.
#[verifier::external_body]
fn hex_encode(bytes: &[u8]) -> (r: String)
    ensures
        r@ == hex_of(bytes@),
{
    hex::encode(bytes)
}

/// The first four digest bytes of a signature.
pub open spec fn spec_selector_bytes(sig: Seq<char>) -> Seq<u8> {
    keccak256_of(sig).take(4)
}

/// The selector of a signature: its first four digest bytes in lowercase hex.
pub open spec fn spec_selector(sig: Seq<char>) -> Seq<char> {
    hex_of(spec_selector_bytes(sig))
}

/// Four bytes packed big-endian into one integer.
pub open spec fn be_u32_of(b: Seq<u8>) -> int {
    b[0] * 0x1000000 + b[1] * 0x10000 + b[2] * 0x100 + b[3]
}

/// The registry key of a signature: its first four digest bytes packed
/// big-endian.  Two signatures have the same key exactly when they have the
/// same selector.
pub open spec fn spec_selector_key(sig: Seq<char>) -> int {
    be_u32_of(spec_selector_bytes(sig))
}

/// The selector of a signature together with its registry key.
pub fn selector_and_key_of(sig: &str) -> (r: (String, u32))
    ensures
        r.0@ == spec_selector(sig@),
        r.1 as int == spec_selector_key(sig@),
        keccak256_of(sig@).len() == 32,
        r.0@.len() == 8,
{
    let digest = keccak256(sig);
    let first4 = vstd::slice::slice_subrange(digest.as_slice(), 0, 4);
    assert(first4@ =~= spec_selector_bytes(sig@));
    let b0 = first4[0];
    let b1 = first4[1];
    let b2 = first4[2];
    let b3 = first4[3];
    let key: u32 = (b0 as u32) * 0x1000000 + (b1 as u32) * 0x10000 + (b2 as u32) * 0x100 + (
    b3 as u32);
    let selector = hex_encode(first4);
    (selector, key)
}

/// The selector of a signature, as eight lowercase hex characters.
pub fn selector_of(sig: &str) -> (r: String)
    ensures
        r@ == spec_selector(sig@),
        r@.len() == 8,
{
    let (selector, _key) = selector_and_key_of(sig);
    selector
}

/// Law: hashing is deterministic.  The selector and the registry key are
/// functions of the signature's characters alone, so hashing equal
/// signature strings always yields equal selectors and equal keys.
pub proof fn lemma_selector_deterministic(s1: Seq<char>, s2: Seq<char>)
    requires
        s1 == s2,
    ensures
        spec_selector(s1) == spec_selector(s2),
        spec_selector_key(s1) == spec_selector_key(s2),
{
}

/// A byte is determined by its two nibbles.
proof fn lemma_byte_from_nibbles(a: u8, b: u8)
    requires
        a / 16 == b / 16,
        a % 16 == b % 16,
    ensures
        a == b,
{
    assert(a == 16 * (a / 16) + a % 16) by (nonlinear_arith);
    assert(b == 16 * (b / 16) + b % 16) by (nonlinear_arith);
}

/// Distinct values below 16 have distinct hex characters.
proof fn lemma_nibble_injective(m: u8, n: u8)
    requires
        m < 16,
        n < 16,
        hex_char_of_nibble(m) == hex_char_of_nibble(n),
    ensures
        m == n,
{
}

/// Hex encoding is injective: equal encodings come from equal byte
/// sequences.
pub proof fn lemma_hex_of_injective(a: Seq<u8>, b: Seq<u8>)
    requires
        hex_of(a) == hex_of(b),
    ensures
        a =~= b,
{
    assert(hex_of(a).len() == 2 * a.len());
    assert(hex_of(b).len() == 2 * b.len());
    assert(a.len() == b.len());
    assert forall|k: int| 0 <= k < a.len() implies a[k] == b[k] by {
        assert((2 * k) % 2 == 0 && (2 * k) / 2 == k);
        assert((2 * k + 1) % 2 == 1 && (2 * k + 1) / 2 == k);
        assert(hex_of(a)[2 * k] == hex_char_of_nibble(a[k] / 16));
        assert(hex_of(b)[2 * k] == hex_char_of_nibble(b[k] / 16));
        assert(hex_of(a)[2 * k + 1] == hex_char_of_nibble(a[k] % 16));
        assert(hex_of(b)[2 * k + 1] == hex_char_of_nibble(b[k] % 16));
        assert(hex_char_of_nibble(a[k] / 16) == hex_char_of_nibble(b[k] / 16));
        assert(hex_char_of_nibble(a[k] % 16) == hex_char_of_nibble(b[k] % 16));
        assert(a[k] / 16 < 16 && b[k] / 16 < 16);
        lemma_nibble_injective(a[k] / 16, b[k] / 16);
        lemma_nibble_injective(a[k] % 16, b[k] % 16);
        lemma_byte_from_nibbles(a[k], b[k]);
    }
}

/// Signatures with distinct registry keys have distinct selectors: the key
/// and the selector are both determined by the same four digest bytes.
pub proof fn lemma_distinct_keys_distinct_selectors(s1: Seq<char>, s2: Seq<char>)
    requires
        keccak256_of(s1).len() >= 4,
        keccak256_of(s2).len() >= 4,
        spec_selector_key(s1) != spec_selector_key(s2),
    ensures
        spec_selector(s1) != spec_selector(s2),
{
    if spec_selector(s1) == spec_selector(s2) {
        lemma_hex_of_injective(spec_selector_bytes(s1), spec_selector_bytes(s2));
        assert(spec_selector_bytes(s1) == spec_selector_bytes(s2));
    }
}

} // verus!
