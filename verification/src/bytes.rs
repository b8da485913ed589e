use vstd::prelude::*;

verus! {

/// The little-endian `u32` whose bytes start at `at` in `s`.
pub open spec fn le_u32(s: Seq<u8>, at: int) -> u32 {
    (s[at] as int + s[at + 1] as int * 0x100 + s[at + 2] as int * 0x1_0000 + s[at + 3] as int
        * 0x100_0000) as u32
}

/// The little-endian `u64` whose bytes start at `at` in `s`.
pub open spec fn le_u64(s: Seq<u8>, at: int) -> u64 {
    (le_u32(s, at) as int + le_u32(s, at + 4) as int * 0x1_0000_0000) as u64
}

/// The 8 little-endian bytes of `v`, least significant first.
pub open spec fn u64_le_bytes(v: u64) -> Seq<u8> {
    seq![
        (v & 0xff) as u8,
        ((v >> 8) & 0xff) as u8,
        ((v >> 16) & 0xff) as u8,
        ((v >> 24) & 0xff) as u8,
        ((v >> 32) & 0xff) as u8,
        ((v >> 40) & 0xff) as u8,
        ((v >> 48) & 0xff) as u8,
        ((v >> 56) & 0xff) as u8,
    ]
}

/// A little-endian `u32` is the sum of its bytes weighted by powers of 256.
pub proof fn lemma_le_u32_is_byte_sum(s: Seq<u8>, at: int)
    requires
        0 <= at,
        at + 4 <= s.len(),
    ensures
        le_u32(s, at) as int == s[at] as int + s[at + 1] as int * 0x100 + s[at + 2] as int
            * 0x1_0000 + s[at + 3] as int * 0x100_0000,
{
}

/// A little-endian `u64` is the sum of its bytes weighted by powers of 256:
/// every byte counts, the high ones included.
pub proof fn lemma_le_u64_is_byte_sum(s: Seq<u8>, at: int)
    requires
        0 <= at,
        at + 8 <= s.len(),
    ensures
        le_u64(s, at) as int == s[at] as int + s[at + 1] as int * 0x100 + s[at + 2] as int
            * 0x1_0000 + s[at + 3] as int * 0x100_0000 + s[at + 4] as int * 0x1_0000_0000
            + s[at + 5] as int * 0x100_0000_0000 + s[at + 6] as int * 0x1_0000_0000_0000
            + s[at + 7] as int * 0x100_0000_0000_0000,
{
    lemma_le_u32_is_byte_sum(s, at);
    lemma_le_u32_is_byte_sum(s, at + 4);
}

/// Reading the 8 little-endian bytes of any `u64` gives that `u64` back.
pub proof fn lemma_le_u64_of_bytes(v: u64)
    ensures
        le_u64(u64_le_bytes(v), 0) == v,
{
    let s = u64_le_bytes(v);
    lemma_le_u64_is_byte_sum(s, 0);
    assert((v & 0xff) < 256 && ((v >> 8) & 0xff) < 256 && ((v >> 16) & 0xff) < 256 && ((v >> 24)
        & 0xff) < 256 && ((v >> 32) & 0xff) < 256 && ((v >> 40) & 0xff) < 256 && ((v >> 48)
        & 0xff) < 256 && ((v >> 56) & 0xff) < 256) by (bit_vector);
    assert((v & 0xff) + ((v >> 8) & 0xff) * 0x100 + ((v >> 16) & 0xff) * 0x1_0000 + ((v >> 24)
        & 0xff) * 0x100_0000 + ((v >> 32) & 0xff) * 0x1_0000_0000 + ((v >> 40) & 0xff)
        * 0x100_0000_0000 + ((v >> 48) & 0xff) * 0x1_0000_0000_0000 + ((v >> 56) & 0xff)
        * 0x100_0000_0000_0000 == v) by (bit_vector);
}

/// Reads the little-endian `u32` at `at` of `bytes`.
pub fn read_u32_le(bytes: &[u8], at: usize) -> (r: u32)
    requires
        at + 4 <= bytes@.len(),
    ensures
        r == le_u32(bytes@, at as int),
{
    let b0 = bytes[at] as u32;
    let b1 = bytes[at + 1] as u32;
    let b2 = bytes[at + 2] as u32;
    let b3 = bytes[at + 3] as u32;
    b0 + b1 * 0x100 + b2 * 0x1_0000 + b3 * 0x100_0000
}

/// Reads the little-endian `u64` at `at` of `bytes`.
pub fn read_u64_le(bytes: &[u8], at: usize) -> (r: u64)
    requires
        at + 8 <= bytes@.len(),
    ensures
        r == le_u64(bytes@, at as int),
{
    let len = bytes.len();
    assert(at + 4 <= len);
    let lo = read_u32_le(bytes, at) as u64;
    let hi = read_u32_le(bytes, at + 4) as u64;
    lo + hi * 0x1_0000_0000
}

} // verus!
