use vstd::prelude::*;

verus! {

/// The keys that the game XORs player health with, as 64 key bytes taken
/// little-endian from these words.
pub const HEALTH_XOR_KEYS: [u32; 16] = [
    0xCEC7A59F,
    0x9B63B23E,
    0xCAF75ABD,
    0x3E38486F,
    0xE8911D0A,
    0x23DDAD1C,
    0x9456FC8,
    0xBD39B621,
    0xBAD7A58,
    0xA8EF3E87,
    0xE2752BB6,
    0x9F8ADBF4,
    0xBDE8FBD5,
    0x3E936F07,
    0x6F099E38,
    0xE2D72AE4,
];

/// Key byte `j` (0 to 63) of the health key stream.
pub open spec fn health_key_byte(j: int) -> u8 {
    ((HEALTH_XOR_KEYS@[j / 4] >> ((8 * (j % 4)) as u32)) & 0xff) as u8
}

/// `value` with its first `n` bytes decrypted by the key stream starting at
/// key byte `offset`, and the rest left as it is.
pub open spec fn decrypt_health_prefix(value: Seq<u8>, offset: int, n: int) -> Seq<u8> {
    Seq::new(
        value.len(),
        |i: int|
            if i < n {
                value[i] ^ health_key_byte((i + offset) % 64)
            } else {
                value[i]
            },
    )
}

/// `value` decrypted with the key stream starting at key byte `offset`.
pub open spec fn decrypt_health_bytes(value: Seq<u8>, offset: int) -> Seq<u8> {
    decrypt_health_prefix(value, offset, value.len() as int)
}

/// How many bytes of a value of `len` bytes the decryption covers: the
/// length taken as a `u32`.
pub open spec fn decrypted_len(len: nat) -> int {
    len as int % 0x1_0000_0000
}

fn key_byte(j: usize) -> (r: u8)
    requires
        j < 64,
    ensures
        r == health_key_byte(j as int),
{
    let word = HEALTH_XOR_KEYS[j / 4];
    ((word >> ((8 * (j % 4)) as u32)) & 0xff) as u8
}

/// Reports the players around the local player.
pub struct PlayerSpyer {}

impl PlayerSpyer {
    pub fn new() -> (r: PlayerSpyer) {
        PlayerSpyer {  }
    }

    /// Decrypts the bytes of an encrypted health value in place: byte `i` is
    /// XORed with key byte `(i + offset) mod 64`, for the first `len` bytes,
    /// `len` being the length taken as a `u32`.
    pub fn decrypt_player_health(&self, value: &mut [u8], offset: u32)
        requires
            decrypted_len(old(value)@.len()) == 0 || decrypted_len(old(value)@.len()) + offset
                <= u32::MAX + 1,
        ensures
            final(value)@ == decrypt_health_prefix(
                old(value)@,
                offset as int,
                decrypted_len(old(value)@.len()),
            ),
    {
        let len64: u64 = value.len() as u64;
        let size = #[verifier::truncate] (len64 as u32);
        assert(size == len64 % 0x1_0000_0000) by (bit_vector)
            requires
                size == #[verifier::truncate] (len64 as u32),
        ;
        let mut i: usize = 0;
        while i < size as usize
            invariant
                size == decrypted_len(old(value)@.len()),
                size == 0 || size + offset <= u32::MAX + 1,
                size <= old(value)@.len(),
                i <= size,
                value@.len() == old(value)@.len(),
                forall|k: int|
                    0 <= k < i ==> value@[k] == old(value)@[k] ^ health_key_byte((k + offset) % 64),
                forall|k: int| i <= k < old(value)@.len() ==> value@[k] == old(value)@[k],
            decreases size - i,
        {
            let sum: u32 = i as u32 + offset;
            let idx: usize = (sum as usize) & 0x3F;
            assert((sum as usize) & 0x3F == (sum as usize) % 64) by (bit_vector);
            let k = key_byte(idx);
            value[i] = value[i] ^ k;
            i = i + 1;
        }
        assert(value@ =~= decrypt_health_prefix(old(value)@, offset as int, size as int));
    }
}

/// The 16 key words, in order.
pub proof fn lemma_health_key_words()
    ensures
        HEALTH_XOR_KEYS@ == seq![
            0xCEC7A59Fu32,
            0x9B63B23E,
            0xCAF75ABD,
            0x3E38486F,
            0xE8911D0A,
            0x23DDAD1C,
            0x9456FC8,
            0xBD39B621,
            0xBAD7A58,
            0xA8EF3E87,
            0xE2752BB6,
            0x9F8ADBF4,
            0xBDE8FBD5,
            0x3E936F07,
            0x6F099E38,
            0xE2D72AE4,
        ],
{
}

/// The key stream is the 16 key words laid out little-endian, as they lie in
/// memory: decrypting four zero bytes at key offset `4 * k` gives the bytes of
/// key word `k`, least significant first, so that they add up to the word.
pub proof fn lemma_key_stream_is_little_endian(k: int)
    requires
        0 <= k < 16,
    ensures
        ({
            let d = decrypt_health_bytes(seq![0u8, 0u8, 0u8, 0u8], 4 * k);
            d[0] as int + d[1] as int * 0x100 + d[2] as int * 0x1_0000 + d[3] as int * 0x100_0000
                == HEALTH_XOR_KEYS@[k] as int
        }),
        health_key_byte(4 * k) as int + health_key_byte(4 * k + 1) as int * 0x100 + health_key_byte(
            4 * k + 2,
        ) as int * 0x1_0000 + health_key_byte(4 * k + 3) as int * 0x100_0000
            == HEALTH_XOR_KEYS@[k] as int,
{
    let w: u32 = HEALTH_XOR_KEYS@[k];
    assert((4 * k) / 4 == k && (4 * k + 1) / 4 == k && (4 * k + 2) / 4 == k && (4 * k + 3) / 4 == k);
    assert((4 * k) % 4 == 0 && (4 * k + 1) % 4 == 1 && (4 * k + 2) % 4 == 2 && (4 * k + 3) % 4 == 3);
    assert(health_key_byte(4 * k) == ((w >> 0u32) & 0xff) as u8);
    assert(health_key_byte(4 * k + 1) == ((w >> 8u32) & 0xff) as u8);
    assert(health_key_byte(4 * k + 2) == ((w >> 16u32) & 0xff) as u8);
    assert(health_key_byte(4 * k + 3) == ((w >> 24u32) & 0xff) as u8);
    assert(((w >> 0u32) & 0xff) as u8 as int + ((w >> 8u32) & 0xff) as u8 as int * 0x100 + ((w
        >> 16u32) & 0xff) as u8 as int * 0x1_0000 + ((w >> 24u32) & 0xff) as u8 as int * 0x100_0000
        == w as int) by (bit_vector);
    let d = decrypt_health_bytes(seq![0u8, 0u8, 0u8, 0u8], 4 * k);
    assert forall|b: int| 0 <= b < 4 implies #[trigger] d[b] == health_key_byte(4 * k + b) by {
        let x = health_key_byte((b + 4 * k) % 64);
        assert(0u8 ^ x == x) by (bit_vector);
        assert((b + 4 * k) % 64 == 4 * k + b);
    }
    assert(d[0] == health_key_byte(4 * k) && d[1] == health_key_byte(4 * k + 1) && d[2]
        == health_key_byte(4 * k + 2) && d[3] == health_key_byte(4 * k + 3));
}

/// Decrypting twice with the same offset gives the original bytes back, for
/// any length and however many bytes the decryption covers.
pub proof fn lemma_decrypt_health_involution(value: Seq<u8>, offset: int, n: int)
    ensures
        decrypt_health_prefix(decrypt_health_prefix(value, offset, n), offset, n) == value,
        decrypt_health_bytes(decrypt_health_bytes(value, offset), offset) == value,
{
    let once = decrypt_health_prefix(value, offset, n);
    let twice = decrypt_health_prefix(once, offset, n);
    assert forall|i: int| 0 <= i < value.len() implies twice[i] == value[i] by {
        let x = value[i];
        let k = health_key_byte((i + offset) % 64);
        assert(x ^ k ^ k == x) by (bit_vector);
    }
    assert(twice =~= value);
    let once_all = decrypt_health_bytes(value, offset);
    let twice_all = decrypt_health_bytes(once_all, offset);
    assert forall|i: int| 0 <= i < value.len() implies twice_all[i] == value[i] by {
        let x = value[i];
        let k = health_key_byte((i + offset) % 64);
        assert(x ^ k ^ k == x) by (bit_vector);
    }
    assert(twice_all =~= value);
}

} // verus!
