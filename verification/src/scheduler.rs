use vstd::prelude::*;

use crate::constants::{s_box_byte, RCON, S_BOX};

verus! {

/// A 32-bit word from four bytes, most significant byte first.
pub open spec fn be_word(b0: u8, b1: u8, b2: u8, b3: u8) -> u32 {
    ((b0 as u32) << 24) | ((b1 as u32) << 16) | ((b2 as u32) << 8) | (b3 as u32)
}

/// The word cyclically rotated left by one byte.
pub open spec fn rot_word_spec(word: u32) -> u32 {
    (word << 8) | (word >> 24)
}

/// The S-Box applied to each of the word's four bytes independently.
pub open spec fn sub_word_spec(word: u32) -> u32 {
    (s_box_byte(word as u8) as u32) | ((s_box_byte((word >> 8) as u8) as u32) << 8) | ((s_box_byte(
        (word >> 16) as u8,
    ) as u32) << 16) | ((s_box_byte((word >> 24) as u8) as u32) << 24)
}

/// Word `i` of the expanded AES-128 key schedule: words 0 to 3 are the key
/// itself, big-endian; from there on word i is word i-4 XOR word i-1, the
/// latter first rotated, substituted and folded with a round constant
/// whenever i is a multiple of four.
pub open spec fn key_word(key: Seq<u8>, i: int) -> u32
    recommends
        key.len() == 16,
        0 <= i < 44,
    decreases i,
{
    if i <= 3 {
        be_word(key[4 * i], key[4 * i + 1], key[4 * i + 2], key[4 * i + 3])
    } else {
        let prev = key_word(key, i - 1);
        let temp = if i % 4 == 0 {
            sub_word_spec(rot_word_spec(prev)) ^ ((RCON[i / 4 - 1] as u32) << 24)
        } else {
            prev
        };
        key_word(key, i - 4) ^ temp
    }
}

/// The whole 44-word schedule that a 16-byte key expands to.
pub open spec fn expanded_key(key: Seq<u8>) -> Seq<u32> {
    Seq::new(44, |i: int| key_word(key, i))
}

/// Substitutes one byte through the S-Box: the entry at row `high
/// nibble`, column `low nibble`.
pub fn s_box_substitution(byte: u8) -> (r: u8)
    ensures
        r == s_box_byte(byte),
{
    let row = (byte >> 4) as usize;
    let col = (byte & 0x0f) as usize;
    proof {
        assert(byte >> 4 < 16 && byte & 0x0f < 16) by (bit_vector);
    }
    S_BOX[row][col]
}

/// Cyclically rotates the word left by 8 bits (one byte).
pub fn rot_word(word: u32) -> (r: u32)
    ensures
        r == rot_word_spec(word),
{
    return (word << 8) | (word >> 24);
}

/// Applies the S-Box to each of the word's four bytes independently.
pub fn sub_word(word: u32) -> (r: u32)
    ensures
        r == sub_word_spec(word),
{
    let b0 = s_box_substitution(word as u8);
    let b1 = s_box_substitution((word >> 8) as u8);
    let b2 = s_box_substitution((word >> 16) as u8);
    let b3 = s_box_substitution((word >> 24) as u8);
    (b0 as u32) | ((b1 as u32) << 8) | ((b2 as u32) << 16) | ((b3 as u32) << 24)
}

/// Expands a 16-byte key into the 44 words of the AES-128 key schedule.
pub fn aes_key_schedule(key: &[u8; 16]) -> (w: [u32; 44])
    ensures
        w@ == expanded_key(key@),
{
    let mut w: [u32; 44] = [0; 44];

    for i in 0..4usize
        invariant
            forall|j: int| 0 <= j < i ==> w@[j] == key_word(key@, j),
    {
        w[i] = ((key[4 * i] as u32) << 24) | ((key[4 * i + 1] as u32) << 16) | ((key[4 * i
            + 2] as u32) << 8) | (key[4 * i + 3] as u32);
    }

    for i in 4..44usize
        invariant
            forall|j: int| 0 <= j < i ==> w@[j] == key_word(key@, j),
    {
        let mut temp = w[i - 1];
        if i % 4 == 0 {
            temp = sub_word(rot_word(temp)) ^ ((RCON[i / 4 - 1] as u32) << 24);
        }
        w[i] = w[i - 4] ^ temp;
    }

    proof {
        assert(w@ =~= expanded_key(key@));
    }
    return w;
}

/// Key expansion is deterministic: it is a function of the key bytes
/// alone, so equal keys expand to equal schedules.
pub proof fn lemma_key_schedule_deterministic(k1: Seq<u8>, k2: Seq<u8>)
    requires
        k1 == k2,
    ensures
        expanded_key(k1) == expanded_key(k2),
{
}

} // verus!
