use vstd::prelude::*;

use crate::layer::{
    add_round_key, add_round_key_spec, byte_sub_mut, mix_columns_spec, shift_rows_spec,
    state_view, sub_bytes_spec, LayerInput, PermuationLayer,
};
use crate::scheduler::{aes_key_schedule, expanded_key};

verus! {

/// The failures the cipher core can report: a key that is not exactly
/// 16 bytes long is the only one.
#[derive(Clone, Copy, Debug, PartialEq, Eq, Structural)]
pub enum AesError {
    InvalidKeyLength,
}

/// Byte `i` of a 32-bit word, counting byte 0 as the most significant.
pub open spec fn word_byte(w: u32, i: int) -> u8 {
    if i == 0 {
        (w >> 24u32) as u8
    } else if i == 1 {
        (w >> 16u32) as u8
    } else if i == 2 {
        (w >> 8u32) as u8
    } else {
        w as u8
    }
}

/// The round key of round `r`, as a 4x4 matrix in the state layout:
/// schedule word 4r + c fills column c, most significant byte on top.
pub open spec fn round_key_state(w: Seq<u32>, r: int) -> Seq<Seq<u8>> {
    Seq::new(4, |row: int| Seq::new(4, |col: int| word_byte(w[4 * r + col], row)))
}

/// The state model after the pre-whitening and the first `r` rounds of the
/// cipher: round 0 is AddRoundKey alone; rounds 1 to 9 are SubBytes,
/// ShiftRows, MixColumns, AddRoundKey; round 10 omits MixColumns.
pub open spec fn state_after_round(s0: Seq<Seq<u8>>, w: Seq<u32>, r: nat) -> Seq<Seq<u8>>
    decreases r,
{
    if r == 0 {
        add_round_key_spec(s0, round_key_state(w, 0))
    } else {
        let prev = state_after_round(s0, w, (r - 1) as nat);
        if r < 10 {
            add_round_key_spec(
                mix_columns_spec(shift_rows_spec(sub_bytes_spec(prev))),
                round_key_state(w, r as int),
            )
        } else {
            add_round_key_spec(shift_rows_spec(sub_bytes_spec(prev)), round_key_state(w, r as int))
        }
    }
}

/// The full ten-round cipher on the state model.
pub open spec fn encrypt_state_spec(s0: Seq<Seq<u8>>, w: Seq<u32>) -> Seq<Seq<u8>> {
    state_after_round(s0, w, 10)
}

/// A 16-byte block loaded column by column: byte `b` sits at row
/// `b mod 4`, column `b div 4`.
pub open spec fn block_to_state(block: Seq<u8>) -> Seq<Seq<u8>> {
    Seq::new(4, |r: int| Seq::new(4, |c: int| block[4 * c + r]))
}

/// The state read back out in the same column-major order.
pub open spec fn state_to_block(s: Seq<Seq<u8>>) -> Seq<u8> {
    Seq::new(16, |b: int| s[b % 4][b / 4])
}

/// The ciphertext block that `plaintext` encrypts to under the schedule
/// `w`: load, run the ten rounds, read back.
pub open spec fn encrypt_block_spec(plaintext: Seq<u8>, w: Seq<u32>) -> Seq<u8> {
    state_to_block(encrypt_state_spec(block_to_state(plaintext), w))
}

/// Builds the 4x4 round-key matrix of round `round` from the schedule.
fn round_key_matrix(w: &[u32; 44], round: usize) -> (m: LayerInput)
    requires
        round < 11,
    ensures
        state_view(m) == round_key_state(w@, round as int),
{
    let mut m: LayerInput = [[0; 4]; 4];
    for col in 0..4usize
        invariant
            round < 11,
            forall|r: int, c: int|
                0 <= r < 4 && 0 <= c < col ==> m[r][c] == word_byte(w@[4 * (round as int) + c], r),
    {
        let word = w[4 * round + col];
        m[0][col] = (word >> 24u32) as u8;
        m[1][col] = (word >> 16u32) as u8;
        m[2][col] = (word >> 8u32) as u8;
        m[3][col] = word as u8;
    }
    assert(state_view(m) =~~= round_key_state(w@, round as int));
    m
}

/// Runs the ten-round pipeline on a loaded state under a full schedule.
pub(crate) fn encrypt_state(state: &mut LayerInput, round_keys: &[u32; 44])
    ensures
        state_view(*final(state)) == encrypt_state_spec(state_view(*old(state)), round_keys@),
{
    let ghost s0 = state_view(*old(state));
    let perm_layer = PermuationLayer {};

    let rk0 = round_key_matrix(round_keys, 0);
    add_round_key(state, &rk0);

    for round in 1..10usize
        invariant
            state_view(*state) == state_after_round(s0, round_keys@, (round - 1) as nat),
    {
        perm_layer.foward(state);
        let rk = round_key_matrix(round_keys, round);
        add_round_key(state, &rk);
    }

    byte_sub_mut(state);
    perm_layer.shift_rows(state);
    let rk10 = round_key_matrix(round_keys, 10);
    add_round_key(state, &rk10);
}

/// Loads a 16-byte block into the 4x4 state, column by column.
fn load_block(block: &[u8; 16]) -> (s: LayerInput)
    ensures
        state_view(s) == block_to_state(block@),
{
    let mut s: LayerInput = [[0; 4]; 4];
    for c in 0..4usize
        invariant
            forall|r: int, j: int| 0 <= r < 4 && 0 <= j < c ==> s[r][j] == block@[4 * j + r],
    {
        s[0][c] = block[4 * c];
        s[1][c] = block[4 * c + 1];
        s[2][c] = block[4 * c + 2];
        s[3][c] = block[4 * c + 3];
    }
    assert(state_view(s) =~~= block_to_state(block@));
    s
}

/// Reads the 4x4 state back out into a 16-byte block, column by column.
fn store_block(s: &LayerInput) -> (block: [u8; 16])
    ensures
        block@ == state_to_block(state_view(*s)),
{
    let mut block: [u8; 16] = [0; 16];
    for c in 0..4usize
        invariant
            forall|b: int| 0 <= b < 4 * c ==> block@[b] == s[b % 4][b / 4],
    {
        block[4 * c] = s[0][c];
        block[4 * c + 1] = s[1][c];
        block[4 * c + 2] = s[2][c];
        block[4 * c + 3] = s[3][c];
    }
    assert(block@ =~= state_to_block(state_view(*s)));
    block
}

/// Encrypts one 16-byte block under an expanded key schedule: load the
/// block column-major, pre-whiten with round key 0, run rounds 1 to 9 in
/// full, run round 10 without MixColumns, read the ciphertext back.
pub fn encrypt_block(round_keys: &[u32; 44], plaintext: &[u8; 16]) -> (ciphertext: [u8; 16])
    ensures
        ciphertext@ == encrypt_block_spec(plaintext@, round_keys@),
{
    let mut state = load_block(plaintext);
    encrypt_state(&mut state, round_keys);
    store_block(&state)
}

/// Expands a key to the 44-word AES-128 schedule; a key of any length
/// other than 16 bytes is rejected with `InvalidKeyLength`.
pub fn expand_key(key: &[u8]) -> (r: Result<[u32; 44], AesError>)
    ensures
        r is Ok <==> key@.len() == 16,
        r is Ok ==> r->Ok_0@ == expanded_key(key@),
        r is Err ==> r->Err_0 == AesError::InvalidKeyLength,
{
    if key.len() != 16 {
        return Err(AesError::InvalidKeyLength);
    }
    let mut fixed: [u8; 16] = [0; 16];
    for i in 0..16usize
        invariant
            key@.len() == 16,
            forall|j: int| 0 <= j < i ==> fixed@[j] == key@[j],
    {
        fixed[i] = key[i];
    }
    proof {
        assert(fixed@ =~= key@);
    }
    Ok(aes_key_schedule(&fixed))
}

} // verus!
