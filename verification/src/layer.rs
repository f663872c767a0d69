use vstd::prelude::*;

use vstd::seq_lib::lemma_multiset_commutative;

use crate::constants::s_box_byte;
use crate::scheduler::s_box_substitution;

verus! {

/// A cipher state: a 4x4 matrix of bytes, one 16-byte block.
pub type LayerInput = [[u8; 4]; 4];

/// The mathematical model of a state: four rows of four bytes.
pub open spec fn state_view(s: LayerInput) -> Seq<Seq<u8>> {
    Seq::new(4, |i: int| Seq::new(4, |j: int| s[i][j]))
}

/// A well-formed state model: exactly four rows of four bytes each.
pub open spec fn is_state(s: Seq<Seq<u8>>) -> bool {
    &&& s.len() == 4
    &&& forall|i: int| 0 <= i < 4 ==> (#[trigger] s[i]).len() == 4
}

/// Doubling in GF(2^8): multiplication by x, reduced by the field
/// polynomial x^8 + x^4 + x^3 + x + 1 when a bit is carried out.
pub open spec fn xtime(a: u8) -> u8 {
    if a & 0x80 != 0 {
        (a << 1) ^ 0x1b
    } else {
        a << 1
    }
}

/// Multiplication in GF(2^8): for every set bit k of `b`, the product
/// accumulates (by XOR, the field addition) a copy of `a` doubled k times.
pub open spec fn gf_mul(a: u8, b: u8) -> u8
    decreases b,
{
    if b == 0 {
        0
    } else {
        (if b % 2 == 1 {
            a
        } else {
            0
        }) ^ gf_mul(xtime(a), b / 2)
    }
}

/// The fixed MixColumns matrix over GF(2^8).
pub const MIX_MAT: [[u8; 4]; 4] = [
    [0x02, 0x03, 0x01, 0x01],
    [0x01, 0x02, 0x03, 0x01],
    [0x01, 0x01, 0x02, 0x03],
    [0x03, 0x01, 0x01, 0x02],
];

/// SubBytes on the model: every byte replaced by its S-Box image.
pub open spec fn sub_bytes_spec(s: Seq<Seq<u8>>) -> Seq<Seq<u8>> {
    Seq::new(4, |i: int| Seq::new(4, |j: int| s_box_byte(s[i][j])))
}

/// The column that `shift_rows` moves into row `i`, column `j`: row i is
/// cyclically rotated left by i positions, so the byte at column (j + i)
/// mod 4 arrives at column j.
pub open spec fn shift_src_col(i: int, j: int) -> int {
    (j + i) % 4
}

/// ShiftRows on the model: each row cyclically rotated as `shift_src_col`
/// says; the byte values themselves are untouched.
pub open spec fn shift_rows_spec(s: Seq<Seq<u8>>) -> Seq<Seq<u8>> {
    Seq::new(4, |i: int| Seq::new(4, |j: int| s[i][shift_src_col(i, j)]))
}

/// One entry of MixColumns: the GF(2^8) dot product of matrix row `r`
/// with column `c` of the state.
pub open spec fn mix_entry(s: Seq<Seq<u8>>, r: int, c: int) -> u8 {
    gf_mul(s[0][c], MIX_MAT[r][0]) ^ gf_mul(s[1][c], MIX_MAT[r][1]) ^ gf_mul(
        s[2][c],
        MIX_MAT[r][2],
    ) ^ gf_mul(s[3][c], MIX_MAT[r][3])
}

/// MixColumns on the model: every column multiplied by the fixed matrix.
pub open spec fn mix_columns_spec(s: Seq<Seq<u8>>) -> Seq<Seq<u8>> {
    Seq::new(4, |r: int| Seq::new(4, |c: int| mix_entry(s, r, c)))
}

/// AddRoundKey on the model: the state XORed byte by byte with a round
/// key laid out as the same 4x4 matrix.
pub open spec fn add_round_key_spec(s: Seq<Seq<u8>>, k: Seq<Seq<u8>>) -> Seq<Seq<u8>> {
    Seq::new(4, |i: int| Seq::new(4, |j: int| s[i][j] ^ k[i][j]))
}

/// Replaces every byte of the state with its S-Box image.
pub fn byte_sub_mut(state: &mut LayerInput)
    ensures
        state_view(*final(state)) == sub_bytes_spec(state_view(*old(state))),
{
    let ghost s0 = *old(state);
    for i in 0..4usize
        invariant
            forall|r: int, c: int|
                0 <= r < 4 && 0 <= c < 4 ==> state[r][c] == (if r < i {
                    s_box_byte(s0[r][c])
                } else {
                    s0[r][c]
                }),
    {
        for j in 0..4usize
            invariant
                i < 4,
                forall|r: int, c: int|
                    0 <= r < 4 && 0 <= c < 4 ==> state[r][c] == (if r < i || (r == i && c < j) {
                        s_box_byte(s0[r][c])
                    } else {
                        s0[r][c]
                    }),
        {
            let byte = state[i][j];
            let lookup = s_box_substitution(byte);
            state[i][j] = lookup;
        }
    }
    assert(state_view(*state) =~~= sub_bytes_spec(state_view(s0)));
}

/// Holds a full key schedule together with the state it works on, and
/// drives the whole encryption pipeline over them.
pub struct SubstitutionLayer {
    round_key: [u32; 44],
    state: LayerInput,
}

impl SubstitutionLayer {
    /// The model of the held state.
    pub closed spec fn state_model(self) -> Seq<Seq<u8>> {
        state_view(self.state)
    }

    /// The words of the held key schedule.
    pub closed spec fn schedule_model(self) -> Seq<u32> {
        self.round_key@
    }

    /// Pairs a key schedule with the state it will transform.
    pub fn new(round_key: [u32; 44], state: LayerInput) -> (s: Self)
        ensures
            s.state_model() == state_view(state),
            s.schedule_model() == round_key@,
    {
        SubstitutionLayer { round_key, state }
    }

    /// The held state, as a plain 4x4 matrix.
    pub fn state(&self) -> (s: LayerInput)
        ensures
            state_view(s) == self.state_model(),
    {
        self.state
    }

    /// Runs the ten-round cipher in place: the held state is XORed with
    /// round key 0, taken through the nine full rounds and the final
    /// MixColumns-free round; the schedule itself is untouched.
    pub fn foward(&mut self)
        ensures
            final(self).state_model() == crate::cipher::encrypt_state_spec(
                old(self).state_model(),
                old(self).schedule_model(),
            ),
            final(self).schedule_model() == old(self).schedule_model(),
    {
        let mut st = self.state;
        crate::cipher::encrypt_state(&mut st, &self.round_key);
        self.state = st;
    }
}

/// The empty marker type on which the round transforms hang.
pub struct PermuationLayer;

impl PermuationLayer {
    /// One full round body: SubBytes, ShiftRows, MixColumns, in that order.
    pub fn foward(&self, state: &mut LayerInput)
        ensures
            state_view(*final(state)) == mix_columns_spec(
                shift_rows_spec(sub_bytes_spec(state_view(*old(state)))),
            ),
    {
        byte_sub_mut(state);
        self.shift_rows(state);
        self.mix_columns(state);
    }

    /// The final round body: SubBytes and ShiftRows, with MixColumns
    /// deliberately omitted; returns the resulting state.
    pub fn forward_final(&self, state: &mut LayerInput) -> (r: LayerInput)
        ensures
            state_view(*final(state)) == shift_rows_spec(sub_bytes_spec(state_view(*old(state)))),
            r == *final(state),
    {
        byte_sub_mut(state);
        self.shift_rows(state);
        return *state;
    }

    /// Rotates each row cyclically to the left by its own index: row 0 is
    /// left in place, row 1 moves by one column, row 2 by two, row 3 by
    /// three.
    pub fn shift_rows(&self, state: &mut LayerInput)
        ensures
            state_view(*final(state)) == shift_rows_spec(state_view(*old(state))),
    {
        let ghost s0 = *old(state);
        let mut temp: [u8; 4] = [0; 4];

        temp[0] = state[1][0];
        state[1][0] = state[1][1];
        state[1][1] = state[1][2];
        state[1][2] = state[1][3];
        state[1][3] = temp[0];

        temp[0] = state[2][2];
        temp[1] = state[2][3];
        state[2][2] = state[2][0];
        state[2][3] = state[2][1];
        state[2][0] = temp[0];
        state[2][1] = temp[1];

        temp[0] = state[3][0];
        temp[1] = state[3][1];
        temp[2] = state[3][2];
        state[3][0] = state[3][3];
        state[3][1] = temp[0];
        state[3][2] = temp[1];
        state[3][3] = temp[2];

        assert(state_view(*state) =~~= shift_rows_spec(state_view(s0)));
    }

    /// Multiplies two field elements, scanning the bits of `b` from the
    /// lowest up while `a` is doubled once per step.
    fn galois_field_mul(&self, a: u8, b: u8) -> (r: u8)
        ensures
            r == gf_mul(a, b),
    {
        let mut p: u8 = 0;
        let mut acc = a;
        let mut rest = b;
        let mut k: usize = 0;
        proof {
            let g = gf_mul(a, b);
            assert(b >> 0u8 == b && 0u8 ^ g == g) by (bit_vector);
        }
        while k < 8
            invariant
                k <= 8,
                rest == b >> (k as u8),
                p ^ gf_mul(acc, rest) == gf_mul(a, b),
            decreases 8 - k,
        {
            let ghost p_at = p;
            let ghost acc_at = acc;
            let ghost rest_at = rest;
            if (rest & 1) != 0 {
                p ^= acc;
            }
            let hi_bit_set = acc & 0x80;
            acc <<= 1;
            if hi_bit_set != 0 {
                acc ^= 0x1b;
            }
            rest >>= 1;
            proof {
                assert(acc == xtime(acc_at));
                assert(rest_at & 1 == rest_at % 2 && rest == rest_at / 2) by (bit_vector)
                    requires
                        rest == rest_at >> 1,
                ;
                let bit_term: u8 = if rest_at % 2 == 1 {
                    acc_at
                } else {
                    0
                };
                assert(p == p_at ^ bit_term) by (bit_vector)
                    requires
                        bit_term == (if rest_at % 2 == 1 {
                            acc_at
                        } else {
                            0
                        }) && p == (if rest_at & 1 != 0 {
                            p_at ^ acc_at
                        } else {
                            p_at
                        }) && rest_at & 1 == rest_at % 2,
                ;
                if rest_at == 0 {
                    assert(bit_term == 0 && rest == 0);
                    assert(p == p_at && gf_mul(acc, 0) == 0 && gf_mul(acc_at, 0) == 0);
                    assert(p_at ^ 0u8 == p_at) by (bit_vector);
                } else {
                    assert(gf_mul(acc_at, rest_at) == bit_term ^ gf_mul(acc, rest));
                    let tail = gf_mul(acc, rest);
                    assert(p_at ^ (bit_term ^ tail) == (p_at ^ bit_term) ^ tail) by (bit_vector);
                }
                assert(rest == b >> ((k + 1) as u8)) by (bit_vector)
                    requires
                        rest_at == b >> (k as u8) && rest == rest_at >> 1 && k < 8,
                ;
            }
            k += 1;
        }
        proof {
            assert(b >> 8u8 == 0) by (bit_vector);
            assert(gf_mul(acc, 0) == 0);
            assert(p ^ 0u8 == p) by (bit_vector);
        }
        return p;
    }

    /// Multiplies every column of the state by the fixed MixColumns matrix
    /// over GF(2^8).
    pub fn mix_columns(&self, state: &mut LayerInput)
        ensures
            state_view(*final(state)) == mix_columns_spec(state_view(*old(state))),
    {
        let ghost s0 = *old(state);
        let mut result: LayerInput = [[0; 4]; 4];

        for r in 0..4usize
            invariant
                forall|i: int, j: int|
                    0 <= i < r && 0 <= j < 4 ==> result[i][j] == mix_entry(state_view(*state), i, j),
                *state == s0,
        {
            for c in 0..4usize
                invariant
                    r < 4,
                    forall|i: int, j: int|
                        0 <= i < 4 && 0 <= j < 4 && (i < r || (i == r && j < c)) ==> result[i][j]
                            == mix_entry(state_view(*state), i, j),
                    *state == s0,
            {
                let e = self.galois_field_mul(state[0][c], MIX_MAT[r][0]) ^ self.galois_field_mul(
                    state[1][c],
                    MIX_MAT[r][1],
                ) ^ self.galois_field_mul(state[2][c], MIX_MAT[r][2]) ^ self.galois_field_mul(
                    state[3][c],
                    MIX_MAT[r][3],
                );
                result[r][c] = e;
                assert(result[r as int][c as int] == mix_entry(state_view(*state), r as int, c as int));
            }
        }

        *state = result;
        assert(state_view(*state) =~~= mix_columns_spec(state_view(s0)));
    }
}

/// XORs the state byte by byte with a 16-byte round key held in the same
/// column-major 4x4 layout; the only step that brings key material in.
pub fn add_round_key(state: &mut LayerInput, round_key: &LayerInput)
    ensures
        state_view(*final(state)) == add_round_key_spec(
            state_view(*old(state)),
            state_view(*round_key),
        ),
{
    let ghost s0 = *old(state);
    for i in 0..4usize
        invariant
            forall|r: int, c: int|
                0 <= r < 4 && 0 <= c < 4 ==> state[r][c] == (if r < i {
                    s0[r][c] ^ round_key[r][c]
                } else {
                    s0[r][c]
                }),
    {
        for j in 0..4usize
            invariant
                i < 4,
                forall|r: int, c: int|
                    0 <= r < 4 && 0 <= c < 4 ==> state[r][c] == (if r < i || (r == i && c < j) {
                        s0[r][c] ^ round_key[r][c]
                    } else {
                        s0[r][c]
                    }),
        {
            let x = state[i][j] ^ round_key[i][j];
            state[i][j] = x;
        }
    }
    assert(state_view(*state) =~~= add_round_key_spec(state_view(s0), state_view(*round_key)));
}

/// Applying AddRoundKey twice with the same round key gives the original
/// state back: XOR with the key is its own inverse.
pub proof fn lemma_add_round_key_involution(s: Seq<Seq<u8>>, k: Seq<Seq<u8>>)
    requires
        is_state(s),
        is_state(k),
    ensures
        add_round_key_spec(add_round_key_spec(s, k), k) == s,
{
    assert forall|i: int, j: int| 0 <= i < 4 && 0 <= j < 4 implies add_round_key_spec(
        add_round_key_spec(s, k),
        k,
    )[i][j] == s[i][j] by {
        let x = s[i][j];
        let y = k[i][j];
        assert((x ^ y) ^ y == x) by (bit_vector);
    }
    assert(add_round_key_spec(add_round_key_spec(s, k), k) =~~= s);
}

/// The bytes of a state, row after row.
pub open spec fn state_bytes(s: Seq<Seq<u8>>) -> Seq<u8> {
    s[0] + s[1] + s[2] + s[3]
}

/// ShiftRows only rearranges the bytes of the state: the multiset of byte
/// values is unchanged.
pub proof fn lemma_shift_rows_permutation(s: Seq<Seq<u8>>)
    requires
        is_state(s),
    ensures
        state_bytes(shift_rows_spec(s)).to_multiset() == state_bytes(s).to_multiset(),
{
    let t = shift_rows_spec(s);
    assert forall|i: int| 0 <= i < 4 implies (#[trigger] t[i]).to_multiset() == s[i].to_multiset() by {
        let k: int = i;
        assert(t[i] =~= s[i].skip(k) + s[i].take(k));
        assert(s[i] =~= s[i].take(k) + s[i].skip(k));
        lemma_multiset_commutative(s[i].skip(k), s[i].take(k));
        lemma_multiset_commutative(s[i].take(k), s[i].skip(k));
        assert(s[i].skip(k).to_multiset().add(s[i].take(k).to_multiset()) =~= s[i].take(
            k,
        ).to_multiset().add(s[i].skip(k).to_multiset()));
    }
    lemma_multiset_commutative(t[0], t[1]);
    lemma_multiset_commutative(t[0] + t[1], t[2]);
    lemma_multiset_commutative(t[0] + t[1] + t[2], t[3]);
    lemma_multiset_commutative(s[0], s[1]);
    lemma_multiset_commutative(s[0] + s[1], s[2]);
    lemma_multiset_commutative(s[0] + s[1] + s[2], s[3]);
    assert(state_bytes(t).to_multiset() =~= state_bytes(s).to_multiset());
}

} // verus!
