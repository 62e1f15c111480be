//! The cipher engine: key schedule, permutation and substitution primitives,
//! and the per-block Feistel pipeline, together with the specification
//! functions that the contracts and the laws speak of.

use vstd::prelude::*;
use vstd::string::StrSliceExecFns;

verus! {

/// The recoverable failure of `encrypt` and `decrypt`: an input character
/// whose code point does not fit in one 8-bit block.
#[derive(Clone, Copy, Debug, PartialEq, Eq, Structural)]
pub enum SdesError {
    InvalidCharacterWidth,
}

/// True when bit `j` of `v` is set, counting bit 0 as the least significant.
pub open spec fn bit16(v: u16, j: u16) -> bool {
    (v >> j) & 1 == 1
}

/// Circular left rotation of a `length`-bit field by `n`: the top `n` bits
/// move to the bottom and the result is masked back to `length` bits.
pub open spec fn cls_spec(k: u16, n: u8, length: u8) -> u16 {
    ((k << (n as u16)) | (k >> ((length - n) as u16))) & (((1u16 << (length as u16)) - 1) as u16)
}

/// Both 5-bit halves of a 10-bit value, each rotated left by `n` within its
/// own half; rotation never bleeds from one half into the other.
pub open spec fn rot_halves_spec(v: u16, n: u8) -> u16 {
    (cls_spec((v >> 5) & 31, n, 5) << 5) | cls_spec(v & 31, n, 5)
}

/// The P10 permutation of the low 10 bits of the master key.
pub open spec fn p10_spec(k: u16) -> u16 {
    (((k >> 7) & 1) << 9) | (((k >> 5) & 1) << 8) | (((k >> 8) & 1) << 7) | (((k >> 3) & 1) << 6)
        | (((k >> 6) & 1) << 5) | (((k >> 0) & 1) << 4) | (((k >> 9) & 1) << 3) | (((k >> 1) & 1)
        << 2) | (((k >> 2) & 1) << 1) | ((k >> 4) & 1)
}

/// The P8 permutation: narrows a 10-bit value to the 8 bits of a subkey.
pub open spec fn p8_spec(k: u16) -> u8 {
    ((((k >> 4) & 1) << 7) | (((k >> 7) & 1) << 6) | (((k >> 3) & 1) << 5) | (((k >> 6) & 1) << 4)
        | (((k >> 2) & 1) << 3) | (((k >> 5) & 1) << 2) | (((k >> 0) & 1) << 1) | ((k >> 1)
        & 1)) as u8
}

/// The first round subkey: P8 of the P10-permuted key with both halves
/// rotated left by 1.
pub open spec fn k1_spec(key: u16) -> u8 {
    p8_spec(rot_halves_spec(p10_spec(key), 1))
}

/// The second round subkey: P8 of the P10-permuted key with both halves
/// rotated left by 3; the rotation counts both start from the P10 output,
/// they are not chained through the first subkey.
pub open spec fn k2_spec(key: u16) -> u8 {
    p8_spec(rot_halves_spec(p10_spec(key), 3))
}

/// The Initial Permutation of an 8-bit block.
pub open spec fn ip_spec(b: u8) -> u8 {
    (((b >> 6) & 1) << 7) | (((b >> 2) & 1) << 6) | (((b >> 5) & 1) << 5) | (((b >> 7) & 1) << 4)
        | (((b >> 4) & 1) << 3) | (((b >> 0) & 1) << 2) | (((b >> 3) & 1) << 1) | ((b >> 1) & 1)
}

/// The inverse of the Initial Permutation; see
/// [`crate::laws::lemma_initial_permutation_round_trip`].
pub open spec fn rip_spec(b: u8) -> u8 {
    (((b >> 4) & 1) << 7) | (((b >> 7) & 1) << 6) | (((b >> 5) & 1) << 5) | (((b >> 3) & 1) << 4)
        | (((b >> 1) & 1) << 3) | (((b >> 6) & 1) << 2) | (((b >> 0) & 1) << 1) | ((b >> 2) & 1)
}

/// The Expansion Permutation: widens a 4-bit half-block to 8 bits,
/// duplicating the outer source bits.
pub open spec fn ep_spec(b: u8) -> u8 {
    (((b >> 0) & 1) << 7) | (((b >> 3) & 1) << 6) | (((b >> 2) & 1) << 5) | (((b >> 1) & 1) << 4)
        | (((b >> 2) & 1) << 3) | (((b >> 1) & 1) << 2) | (((b >> 0) & 1) << 1) | ((b >> 3) & 1)
}

/// The P4 permutation of the concatenated S-box outputs (`a` high, `b` low).
pub open spec fn p4_spec(a: u8, b: u8) -> u8 {
    let k = (a << 2) | b;
    ((((k >> 2) & 1) << 3) | (((k >> 0) & 1) << 2) | (((k >> 1) & 1) << 1) | ((k >> 3) & 1)) as u8
}

/// The Switch permutation: exchanges the two 4-bit halves of a block.
pub open spec fn sw_spec(b: u8) -> u8 {
    (((b >> 3) & 1) << 7) | (((b >> 2) & 1) << 6) | (((b >> 1) & 1) << 5) | (((b >> 0) & 1) << 4)
        | (((b >> 7) & 1) << 3) | (((b >> 6) & 1) << 2) | (((b >> 5) & 1) << 1) | ((b >> 4) & 1)
}

/// The row index of an S-box lookup: the two outer bits of the 4-bit input,
/// bit 3 high and bit 0 low.
pub open spec fn sbox_row(k: u8) -> u8 {
    ((k & 8) >> 2) | (k & 1)
}

/// The column index of an S-box lookup: the two inner bits of the 4-bit
/// input, bit 2 high and bit 1 low.
pub open spec fn sbox_col(k: u8) -> u8 {
    ((k & 4) >> 1) | ((k & 2) >> 1)
}

/// The first S-box as a flat row-major table: entry `4 * row + col`.
pub open spec fn s0_box_at(i: u8) -> u8 {
    if i == 0 {
        1
    } else if i == 1 {
        0
    } else if i == 2 {
        3
    } else if i == 3 {
        2
    } else if i == 4 {
        3
    } else if i == 5 {
        2
    } else if i == 6 {
        1
    } else if i == 7 {
        0
    } else if i == 8 {
        0
    } else if i == 9 {
        2
    } else if i == 10 {
        1
    } else if i == 11 {
        3
    } else if i == 12 {
        3
    } else if i == 13 {
        1
    } else if i == 14 {
        3
    } else {
        2
    }
}

/// The second S-box as a flat row-major table: entry `4 * row + col`.
pub open spec fn s1_box_at(i: u8) -> u8 {
    if i == 0 {
        0
    } else if i == 1 {
        1
    } else if i == 2 {
        2
    } else if i == 3 {
        3
    } else if i == 4 {
        2
    } else if i == 5 {
        0
    } else if i == 6 {
        1
    } else if i == 7 {
        3
    } else if i == 8 {
        3
    } else if i == 9 {
        0
    } else if i == 10 {
        1
    } else if i == 11 {
        0
    } else if i == 12 {
        2
    } else if i == 13 {
        1
    } else if i == 14 {
        0
    } else {
        3
    }
}

/// The first S-box lookup on a 4-bit input.
pub open spec fn s0_spec(k: u8) -> u8 {
    s0_box_at((sbox_row(k) << 2) | sbox_col(k))
}

/// The second S-box lookup on a 4-bit input.
pub open spec fn s1_spec(k: u8) -> u8 {
    s1_box_at((sbox_row(k) << 2) | sbox_col(k))
}

/// The round function F: expand the 4-bit half-block, mix in the subkey,
/// substitute each resulting half through its S-box, and permute with P4.
pub open spec fn f_spec(bits: u8, key: u8) -> u8 {
    let x = ep_spec(bits) ^ key;
    p4_spec(s0_spec(x >> 4), s1_spec(x & 15))
}

/// The Feistel round FK: the left half is XORed with F of the right half and
/// the subkey; the right half passes through unchanged.
pub open spec fn fk_spec(bits: u8, key: u8) -> u8 {
    let b = bits & 15;
    let a = bits >> 4;
    (((a ^ f_spec(b, key)) << 4) | b) as u8
}

/// One block through the encryption pipeline: Initial Permutation, FK with
/// K1, Switch, FK with K2, inverse Initial Permutation.
pub open spec fn encrypt_block_spec(key: u16, block: u8) -> u8 {
    rip_spec(fk_spec(sw_spec(fk_spec(ip_spec(block), k1_spec(key))), k2_spec(key)))
}

/// One block through the decryption pipeline: the same five stages with the
/// subkey order reversed.
pub open spec fn decrypt_block_spec(key: u16, block: u8) -> u8 {
    rip_spec(fk_spec(sw_spec(fk_spec(ip_spec(block), k2_spec(key))), k1_spec(key)))
}

/// The 8-bit block that stands for a character: the low 8 bits of its code
/// point. It represents the character faithfully only when the code point is
/// at most 255.
pub open spec fn char_block(c: char) -> u8 {
    (c as u32) as u8
}

/// Every character of the text has a code point representable in 8 bits.
pub open spec fn byte_text(s: Seq<char>) -> bool {
    forall|i: int| 0 <= i < s.len() ==> (#[trigger] s[i]) as u32 <= 255
}

/// The ciphertext of a text under a key: every character is encrypted
/// independently, so the blocks carry no state from one to the next.
pub open spec fn encrypt_seq(key: u16, s: Seq<char>) -> Seq<char> {
    s.map_values(|c: char| encrypt_block_spec(key, char_block(c)) as char)
}

/// The plaintext of a ciphertext under a key, block by block.
pub open spec fn decrypt_seq(key: u16, s: Seq<char>) -> Seq<char> {
    s.map_values(|c: char| decrypt_block_spec(key, char_block(c)) as char)
}

/// Relies on String's FromIterator implementation over char: collecting an
/// owned sequence of characters yields a string of exactly those characters.
#[verifier::external_body]
fn chars_to_string(v: Vec<char>) -> (r: String)
    ensures
        r@ == v@,
{
    v.into_iter().collect()
}

/// The cipher engine: an immutable 10-bit master key. Only the low 10 bits of
/// the stored value are ever read; higher bits are ignored by every operation.
pub struct SDES {
    master_key: u16,
}

impl SDES {
    /// The master key as stored. All derived quantities read only its low
    /// 10 bits (see [`crate::laws::lemma_high_key_bits_ignored`]).
    pub closed spec fn key(&self) -> u16 {
        self.master_key
    }

    pub fn new(master_key: u16) -> (r: SDES)
        ensures
            r.key() == master_key,
    {
        SDES { master_key }
    }

    /// The generic fixed-pattern bit reordering primitive. The source `k` is
    /// read as a field of `length` bits; entry `i` of `order` names a source
    /// bit position counted from the most significant end of that field, and
    /// the output's bit at position `i` from its own most significant end
    /// (the output is `order.len()` bits wide) is that source bit. A source
    /// bit may be duplicated or omitted; all bits above the output width are
    /// zero.
    pub fn permute(k: u16, order: Vec<u8>, length: u8) -> (r: u16)
        requires
            length <= 16,
            order@.len() <= 16,
            forall|i: int| 0 <= i < order@.len() ==> order@[i] < length,
        ensures
            forall|i: int|
                0 <= i < order@.len() ==> bit16(r, (order@.len() - 1 - i) as u16) == bit16(
                    k,
                    (length - 1 - #[trigger] order@[i]) as u16,
                ),
            forall|j: u16| order@.len() <= j < 16 ==> !bit16(r, j),
            r >> (order@.len() as u16) == 0,
    {
        let n: usize = order.len();
        let mut result: u16 = 0;
        let mut i: usize = 0;
        proof {
            assert(forall|j: u16| j < 16 ==> !bit16(0u16, j)) by (bit_vector);
            assert(0u16 >> (n as u16) == 0) by (bit_vector);
        }
        while i < n
            invariant
                i <= n,
                n == order@.len() <= 16,
                length <= 16,
                forall|t: int| 0 <= t < n ==> order@[t] < length,
                forall|t: int|
                    0 <= t < i ==> bit16(result, (n - 1 - t) as u16) == bit16(
                        k,
                        (length - 1 - order@[t]) as u16,
                    ),
                forall|j: u16| j < 16 && !(n - i <= j < n) ==> !bit16(result, j),
                result >> (n as u16) == 0,
            decreases n - i,
        {
            let src: u16 = (length - order[i] - 1) as u16;
            let bit: u16 = (k >> src) & 1;
            let dst: u16 = (n - i - 1) as u16;
            let ghost prev: u16 = result;
            result = result | (bit << dst);
            proof {
                assert(bit <= 1) by (bit_vector)
                    requires
                        bit == (k >> src) & 1,
                ;
                assert(!bit16(prev, dst));
                assert forall|j: u16| j < 16 implies bit16(result, j) == (if j == dst {
                    bit == 1
                } else {
                    bit16(prev, j)
                }) by {
                    assert(bit16(prev | (bit << dst), j) == (if j == dst {
                        bit == 1
                    } else {
                        bit16(prev, j)
                    })) by (bit_vector)
                        requires
                            bit <= 1,
                            dst < 16,
                            j < 16,
                            !bit16(prev, dst),
                    ;
                }
                assert(bit16(result, dst) == bit16(k, src));
                assert((prev | (bit << dst)) >> (n as u16) == 0) by (bit_vector)
                    requires
                        prev >> (n as u16) == 0,
                        bit <= 1,
                        dst < n <= 16,
                ;
            }
            i = i + 1;
        }
        result
    }

    /// Circular left rotation of the low `length` bits of `k` by `n` places.
    pub fn circular_left_shift(k: u16, n: u8, length: u8) -> (r: u16)
        requires
            0 < n < length <= 15,
            k < (1u16 << (length as u16)),
        ensures
            r == cls_spec(k, n, length),
            r < (1u16 << (length as u16)),
    {
        proof {
            assert(1u16 << (length as u16) >= 1 && ((k << (n as u16)) | (k >> ((length
                - n) as u16))) & (((1u16 << (length as u16)) - 1) as u16) < (1u16 << (
            length as u16))) by (bit_vector)
                requires
                    length <= 15,
            ;
        }
        ((k << (n as u16)) | (k >> (((length - n) as u8) as u16))) & ((1u16 << (length as u16)) - 1)
    }

    /// The P10 permutation of the master key.
    fn p10(&self) -> (r: u16)
        ensures
            r == p10_spec(self.key()),
    {
        let k: u16 = self.master_key;
        let ord: Vec<u8> = vec![2, 4, 1, 6, 3, 9, 0, 8, 7, 5];
        let r: u16 = Self::permute(k, ord, 10);
        proof {
            assert(ord@[0] == 2 && ord@[1] == 4 && ord@[2] == 1 && ord@[3] == 6 && ord@[4] == 3
                && ord@[5] == 9 && ord@[6] == 0 && ord@[7] == 8 && ord@[8] == 7 && ord@[9] == 5);
            assert(r == p10_spec(k)) by (bit_vector)
                requires
                    bit16(r, 9) == bit16(k, 7),
                    bit16(r, 8) == bit16(k, 5),
                    bit16(r, 7) == bit16(k, 8),
                    bit16(r, 6) == bit16(k, 3),
                    bit16(r, 5) == bit16(k, 6),
                    bit16(r, 4) == bit16(k, 0),
                    bit16(r, 3) == bit16(k, 9),
                    bit16(r, 2) == bit16(k, 1),
                    bit16(r, 1) == bit16(k, 2),
                    bit16(r, 0) == bit16(k, 4),
                    !bit16(r, 10),
                    !bit16(r, 11),
                    !bit16(r, 12),
                    !bit16(r, 13),
                    !bit16(r, 14),
                    !bit16(r, 15),
            ;
        }
        r
    }

    /// The P8 permutation, narrowing a 10-bit-wide source to an 8-bit subkey.
    fn p8(k: u16) -> (r: u8)
        ensures
            r == p8_spec(k),
    {
        let ord: Vec<u8> = vec![5, 2, 6, 3, 7, 4, 9, 8];
        let r16: u16 = Self::permute(k, ord, 10);
        proof {
            assert(ord@[0] == 5 && ord@[1] == 2 && ord@[2] == 6 && ord@[3] == 3 && ord@[4] == 7
                && ord@[5] == 4 && ord@[6] == 9 && ord@[7] == 8);
            assert(r16 as u8 == p8_spec(k)) by (bit_vector)
                requires
                    bit16(r16, 7) == bit16(k, 4),
                    bit16(r16, 6) == bit16(k, 7),
                    bit16(r16, 5) == bit16(k, 3),
                    bit16(r16, 4) == bit16(k, 6),
                    bit16(r16, 3) == bit16(k, 2),
                    bit16(r16, 2) == bit16(k, 5),
                    bit16(r16, 1) == bit16(k, 0),
                    bit16(r16, 0) == bit16(k, 1),
                    !bit16(r16, 8),
                    !bit16(r16, 9),
                    !bit16(r16, 10),
                    !bit16(r16, 11),
                    !bit16(r16, 12),
                    !bit16(r16, 13),
                    !bit16(r16, 14),
                    !bit16(r16, 15),
            ;
        }
        r16 as u8
    }

    /// Derives the two round subkeys from the master key. Both rotations are
    /// applied to the same P10 output, each 5-bit half rotating on its own.
    pub fn generate_keys(&self) -> (r: (u8, u8))
        ensures
            r.0 == k1_spec(self.key()),
            r.1 == k2_spec(self.key()),
    {
        let p10v: u16 = self.p10();
        let high: u16 = (p10v >> 5) & 31;
        let low: u16 = p10v & 31;
        proof {
            assert((p10v >> 5) & 31 < 32 && p10v & 31 < 32 && (1u16 << 5) == 32) by (bit_vector);
        }
        let r1: u16 = (Self::circular_left_shift(high, 1, 5) << 5) | Self::circular_left_shift(
            low,
            1,
            5,
        );
        let r3: u16 = (Self::circular_left_shift(high, 3, 5) << 5) | Self::circular_left_shift(
            low,
            3,
            5,
        );
        let k1: u8 = Self::p8(r1);
        let k2: u8 = Self::p8(r3);
        (k1, k2)
    }

    /// The Initial Permutation of one block.
    pub fn ip(k: u8) -> (r: u8)
        ensures
            r == ip_spec(k),
    {
        let k16: u16 = k as u16;
        let ord: Vec<u8> = vec![1, 5, 2, 0, 3, 7, 4, 6];
        let r16: u16 = Self::permute(k16, ord, 8);
        proof {
            assert(ord@[0] == 1 && ord@[1] == 5 && ord@[2] == 2 && ord@[3] == 0 && ord@[4] == 3
                && ord@[5] == 7 && ord@[6] == 4 && ord@[7] == 6);
            assert(r16 as u8 == ip_spec(k)) by (bit_vector)
                requires
                    k16 == k,
                    bit16(r16, 7) == bit16(k16, 6),
                    bit16(r16, 6) == bit16(k16, 2),
                    bit16(r16, 5) == bit16(k16, 5),
                    bit16(r16, 4) == bit16(k16, 7),
                    bit16(r16, 3) == bit16(k16, 4),
                    bit16(r16, 2) == bit16(k16, 0),
                    bit16(r16, 1) == bit16(k16, 3),
                    bit16(r16, 0) == bit16(k16, 1),
                    r16 >> 8 == 0,
            ;
        }
        r16 as u8
    }

    /// The inverse Initial Permutation of one block.
    pub fn rip(k: u8) -> (r: u8)
        ensures
            r == rip_spec(k),
    {
        let k16: u16 = k as u16;
        let ord: Vec<u8> = vec![3, 0, 2, 4, 6, 1, 7, 5];
        let r16: u16 = Self::permute(k16, ord, 8);
        proof {
            assert(ord@[0] == 3 && ord@[1] == 0 && ord@[2] == 2 && ord@[3] == 4 && ord@[4] == 6
                && ord@[5] == 1 && ord@[6] == 7 && ord@[7] == 5);
            assert(r16 as u8 == rip_spec(k)) by (bit_vector)
                requires
                    k16 == k,
                    bit16(r16, 7) == bit16(k16, 4),
                    bit16(r16, 6) == bit16(k16, 7),
                    bit16(r16, 5) == bit16(k16, 5),
                    bit16(r16, 4) == bit16(k16, 3),
                    bit16(r16, 3) == bit16(k16, 1),
                    bit16(r16, 2) == bit16(k16, 6),
                    bit16(r16, 1) == bit16(k16, 0),
                    bit16(r16, 0) == bit16(k16, 2),
                    r16 >> 8 == 0,
            ;
        }
        r16 as u8
    }

    /// The Expansion Permutation of a 4-bit half-block.
    pub fn ep(k: u8) -> (r: u8)
        ensures
            r == ep_spec(k),
    {
        let k16: u16 = k as u16;
        let ord: Vec<u8> = vec![3, 0, 1, 2, 1, 2, 3, 0];
        let r16: u16 = Self::permute(k16, ord, 4);
        proof {
            assert(ord@[0] == 3 && ord@[1] == 0 && ord@[2] == 1 && ord@[3] == 2 && ord@[4] == 1
                && ord@[5] == 2 && ord@[6] == 3 && ord@[7] == 0);
            assert(r16 as u8 == ep_spec(k)) by (bit_vector)
                requires
                    k16 == k,
                    bit16(r16, 7) == bit16(k16, 0),
                    bit16(r16, 6) == bit16(k16, 3),
                    bit16(r16, 5) == bit16(k16, 2),
                    bit16(r16, 4) == bit16(k16, 1),
                    bit16(r16, 3) == bit16(k16, 2),
                    bit16(r16, 2) == bit16(k16, 1),
                    bit16(r16, 1) == bit16(k16, 0),
                    bit16(r16, 0) == bit16(k16, 3),
                    r16 >> 8 == 0,
            ;
        }
        r16 as u8
    }

    /// The first S-box lookup.
    pub fn s0(k: u8) -> (r: u8)
        ensures
            r == s0_spec(k),
    {
        let row: u8 = ((k & 8) >> 2) | (k & 1);
        let col: u8 = ((k & 4) >> 1) | ((k & 2) >> 1);
        let idx: u8 = (row << 2) | col;
        if idx == 0 {
            1
        } else if idx == 1 {
            0
        } else if idx == 2 {
            3
        } else if idx == 3 {
            2
        } else if idx == 4 {
            3
        } else if idx == 5 {
            2
        } else if idx == 6 {
            1
        } else if idx == 7 {
            0
        } else if idx == 8 {
            0
        } else if idx == 9 {
            2
        } else if idx == 10 {
            1
        } else if idx == 11 {
            3
        } else if idx == 12 {
            3
        } else if idx == 13 {
            1
        } else if idx == 14 {
            3
        } else {
            2
        }
    }

    /// The second S-box lookup.
    pub fn s1(k: u8) -> (r: u8)
        ensures
            r == s1_spec(k),
    {
        let row: u8 = ((k & 8) >> 2) | (k & 1);
        let col: u8 = ((k & 4) >> 1) | ((k & 2) >> 1);
        let idx: u8 = (row << 2) | col;
        if idx == 0 {
            0
        } else if idx == 1 {
            1
        } else if idx == 2 {
            2
        } else if idx == 3 {
            3
        } else if idx == 4 {
            2
        } else if idx == 5 {
            0
        } else if idx == 6 {
            1
        } else if idx == 7 {
            3
        } else if idx == 8 {
            3
        } else if idx == 9 {
            0
        } else if idx == 10 {
            1
        } else if idx == 11 {
            0
        } else if idx == 12 {
            2
        } else if idx == 13 {
            1
        } else if idx == 14 {
            0
        } else {
            3
        }
    }

    /// P4 of the two 2-bit S-box outputs, `a` as the high pair and `b` low.
    pub fn p4(a: u8, b: u8) -> (r: u8)
        ensures
            r == p4_spec(a, b),
    {
        let k: u8 = (a << 2) | b;
        let ord: Vec<u8> = vec![1, 3, 2, 0];
        let r16: u16 = Self::permute(k as u16, ord, 4);
        proof {
            assert(ord@[0] == 1 && ord@[1] == 3 && ord@[2] == 2 && ord@[3] == 0);
            assert(r16 as u8 == p4_spec(a, b)) by (bit_vector)
                requires
                    k == ((a << 2) | b) as u8,
                    bit16(r16, 3) == bit16(k as u16, 2),
                    bit16(r16, 2) == bit16(k as u16, 0),
                    bit16(r16, 1) == bit16(k as u16, 1),
                    bit16(r16, 0) == bit16(k as u16, 3),
                    r16 >> 4 == 0,
            ;
        }
        r16 as u8
    }

    /// The Switch permutation: swaps the two halves of a block.
    pub fn sw(k: u8) -> (r: u8)
        ensures
            r == sw_spec(k),
    {
        let k16: u16 = k as u16;
        let ord: Vec<u8> = vec![4, 5, 6, 7, 0, 1, 2, 3];
        let r16: u16 = Self::permute(k16, ord, 8);
        proof {
            assert(ord@[0] == 4 && ord@[1] == 5 && ord@[2] == 6 && ord@[3] == 7 && ord@[4] == 0
                && ord@[5] == 1 && ord@[6] == 2 && ord@[7] == 3);
            assert(r16 as u8 == sw_spec(k)) by (bit_vector)
                requires
                    k16 == k,
                    bit16(r16, 7) == bit16(k16, 3),
                    bit16(r16, 6) == bit16(k16, 2),
                    bit16(r16, 5) == bit16(k16, 1),
                    bit16(r16, 4) == bit16(k16, 0),
                    bit16(r16, 3) == bit16(k16, 7),
                    bit16(r16, 2) == bit16(k16, 6),
                    bit16(r16, 1) == bit16(k16, 5),
                    bit16(r16, 0) == bit16(k16, 4),
                    r16 >> 8 == 0,
            ;
        }
        r16 as u8
    }

    /// The round function F on a 4-bit half-block and an 8-bit subkey.
    pub fn f(bits: u8, key: u8) -> (r: u8)
        ensures
            r == f_spec(bits, key),
    {
        let xor: u8 = Self::ep(bits) ^ key;
        let b: u8 = xor & 15;
        let a: u8 = xor >> 4;
        Self::p4(Self::s0(a), Self::s1(b))
    }

    /// The Feistel round FK on an 8-bit block and an 8-bit subkey.
    pub fn fk(bits: u8, key: u8) -> (r: u8)
        ensures
            r == fk_spec(bits, key),
    {
        let b: u8 = bits & 15;
        let a: u8 = bits >> 4;
        let xor: u8 = a ^ Self::f(b, key);
        (xor << 4) | b
    }

    /// Encrypts a text character by character. Succeeds exactly when every
    /// character's code point fits in 8 bits; a wider character is reported
    /// as an error rather than silently truncated, since truncation would
    /// break the round trip with `decrypt`.
    pub fn encrypt(&self, message: &str) -> (r: Result<String, SdesError>)
        ensures
            r is Ok <==> byte_text(message@),
            r matches Ok(c) ==> c@ == encrypt_seq(self.key(), message@),
            r matches Ok(c) ==> byte_text(c@),
            r matches Err(e) ==> e == SdesError::InvalidCharacterWidth,
    {
        let (k1, k2) = self.generate_keys();
        let len: usize = message.unicode_len();
        let mut out: Vec<char> = Vec::new();
        let mut i: usize = 0;
        while i < len
            invariant
                i <= len,
                len == message@.len(),
                k1 == k1_spec(self.key()),
                k2 == k2_spec(self.key()),
                out@.len() == i,
                forall|t: int| 0 <= t < i ==> (#[trigger] message@[t]) as u32 <= 255,
                forall|t: int|
                    0 <= t < i ==> #[trigger] out@[t] == (encrypt_block_spec(
                        self.key(),
                        char_block(message@[t]),
                    ) as char),
            decreases len - i,
        {
            let c: char = message.get_char(i);
            if c as u32 > 255 {
                proof {
                    assert(!byte_text(message@));
                }
                return Err(SdesError::InvalidCharacterWidth);
            }
            let block: u8 = (c as u32) as u8;
            let ip: u8 = Self::ip(block);
            let fk1: u8 = Self::fk(ip, k1);
            let sw: u8 = Self::sw(fk1);
            let fk2: u8 = Self::fk(sw, k2);
            let rip: u8 = Self::rip(fk2);
            out.push(rip as char);
            i = i + 1;
        }
        proof {
            assert(out@ =~= encrypt_seq(self.key(), message@));
            assert forall|t: int| 0 <= t < out@.len() implies (#[trigger] out@[t]) as u32
                <= 255 by {
                let b = encrypt_block_spec(self.key(), char_block(message@[t]));
                assert((b as char) as u32 == b as u32);
            }
        }
        Ok(chars_to_string(out))
    }

    /// Decrypts a ciphertext character by character: the same pipeline as
    /// `encrypt` with the subkey order reversed. Succeeds exactly when every
    /// character's code point fits in 8 bits.
    pub fn decrypt(&self, cipher: &str) -> (r: Result<String, SdesError>)
        ensures
            r is Ok <==> byte_text(cipher@),
            r matches Ok(m) ==> m@ == decrypt_seq(self.key(), cipher@),
            r matches Ok(m) ==> byte_text(m@),
            r matches Err(e) ==> e == SdesError::InvalidCharacterWidth,
    {
        let (k1, k2) = self.generate_keys();
        let len: usize = cipher.unicode_len();
        let mut out: Vec<char> = Vec::new();
        let mut i: usize = 0;
        while i < len
            invariant
                i <= len,
                len == cipher@.len(),
                k1 == k1_spec(self.key()),
                k2 == k2_spec(self.key()),
                out@.len() == i,
                forall|t: int| 0 <= t < i ==> (#[trigger] cipher@[t]) as u32 <= 255,
                forall|t: int|
                    0 <= t < i ==> #[trigger] out@[t] == (decrypt_block_spec(
                        self.key(),
                        char_block(cipher@[t]),
                    ) as char),
            decreases len - i,
        {
            let c: char = cipher.get_char(i);
            if c as u32 > 255 {
                proof {
                    assert(!byte_text(cipher@));
                }
                return Err(SdesError::InvalidCharacterWidth);
            }
            let block: u8 = (c as u32) as u8;
            let ip: u8 = Self::ip(block);
            let fk1: u8 = Self::fk(ip, k2);
            let sw: u8 = Self::sw(fk1);
            let fk2: u8 = Self::fk(sw, k1);
            let rip: u8 = Self::rip(fk2);
            out.push(rip as char);
            i = i + 1;
        }
        proof {
            assert(out@ =~= decrypt_seq(self.key(), cipher@));
            assert forall|t: int| 0 <= t < out@.len() implies (#[trigger] out@[t]) as u32
                <= 255 by {
                let b = decrypt_block_spec(self.key(), char_block(cipher@[t]));
                assert((b as char) as u32 == b as u32);
            }
        }
        Ok(chars_to_string(out))
    }
}

} // verus!
