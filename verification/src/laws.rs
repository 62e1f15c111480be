//! The cipher's defining properties, proved over the specification
//! functions that the contracts of [`crate::sdes`] speak of.

use vstd::prelude::*;
use crate::sdes::{
    byte_text, char_block, decrypt_block_spec, decrypt_seq, encrypt_block_spec, encrypt_seq,
    ep_spec, f_spec, fk_spec, ip_spec, k1_spec, k2_spec, p10_spec, p4_spec, rip_spec, s0_spec,
    s1_spec, sw_spec,
};

verus! {

/// The Initial Permutation and its declared inverse undo one another on
/// every 8-bit value, in either order.
pub proof fn lemma_initial_permutation_round_trip(b: u8)
    ensures
        rip_spec(ip_spec(b)) == b,
        ip_spec(rip_spec(b)) == b,
{
    assert(rip_spec(ip_spec(b)) == b) by (bit_vector);
    assert(ip_spec(rip_spec(b)) == b) by (bit_vector);
}

/// The Switch permutation is an involution: swapping the halves of a block
/// twice returns the block.
pub proof fn lemma_switch_involution(b: u8)
    ensures
        sw_spec(sw_spec(b)) == b,
{
    assert(sw_spec(sw_spec(b)) == b) by (bit_vector);
}

/// The round function F always yields a 4-bit value: its last stage, P4,
/// assembles single bits into the low 4 positions.
pub proof fn lemma_f_bounded(bits: u8, key: u8)
    ensures
        f_spec(bits, key) < 16,
{
    let x = ep_spec(bits) ^ key;
    let a = s0_spec(x >> 4);
    let b = s1_spec(x & 15);
    assert(p4_spec(a, b) < 16) by (bit_vector);
}

/// A Feistel round is an involution under a fixed subkey: the right half
/// passes through unchanged, so applying the round again XORs the same
/// mixing value back out of the left half.
pub proof fn lemma_feistel_round_involution(bits: u8, key: u8)
    ensures
        fk_spec(fk_spec(bits, key), key) == bits,
{
    let v = f_spec(bits & 15, key);
    lemma_f_bounded(bits & 15, key);
    let y = fk_spec(bits, key);
    assert(y == ((((bits >> 4) ^ v) << 4) | (bits & 15)) as u8);
    assert(y & 15 == bits & 15 && y >> 4 == (bits >> 4) ^ v) by (bit_vector)
        requires
            y == ((((bits >> 4) ^ v) << 4) | (bits & 15)) as u8,
            v < 16,
    ;
    assert(fk_spec(y, key) == ((((y >> 4) ^ v) << 4) | (y & 15)) as u8);
    assert(((((y >> 4) ^ v) << 4) | (y & 15)) as u8 == bits) by (bit_vector)
        requires
            y >> 4 == (bits >> 4) ^ v,
            y & 15 == bits & 15,
    ;
}

/// Decrypting an encrypted block with the same key returns the block: the
/// two pipelines are identical but for the subkey order, so the stages
/// cancel from the inside out.
pub proof fn lemma_block_round_trip(key: u16, block: u8)
    ensures
        decrypt_block_spec(key, encrypt_block_spec(key, block)) == block,
{
    let k1 = k1_spec(key);
    let k2 = k2_spec(key);
    let e1 = fk_spec(ip_spec(block), k1);
    let e2 = fk_spec(sw_spec(e1), k2);
    lemma_initial_permutation_round_trip(e2);
    lemma_feistel_round_involution(sw_spec(e1), k2);
    lemma_switch_involution(e1);
    lemma_feistel_round_involution(ip_spec(block), k1);
    lemma_initial_permutation_round_trip(block);
}

/// A block carried as a character keeps its value: every 8-bit value is a
/// valid code point, and reading the character back yields the same block.
pub proof fn lemma_block_as_char(b: u8)
    ensures
        char_block(b as char) == b,
        (b as char) as u32 <= 255,
{
    assert((b as char) as u32 == b as u32);
}

/// A character with an 8-bit code point survives the trip through its block:
/// turning the block back into a character yields the same character.
pub proof fn lemma_char_as_block(c: char)
    requires
        c as u32 <= 255,
    ensures
        char_block(c) as char == c,
{
    assert(((c as u32) as u8) as char == c);
}

/// Every character either pipeline produces is the image of an 8-bit block,
/// so a ciphertext, and equally a decrypted text, is itself a text of 8-bit
/// characters; in particular `decrypt` accepts whatever `encrypt` returns.
pub proof fn lemma_output_is_byte_text(key: u16, s: Seq<char>)
    ensures
        byte_text(encrypt_seq(key, s)),
        byte_text(decrypt_seq(key, s)),
{
    assert forall|i: int| 0 <= i < encrypt_seq(key, s).len() implies (#[trigger] encrypt_seq(
        key,
        s,
    )[i]) as u32 <= 255 by {
        lemma_block_as_char(encrypt_block_spec(key, char_block(s[i])));
    }
    assert forall|i: int| 0 <= i < decrypt_seq(key, s).len() implies (#[trigger] decrypt_seq(
        key,
        s,
    )[i]) as u32 <= 255 by {
        lemma_block_as_char(decrypt_block_spec(key, char_block(s[i])));
    }
}

/// The round trip: for every 10-bit key and every message whose characters
/// have code points in [0, 255], decrypting the encryption under the same
/// key returns the message exactly.
pub proof fn lemma_round_trip(key: u16, s: Seq<char>)
    requires
        byte_text(s),
    ensures
        decrypt_seq(key, encrypt_seq(key, s)) == s,
{
    let e = encrypt_seq(key, s);
    assert forall|i: int| 0 <= i < s.len() implies #[trigger] decrypt_seq(key, e)[i] == s[i] by {
        let c = s[i];
        let b = char_block(c);
        let eb = encrypt_block_spec(key, b);
        assert(e[i] == eb as char);
        lemma_block_as_char(eb);
        assert(decrypt_seq(key, e)[i] == decrypt_block_spec(key, eb) as char);
        lemma_block_round_trip(key, b);
        lemma_char_as_block(c);
    }
    assert(decrypt_seq(key, e) =~= s);
}

/// Per-block independence: encrypting a concatenation of two texts equals
/// concatenating their independent encryptions under the same key - the
/// pipeline carries no state from one block to the next.
pub proof fn lemma_per_block_independence(key: u16, s1: Seq<char>, s2: Seq<char>)
    ensures
        encrypt_seq(key, s1 + s2) == encrypt_seq(key, s1) + encrypt_seq(key, s2),
{
    assert(encrypt_seq(key, s1 + s2) =~= encrypt_seq(key, s1) + encrypt_seq(key, s2));
}

/// Only the low 10 bits of the stored master key are significant: the
/// subkeys, and with them both pipelines, are unchanged by masking the key
/// to 10 bits.
pub proof fn lemma_high_key_bits_ignored(key: u16, block: u8)
    ensures
        k1_spec(key) == k1_spec(key & 0x3ff),
        k2_spec(key) == k2_spec(key & 0x3ff),
        encrypt_block_spec(key, block) == encrypt_block_spec(key & 0x3ff, block),
        decrypt_block_spec(key, block) == decrypt_block_spec(key & 0x3ff, block),
{
    assert(p10_spec(key) == p10_spec(key & 0x3ff)) by (bit_vector);
}

} // verus!
