//! Simplified Data Encryption Standard (S-DES), a pedagogical two-round
//! Feistel block cipher on 8-bit blocks with a 10-bit master key.
//!
//! The cipher is a teaching artifact: the key space is tiny, every block is
//! processed independently, and none of it offers real confidentiality.
//! What it does offer is a small, fully specified pipeline - key schedule,
//! bit permutations, S-box substitution and round mixing - whose defining
//! property, that decryption inverts encryption, is proved in [`laws`].

pub mod laws;
pub mod sdes;
