use sdes::sdes::{SdesError, SDES};

/// The canonical end-to-end fixture: master key 0b1100101101 (813), message
/// "hello world", with the expected ciphertext bytes pinned as a
/// known-answer test.
#[test]
fn round_trip_hello_world() {
    let engine = SDES::new(0b1100101101);
    let cipher = engine.encrypt("hello world").unwrap();
    let expected: Vec<u32> = vec![110, 74, 43, 43, 21, 124, 117, 21, 0, 43, 169];
    let got: Vec<u32> = cipher.chars().map(|c| c as u32).collect();
    assert_eq!(got, expected);
    let message = engine.decrypt(&cipher).unwrap();
    assert_eq!(message, "hello world");
}

#[test]
fn round_trip_every_block_value() {
    let all_blocks: String = (0u32..=255).map(|b| char::from_u32(b).unwrap()).collect();
    for key in [0u16, 0b1100101101, 0b1111111111, 0b1010000010] {
        let engine = SDES::new(key);
        let cipher = engine.encrypt(&all_blocks).unwrap();
        assert_eq!(cipher.chars().count(), 256);
        let message = engine.decrypt(&cipher).unwrap();
        assert_eq!(message, all_blocks);
    }
}

#[test]
fn per_block_independence() {
    let engine = SDES::new(0b1100101101);
    let two = engine.encrypt("he").unwrap();
    let first = engine.encrypt("h").unwrap();
    let second = engine.encrypt("e").unwrap();
    assert_eq!(two, format!("{}{}", first, second));
}

#[test]
fn key_schedule_deterministic() {
    let engine = SDES::new(813);
    let (k1a, k2a) = engine.generate_keys();
    let (k1b, k2b) = engine.generate_keys();
    assert_eq!((k1a, k2a), (k1b, k2b));
    assert_eq!((k1a, k2a), (202, 157));
}

#[test]
fn zero_key_yields_zero_subkeys() {
    let engine = SDES::new(0);
    let (k1, k2) = engine.generate_keys();
    assert_eq!(k1, 0);
    assert_eq!(k2, 0);
}

#[test]
fn empty_message_yields_empty_ciphertext() {
    let engine = SDES::new(813);
    let cipher = engine.encrypt("").unwrap();
    assert_eq!(cipher, "");
    let message = engine.decrypt("").unwrap();
    assert_eq!(message, "");
}

#[test]
fn high_key_bits_are_ignored() {
    let masked = SDES::new(0b1100101101);
    let wide = SDES::new(0b1100101101 | 0xFC00);
    assert_eq!(masked.generate_keys(), wide.generate_keys());
    assert_eq!(
        masked.encrypt("hello world").unwrap(),
        wide.encrypt("hello world").unwrap()
    );
}

#[test]
fn wide_character_is_rejected() {
    let engine = SDES::new(813);
    assert_eq!(
        engine.encrypt("a\u{100}b"),
        Err(SdesError::InvalidCharacterWidth)
    );
    assert_eq!(
        engine.decrypt("\u{20ac}"),
        Err(SdesError::InvalidCharacterWidth)
    );
}

#[test]
fn initial_permutation_round_trips() {
    for b in 0u16..=255 {
        let b = b as u8;
        assert_eq!(SDES::rip(SDES::ip(b)), b);
        assert_eq!(SDES::ip(SDES::rip(b)), b);
    }
    assert_eq!(SDES::ip(0b10110101), 124);
}

#[test]
fn switch_swaps_halves() {
    assert_eq!(SDES::sw(0b10110001), 0b00011011);
    assert_eq!(SDES::sw(SDES::sw(0b11001010)), 0b11001010);
}

#[test]
fn sbox_lookups() {
    assert_eq!(SDES::s0(0b0000), 1);
    assert_eq!(SDES::s0(0b1010), 2);
    assert_eq!(SDES::s0(0b1111), 2);
    assert_eq!(SDES::s1(0b0000), 0);
    assert_eq!(SDES::s1(0b1010), 0);
    assert_eq!(SDES::s1(0b1111), 3);
}

#[test]
fn permute_applies_table() {
    assert_eq!(
        SDES::permute(813, vec![2, 4, 1, 6, 3, 9, 0, 8, 7, 5], 10),
        474
    );
    // The identity table leaves the low bits in place.
    assert_eq!(
        SDES::permute(0b1011, vec![0, 1, 2, 3], 4),
        0b1011
    );
}

#[test]
fn circular_left_shift_wraps_within_field() {
    assert_eq!(SDES::circular_left_shift(0b10110, 1, 5), 0b01101);
    assert_eq!(SDES::circular_left_shift(0b10000, 3, 5), 0b00100);
    assert_eq!(SDES::circular_left_shift(0b00001, 1, 5), 0b00010);
}

#[test]
fn feistel_round_keeps_right_half() {
    for key in [0u8, 0xCA, 0x9D, 0xFF] {
        for bits in [0u8, 0x35, 0xAB, 0xFF] {
            let once = SDES::fk(bits, key);
            assert_eq!(once & 15, bits & 15);
            assert_eq!(SDES::fk(once, key), bits);
        }
    }
}
