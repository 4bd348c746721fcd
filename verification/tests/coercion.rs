use fhe_admission::coerce::{coerce_to_width, read_be_u16, BitWidth};
use fhe_admission::estimate::scalar_width_for;
use fhe_admission::value::CiphertextKind;

#[test]
fn truncation_keeps_the_low_bytes() {
    let out = coerce_to_width(&vec![0xAB, 0xCD], BitWidth::W8);
    assert_eq!(out, vec![0xCD]);
}

#[test]
fn zero_extension_pads_on_the_left() {
    let out = coerce_to_width(&vec![0xAB], BitWidth::W32);
    assert_eq!(out, vec![0x00, 0x00, 0x00, 0xAB]);
}

#[test]
fn four_bit_width_masks_the_top_nibble() {
    let out = coerce_to_width(&vec![0xAB], BitWidth::W4);
    assert_eq!(out, vec![0x0B]);
}

#[test]
fn empty_input_encodes_zero() {
    let out = coerce_to_width(&Vec::new(), BitWidth::W16);
    assert_eq!(out, vec![0x00, 0x00]);
    let nibble = coerce_to_width(&Vec::new(), BitWidth::W4);
    assert_eq!(nibble, vec![0x00]);
}

#[test]
fn exact_width_input_is_unchanged() {
    let out = coerce_to_width(&vec![0x12, 0x34], BitWidth::W16);
    assert_eq!(out, vec![0x12, 0x34]);
}

#[test]
fn sixteen_bit_round_trip_reproduces_the_value() {
    // Coercing and reading back as a big-endian number gives the original
    // value truncated to the width.
    let original = vec![0x01, 0x02, 0x03];
    let coerced = coerce_to_width(&original, BitWidth::W16);
    assert_eq!(read_be_u16(&coerced), 0x0203);
    assert_eq!(read_be_u16(&original), 0x0203);
}

#[test]
fn widths_beyond_the_input_round_trip_exactly() {
    let original = vec![0x7F, 0x00, 0x55];
    let coerced = coerce_to_width(&original, BitWidth::W2048);
    assert_eq!(coerced.len(), 256);
    assert_eq!(&coerced[253..], &[0x7F, 0x00, 0x55]);
    assert!(coerced[..253].iter().all(|b| *b == 0));
}

#[test]
fn uneven_widths_take_their_byte_count() {
    let long: Vec<u8> = (0u8..30).collect();
    let coerced = coerce_to_width(&long, BitWidth::W160);
    assert_eq!(coerced.len(), 20);
    let tail: Vec<u8> = (10u8..30).collect();
    assert_eq!(coerced, tail);
}

#[test]
fn every_supported_width_has_its_byte_length() {
    let widths = [
        (BitWidth::W4, 1),
        (BitWidth::W8, 1),
        (BitWidth::W16, 2),
        (BitWidth::W32, 4),
        (BitWidth::W64, 8),
        (BitWidth::W128, 16),
        (BitWidth::W160, 20),
        (BitWidth::W256, 32),
        (BitWidth::W512, 64),
        (BitWidth::W1024, 128),
        (BitWidth::W2048, 256),
    ];
    let sample = vec![0xFE, 0xDC, 0xBA];
    for (w, n) in widths {
        assert_eq!(coerce_to_width(&sample, w).len(), n);
    }
}

#[test]
fn a_scalar_beside_a_ciphertext_takes_the_ciphertext_width() {
    assert_eq!(scalar_width_for(CiphertextKind::Bool), BitWidth::W4);
    assert_eq!(scalar_width_for(CiphertextKind::Uint160), BitWidth::W160);
    assert_eq!(scalar_width_for(CiphertextKind::Bytes128), BitWidth::W1024);
    let coerced = coerce_to_width(&vec![0xEE], scalar_width_for(CiphertextKind::Bytes128));
    assert_eq!(coerced.len(), 128);
    assert_eq!(coerced[127], 0xEE);
}

#[test]
fn reading_sixteen_bits_truncates_longer_input() {
    assert_eq!(read_be_u16(&vec![]), 0);
    assert_eq!(read_be_u16(&vec![0x07]), 0x07);
    assert_eq!(read_be_u16(&vec![0x12, 0x34]), 0x1234);
    assert_eq!(read_be_u16(&vec![0xFF, 0x12, 0x34]), 0x1234);
}
