use diskomator::pixel::Rgb8;
use diskomator::ws2812::{decode_byte, encode_byte, encode_pixel, encode_reset, encode_sequence};

#[test]
fn encode_byte_uses_the_line_code_table() {
    let mut buffer = [0u8; 4];
    encode_byte(&mut buffer, 0b00_01_10_11);
    assert_eq!(buffer, [0x88, 0x8E, 0xE8, 0xEE]);
    encode_byte(&mut buffer, 0xFF);
    assert_eq!(buffer, [0xEE, 0xEE, 0xEE, 0xEE]);
    encode_byte(&mut buffer, 0x00);
    assert_eq!(buffer, [0x88, 0x88, 0x88, 0x88]);
}

#[test]
fn every_byte_decodes_back() {
    for b in 0..=255u8 {
        let mut buffer = [0u8; 4];
        encode_byte(&mut buffer, b);
        assert_eq!(decode_byte(&buffer), Some(b));
    }
}

#[test]
fn decode_rejects_bytes_outside_the_table() {
    assert_eq!(decode_byte(&[0x88, 0x8E, 0x00, 0xEE]), None);
    assert_eq!(decode_byte(&[0xFF, 0x88, 0x88, 0x88]), None);
}

#[test]
fn pixel_goes_out_green_red_blue() {
    let mut buffer = [0u8; 12];
    encode_pixel(&mut buffer, &Rgb8::new(0x00, 0xFF, 0x1B));
    assert_eq!(
        buffer,
        [0xEE, 0xEE, 0xEE, 0xEE, 0x88, 0x88, 0x88, 0x88, 0x88, 0x8E, 0xE8, 0xEE]
    );
}

#[test]
fn reset_is_all_zero() {
    let mut buffer = [0xAAu8; 140];
    encode_reset(&mut buffer);
    assert!(buffer.iter().all(|b| *b == 0));
}

#[test]
fn sequence_is_pixels_then_gap_and_leaves_the_tail() {
    let pixels = [Rgb8::new(1, 2, 3), Rgb8::new(255, 0, 128)];
    let mut buffer = [0x55u8; 12 * 2 + 140 + 5];
    encode_sequence(&mut buffer, &pixels);
    let mut expected = [0u8; 12];
    encode_pixel(&mut expected, &pixels[0]);
    assert_eq!(&buffer[0..12], &expected);
    encode_pixel(&mut expected, &pixels[1]);
    assert_eq!(&buffer[12..24], &expected);
    assert!(buffer[24..164].iter().all(|b| *b == 0));
    assert_eq!(&buffer[164..], &[0x55; 5]);
}

#[test]
fn full_matrix_frame_has_the_documented_size() {
    let pixels = [Rgb8::new(9, 9, 9); 256];
    let mut buffer = [0xFFu8; 12 * 256 + 140];
    encode_sequence(&mut buffer, &pixels);
    assert_eq!(buffer.len(), 3212);
    assert!(buffer[3072..].iter().all(|b| *b == 0));
    assert!(buffer[..3072].iter().all(|b| [0x88, 0x8E, 0xE8, 0xEE].contains(b)));
}
