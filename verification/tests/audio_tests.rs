use diskomator::audio::{
    feedback_packet, feedback_value, first_frame, frame_layout, newest_frame, pack_samples,
    parse_usb_packet, process_audio_samples, AudioError, FrameLayout, FRAME_BYTES, SAMPLE_RATE_HZ,
};

#[test]
fn seven_bytes_are_malformed() {
    assert_eq!(process_audio_samples(&[0u8; 7]).err(), Some(AudioError::MalformedFrame));
    assert_eq!(process_audio_samples(&[0u8; 9]).err(), Some(AudioError::MalformedFrame));
    assert_eq!(process_audio_samples(&[0u8; 2047]).err(), Some(AudioError::MalformedFrame));
    assert_eq!(AudioError::MalformedFrame.message(), "Buffer length must be a multiple of 8");
}

#[test]
fn empty_block_yields_nothing() {
    let (left, right) = process_audio_samples(&[]).unwrap();
    assert!(left.is_empty());
    assert!(right.is_empty());
}

#[test]
fn channels_are_split() {
    let mut block = Vec::new();
    for (l, r) in [(1i32, -1i32), (i32::MAX, i32::MIN), (0x0102_0304, -0x0102_0304)] {
        block.extend_from_slice(&l.to_le_bytes());
        block.extend_from_slice(&r.to_le_bytes());
    }
    let (left, right) = process_audio_samples(&block).unwrap();
    assert_eq!(left.as_slice(), &[1, i32::MAX, 0x0102_0304]);
    assert_eq!(right.as_slice(), &[-1, i32::MIN, -0x0102_0304]);
}

#[test]
fn a_frame_yields_256_samples() {
    let block: Vec<u8> = (0..FRAME_BYTES).map(|i| (i % 251) as u8).collect();
    let (left, right) = process_audio_samples(&block).unwrap();
    assert_eq!(left.len(), 256);
    assert_eq!(right.len(), 256);
    for k in 0..256 {
        assert_eq!(left[k], i32::from_le_bytes(block[8 * k..8 * k + 4].try_into().unwrap()));
        assert_eq!(right[k], i32::from_le_bytes(block[8 * k + 4..8 * k + 8].try_into().unwrap()));
    }
}

#[test]
fn samples_beyond_512_are_dropped() {
    let block: Vec<u8> = (0..8 * 600).map(|i| (i % 253) as u8).collect();
    let (left, right) = process_audio_samples(&block).unwrap();
    assert_eq!(left.len(), 512);
    assert_eq!(right.len(), 512);
    assert_eq!(left[511], i32::from_le_bytes(block[8 * 511..8 * 511 + 4].try_into().unwrap()));
    assert_eq!(right[0], i32::from_le_bytes(block[4..8].try_into().unwrap()));
}

#[test]
fn newest_frame_is_the_tail_of_what_is_available() {
    let buffer: Vec<u8> = (0..5000).map(|i| (i % 256) as u8).collect();
    assert_eq!(newest_frame(&buffer, 2047), None);
    assert_eq!(newest_frame(&buffer, 0), None);
    assert_eq!(newest_frame(&buffer, 2048), Some(&buffer[0..2048]));
    assert_eq!(newest_frame(&buffer, 4096), Some(&buffer[2048..4096]));
    assert_eq!(newest_frame(&buffer, 5000), Some(&buffer[2952..5000]));
}

#[test]
fn first_frame_is_the_head_of_a_block() {
    let buffer: Vec<u8> = (0..3000).map(|i| (i % 256) as u8).collect();
    assert_eq!(first_frame(&buffer), Some(&buffer[0..2048]));
    assert_eq!(first_frame(&buffer[..2048]), Some(&buffer[0..2048]));
    assert_eq!(first_frame(&buffer[..2047]), None);
}

#[test]
fn samples_stand_in_the_middle_of_the_transform_input() {
    assert_eq!(frame_layout(256), FrameLayout { sample_count: 256, left_padding: 128 });
    assert_eq!(frame_layout(512), FrameLayout { sample_count: 512, left_padding: 0 });
    assert_eq!(frame_layout(600), FrameLayout { sample_count: 512, left_padding: 0 });
    assert_eq!(frame_layout(0), FrameLayout { sample_count: 0, left_padding: 256 });
    assert_eq!(frame_layout(255), FrameLayout { sample_count: 255, left_padding: 128 });
    assert_eq!(frame_layout(1), FrameLayout { sample_count: 1, left_padding: 255 });
}

#[test]
fn feedback_is_the_rate_in_10_14() {
    assert_eq!(feedback_value(SAMPLE_RATE_HZ), 786_432);
    assert_eq!(feedback_value(44_100), 722_534);
    assert_eq!(feedback_value(0), 0);
    assert_eq!(feedback_packet(SAMPLE_RATE_HZ), [0x00, 0x00, 0x0C]);
    assert_eq!(feedback_packet(44_100), [0x66, 0x06, 0x0B]);
    assert_eq!(feedback_value(262_143), 4_294_950);
    assert_eq!(feedback_packet(262_143), [0x26, 0x89, 0x41]);
}

#[test]
fn usb_packet_is_read_as_words() {
    assert_eq!(parse_usb_packet(&[]), Some(vec![]));
    assert_eq!(parse_usb_packet(&[1, 2, 3, 4, 0xFF, 0xFF, 0xFF, 0xFF]), Some(vec![0x0403_0201, u32::MAX]));
    assert_eq!(parse_usb_packet(&[1, 2, 3]), None);
    assert_eq!(parse_usb_packet(&[1, 2, 3, 4, 5]), None);
    let packet: Vec<u8> = (0..448).map(|i| (i % 256) as u8).collect();
    assert_eq!(parse_usb_packet(&packet).unwrap().len(), 112);
}

#[test]
fn samples_are_packed_low_byte_first() {
    let mut block = [0xAAu8; 2048];
    assert_eq!(pack_samples(&[0x0403_0201, 0xFFEE_DDCC], &mut block), 8);
    assert_eq!(&block[..8], &[1, 2, 3, 4, 0xCC, 0xDD, 0xEE, 0xFF]);
    assert!(block[8..].iter().all(|b| *b == 0xAA));
    assert_eq!(pack_samples(&[], &mut block), 0);
    let many: Vec<u32> = (0..600).collect();
    assert_eq!(pack_samples(&many, &mut block), 2048);
    for k in 0..512 {
        assert_eq!(&block[4 * k..4 * k + 4], &(k as u32).to_le_bytes());
    }
}
