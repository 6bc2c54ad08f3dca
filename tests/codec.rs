use desk_control::codec::{decode_height, encode_direction, height_of_reading, MotionDirection};

#[test]
fn decode_adds_offset_to_tenths() {
    // 2200 raw units = 0x0898, little-endian
    assert_eq!(decode_height(&[0x98, 0x08]), 820);
    assert_eq!(decode_height(&[0x00, 0x00]), 600);
    assert_eq!(decode_height(&[0x09, 0x00]), 600);
    assert_eq!(decode_height(&[0x0a, 0x00]), 601);
}

#[test]
fn decode_largest_raw_value() {
    assert_eq!(decode_height(&[0xff, 0xff]), 600 + 65535 / 10);
}

#[test]
fn decode_ignores_trailing_bytes() {
    assert_eq!(decode_height(&[0x98, 0x08, 0x55, 0x01]), 820);
}

#[test]
fn decode_short_payload_is_unknown() {
    assert_eq!(decode_height(&[]), 0);
    assert_eq!(decode_height(&[0x98]), 0);
}

#[test]
fn decode_all_two_byte_values() {
    for v in 0..=u16::MAX {
        let b = v.to_le_bytes();
        assert_eq!(decode_height(&b), 600 + (v as u32) / 10);
    }
}

#[test]
fn failed_read_is_unknown_height() {
    assert_eq!(height_of_reading(&None), 0);
    assert_eq!(height_of_reading(&Some(vec![0x98, 0x08])), 820);
    assert_eq!(height_of_reading(&Some(vec![0x01])), 0);
}

#[test]
fn encode_fixed_commands() {
    assert_eq!(encode_direction(MotionDirection::Up), [0x47, 0x00]);
    assert_eq!(encode_direction(MotionDirection::Down), [0x46, 0x00]);
    assert_eq!(encode_direction(MotionDirection::Stop), [0x00, 0x00]);
}

#[test]
fn encode_same_input_same_output() {
    for d in [MotionDirection::Up, MotionDirection::Down, MotionDirection::Stop] {
        assert_eq!(encode_direction(d), encode_direction(d));
    }
    assert_ne!(encode_direction(MotionDirection::Up), encode_direction(MotionDirection::Down));
    assert_ne!(encode_direction(MotionDirection::Up), encode_direction(MotionDirection::Stop));
    assert_ne!(encode_direction(MotionDirection::Down), encode_direction(MotionDirection::Stop));
}
