use mqtt_codec::{DataRepresentationError, VariableByteInt, MAX_VALUE};

#[test]
fn test_simple_encode() {
    let variable_byte_int = VariableByteInt::new(25).unwrap();
    let encoded = variable_byte_int.encode();
    let expected = [25, 0, 0, 0];

    assert_eq!(encoded, expected);
}

#[test]
fn test_simple_decode() {
    let encoded = [25, 0, 0, 0];
    let decoded = VariableByteInt::decode(&encoded).unwrap();
    let expected = VariableByteInt::new(25).unwrap();

    assert_eq!(decoded, expected);
    assert_eq!(decoded.value(), 25);
    assert_eq!(decoded.length(), 1);
}

#[test]
fn variable_byte_int_test_reversibility() {
    let initial = VariableByteInt::new(0x69420).unwrap();
    let encoded = initial.encode();
    let decoded = VariableByteInt::decode(&encoded).unwrap();

    assert_eq!(initial, decoded);
    assert_eq!(decoded.length(), 3);
}

#[test]
fn three_byte_value_encoding() {
    // 0x69420 = 0x20 + 0x28 * 128 + 0x1A * 128 * 128
    assert_eq!(VariableByteInt::new(0x69420).unwrap().encode(), [0xA0, 0xA8, 0x1A, 0]);
}

#[test]
fn digit_boundaries() {
    let cases: [(u32, [u8; 4], usize); 8] = [
        (0, [0, 0, 0, 0], 1),
        (127, [0x7F, 0, 0, 0], 1),
        (128, [0x80, 0x01, 0, 0], 2),
        (16_383, [0xFF, 0x7F, 0, 0], 2),
        (16_384, [0x80, 0x80, 0x01, 0], 3),
        (2_097_151, [0xFF, 0xFF, 0x7F, 0], 3),
        (2_097_152, [0x80, 0x80, 0x80, 0x01], 4),
        (268_435_455, [0xFF, 0xFF, 0xFF, 0x7F], 4),
    ];
    for (value, bytes, length) in cases {
        let v = VariableByteInt::new(value).unwrap();
        assert_eq!(v.length(), length);
        assert_eq!(v.encode(), bytes);
        let d = VariableByteInt::decode(&bytes).unwrap();
        assert_eq!(d.value(), value);
        assert_eq!(d.length(), length);
    }
}

#[test]
fn maximum_value_round_trips() {
    let max = VariableByteInt::new(MAX_VALUE).unwrap();
    let decoded = VariableByteInt::decode(&max.encode()).unwrap();
    assert_eq!(decoded, max);
    assert_eq!(decoded.length(), 4);
}

#[test]
fn values_above_28_bits_are_refused() {
    for value in [MAX_VALUE + 1, 0x8000_0000, u32::MAX] {
        assert_eq!(
            VariableByteInt::new(value),
            Err(DataRepresentationError::MalformedVariableByteInteger)
        );
    }
}

#[test]
fn unterminated_sequence_is_malformed() {
    let all_continued = [0x80u8, 0x80, 0x80, 0x80];
    assert_eq!(
        VariableByteInt::decode(&all_continued),
        Err(DataRepresentationError::MalformedVariableByteInteger)
    );
    let five_bytes = [0xFFu8, 0xFF, 0xFF, 0xFF, 0x01];
    assert_eq!(
        VariableByteInt::decode(&five_bytes),
        Err(DataRepresentationError::MalformedVariableByteInteger)
    );
}

#[test]
fn short_or_empty_input_is_malformed() {
    assert_eq!(
        VariableByteInt::decode(&[]),
        Err(DataRepresentationError::MalformedVariableByteInteger)
    );
    assert_eq!(
        VariableByteInt::decode(&[0x80, 0x80]),
        Err(DataRepresentationError::MalformedVariableByteInteger)
    );
}

#[test]
fn bytes_after_the_last_digit_are_ignored() {
    let d = VariableByteInt::decode(&[0x80, 0x01, 0xFF, 0xFF, 0xFF]).unwrap();
    assert_eq!(d.value(), 128);
    assert_eq!(d.length(), 2);
}

#[test]
fn decoded_length_is_the_digit_count_of_the_value() {
    // a padded zero still decodes, to the one-byte form of its value
    let d = VariableByteInt::decode(&[0x80, 0x00]).unwrap();
    assert_eq!(d.value(), 0);
    assert_eq!(d.length(), 1);
}
