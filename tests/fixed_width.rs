use mqtt_codec::{FourByteInt, TwoByteInt};

#[test]
fn four_byte_int_test_reversibility() {
    let initial = FourByteInt(0x12345678);
    let bytes = initial.to_bytes();
    let reconstructed = FourByteInt::from_bytes(bytes);

    assert_eq!(initial, reconstructed);
}

#[test]
fn two_byte_int_test_reversibility() {
    let initial = TwoByteInt(0x1234);
    let bytes = initial.to_bytes();
    let reconstructed = TwoByteInt::from_bytes(bytes);

    assert_eq!(initial, reconstructed);
}

#[test]
fn four_byte_int_is_big_endian() {
    assert_eq!(FourByteInt(0x12345678).to_bytes(), [0x12, 0x34, 0x56, 0x78]);
    assert_eq!(FourByteInt::from_bytes([0xDE, 0xAD, 0xBE, 0xEF]), FourByteInt(0xDEADBEEF));
    assert_eq!(FourByteInt(u32::MAX).to_bytes(), [0xFF; 4]);
}

#[test]
fn two_byte_int_is_big_endian() {
    assert_eq!(TwoByteInt(0x1234).to_bytes(), [0x12, 0x34]);
    assert_eq!(TwoByteInt::from_bytes([0xAB, 0xCD]).value(), 0xABCD);
    assert_eq!(TwoByteInt::from(65535u16).to_bytes(), [0xFF, 0xFF]);
    assert_eq!(TwoByteInt::from(7u16).value(), 7);
}
