use sunrise_lib::codec::{i16_from_be, u16_from_be, u16_to_be, u32_from_be};

#[test]
fn unsigned_big_endian() {
    assert_eq!(u16_from_be(0x12, 0x34), 0x1234);
    assert_eq!(u16_from_be(0xFF, 0xFF), 0xFFFF);
    assert_eq!(u16_from_be(0x00, 0x01), 1);
}

#[test]
fn signed_big_endian() {
    assert_eq!(i16_from_be(0xFF, 0xFE), -2);
    assert_eq!(i16_from_be(0x80, 0x00), i16::MIN);
    assert_eq!(i16_from_be(0x7F, 0xFF), i16::MAX);
    assert_eq!(i16_from_be(0x01, 0x90), 400);
    for v in [i16::MIN, -1234, -1, 0, 1, 555, i16::MAX] {
        let b = v.to_be_bytes();
        assert_eq!(i16_from_be(b[0], b[1]), v);
    }
}

#[test]
fn four_bytes_big_endian() {
    assert_eq!(u32_from_be(0xDE, 0xAD, 0xBE, 0xEF), 0xDEADBEEF);
    assert_eq!(u32_from_be(0, 0, 0, 7), 7);
}

#[test]
fn to_bytes_and_back() {
    assert_eq!(u16_to_be(0x07C6), [0x07, 0xC6]);
    for v in [0u16, 1, 255, 256, 0x1234, u16::MAX] {
        let b = u16_to_be(v);
        assert_eq!(b, v.to_be_bytes());
        assert_eq!(u16_from_be(b[0], b[1]), v);
    }
}
