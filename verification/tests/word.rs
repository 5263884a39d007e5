use wonderos::word::{i16_from_be_bytes, i8_from_byte};

#[test]
fn big_endian_pairs_read_as_two_s_complement() {
    assert_eq!(i16_from_be_bytes(0x00, 0x00), 0);
    assert_eq!(i16_from_be_bytes(0x01, 0x02), 258);
    assert_eq!(i16_from_be_bytes(0x7f, 0xff), 32767);
    assert_eq!(i16_from_be_bytes(0x80, 0x00), -32768);
    assert_eq!(i16_from_be_bytes(0xff, 0xff), -1);
    assert_eq!(i16_from_be_bytes(0xff, 0xfe), -2);
    assert_eq!(i16_from_be_bytes(0x27, 0x10), 10000);
}

#[test]
fn every_pair_reads_as_the_standard_library_reads_it() {
    for hi in 0..=255u8 {
        for lo in 0..=255u8 {
            assert_eq!(i16_from_be_bytes(hi, lo), i16::from_be_bytes([hi, lo]));
        }
    }
}

#[test]
fn every_byte_reads_as_its_signed_value() {
    assert_eq!(i8_from_byte(0), 0);
    assert_eq!(i8_from_byte(127), 127);
    assert_eq!(i8_from_byte(128), -128);
    assert_eq!(i8_from_byte(255), -1);
    for byte in 0..=255u8 {
        assert_eq!(i8_from_byte(byte), byte as i8);
    }
}
