use parasite::crc8;

/// Test the crc8 function against the test values provided in the
/// sensor's datasheet.
#[test]
fn crc8_test_value() {
    assert_eq!(crc8(&[0x00]), 0xac);
    assert_eq!(crc8(&[0xbe, 0xef]), 0x92);
}

/// The checksum of no data is the seed.
#[test]
fn crc8_empty_input_is_seed() {
    assert_eq!(crc8(&[]), 0xff);
}
