use parasite::{
    Battery1Per, BtHomeAd, BtHomeEnum, Humidity1Per, Humidity10mPer, Illuminance10mLux,
    Moisture1Per, Moisture10mPer, Temperature10mK, Voltage1mV,
};

#[test]
fn basic_add_name() {
    let mut home = BtHomeAd::default();

    let name = b"hello";

    home.add_local_name(name);

    assert_eq!(home.encode().len(), 15);

    assert_eq!(
        home.encode(),
        &[
            0x02,
            0x01,
            0x06,
            0x04,
            0x16,
            0xD2,
            0xFC,
            0x40,
            (name.len() + 1) as u8,
            0x09,
            b"h"[0],
            b"e"[0],
            b"l"[0],
            b"l"[0],
            b"o"[0]
        ]
    );
}

#[test]
fn add_data() {
    let mut home = BtHomeAd::default();

    home.add_data(Battery1Per::from(34).into());
    home.add_data(Temperature10mK::from(2255).into());

    assert_eq!(
        home.encode(),
        &[0x02, 0x01, 0x06, 0x09, 0x16, 0xD2, 0xFC, 0x40, 0x01, 34, 0x02, 207, 8,]
    );
}

#[test]
fn full_payload() {
    let mut home = BtHomeAd::default();

    home.add_data(Battery1Per::from(34).into());
    home.add_data(Temperature10mK::from(2255).into());
    home.add_data(Humidity10mPer::from(3400).into());
    home.add_data(Illuminance10mLux::from(45000).into());
    home.add_data(Moisture10mPer::from(3632).into());

    let encoded = home.encode_with_local_name(b"r-para");

    // Final payload is within the max size for the advertising payload
    assert_eq!(encoded.len(), 31);
    assert_eq!(encoded[3], 19);
}

/// Encoding a field of each type and re-decoding its bytes recovers the
/// original value exactly.
#[test]
fn field_round_trips() {
    assert_eq!(Battery1Per::from(34).get(), 34);
    assert_eq!(Battery1Per::from(0).get(), 0);
    assert_eq!(Battery1Per::from(255).get(), 255);

    assert_eq!(Humidity1Per::from(62).get(), 62);
    assert_eq!(Moisture1Per::from(51).get(), 51);

    assert_eq!(Humidity10mPer::from(3400).get(), 3400);
    assert_eq!(Humidity10mPer::from(65535).get(), 65535);
    assert_eq!(Voltage1mV::from(2995).get(), 2995);
    assert_eq!(Moisture10mPer::from(3632).get(), 3632);

    assert_eq!(Temperature10mK::from(2255).get(), 2255);
    assert_eq!(Temperature10mK::from(-2255).get(), -2255);
    assert_eq!(Temperature10mK::from(i16::MIN).get(), i16::MIN);
    assert_eq!(Temperature10mK::from(i16::MAX).get(), i16::MAX);

    assert_eq!(Illuminance10mLux::from(45000).get(), 45000);
    assert_eq!(Illuminance10mLux::from(0xFFFFFF).get(), 0xFFFFFF);
}

/// Each field encodes as its object id followed by its little-endian
/// payload.
#[test]
fn field_encodings_are_tagged() {
    assert_eq!(BtHomeEnum::from(Battery1Per::from(34)).encode(), &[0x01, 34]);
    assert_eq!(
        BtHomeEnum::from(Temperature10mK::from(2255)).encode(),
        &[0x02, 207, 8]
    );
    assert_eq!(
        BtHomeEnum::from(Humidity10mPer::from(3400)).encode(),
        &[0x03, 0x48, 0x0D]
    );
    assert_eq!(
        BtHomeEnum::from(Illuminance10mLux::from(45000)).encode(),
        &[0x05, 0xC8, 0xAF, 0x00]
    );
    assert_eq!(BtHomeEnum::from(Voltage1mV::from(2995)).encode(), &[0x0C, 0xB3, 0x0B]);
    assert_eq!(
        BtHomeEnum::from(Moisture10mPer::from(3632)).encode(),
        &[0x14, 0x30, 0x0E]
    );
    assert_eq!(BtHomeEnum::from(Humidity1Per::from(62)).encode(), &[0x2E, 62]);
    assert_eq!(BtHomeEnum::from(Moisture1Per::from(51)).encode(), &[0x2F, 51]);
}

/// Encoding twice without further mutation returns byte-identical output.
#[test]
fn encode_is_idempotent() {
    let mut home = BtHomeAd::default();
    home.add_data(Battery1Per::from(34).into());
    home.add_local_name(b"hello");

    let first = home.encode().to_vec();
    let second = home.encode().to_vec();
    assert_eq!(first, second);
}

/// A buffer sized one byte short of what the sequence requires rejects
/// the final append and stays unchanged.
#[test]
fn overflow_is_rejected() {
    let mut home = BtHomeAd::default();

    home.add_data(Battery1Per::from(34).into());
    home.add_data(Temperature10mK::from(2255).into());
    home.add_data(Humidity10mPer::from(3400).into());
    home.add_data(Illuminance10mLux::from(45000).into());
    home.add_data(Moisture10mPer::from(3632).into());

    // 23 bytes are used; the 8-byte name structure needs one byte more
    // than the 31-byte capacity allows.
    let before = home.encode().to_vec();
    assert!(!home.try_add_local_name(b"toolong"));
    assert_eq!(home.encode(), before.as_slice());

    // One byte less fits exactly.
    assert!(home.try_add_local_name(b"r-para"));
    assert_eq!(home.encode().len(), 31);
}

/// Appending a field whose encoded length meets the capacity is rejected
/// and leaves the buffer unchanged.
#[test]
fn overflowing_field_is_rejected() {
    let mut home = BtHomeAd::default();

    // Five 4-byte fields bring the buffer to 28 of 31 bytes.
    for _ in 0..5 {
        assert!(home.try_add_data(Illuminance10mLux::from(45000).into()));
    }
    assert_eq!(home.encode().len(), 28);

    // A 3-byte field would reach the capacity exactly: rejected.
    let before = home.encode().to_vec();
    assert!(!home.try_add_data(Voltage1mV::from(2995).into()));
    assert_eq!(home.encode(), before.as_slice());

    // A 2-byte field still leaves spare capacity: accepted.
    assert!(home.try_add_data(Battery1Per::from(34).into()));
    assert_eq!(home.encode().len(), 30);
}
