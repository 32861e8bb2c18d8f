use parasite::{Humidity, Measurement, RawMeasurement, Temperature, convert_humidity, convert_temperature};

/// Test conversion of raw measurement results into milli-degrees.
#[test]
fn test_convert_temperature() {
    let test_data = [
        (0x0000u16, -45000i32),
        // Datasheet "Conversion of Sensor Output" reference vector
        ((0b0110_0100_u16 << 8) | 0b1000_1011, 23730),
    ];
    for td in &test_data {
        assert_eq!(convert_temperature(td.0), td.1);
    }
}

/// Test conversion of raw measurement results into milli-percent.
#[test]
fn test_convert_humidity() {
    let test_data = [
        (0x0000u16, 0i32),
        // Datasheet "Conversion of Sensor Output" reference vector
        ((0b1010_0001_u16 << 8) | 0b0011_0011, 62968),
    ];
    for td in &test_data {
        assert_eq!(convert_humidity(td.0), td.1);
    }
}

/// Test conversion of raw measurement results into degrees and percent.
#[test]
fn measurement_conversion() {
    let temperature = convert_temperature((0b0110_0100_u16 << 8) | 0b1000_1011);
    let humidity = convert_humidity((0b1010_0001_u16 << 8) | 0b0011_0011);
    assert_eq!(temperature, 23730);
    assert_eq!(humidity, 62968);
}

#[test]
fn measurement_from_into() {
    let raw = RawMeasurement {
        temperature: (0b0110_0100_u16 << 8) | 0b1000_1011,
        humidity: (0b1010_0001_u16 << 8) | 0b0011_0011,
    };

    // core::convert::From
    let measurement1 = Measurement::from(raw);
    assert_eq!(measurement1.temperature.as_millidegrees_celsius(), 23730);
    assert_eq!(measurement1.humidity.as_millipercent(), 62968);

    // core::convert::Into
    let measurement2: Measurement = raw.into();
    assert_eq!(measurement2.temperature.as_millidegrees_celsius(), 23730);
    assert_eq!(measurement2.humidity.as_millipercent(), 62968);

    // core::cmp::PartialEq
    assert_eq!(measurement1, measurement2);
}

#[test]
fn temperature_unit_conversions() {
    let temp = Temperature::from_raw((0b0110_0100_u16 << 8) | 0b1000_1011);
    assert_eq!(temp.as_millidegrees_celsius(), 23730);
    assert_eq!(temp.as_10mk_celsius(), 2373);
}

#[test]
fn humidity_unit_conversions() {
    let humi = Humidity::from_raw((0b1010_0001_u16 << 8) | 0b0011_0011);
    assert_eq!(humi.as_millipercent(), 62968);
    assert_eq!(humi.as_10mk_percent(), 6296);
    assert_eq!(humi.as_1k_percent(), 62);
}

#[test]
fn measurement_accumulate_and_divide() {
    let mut m = Measurement::default();
    let raw = RawMeasurement {
        temperature: (0b0110_0100_u16 << 8) | 0b1000_1011,
        humidity: (0b1010_0001_u16 << 8) | 0b0011_0011,
    };
    for _ in 0..4 {
        m.accumulate(Measurement::from(raw));
    }
    m.divide(4);
    assert_eq!(m.temperature.as_millidegrees_celsius(), 23730);
    assert_eq!(m.humidity.as_millipercent(), 62968);
}

#[test]
fn negative_temperature_divides_toward_zero() {
    let mut m = Measurement::default();
    m.accumulate(Measurement::from(RawMeasurement { temperature: 0, humidity: 0 }));
    // -45000 across four samples stays -45000 after averaging one sample
    // three more zero-raw samples keep the sum at -180000
    for _ in 0..3 {
        m.accumulate(Measurement::from(RawMeasurement { temperature: 0, humidity: 0 }));
    }
    m.divide(4);
    assert_eq!(m.temperature.as_millidegrees_celsius(), -45000);
    assert_eq!(m.humidity.as_millipercent(), 0);
}
