use std::collections::VecDeque;

use parasite::{
    AdcMeasurements, BusError, DelayUs, I2cBus, Measurement, MeasurementTrigger, RawMeasurement,
    ResultMailbox, Shtc3Measurement, ShtC3, assemble_advertisement, average_adc_samples,
    join_result, measure, sensor_cycle, try_assemble_advertisement,
};

const SHT_ADDR: u8 = 0x70;

enum Expect {
    Write {
        bytes: Vec<u8>,
        result: Result<(), BusError>,
    },
    Read {
        data: Result<Vec<u8>, BusError>,
    },
}

struct MockBus {
    expected: VecDeque<Expect>,
}

impl MockBus {
    fn new(expectations: Vec<Expect>) -> Self {
        MockBus { expected: VecDeque::from(expectations) }
    }

    fn done(self) {
        assert!(self.expected.is_empty(), "not all expected transactions ran");
    }
}

impl I2cBus for MockBus {
    fn write(&mut self, address: u8, bytes: &[u8]) -> Result<(), BusError> {
        assert_eq!(address, SHT_ADDR);
        match self.expected.pop_front() {
            Some(Expect::Write { bytes: expected, result }) => {
                assert_eq!(bytes, expected.as_slice());
                result
            }
            _ => panic!("unexpected write"),
        }
    }

    fn read(&mut self, address: u8, len: usize) -> Result<Vec<u8>, BusError> {
        assert_eq!(address, SHT_ADDR);
        match self.expected.pop_front() {
            Some(Expect::Read { data }) => {
                if let Ok(ref bytes) = data {
                    assert_eq!(bytes.len(), len);
                }
                data
            }
            _ => panic!("unexpected read"),
        }
    }
}

struct NoopDelay;

impl DelayUs for NoopDelay {
    fn delay_us(&mut self, _us: u32) {}
}

fn datasheet_response() -> Vec<u8> {
    vec![
        0b0110_0100,
        0b1000_1011,
        0b1100_0111,
        0b1010_0001,
        0b0011_0011,
        0b0001_1100,
    ]
}

/// The oversampled measurement wakes the sensor, takes four low-power
/// readings, averages them and puts the sensor to sleep. Four identical
/// datasheet responses average to the datasheet values exactly.
#[test]
fn oversampled_measure_follows_protocol() {
    let mut expectations = vec![Expect::Write { bytes: vec![0x35, 0x17], result: Ok(()) }];
    for _ in 0..4 {
        expectations.push(Expect::Write { bytes: vec![0x60, 0x9C], result: Ok(()) });
        expectations.push(Expect::Read { data: Ok(datasheet_response()) });
    }
    expectations.push(Expect::Write { bytes: vec![0xB0, 0x98], result: Ok(()) });

    let mut sht = ShtC3::new(MockBus::new(expectations));
    let m = measure(&mut sht, &mut NoopDelay).unwrap();
    assert_eq!(m.temperature.as_millidegrees_celsius(), 23_730);
    assert_eq!(m.humidity.as_millipercent(), 62_968);
    sht.destroy().done();
}

/// A mid-cycle failure abandons the remaining repetitions and surfaces
/// the error; the cycle wrapper then attempts exactly one reset.
#[test]
fn sensor_cycle_resets_once_on_failure() {
    let expectations = vec![
        Expect::Write { bytes: vec![0x35, 0x17], result: Ok(()) },
        Expect::Write { bytes: vec![0x60, 0x9C], result: Err(BusError(7)) },
        // The single recovery attempt: the soft-reset opcode.
        Expect::Write { bytes: vec![0x80, 0x5D], result: Ok(()) },
    ];
    let mut sht = ShtC3::new(MockBus::new(expectations));
    let r = sensor_cycle(&mut sht, &mut NoopDelay);
    assert!(r.is_none());
    sht.destroy().done();
}

/// A corrupted response surfaces as a checksum failure, followed by the
/// single reset attempt.
#[test]
fn sensor_cycle_resets_on_corruption() {
    let expectations = vec![
        Expect::Write { bytes: vec![0x35, 0x17], result: Ok(()) },
        Expect::Write { bytes: vec![0x60, 0x9C], result: Ok(()) },
        Expect::Read { data: Ok(vec![0xbe, 0xef, 0x00, 0xbe, 0xef, 0x92]) },
        Expect::Write { bytes: vec![0x80, 0x5D], result: Ok(()) },
    ];
    let mut sht = ShtC3::new(MockBus::new(expectations));
    let r = sensor_cycle(&mut sht, &mut NoopDelay);
    assert!(r.is_none());
    sht.destroy().done();
}

/// A full cycle's payload: header, six fields in broadcast order, then
/// the local name, 31 bytes in all with the service-data length byte
/// covering header tail and fields.
#[test]
fn assembled_advertisement_bytes() {
    let adc = AdcMeasurements::new(34, 2995, 51, 45000);
    let measurement = Measurement::from(RawMeasurement {
        temperature: (0b0110_0100_u16 << 8) | 0b1000_1011,
        humidity: (0b1010_0001_u16 << 8) | 0b0011_0011,
    });
    let sht = Shtc3Measurement::new(measurement);

    let ad = assemble_advertisement(&adc, &sht, b"rpara");
    let encoded = ad.encode();

    assert_eq!(encoded.len(), 31);
    assert_eq!(
        encoded,
        &[
            0x02, 0x01, 0x06, 0x14, 0x16, 0xD2, 0xFC, 0x40, // header, 16 field bytes counted
            0x01, 34, // battery
            0x02, 0x45, 0x09, // temperature 2373 in 0.01 degree steps
            0x05, 0xC8, 0xAF, 0x00, // illuminance 45000
            0x0C, 0xB3, 0x0B, // voltage 2995 mV
            0x2E, 62,   // humidity 62 percent
            0x2F, 51,   // moisture 51 percent
            6, 0x09, b"r"[0], b"p"[0], b"a"[0], b"r"[0], b"a"[0], // local name
        ]
    );
}

/// A device name that cannot fit the capacity is reported, not truncated.
#[test]
fn assembly_rejects_long_name() {
    let adc = AdcMeasurements::new(34, 2995, 51, 45000);
    let sht = Shtc3Measurement::new(Measurement::default());

    assert!(try_assemble_advertisement(&adc, &sht, b"r-para").is_none());
    assert!(try_assemble_advertisement(&adc, &sht, b"rpara").is_some());
}

/// One trigger occurrence is observed by each subscriber exactly once.
#[test]
fn trigger_observed_exactly_once_per_subscriber() {
    let mut trigger = MeasurementTrigger::new();
    let mut sensor_sub = trigger.subscriber();
    let mut adc_sub = trigger.subscriber();

    assert!(!sensor_sub.poll(&trigger));

    trigger.send();
    assert!(sensor_sub.poll(&trigger));
    assert!(!sensor_sub.poll(&trigger));
    assert!(adc_sub.poll(&trigger));
    assert!(!adc_sub.poll(&trigger));
}

/// Occurrences that pile up before a subscriber looks coalesce into one
/// observation: latest-occurrence-only semantics.
#[test]
fn trigger_coalesces_missed_occurrences() {
    let mut trigger = MeasurementTrigger::new();
    let mut sub = trigger.subscriber();

    trigger.send();
    trigger.send();
    trigger.send();

    assert!(sub.poll(&trigger));
    assert!(!sub.poll(&trigger));
}

/// A subscriber that arrives after an occurrence does not see the past.
#[test]
fn late_subscriber_sees_nothing_pending() {
    let mut trigger = MeasurementTrigger::new();
    trigger.send();
    let mut sub = trigger.subscriber();
    assert!(!sub.poll(&trigger));
}

/// The mailbox is overwrite-on-write: the reader takes only the newest
/// value, and taking empties the slot.
#[test]
fn mailbox_overwrites_and_empties() {
    let mut mailbox: ResultMailbox<u32> = ResultMailbox::new();
    assert_eq!(mailbox.try_take(), None);

    mailbox.signal(1);
    mailbox.signal(2);
    assert_eq!(mailbox.try_take(), Some(2));
    assert_eq!(mailbox.try_take(), None);
}

/// The join policy: a fresh result wins, a missing one carries the
/// previous cycle's value forward.
#[test]
fn join_carries_previous_value_forward() {
    assert_eq!(join_result(Some(7u32), 3), 7);
    assert_eq!(join_result(None, 3), 3);
}

/// Four sample rounds average element-wise with truncation toward zero.
#[test]
fn adc_rounds_average() {
    let rounds = [[1i16, 2, 3], [1, 2, 3], [1, 2, 3], [5, 7, -9]];
    assert_eq!(average_adc_samples(&rounds), [2, 3, 0]);
}
