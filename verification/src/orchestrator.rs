//! The per-cycle orchestration logic: the oversampled sensor measurement
//! with its single-reset recovery, and the assembly of one advertisement
//! payload from the cycle's results.

use vstd::prelude::*;

use crate::bthome::{BtHomeAd, BtHomeEnum, spec_header};
use crate::shtc3::{DelayUs, Error, I2cBus, PowerMode, ShtC3};
use crate::state::{AdcMeasurements, Shtc3Measurement};
use crate::types::{Measurement, div_trunc, spec_convert_humidity, spec_convert_temperature};

verus! {

/// The sum of a sequence of integers.
pub open spec fn sum_int(s: Seq<int>) -> int
    decreases s.len(),
{
    if s.len() == 0 {
        0
    } else {
        sum_int(s.drop_last()) + s.last()
    }
}

/// How many raw readings one oversampled measurement averages.
pub const OVERSAMPLE_COUNT: u32 = 4;

/// What an oversampled measurement returns: the truncated mean of four
/// temperature conversions and four humidity conversions, each obtained
/// from some raw sensor code.
pub open spec fn oversampled_mean(ts: Seq<int>, hs: Seq<int>, m: Measurement) -> bool {
    &&& ts.len() == 4
    &&& hs.len() == 4
    &&& forall|j: int|
        0 <= j < 4 ==> exists|raw: u16| #[trigger] ts[j] == spec_convert_temperature(raw)
    &&& forall|j: int|
        0 <= j < 4 ==> exists|raw: u16| #[trigger] hs[j] == spec_convert_humidity(raw)
    &&& m.temperature@ == div_trunc(sum_int(ts), 4)
    &&& m.humidity@ == div_trunc(sum_int(hs), 4)
}

/// Whether a measurement is the truncated mean of four checksum-valid
/// oversampled readings.
pub open spec fn is_oversampled(m: Measurement) -> bool {
    exists|ts: Seq<int>, hs: Seq<int>| oversampled_mean(ts, hs, m)
}

/// One oversampled measurement: wake the sensor, take four low-power
/// readings with the mode's conversion delay and a short settling delay
/// between them, average the accumulated values, and put the sensor back
/// to sleep. Any failed step aborts the remaining repetitions and
/// surfaces its error.
pub fn measure<B: I2cBus, D: DelayUs>(sht: &mut ShtC3<B>, delay: &mut D) -> (r: Result<
    Measurement,
    Error,
>)
    ensures
        r matches Ok(m) ==> -45000 <= m.temperature@ <= 129997 && 0 <= m.humidity@ <= 99998,
        r matches Ok(m) ==> is_oversampled(m),
{
    if let Err(e) = sht.start_wakeup() {
        return Err(e);
    }
    let us = sht.wakeup_duration();
    delay.delay_us(us);

    let mode = PowerMode::LowPower;
    let mut m = Measurement::default();
    let ghost mut ts: Seq<int> = Seq::empty();
    let ghost mut hs: Seq<int> = Seq::empty();

    let mut i: u32 = 0;
    while i < OVERSAMPLE_COUNT
        invariant
            i <= 4,
            ts.len() == i,
            hs.len() == i,
            m.temperature@ == sum_int(ts),
            m.humidity@ == sum_int(hs),
            forall|j: int|
                0 <= j < i ==> exists|raw: u16| #[trigger] ts[j] == spec_convert_temperature(raw),
            forall|j: int|
                0 <= j < i ==> exists|raw: u16| #[trigger] hs[j] == spec_convert_humidity(raw),
            -45000 * i <= m.temperature@ <= 129997 * i,
            0 <= m.humidity@ <= 99998 * i,
        decreases 4 - i,
    {
        if let Err(e) = sht.start_measurement(mode) {
            return Err(e);
        }
        let us2 = sht.max_measurement_duration(mode);
        delay.delay_us(us2);

        let sample = match sht.get_measurement_result() {
            Ok(s) => s,
            Err(e) => {
                return Err(e);
            },
        };
        m.accumulate(sample);
        proof {
            let rawm = choose|rawm: crate::types::RawMeasurement|
                sample.temperature@ == spec_convert_temperature(rawm.temperature)
                    && sample.humidity@ == spec_convert_humidity(rawm.humidity);
            let ts2 = ts.push(sample.temperature@);
            let hs2 = hs.push(sample.humidity@);
            assert(ts2.drop_last() =~= ts);
            assert(hs2.drop_last() =~= hs);
            ts = ts2;
            hs = hs2;
            assert(ts[i as int] == spec_convert_temperature(rawm.temperature));
            assert(hs[i as int] == spec_convert_humidity(rawm.humidity));
        }
        delay.delay_us(5000);
        i += 1;
    }

    m.divide(4);
    if let Err(e) = sht.sleep() {
        return Err(e);
    }
    proof {
        assert(oversampled_mean(ts, hs, m));
        assert(is_oversampled(m));
    }
    Ok(m)
}

/// One sensor-activity cycle: run the oversampled measurement; on any
/// failure attempt exactly one reset cycle and report no value, never
/// retrying the measurement within the same cycle.
pub fn sensor_cycle<B: I2cBus, D: DelayUs>(sht: &mut ShtC3<B>, delay: &mut D) -> (r: Option<
    Measurement,
>)
    ensures
        r matches Some(m) ==> -45000 <= m.temperature@ <= 129997 && 0 <= m.humidity@ <= 99998,
        r matches Some(m) ==> is_oversampled(m),
{
    match measure(sht, delay) {
        Ok(m) => Some(m),
        Err(_) => {
            let _ = sht.reset(delay);
            None
        },
    }
}

/// Average the analog activity's sample rounds: the element-wise
/// truncated mean of four 3-channel readings, one channel each for soil
/// moisture, light and battery voltage.
pub fn average_adc_samples(rounds: &[[i16; 3]; 4]) -> (r: [i16; 3])
    ensures
        forall|j: int|
            0 <= j < 3 ==> #[trigger] r@[j] == div_trunc(
                rounds@[0]@[j] + rounds@[1]@[j] + rounds@[2]@[j] + rounds@[3]@[j],
                4,
            ),
{
    let c0 = ((rounds[0][0] as i32 + rounds[1][0] as i32 + rounds[2][0] as i32
        + rounds[3][0] as i32) / 4) as i16;
    let c1 = ((rounds[0][1] as i32 + rounds[1][1] as i32 + rounds[2][1] as i32
        + rounds[3][1] as i32) / 4) as i16;
    let c2 = ((rounds[0][2] as i32 + rounds[1][2] as i32 + rounds[2][2] as i32
        + rounds[3][2] as i32) / 4) as i16;
    let r: [i16; 3] = [c0, c1, c2];
    proof {
        assert(r@[0] == c0 && r@[1] == c1 && r@[2] == c2);
    }
    r
}

/// One [`BtHomeAd::add_data`] step at the byte level: the service-data
/// length byte grows by the encoded length and the encoding is appended.
pub open spec fn spec_add(b: Seq<u8>, enc: Seq<u8>) -> Seq<u8> {
    b.update(3, (b[3] + enc.len()) as u8) + enc
}

/// The full advertisement payload of one cycle: the header, the six
/// measurement fields in their broadcast order, then the local-name
/// structure.
pub open spec fn spec_assembled(adc: AdcMeasurements, sht: Shtc3Measurement, name: Seq<u8>) -> Seq<
    u8,
> {
    spec_add(
        spec_add(
            spec_add(
                spec_add(spec_add(spec_add(spec_header(), adc.battery@), sht.temperature@), adc.lux@),
                adc.voltage@,
            ),
            sht.humidity@,
        ),
        adc.moisture@,
    ) + seq![(name.len() + 1) as u8, 0x09u8] + name
}

/// Assemble the advertisement for one cycle: battery, temperature,
/// illuminance, voltage, humidity and moisture fields, then the device
/// name. The fields occupy 16 bytes after the 8-byte header, so the name
/// must leave the total within the capacity of 31.
pub fn assemble_advertisement(adc: &AdcMeasurements, sht: &Shtc3Measurement, name: &[u8]) -> (r:
    BtHomeAd)
    requires
        name@.len() < 6,
    ensures
        r@ == spec_assembled(*adc, *sht, name@),
        r.wf(),
{
    let mut ad = BtHomeAd::new();
    ad.add_data(BtHomeEnum::Battery1Per(adc.battery));
    ad.add_data(BtHomeEnum::Temperature10mK(sht.temperature));
    ad.add_data(BtHomeEnum::Illuminance10mLux(adc.lux));
    ad.add_data(BtHomeEnum::Voltage1mV(adc.voltage));
    ad.add_data(BtHomeEnum::Humidity1Per(sht.humidity));
    ad.add_data(BtHomeEnum::Moisture1Per(adc.moisture));
    ad.add_local_name(name);
    ad
}

/// Assemble the advertisement for one cycle if the device name fits, and
/// report nothing when it would overflow the capacity.
pub fn try_assemble_advertisement(
    adc: &AdcMeasurements,
    sht: &Shtc3Measurement,
    name: &[u8],
) -> (r: Option<BtHomeAd>)
    ensures
        r matches Some(ad) ==> ad@ == spec_assembled(*adc, *sht, name@) && ad.wf(),
        r is None <==> name@.len() >= 6,
{
    if name.len() < 6 {
        Some(assemble_advertisement(adc, sht, name))
    } else {
        None
    }
}

} // verus!
