//! Typed temperature / humidity measurements and the fixed-point
//! conversion formulas that turn raw 16-bit sensor codes into
//! milli-degrees Celsius and milli-percent relative humidity.

use vstd::prelude::*;
use vstd::arithmetic::power2::pow2;
use vstd::bits::lemma_u32_shr_is_div;

verus! {

/// Truncating signed division (rounds toward zero), as the `/` operator
/// behaves on Rust's signed integers.
pub open spec fn div_trunc(x: int, d: int) -> int
    recommends
        d > 0,
{
    if x >= 0 {
        x / d
    } else {
        -((-x) / d)
    }
}

/// Raw temperature code to milli-degrees Celsius.
/// Formula (datasheet): -45 + 175 * (raw / 2^16), in fixed point.
pub open spec fn spec_convert_temperature(raw: u16) -> int {
    (raw as int * 21875) / 8192 - 45000
}

/// Raw humidity code to milli-percent relative humidity.
/// Formula (datasheet): 100 * (raw / 2^16), in fixed point.
pub open spec fn spec_convert_humidity(raw: u16) -> int {
    (raw as int * 12500) / 8192
}

/// The temperature conversion stays within [-45000, 129997] for every raw code.
pub proof fn lemma_convert_temperature_bounds(raw: u16)
    ensures
        -45000 <= spec_convert_temperature(raw) <= 129997,
{
    assert(0 <= raw as int * 21875 <= 65535 * 21875) by (nonlinear_arith)
        requires 0 <= raw <= 65535;
    assert(0 <= (raw as int * 21875) / 8192 <= 174997) by (nonlinear_arith)
        requires 0 <= raw as int * 21875 <= 1433578125;
}

/// The humidity conversion stays within [0, 99998] for every raw code.
pub proof fn lemma_convert_humidity_bounds(raw: u16)
    ensures
        0 <= spec_convert_humidity(raw) <= 99998,
{
    assert(0 <= raw as int * 12500 <= 65535 * 12500) by (nonlinear_arith)
        requires 0 <= raw <= 65535;
    assert(0 <= (raw as int * 12500) / 8192 <= 99998) by (nonlinear_arith)
        requires 0 <= raw as int * 12500 <= 819187500;
}

/// Convert a raw temperature measurement to milli-degrees celsius.
pub fn convert_temperature(temp_raw: u16) -> (r: i32)
    ensures
        r as int == spec_convert_temperature(temp_raw),
{
    proof {
        lemma_u32_shr_is_div((temp_raw * 21875) as u32, 13);
        vstd::arithmetic::power2::lemma2_to64();
        assert(pow2(13) == 8192);
        lemma_convert_temperature_bounds(temp_raw);
    }
    (((temp_raw as u32) * 21875) >> 13u32) as i32 - 45000
}

/// Convert a raw humidity measurement to milli-percent relative humidity.
pub fn convert_humidity(humi_raw: u16) -> (r: i32)
    ensures
        r as int == spec_convert_humidity(humi_raw),
{
    proof {
        lemma_u32_shr_is_div((humi_raw * 12500) as u32, 13);
        vstd::arithmetic::power2::lemma2_to64();
        assert(pow2(13) == 8192);
        lemma_convert_humidity_bounds(humi_raw);
    }
    (((humi_raw as u32) * 12500) >> 13u32) as i32
}

/// A temperature measurement, stored in milli-degrees Celsius.
#[derive(Debug, Copy, Clone, PartialEq, Eq, Structural)]
pub struct Temperature(pub i32);

/// A humidity measurement, stored in milli-percent relative humidity.
#[derive(Debug, Copy, Clone, PartialEq, Eq, Structural)]
pub struct Humidity(pub i32);

impl View for Temperature {
    type V = int;

    open spec fn view(&self) -> int {
        self.0 as int
    }
}

impl View for Humidity {
    type V = int;

    open spec fn view(&self) -> int {
        self.0 as int
    }
}

impl Temperature {
    /// Create a new `Temperature` from a raw measurement result.
    pub fn from_raw(raw: u16) -> (r: Self)
        ensures
            r@ == spec_convert_temperature(raw),
    {
        Temperature(convert_temperature(raw))
    }

    /// Return temperature in milli-degrees celsius.
    pub fn as_millidegrees_celsius(&self) -> (r: i32)
        ensures
            r as int == self@,
    {
        self.0
    }

    /// Return temperature in degrees celsius with 0.01 precision.
    pub fn as_10mk_celsius(&self) -> (r: i16)
        requires
            i16::MIN as int <= div_trunc(self@, 10) <= i16::MAX as int,
        ensures
            r as int == div_trunc(self@, 10),
    {
        (self.0 / 10) as i16
    }
}

impl Humidity {
    /// Create a new `Humidity` from a raw measurement result.
    pub fn from_raw(raw: u16) -> (r: Self)
        ensures
            r@ == spec_convert_humidity(raw),
    {
        Humidity(convert_humidity(raw))
    }

    /// Return relative humidity in 1/100 %RH.
    pub fn as_10mk_percent(&self) -> (r: u16)
        requires
            0 <= self@,
            self@ / 10 <= u16::MAX as int,
        ensures
            r as int == self@ / 10,
    {
        (self.0 / 10) as u16
    }

    /// Return relative humidity in 1/1000 %RH.
    pub fn as_millipercent(&self) -> (r: i32)
        ensures
            r as int == self@,
    {
        self.0
    }

    /// Return relative humidity in 1 %RH.
    pub fn as_1k_percent(&self) -> (r: u8)
        requires
            0 <= self@,
            self@ / 1000 <= u8::MAX as int,
        ensures
            r as int == self@ / 1000,
    {
        (self.0 / 1000) as u8
    }
}

impl Default for Temperature {
    /// The zero temperature, used as the accumulator seed.
    fn default() -> (r: Self)
        ensures
            r@ == 0,
    {
        Temperature(0)
    }
}

impl Default for Humidity {
    /// The zero humidity, used as the accumulator seed.
    fn default() -> (r: Self)
        ensures
            r@ == 0,
    {
        Humidity(0)
    }
}

/// A combined temperature / humidity measurement.
#[derive(Debug, Copy, Clone, PartialEq, Eq, Structural)]
pub struct Measurement {
    /// The measured temperature.
    pub temperature: Temperature,
    /// The measured humidity.
    pub humidity: Humidity,
}

impl Default for Measurement {
    /// The zero measurement, used as the accumulator seed for oversampling.
    fn default() -> (r: Self)
        ensures
            r.temperature@ == 0,
            r.humidity@ == 0,
    {
        Measurement { temperature: Temperature(0), humidity: Humidity(0) }
    }
}

impl Measurement {
    /// Add another measurement into this one, field by field, so that
    /// oversampled readings can be averaged without floating point.
    pub fn accumulate(&mut self, rhs: Measurement)
        requires
            i32::MIN as int <= old(self).temperature@ + rhs.temperature@ <= i32::MAX as int,
            i32::MIN as int <= old(self).humidity@ + rhs.humidity@ <= i32::MAX as int,
        ensures
            final(self).temperature@ == old(self).temperature@ + rhs.temperature@,
            final(self).humidity@ == old(self).humidity@ + rhs.humidity@,
    {
        self.temperature.0 = self.temperature.0 + rhs.temperature.0;
        self.humidity.0 = self.humidity.0 + rhs.humidity.0;
    }

    /// Divide both fields by the sample count, completing an average.
    pub fn divide(&mut self, rhs: i32)
        requires
            rhs > 0,
        ensures
            final(self).temperature@ == div_trunc(old(self).temperature@, rhs as int),
            final(self).humidity@ == div_trunc(old(self).humidity@, rhs as int),
    {
        self.temperature.0 = self.temperature.0 / rhs;
        self.humidity.0 = self.humidity.0 / rhs;
    }
}

/// A combined raw temperature / humidity measurement.
///
/// The raw values are of type u16. They require a conversion formula for
/// conversion to a temperature / humidity value (see datasheet).
#[derive(Debug, Copy, Clone, PartialEq, Eq, Structural)]
pub struct RawMeasurement {
    /// The measured temperature (raw value).
    pub temperature: u16,
    /// The measured humidity (raw value).
    pub humidity: u16,
}

impl From<RawMeasurement> for Measurement {
    fn from(other: RawMeasurement) -> (r: Self) {
        Measurement {
            temperature: Temperature::from_raw(other.temperature),
            humidity: Humidity::from_raw(other.humidity),
        }
    }
}

impl vstd::std_specs::convert::FromSpecImpl<RawMeasurement> for Measurement {
    open spec fn obeys_from_spec() -> bool {
        true
    }

    open spec fn from_spec(other: RawMeasurement) -> Self {
        Measurement {
            temperature: Temperature(spec_convert_temperature(other.temperature) as i32),
            humidity: Humidity(spec_convert_humidity(other.humidity) as i32),
        }
    }
}

} // verus!
