//! The typed results that the sampling activities hand to the
//! orchestrator: each already encoded as the advertisement fields it will
//! become.

use vstd::prelude::*;

use crate::bthome::{
    Battery1Per, Humidity1Per, Illuminance10mLux, Moisture1Per, Temperature10mK, Voltage1mV,
    le16_bytes, le24_bytes, u16_rep,
};
use crate::types::{Measurement, div_trunc};

verus! {

/// The analog activity's result for one cycle: battery fraction, battery
/// voltage, soil moisture and illuminance, as advertisement fields.
#[derive(Debug, Copy, Clone)]
pub struct AdcMeasurements {
    /// Battery charge, whole percent.
    pub battery: Battery1Per,
    /// Battery voltage, millivolts.
    pub voltage: Voltage1mV,
    /// Soil moisture, whole percent.
    pub moisture: Moisture1Per,
    /// Illuminance, 0.01 lux steps.
    pub lux: Illuminance10mLux,
}

impl AdcMeasurements {
    /// Package already-scaled integer readings as advertisement fields:
    /// battery in whole percent, voltage in millivolts, moisture in whole
    /// percent, illuminance in 0.01 lux steps.
    pub fn new(battery: u8, voltage: u16, moisture: u8, lux: u32) -> (r: Self)
        ensures
            r.battery@ == seq![0x01u8, battery],
            r.voltage@ == seq![0x0Cu8] + le16_bytes(voltage),
            r.moisture@ == seq![0x2Fu8, moisture],
            r.lux@ == seq![0x05u8] + le24_bytes(lux),
    {
        AdcMeasurements {
            battery: Battery1Per::from(battery),
            voltage: Voltage1mV::from(voltage),
            moisture: Moisture1Per::from(moisture),
            lux: Illuminance10mLux::from(lux),
        }
    }
}

/// The sensor activity's result for one cycle: temperature and humidity,
/// as advertisement fields.
#[derive(Debug, Copy, Clone)]
pub struct Shtc3Measurement {
    /// Temperature, 0.01 degree steps, signed.
    pub temperature: Temperature10mK,
    /// Relative humidity, whole percent.
    pub humidity: Humidity1Per,
}

impl Shtc3Measurement {
    /// Package a converted measurement as advertisement fields:
    /// temperature in 0.01 degree steps, humidity in whole percent.
    pub fn new(measurement: Measurement) -> (r: Self)
        requires
            i16::MIN as int <= div_trunc(measurement.temperature@, 10) <= i16::MAX as int,
            0 <= measurement.humidity@,
            measurement.humidity@ / 1000 <= u8::MAX as int,
        ensures
            r.temperature@ == seq![0x02u8] + le16_bytes(
                u16_rep(div_trunc(measurement.temperature@, 10) as i16),
            ),
            r.humidity@ == seq![0x2Eu8, (measurement.humidity@ / 1000) as u8],
    {
        Shtc3Measurement {
            temperature: Temperature10mK::from(measurement.temperature.as_10mk_celsius()),
            humidity: Humidity1Per::from(measurement.humidity.as_1k_percent()),
        }
    }
}

} // verus!
