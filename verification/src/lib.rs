//! Verified core of a battery-powered environmental sensor node: the
//! checksum-protected sensor bus protocol, fixed-point measurement
//! conversions, the fixed-capacity advertisement encoder, the battery
//! discharge interpolator, and the per-cycle orchestration logic.

mod battery;
mod bthome;
mod crc;
mod orchestrator;
mod shtc3;
mod state;
mod sync;
mod types;

pub use battery::{BatteryDischargeProfile, lemma_calc_pct_saturates};
pub use bthome::{
    BTHOME_UUID16, Battery1Per, BtHomeAd, BtHomeData, BtHomeEnum, Humidity1Per, Humidity10mPer,
    Illuminance10mLux, Moisture1Per, Moisture10mPer, Temperature10mK, Voltage1mV,
    lemma_field_round_trip_i16, lemma_field_round_trip_u8, lemma_field_round_trip_u16,
    lemma_field_round_trip_u24,
};
pub use crc::crc8;
pub use orchestrator::{
    OVERSAMPLE_COUNT, assemble_advertisement, average_adc_samples, measure, sensor_cycle,
    try_assemble_advertisement,
};
pub use shtc3::{BusError, Command, DelayUs, Error, I2cBus, MeasurementOrder, PowerMode, ShtC3};
pub use state::{AdcMeasurements, Shtc3Measurement};
pub use sync::{MeasurementTrigger, ResultMailbox, TriggerSubscriber, join_result};
pub use types::{
    Humidity, Measurement, RawMeasurement, Temperature, convert_humidity, convert_temperature,
};
