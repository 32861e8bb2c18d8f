//! Driver for the SHTC3 temperature / humidity sensor: a command /
//! response protocol over an injected bus transport, protected by the
//! checksum of [`crate::crc`].
//!
//! The driver itself is synchronous; every timed wait is an explicit step
//! through the injected [`DelayUs`] collaborator, so the caller controls
//! the pacing.

use vstd::prelude::*;
use vstd::slice::slice_subrange;

use crate::crc::{crc8, crc8_spec};
use crate::types::{
    Humidity, Measurement, RawMeasurement, Temperature, lemma_convert_humidity_bounds,
    lemma_convert_temperature_bounds, spec_convert_humidity, spec_convert_temperature,
};

verus! {

/// A fault reported by the underlying bus transport, carried as a plain
/// numeric cause code.
#[derive(Debug, Copy, Clone, PartialEq, Eq, Structural)]
pub struct BusError(pub u8);

/// All possible errors in this driver.
#[derive(Debug, Copy, Clone, PartialEq, Eq, Structural)]
pub enum Error {
    /// Bus transport error, wrapping the transport's cause code.
    I2c(BusError),
    /// CRC checksum validation failed.
    Crc,
}

/// The abstract bus transport the driver is injected with. Implementors
/// wire it to a concrete serial bus; the driver only relies on `read`
/// returning exactly the requested number of bytes when it succeeds.
pub trait I2cBus {
    /// Send `bytes` to the device at `address`.
    fn write(&mut self, address: u8, bytes: &[u8]) -> Result<(), BusError>;

    /// Read exactly `len` bytes from the device at `address`.
    fn read(&mut self, address: u8, len: usize) -> (r: Result<Vec<u8>, BusError>)
        ensures
            r matches Ok(buf) ==> buf@.len() == len,
    ;
}

/// The timing collaborator: suspends the caller for at least `us`
/// microseconds. Timing is invisible to verification, so the method
/// promises nothing.
pub trait DelayUs {
    /// Wait at least `us` microseconds before returning.
    fn delay_us(&mut self, us: u32);
}

/// Whether temperature or humidity is returned first when doing a
/// measurement.
#[derive(Debug, Copy, Clone, PartialEq, Eq, Structural)]
pub enum MeasurementOrder {
    /// The temperature half of the response comes first.
    TemperatureFirst,
    /// The humidity half of the response comes first.
    HumidityFirst,
}

/// Measurement power mode: normal mode or low power mode.
///
/// Low power mode shortens the measurement duration at the cost of
/// repeatability; it changes the command opcode and the settling delays,
/// never the conversion formula.
#[derive(Debug, Copy, Clone, PartialEq, Eq, Structural)]
pub enum PowerMode {
    /// Normal measurement.
    NormalMode,
    /// Low power measurement: less energy, reduced repeatability.
    LowPower,
}

/// Commands sent to the sensor, each a fixed two-byte opcode.
#[derive(Debug, Copy, Clone, PartialEq, Eq, Structural)]
pub enum Command {
    /// Go into sleep mode.
    Sleep,
    /// Wake up from sleep mode.
    WakeUp,
    /// Measurement commands.
    Measure {
        /// The power mode to request.
        power_mode: PowerMode,
        /// Which half of the combined response comes first.
        order: MeasurementOrder,
    },
    /// Software reset.
    SoftwareReset,
    /// Read ID register.
    ReadIdRegister,
}

/// The two-byte opcode of each command.
pub open spec fn spec_command_bytes(c: Command) -> Seq<u8> {
    match c {
        Command::Sleep => seq![0xB0u8, 0x98u8],
        Command::WakeUp => seq![0x35u8, 0x17u8],
        Command::Measure { power_mode: PowerMode::NormalMode, order: MeasurementOrder::TemperatureFirst } => seq![
            0x78u8,
            0x66u8,
        ],
        Command::Measure { power_mode: PowerMode::NormalMode, order: MeasurementOrder::HumidityFirst } => seq![
            0x58u8,
            0xE0u8,
        ],
        Command::Measure { power_mode: PowerMode::LowPower, order: MeasurementOrder::TemperatureFirst } => seq![
            0x60u8,
            0x9Cu8,
        ],
        Command::Measure { power_mode: PowerMode::LowPower, order: MeasurementOrder::HumidityFirst } => seq![
            0x40u8,
            0x1Au8,
        ],
        Command::ReadIdRegister => seq![0xEFu8, 0xC8u8],
        Command::SoftwareReset => seq![0x80u8, 0x5Du8],
    }
}

impl Command {
    /// The two-byte opcode that encodes this command on the wire.
    pub fn as_bytes(self) -> (r: [u8; 2])
        ensures
            r@ == spec_command_bytes(self),
    {
        let b: [u8; 2] = match self {
            Command::Sleep => [0xB0, 0x98],
            Command::WakeUp => [0x35, 0x17],
            Command::Measure {
                power_mode: PowerMode::NormalMode,
                order: MeasurementOrder::TemperatureFirst,
            } => [0x78, 0x66],
            Command::Measure {
                power_mode: PowerMode::NormalMode,
                order: MeasurementOrder::HumidityFirst,
            } => [0x58, 0xE0],
            Command::Measure {
                power_mode: PowerMode::LowPower,
                order: MeasurementOrder::TemperatureFirst,
            } => [0x60, 0x9C],
            Command::Measure {
                power_mode: PowerMode::LowPower,
                order: MeasurementOrder::HumidityFirst,
            } => [0x40, 0x1A],
            Command::ReadIdRegister => [0xEF, 0xC8],
            Command::SoftwareReset => [0x80, 0x5D],
        };
        proof {
            assert(b@ =~= spec_command_bytes(self));
        }
        b
    }
}

/// The big-endian 16-bit value spelled by two bytes.
pub open spec fn be16(hi: u8, lo: u8) -> int {
    hi * 256 + lo
}

/// The group starting at index `3 * k` of a buffer that is read as
/// consecutive 3-byte groups.
pub open spec fn group_at(buf: Seq<u8>, k: int) -> Seq<u8> {
    buf.subrange(3 * k, 3 * k + 3)
}

/// Whether group `k` carries a checksum byte that matches its two data
/// bytes.
pub open spec fn group_ok(buf: Seq<u8>, k: int) -> bool {
    crc8_spec(group_at(buf, k).take(2)) == group_at(buf, k)[2]
}

/// Whether every complete 3-byte group of the buffer passes checksum
/// validation. A trailing partial group is left unvalidated.
pub open spec fn groups_valid(buf: Seq<u8>) -> bool {
    forall|k: int| 0 <= k < buf.len() / 3 ==> #[trigger] group_ok(buf, k)
}

/// The 7-bit device identifier extracted from the raw ID register by the
/// sensor's fixed bit masks.
pub open spec fn spec_device_identifier(ident: u16) -> u8 {
    ((ident & 0x3F) as u8) | (((ident & 0x0800) >> 5) as u8)
}

/// Driver for the SHTC3 sensor, generic over the injected bus transport.
pub struct ShtC3<B> {
    /// The concrete bus transport implementation.
    pub i2c: B,
    /// The device address on the bus.
    pub address: u8,
}

impl<B: I2cBus> ShtC3<B> {
    /// Create a new instance of the driver for the SHTC3.
    pub fn new(i2c: B) -> (r: Self)
        ensures
            r.i2c == i2c,
            r.address == 0x70,
    {
        ShtC3 { i2c, address: 0x70 }
    }

    /// Get the device's wakeup delay duration in microseconds.
    pub fn wakeup_duration(&self) -> (r: u32)
        ensures
            r == 240,
    {
        240
    }

    /// Destroy driver instance, return the bus transport instance.
    pub fn destroy(self) -> (r: B)
        ensures
            r == self.i2c,
    {
        self.i2c
    }

    /// Return the maximum measurement duration (depending on the mode) in
    /// microseconds: 12.1 ms in normal mode, 0.8 ms in low power mode.
    pub fn max_measurement_duration(&self, mode: PowerMode) -> (r: u32)
        ensures
            mode is NormalMode ==> r == 12100,
            mode is LowPower ==> r == 800,
    {
        match mode {
            PowerMode::NormalMode => 12100,
            PowerMode::LowPower => 800,
        }
    }

    /// Write a command to the sensor. Only the transport can fail here,
    /// so any error is a bus error.
    pub fn send_command(&mut self, command: Command) -> (r: Result<(), Error>)
        ensures
            r matches Err(e) ==> e is I2c,
    {
        let bytes = command.as_bytes();
        match self.i2c.write(self.address, bytes.as_slice()) {
            Ok(()) => Ok(()),
            Err(e) => Err(Error::I2c(e)),
        }
    }

    /// Validate every complete 3-byte group of the buffer: the third byte
    /// of each group must be the checksum of the first two. Succeeds
    /// exactly when all complete groups match; a trailing partial group is
    /// left unvalidated.
    pub fn validate_crc(&self, buf: &[u8]) -> (r: Result<(), Error>)
        ensures
            r is Ok <==> groups_valid(buf@),
            r is Err ==> r == Result::<(), Error>::Err(Error::Crc),
    {
        let n: usize = buf.len();
        let groups: usize = n / 3;
        let mut k: usize = 0;
        while k < groups
            invariant
                n == buf@.len(),
                groups == n / 3,
                k <= groups,
                forall|j: int| 0 <= j < k ==> #[trigger] group_ok(buf@, j),
            decreases groups - k,
        {
            assert(3 * k + 3 <= n);
            let data = slice_subrange(buf, 3 * k, 3 * k + 2);
            let check = crc8(data);
            if check != buf[3 * k + 2] {
                proof {
                    assert(group_at(buf@, k as int).take(2) =~= buf@.subrange(
                        3 * k as int,
                        3 * k + 2,
                    ));
                    assert(!group_ok(buf@, k as int));
                }
                return Err(Error::Crc);
            }
            proof {
                assert(group_at(buf@, k as int).take(2) =~= buf@.subrange(
                    3 * k as int,
                    3 * k + 2,
                ));
                assert(group_ok(buf@, k as int));
            }
            k += 1;
        }
        Ok(())
    }

    /// Read `len` bytes from the sensor and validate them as consecutive
    /// 3-byte groups.
    pub fn read_with_crc(&mut self, len: usize) -> (r: Result<Vec<u8>, Error>)
        ensures
            r matches Ok(buf) ==> buf@.len() == len && groups_valid(buf@),
    {
        let buf = match self.i2c.read(self.address, len) {
            Ok(b) => b,
            Err(e) => {
                return Err(Error::I2c(e));
            },
        };
        match self.validate_crc(buf.as_slice()) {
            Ok(()) => Ok(buf),
            Err(e) => Err(e),
        }
    }

    /// Return the raw ID register.
    pub fn raw_id_register(&mut self) -> (r: Result<u16, Error>)
        ensures
            r matches Ok(v) ==> exists|b: Seq<u8>|
                b.len() == 3 && groups_valid(b) && v == be16(b[0], b[1]),
    {
        if let Err(e) = self.send_command(Command::ReadIdRegister) {
            return Err(e);
        }

        let buf = match self.read_with_crc(3) {
            Ok(b) => b,
            Err(e) => {
                return Err(e);
            },
        };
        let v: u16 = (buf[0] as u16) * 256 + (buf[1] as u16);
        proof {
            assert(v == be16(buf@[0], buf@[1]));
        }
        Ok(v)
    }

    /// Return the 7-bit device identifier (0x47 for the SHTC3), extracted
    /// from a checksum-validated read of the raw ID register.
    pub fn device_identifier(&mut self) -> (r: Result<u8, Error>)
        ensures
            r matches Ok(v) ==> v < 0x80 && exists|b: Seq<u8>|
                b.len() == 3 && groups_valid(b) && v == spec_device_identifier(
                    be16(b[0], b[1]) as u16,
                ),
    {
        let ident = match self.raw_id_register() {
            Ok(v) => v,
            Err(e) => {
                return Err(e);
            },
        };
        let lsb = (ident & 0x3F) as u8;
        let msb = ((ident & 0x0800) >> 5) as u8;
        let r = lsb | msb;
        proof {
            assert(((ident & 0x3F) as u8) | (((ident & 0x0800) >> 5) as u8) < 0x80)
                by (bit_vector);
        }
        Ok(r)
    }

    /// Trigger a soft reset without waiting for it to settle.
    pub fn start_reset(&mut self) -> (r: Result<(), Error>)
        ensures
            r matches Err(e) ==> e is I2c,
    {
        self.send_command(Command::SoftwareReset)
    }

    /// The reset settling duration of the sensor in microseconds.
    pub fn reset_duration(&self) -> (r: u32)
        ensures
            r == 240000,
    {
        240000
    }

    /// Trigger a soft reset and wait the full reset duration. (blocking)
    pub fn reset<D: DelayUs>(&mut self, delay: &mut D) -> (r: Result<(), Error>)
        ensures
            r matches Err(e) ==> e is I2c,
    {
        if let Err(e) = self.send_command(Command::SoftwareReset) {
            return Err(e);
        }
        let us = self.reset_duration();
        delay.delay_us(us);
        Ok(())
    }

    /// Set sensor to sleep mode. Only the dedicated wakeup command enables
    /// further communication afterwards.
    pub fn sleep(&mut self) -> (r: Result<(), Error>)
        ensures
            r matches Err(e) ==> e is I2c,
    {
        self.send_command(Command::Sleep)
    }

    /// Wake the sensor up from sleep mode without waiting for it to settle.
    pub fn start_wakeup(&mut self) -> (r: Result<(), Error>)
        ensures
            r matches Err(e) ==> e is I2c,
    {
        self.send_command(Command::WakeUp)
    }

    /// Wake the sensor up from sleep mode and wait until it is ready.
    pub fn wakeup<D: DelayUs>(&mut self, delay: &mut D) -> (r: Result<(), Error>)
        ensures
            r matches Err(e) ==> e is I2c,
    {
        if let Err(e) = self.start_wakeup() {
            return Err(e);
        }
        let us = self.wakeup_duration();
        delay.delay_us(us);
        Ok(())
    }

    /// Start a measurement with the specified measurement order. The caller
    /// must wait the mode's conversion delay before reading the result.
    pub fn start_measure_partial(&mut self, power_mode: PowerMode, order: MeasurementOrder) -> (r:
        Result<(), Error>)
        ensures
            r matches Err(e) ==> e is I2c,
    {
        self.send_command(Command::Measure { power_mode, order })
    }

    /// Start a combined temperature / humidity measurement.
    pub fn start_measurement(&mut self, mode: PowerMode) -> (r: Result<(), Error>)
        ensures
            r matches Err(e) ==> e is I2c,
    {
        self.start_measure_partial(mode, MeasurementOrder::TemperatureFirst)
    }

    /// Start a temperature measurement.
    pub fn start_temperature_measurement(&mut self, mode: PowerMode) -> (r: Result<(), Error>)
        ensures
            r matches Err(e) ==> e is I2c,
    {
        self.start_measure_partial(mode, MeasurementOrder::TemperatureFirst)
    }

    /// Start a humidity measurement.
    pub fn start_humidity_measurement(&mut self, mode: PowerMode) -> (r: Result<(), Error>)
        ensures
            r matches Err(e) ==> e is I2c,
    {
        self.start_measure_partial(mode, MeasurementOrder::HumidityFirst)
    }

    /// Read the raw result of a combined temperature / humidity
    /// measurement: six bytes, validated as two checksum groups, the
    /// temperature group first.
    pub fn get_raw_measurement_result(&mut self) -> (r: Result<RawMeasurement, Error>)
        ensures
            r matches Ok(m) ==> exists|b: Seq<u8>|
                b.len() == 6 && groups_valid(b) && m.temperature == be16(b[0], b[1])
                    && m.humidity == be16(b[3], b[4]),
    {
        let buf = match self.read_with_crc(6) {
            Ok(b) => b,
            Err(e) => {
                return Err(e);
            },
        };
        let temperature: u16 = (buf[0] as u16) * 256 + (buf[1] as u16);
        let humidity: u16 = (buf[3] as u16) * 256 + (buf[4] as u16);
        Ok(RawMeasurement { temperature, humidity })
    }

    /// Read the raw result of a partial temperature or humidity
    /// measurement: one checksum-validated 3-byte group.
    pub fn get_raw_partial_measurement_result(&mut self) -> (r: Result<u16, Error>)
        ensures
            r matches Ok(v) ==> exists|b: Seq<u8>|
                b.len() == 3 && groups_valid(b) && v == be16(b[0], b[1]),
    {
        let buf = match self.read_with_crc(3) {
            Ok(b) => b,
            Err(e) => {
                return Err(e);
            },
        };
        Ok((buf[0] as u16) * 256 + (buf[1] as u16))
    }

    /// Read the result of a combined temperature / humidity measurement
    /// and convert it to physical values.
    pub fn get_measurement_result(&mut self) -> (r: Result<Measurement, Error>)
        ensures
            r matches Ok(m) ==> exists|raw: RawMeasurement|
                m.temperature@ == spec_convert_temperature(raw.temperature) && m.humidity@
                    == spec_convert_humidity(raw.humidity),
            r matches Ok(m) ==> -45000 <= m.temperature@ <= 129997 && 0 <= m.humidity@ <= 99998,
    {
        let raw = match self.get_raw_measurement_result() {
            Ok(v) => v,
            Err(e) => {
                return Err(e);
            },
        };
        proof {
            lemma_convert_temperature_bounds(raw.temperature);
            lemma_convert_humidity_bounds(raw.humidity);
        }
        Ok(
            Measurement {
                temperature: Temperature::from_raw(raw.temperature),
                humidity: Humidity::from_raw(raw.humidity),
            },
        )
    }

    /// Read the result of a temperature measurement and convert it.
    pub fn get_temperature_measurement_result(&mut self) -> (r: Result<Temperature, Error>)
        ensures
            r matches Ok(t) ==> exists|raw: u16| t@ == spec_convert_temperature(raw),
            r matches Ok(t) ==> -45000 <= t@ <= 129997,
    {
        let raw = match self.get_raw_partial_measurement_result() {
            Ok(v) => v,
            Err(e) => {
                return Err(e);
            },
        };
        proof {
            lemma_convert_temperature_bounds(raw);
        }
        Ok(Temperature::from_raw(raw))
    }

    /// Read the result of a humidity measurement and convert it.
    pub fn get_humidity_measurement_result(&mut self) -> (r: Result<Humidity, Error>)
        ensures
            r matches Ok(h) ==> exists|raw: u16| h@ == spec_convert_humidity(raw),
            r matches Ok(h) ==> 0 <= h@ <= 99998,
    {
        let raw = match self.get_raw_partial_measurement_result() {
            Ok(v) => v,
            Err(e) => {
                return Err(e);
            },
        };
        proof {
            lemma_convert_humidity_bounds(raw);
        }
        Ok(Humidity::from_raw(raw))
    }

    /// Wait the maximum time needed for the given measurement mode.
    pub fn wait_for_measurement<D: DelayUs>(&mut self, mode: PowerMode, delay: &mut D) {
        let us = self.max_measurement_duration(mode);
        delay.delay_us(us);
    }

    /// Run a combined temperature / humidity measurement: start it, wait
    /// the mode's conversion delay, then read and convert the result.
    /// (blocking)
    pub fn measure<D: DelayUs>(&mut self, mode: PowerMode, delay: &mut D) -> (r: Result<
        Measurement,
        Error,
    >)
        ensures
            r matches Ok(m) ==> exists|raw: RawMeasurement|
                m.temperature@ == spec_convert_temperature(raw.temperature) && m.humidity@
                    == spec_convert_humidity(raw.humidity),
            r matches Ok(m) ==> -45000 <= m.temperature@ <= 129997 && 0 <= m.humidity@ <= 99998,
    {
        if let Err(e) = self.start_measurement(mode) {
            return Err(e);
        }
        self.wait_for_measurement(mode, delay);
        self.get_measurement_result()
    }

    /// Run a temperature measurement: request it in "temperature first"
    /// order and read only the first half of the response. (blocking)
    pub fn measure_temperature<D: DelayUs>(&mut self, mode: PowerMode, delay: &mut D) -> (r: Result<
        Temperature,
        Error,
    >)
        ensures
            r matches Ok(t) ==> exists|raw: u16| t@ == spec_convert_temperature(raw),
            r matches Ok(t) ==> -45000 <= t@ <= 129997,
    {
        if let Err(e) = self.start_temperature_measurement(mode) {
            return Err(e);
        }
        self.wait_for_measurement(mode, delay);
        self.get_temperature_measurement_result()
    }

    /// Run a humidity measurement: request it in "humidity first" order
    /// and read only the first half of the response. (blocking)
    pub fn measure_humidity<D: DelayUs>(&mut self, mode: PowerMode, delay: &mut D) -> (r: Result<
        Humidity,
        Error,
    >)
        ensures
            r matches Ok(h) ==> exists|raw: u16| h@ == spec_convert_humidity(raw),
            r matches Ok(h) ==> 0 <= h@ <= 99998,
    {
        if let Err(e) = self.start_humidity_measurement(mode) {
            return Err(e);
        }
        self.wait_for_measurement(mode, delay);
        self.get_humidity_measurement_result()
    }
}

} // verus!
