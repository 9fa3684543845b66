//! Accelerometer construction driven by the real chip driver over a
//! simulated I2C bus: the chip's initialization sequence runs against a
//! register model, and the identity read-back it produces is handed to the
//! library, which must accept the true identity and reject any other.

use watchy::accelerometer::AccelerometerDriver;
use watchy::accelerometer::AccelerometerError;
use watchy::accelerometer::ChipError;
use watchy::accelerometer::ACCEL_CHIP_ID;
use watchy::accelerometer::ACCEL_I2C_ADDRESS;
use watchy::i2c_driver;
use watchy::peripherals::Peripherals;
use watchy::pins::Sets;
use watchy::EspErrorCode;

/// A simulated accelerometer chip on an I2C bus: acknowledges every write,
/// remembers the last addressed register, and answers reads from a small
/// register model.
struct SimChip {
    /// The value the simulated chip reports from its identity register.
    chip_id: u8,
    /// The register selected by the last write.
    last_register: u8,
}

#[derive(Debug)]
struct SimBusError;

impl embedded_hal::i2c::Error for SimBusError {
    fn kind(&self) -> embedded_hal::i2c::ErrorKind {
        embedded_hal::i2c::ErrorKind::Other
    }
}

impl embedded_hal::i2c::ErrorType for SimChip {
    type Error = SimBusError;
}

impl embedded_hal::i2c::I2c for SimChip {
    fn transaction(
        &mut self,
        _address: u8,
        operations: &mut [embedded_hal::i2c::Operation<'_>],
    ) -> Result<(), SimBusError> {
        for op in operations.iter_mut() {
            match op {
                embedded_hal::i2c::Operation::Write(bytes) => {
                    if !bytes.is_empty() {
                        self.last_register = bytes[0];
                    }
                }
                embedded_hal::i2c::Operation::Read(buffer) => {
                    let value = match self.last_register {
                        // The identity register.
                        0x00 => self.chip_id,
                        // The internal status register: report initialized.
                        0x2a => 0x01,
                        _ => 0,
                    };
                    for b in buffer.iter_mut() {
                        *b = value;
                    }
                }
            }
        }
        Ok(())
    }
}

/// A no-op delay provider for the simulated chip.
struct NoDelay;

impl embedded_hal::delay::DelayNs for NoDelay {
    fn delay_ns(&mut self, _ns: u32) {}
}

/// Runs the chip driver's initialization and identity read-back against a
/// simulated chip reporting `reported_id`, and returns the outcome in the
/// form the library's constructor takes.
fn read_identity_of_simulated_chip(reported_id: u8) -> Result<u8, ChipError> {
    let bus = SimChip { chip_id: reported_id, last_register: 0 };
    let init = bma423::Bma423::new_with_address(bus, bma423::Config::default(), ACCEL_I2C_ADDRESS)
        .init(&mut NoDelay);
    let mut chip = match init {
        Ok(chip) => chip,
        Err(e) => return Err(chip_error_of(e)),
    };
    match chip.read_chip_id() {
        Ok(id) => Ok(u8::from(id)),
        Err(e) => Err(chip_error_of(e)),
    }
}

/// Translates the chip driver's error into the library's model of it.
fn chip_error_of(e: bma423::Error<SimBusError>) -> ChipError {
    match e {
        bma423::Error::BusError(_) => ChipError::Bus(EspErrorCode { code: -1 }),
        bma423::Error::ConfigError => ChipError::Config,
        bma423::Error::BadInternal(status) => ChipError::BadInternal(status),
        bma423::Error::BadArgument => ChipError::BadArgument,
    }
}

#[test]
fn simulated_chip_with_wrong_identity_yields_bad_id() {
    let outcome = read_identity_of_simulated_chip(0x12);
    let p = Peripherals::new();
    let sets = Sets::new(p.pins);
    let bus = i2c_driver(sets.i2c, p.i2c0);
    match AccelerometerDriver::new(sets.accelerometer, bus, outcome) {
        Err(AccelerometerError::BadId) => {}
        Err(_) => panic!("an identity mismatch must be reported as a bad chip ID"),
        Ok(_) => panic!("an identity mismatch must not yield a driver"),
    }
}

#[test]
fn simulated_chip_with_true_identity_yields_driver() {
    let outcome = read_identity_of_simulated_chip(ACCEL_CHIP_ID);
    assert_eq!(outcome, Ok(ACCEL_CHIP_ID));
    let p = Peripherals::new();
    let sets = Sets::new(p.pins);
    let bus = i2c_driver(sets.i2c, p.i2c0);
    AccelerometerDriver::new(sets.accelerometer, bus, outcome)
        .expect("the true identity must yield a driver");
}
