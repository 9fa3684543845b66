//! Board support layer for a wrist-worn device.
//!
//! The layer owns the board's physical resources and hands them out as
//! exclusively-owned, typed handles:
//!
//! - [`pins::Sets::new`] partitions the one-time pin inventory into disjoint
//!   named groups, one per on-board subsystem.
//! - [`i2c_driver`] consumes the I2C pin group and the I2C controller and
//!   yields the configured bus driver shared by the accelerometer and the RTC.
//! - The device modules ([`accelerometer`], [`battery`], [`button`],
//!   [`display`]) each consume their resource group and produce a typed
//!   driver for one peripheral.
//!
//! Exclusive ownership is enforced by moves: a pin handle or bus controller
//! token enters exactly one group or driver and cannot be reused afterwards.
//! The platform layer that talks to the real hardware performs the raw bus
//! transactions and feeds their outcomes into the drivers defined here.

use vstd::prelude::*;

pub mod accelerometer;
pub mod battery;
pub mod button;
pub mod display;
pub mod gpio;
pub mod peripherals;
pub mod pins;

verus! {

/// A numeric status code reported by the platform when claiming or driving a
/// peripheral fails (mirrors the platform's `esp_err_t` convention).
#[derive(Clone, Copy, PartialEq, Eq, Structural, Debug)]
pub struct EspErrorCode {
    /// The raw platform status code.
    pub code: i32,
}

/// Result of an operation for which the platform may report a failure.
pub type EspResult<T> = Result<T, EspErrorCode>;

/// Fixed configuration of the shared sensor I2C bus.
#[derive(Clone, Copy, PartialEq, Eq, Structural, Debug)]
pub struct I2cConfig {
    /// Bus clock rate in hertz.
    pub baudrate_hz: u32,
    /// Whether the internal pull-up on the data line is enabled.
    pub sda_pullup_enabled: bool,
    /// Whether the internal pull-up on the clock line is enabled.
    pub scl_pullup_enabled: bool,
    /// Optional inactivity timeout, in bus clock cycles.
    pub timeout: Option<u32>,
}

/// The configuration the sensor bus is always set up with: fast mode
/// (400 kHz), internal pull-ups disabled because the board provides external
/// ones, and no inactivity timeout.
pub open spec fn sensor_bus_config() -> I2cConfig {
    I2cConfig {
        baudrate_hz: 400_000,
        sda_pullup_enabled: false,
        scl_pullup_enabled: false,
        timeout: None,
    }
}

/// A configured driver for the shared sensor I2C bus.
///
/// It owns the bus controller and the two communication pins for as long as
/// any device on the bus needs them; callers that attach several devices to
/// the bus are responsible for serializing access to this value.
pub struct I2cBusDriver {
    /// The owned data-line pin.
    pub sda: gpio::Gpio21,
    /// The owned clock-line pin.
    pub scl: gpio::Gpio22,
    /// The owned bus controller.
    pub controller: peripherals::I2c0,
    /// The protocol parameters the controller was configured with.
    pub config: I2cConfig,
}

/// Sets up the driver for the I2C bus shared by the accelerometer and the
/// RTC, consuming the bus pin group and the bus controller.
pub fn i2c_driver(i2c_pins: pins::I2CBus, i2c_periph: peripherals::I2c0) -> (r: I2cBusDriver)
    ensures
        r.config == sensor_bus_config(),
        r.sda == i2c_pins.sda,
        r.scl == i2c_pins.scl,
        r.controller == i2c_periph,
{
    I2cBusDriver {
        sda: i2c_pins.sda,
        scl: i2c_pins.scl,
        controller: i2c_periph,
        config: I2cConfig {
            baudrate_hz: 400_000,
            sda_pullup_enabled: false,
            scl_pullup_enabled: false,
            timeout: None,
        },
    }
}

} // verus!
