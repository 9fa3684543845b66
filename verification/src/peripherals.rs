//! One-shot tokens for the board's bus and converter peripherals.
//!
//! Like the pin handles in [`crate::gpio`], each token stands for exclusive
//! control of one hardware unit. A token has no public constructor and is not
//! `Copy`: it is issued once, inside [`Peripherals`], and is then moved into
//! the single bus or device driver that claims the unit.

use vstd::prelude::*;

verus! {

/// Exclusive token for the I2C bus controller shared by the accelerometer
/// and the RTC.
pub struct I2c0 {
    pub(crate) claim: (),
}

/// Exclusive token for the SPI bus controller that drives the display.
///
/// The board's first two SPI controllers are reserved or restricted, so the
/// display is driven from this third one.
pub struct Spi2 {
    pub(crate) claim: (),
}

/// Exclusive token for the analog-to-digital converter unit that samples the
/// battery voltage.
pub struct Adc1 {
    pub(crate) claim: (),
}

/// The board's one-time hardware inventory: every pin handle and peripheral
/// token, each issued exactly once.
///
/// The platform hands this value out once per boot; everything in it is
/// consumed by moving it into resource groups and drivers. All state here is
/// in-memory only and is rebuilt from scratch at each boot.
pub struct Peripherals {
    /// The full set of GPIO pin handles.
    pub pins: crate::pins::Pins,
    /// The I2C bus controller.
    pub i2c0: I2c0,
    /// The SPI bus controller available for the display.
    pub spi2: Spi2,
    /// The battery-sensing ADC unit.
    pub adc1: Adc1,
}

impl Peripherals {
    /// Issues the hardware inventory.
    ///
    /// The caller is responsible for calling this only once per boot, as the
    /// platform's peripheral-take operation does; within the program every
    /// handle it contains is exclusive and moves exactly once.
    pub fn new() -> Peripherals {
        Peripherals {
            pins: crate::pins::Pins::new(),
            i2c0: I2c0 { claim: () },
            spi2: Spi2 { claim: () },
            adc1: Adc1 { claim: () },
        }
    }
}

} // verus!
