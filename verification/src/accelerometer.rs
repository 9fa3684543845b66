//! Setup of the driver for the on-board accelerometer chip.
//!
//! The chip sits on the shared sensor I2C bus. The platform layer performs
//! the bus transactions: it initializes the chip at [`ACCEL_I2C_ADDRESS`]
//! and reads back the identity register. Construction here consumes the
//! accelerometer resource group and the bus driver, judges that read-back,
//! and either yields the fully configured driver or fails with the error
//! taxonomy of the specification: an identity mismatch is reported as
//! [`AccelerometerError::BadId`], distinct from a transport failure.

use vstd::prelude::*;

use crate::gpio;
use crate::gpio::InputPinDriver;
use crate::gpio::LineState;
use crate::gpio::PinLevel;
use crate::gpio::Pull;
use crate::pins;
use crate::EspErrorCode;
use crate::I2cBusDriver;

verus! {

/// The identity value the accelerometer chip reports from its chip-id
/// register.
pub const ACCEL_CHIP_ID: u8 = 0x13;

/// The bus address the chip answers at on this board.
///
/// The address is fixed here explicitly: some revisions of the chip's driver
/// library advertise a default address that is wrong for this board, so it
/// must never be left at a library default.
pub const ACCEL_I2C_ADDRESS: u8 = 0x18;

/// A failure inside the accelerometer chip driver, as the platform reports
/// it.
#[derive(Clone, Copy, PartialEq, Eq, Structural, Debug)]
pub enum ChipError {
    /// The underlying bus transaction failed, with the platform's code.
    Bus(EspErrorCode),
    /// An invalid chip configuration was requested.
    Config,
    /// The chip is in an erroneous internal state, with its status value.
    BadInternal(u8),
    /// An invalid argument was passed to the chip driver.
    BadArgument,
}

/// Error for accelerometer setup problems.
#[derive(Clone, Copy, PartialEq, Eq, Structural, Debug)]
pub enum AccelerometerError {
    /// The chip returned an invalid chip ID.
    BadId,
    /// A platform peripheral error, such as a failed pin claim.
    Esp(EspErrorCode),
    /// An error within the accelerometer chip driver.
    Driver(ChipError),
}

/// The accelerometer driver: the owned sensor bus and the interrupt pin
/// drivers.
///
/// Holding the bus driver gives this device exclusive use of the bus; when
/// the RTC must share it, the caller keeps the bus and hands each device
/// serialized access instead.
pub struct AccelerometerDriver {
    /// The owned sensor I2C bus driver.
    pub i2c: I2cBusDriver,
    /// Pin driver for the interrupt 1 line.
    pub pin_driver_int1: InputPinDriver<gpio::Gpio14>,
    /// Pin driver for the interrupt 2 line.
    pub pin_driver_int2: InputPinDriver<gpio::Gpio12>,
}

impl AccelerometerDriver {
    /// Sets up the accelerometer driver and interrupt pin drivers.
    ///
    /// `chip_id_read` is the outcome of the chip initialization and
    /// identity read-back the platform performed over the bus at
    /// [`ACCEL_I2C_ADDRESS`]. Construction succeeds exactly when that
    /// transaction succeeded and the identity matches [`ACCEL_CHIP_ID`]; a
    /// mismatch yields [`AccelerometerError::BadId`], a failed transaction
    /// propagates as [`AccelerometerError::Driver`], and in either case no
    /// driver value exists. The resource group and the bus are consumed
    /// regardless, so a failed construction cannot be retried with the same
    /// pins.
    ///
    /// The interrupt lines are configured as inputs with no internal pull:
    /// the board revision supported here (2.0) provides external pull-down
    /// resistors, and the pull choice is made explicitly per revision rather
    /// than left at a platform default. The external pull-downs hold the
    /// idle lines low, so both start observed low, ready for edge waits on
    /// the chip's interrupts.
    pub fn new(
        accelerometer_pins: pins::Accelerometer,
        i2c_driver: I2cBusDriver,
        chip_id_read: Result<u8, ChipError>,
    ) -> (r: Result<AccelerometerDriver, AccelerometerError>)
        ensures
            (chip_id_read matches Ok(id) && id == ACCEL_CHIP_ID) ==> (r matches Ok(d)
                && d.i2c == i2c_driver
                && d.pin_driver_int1.spec_pin() == accelerometer_pins.int_1
                && d.pin_driver_int1.spec_pull() == Pull::Floating
                && d.pin_driver_int1@ == (LineState { level: PinLevel::Low, pending: None })
                && d.pin_driver_int2.spec_pin() == accelerometer_pins.int_2
                && d.pin_driver_int2.spec_pull() == Pull::Floating
                && d.pin_driver_int2@ == (LineState { level: PinLevel::Low, pending: None })),
            (chip_id_read matches Ok(id) && id != ACCEL_CHIP_ID) ==> r == Err::<
                AccelerometerDriver,
                AccelerometerError,
            >(AccelerometerError::BadId),
            chip_id_read matches Err(e) ==> r == Err::<
                AccelerometerDriver,
                AccelerometerError,
            >(AccelerometerError::Driver(e)),
    {
        match chip_id_read {
            Ok(id) => {
                if id == ACCEL_CHIP_ID {
                    Ok(
                        AccelerometerDriver {
                            i2c: i2c_driver,
                            pin_driver_int1: InputPinDriver::input(
                                accelerometer_pins.int_1,
                                Pull::Floating,
                                PinLevel::Low,
                            ),
                            pin_driver_int2: InputPinDriver::input(
                                accelerometer_pins.int_2,
                                Pull::Floating,
                                PinLevel::Low,
                            ),
                        },
                    )
                } else {
                    Err(AccelerometerError::BadId)
                }
            },
            Err(e) => Err(AccelerometerError::Driver(e)),
        }
    }
}

} // verus!
