//! Setup of the driver for the e-ink display, with its two-stage typestate.
//!
//! Construction claims the display SPI bus and the three control pins and
//! yields a driver in the [`NotInitialized`] state: the chip has not yet run
//! its power-on sequence. Running [`DisplayDriver::initialize`] consumes the
//! `NotInitialized` value and yields a [`Ready`] one. Drawing operations are
//! defined only on `DisplayDriver<Ready>`, so invoking one on a value that
//! was never initialized is rejected by the compiler, not at run time.

use vstd::prelude::*;

use core::marker::PhantomData;

use crate::gpio;
use crate::gpio::InputPinDriver;
use crate::gpio::LineState;
use crate::gpio::OutputPinDriver;
use crate::gpio::PinLevel;
use crate::gpio::Pull;
use crate::peripherals;
use crate::pins;
use crate::EspErrorCode;
use crate::EspResult;

verus! {

/// Typestate tag: the chip has not run its power-on sequence; drawing
/// operations do not exist in this state.
pub struct NotInitialized {

}

/// Typestate tag: the chip completed its power-on sequence; drawing and
/// refresh operations are available.
pub struct Ready {

}

/// The display driver's initialization states.
pub trait InitState {

}

impl InitState for NotInitialized {

}

impl InitState for Ready {

}

/// A failure in the display chip's own command sequence, distinct from a
/// bus transport failure.
#[derive(Clone, Copy, PartialEq, Eq, Structural, Debug)]
pub enum DisplayChipError {
    /// The chip driver reported a failure it cannot classify further.
    Unknown,
}

/// Error for display setup problems.
#[derive(Clone, Copy, PartialEq, Eq, Structural, Debug)]
pub enum DisplayError {
    /// A SPI bus error, with the platform's code: a wiring or transport
    /// problem.
    Spi(EspErrorCode),
    /// A display chip driver error: a chip protocol problem.
    Driver(DisplayChipError),
}

/// Fixed configuration of the display SPI bus.
#[derive(Clone, Copy, PartialEq, Eq, Structural, Debug)]
pub struct SpiConfig {
    /// Bus clock rate in hertz.
    pub baudrate_hz: u32,
    /// Whether the clock idles low.
    pub clock_idle_low: bool,
    /// Whether data is sampled on the first clock edge.
    pub capture_on_first_edge: bool,
    /// Whether the bus is used for writes only.
    pub write_only: bool,
    /// Whether the bus runs half duplex.
    pub half_duplex: bool,
    /// Whether bytes go out most-significant bit first.
    pub msb_first: bool,
    /// Whether chip select is active low.
    pub cs_active_low: bool,
    /// Extra input sampling delay, in nanoseconds, to accommodate the
    /// display's timing.
    pub input_delay_ns: u32,
}

/// The mode the display bus is always configured with: 20 MHz, write-only,
/// half duplex, most-significant bit first, clock idle low with sampling on
/// the first edge, chip select active low, and a fixed input sampling delay.
pub open spec fn display_spi_config() -> SpiConfig {
    SpiConfig {
        baudrate_hz: 20_000_000,
        clock_idle_low: true,
        capture_on_first_edge: true,
        write_only: true,
        half_duplex: true,
        msb_first: true,
        cs_active_low: true,
        input_delay_ns: 50,
    }
}

/// A configured driver for the display SPI bus, owning the bus controller
/// and the communication pins.
pub struct SpiBusDriver {
    /// The owned serial clock pin.
    pub sclk: gpio::Gpio18,
    /// The owned serial data out pin.
    pub sdo: gpio::Gpio23,
    /// The owned chip select pin.
    pub cs: gpio::Gpio5,
    /// The owned bus controller.
    pub controller: peripherals::Spi2,
    /// The protocol parameters the controller was configured with.
    pub config: SpiConfig,
}

/// The display driver in initialization state `S`.
///
/// The state is part of the type: only `DisplayDriver<Ready>` has drawing
/// operations, and the only way to obtain one is
/// [`DisplayDriver::initialize`] on a `DisplayDriver<NotInitialized>`.
pub struct DisplayDriver<S: InitState> {
    /// The owned display SPI bus driver.
    spi: SpiBusDriver,
    /// The data/command control pin, driven as an output.
    dc: OutputPinDriver<gpio::Gpio10>,
    /// The reset pin, driven as an output.
    reset: OutputPinDriver<gpio::Gpio9>,
    /// The busy pin, read as an input.
    busy: InputPinDriver<gpio::Gpio19>,
    /// The typestate tag; it carries no data.
    state: PhantomData<S>,
}

impl<S: InitState> DisplayDriver<S> {
    /// The display SPI bus driver, as recorded at construction.
    pub closed spec fn spec_spi(&self) -> SpiBusDriver {
        self.spi
    }

    /// The data/command pin driver, as recorded at construction.
    pub closed spec fn spec_dc(&self) -> OutputPinDriver<gpio::Gpio10> {
        self.dc
    }

    /// The reset pin driver, as recorded at construction.
    pub closed spec fn spec_reset(&self) -> OutputPinDriver<gpio::Gpio9> {
        self.reset
    }

    /// The busy pin driver, as recorded at construction.
    pub closed spec fn spec_busy(&self) -> InputPinDriver<gpio::Gpio19> {
        self.busy
    }

    /// The configuration the display bus was set up with.
    pub fn spi_config(&self) -> (r: SpiConfig)
        ensures
            r == self.spec_spi().config,
    {
        self.spi.config
    }
}

/// Sets up the display driver, consuming the display pin group and the SPI
/// bus controller.
///
/// The bus is configured with [`display_spi_config`]; the data/command and
/// reset pins are claimed as outputs and the busy pin as an input, seeded
/// with the level the platform read from it when claiming it. The chip has
/// not run its power-on sequence, so the result is `NotInitialized`: drawing
/// operations cannot be invoked on it.
pub fn display_driver(
    display_pins: pins::Display,
    spi: peripherals::Spi2,
    busy_level: PinLevel,
) -> (r: DisplayDriver<NotInitialized>)
    ensures
        r.spec_spi().config == display_spi_config(),
        r.spec_spi().sclk == display_pins.spi_sclk,
        r.spec_spi().sdo == display_pins.spi_sdo,
        r.spec_spi().cs == display_pins.spi_cs,
        r.spec_dc().pin == display_pins.disp_dc,
        r.spec_reset().pin == display_pins.disp_reset,
        r.spec_busy().spec_pin() == display_pins.disp_busy,
        r.spec_busy().spec_pull() == Pull::Floating,
        r.spec_busy()@ == (LineState { level: busy_level, pending: None }),
{
    DisplayDriver {
        spi: SpiBusDriver {
            sclk: display_pins.spi_sclk,
            sdo: display_pins.spi_sdo,
            cs: display_pins.spi_cs,
            controller: spi,
            config: SpiConfig {
                baudrate_hz: 20_000_000,
                clock_idle_low: true,
                capture_on_first_edge: true,
                write_only: true,
                half_duplex: true,
                msb_first: true,
                cs_active_low: true,
                input_delay_ns: 50,
            },
        },
        dc: OutputPinDriver::output(display_pins.disp_dc),
        reset: OutputPinDriver::output(display_pins.disp_reset),
        busy: InputPinDriver::input(display_pins.disp_busy, Pull::Floating, busy_level),
        state: PhantomData,
    }
}

impl DisplayDriver<NotInitialized> {
    /// Moves the driver to the `Ready` state, given the outcome of the
    /// chip's power-on sequence, which the platform ran over the bus.
    ///
    /// Succeeds exactly when the sequence succeeded, carrying the bus and
    /// pins over unchanged. A chip failure surfaces as
    /// [`DisplayError::Driver`], distinct from any bus error, and leaves no
    /// driver: the `NotInitialized` value is consumed either way, so no
    /// partially initialized display is observable.
    pub fn initialize(self, chip_init: Result<(), DisplayChipError>) -> (r: Result<
        DisplayDriver<Ready>,
        DisplayError,
    >)
        ensures
            chip_init is Ok ==> (r matches Ok(d) && d.spec_spi() == self.spec_spi()
                && d.spec_dc() == self.spec_dc() && d.spec_reset() == self.spec_reset()
                && d.spec_busy() == self.spec_busy()),
            chip_init matches Err(e) ==> r == Err::<DisplayDriver<Ready>, DisplayError>(
                DisplayError::Driver(e),
            ),
    {
        match chip_init {
            Ok(_) => Ok(
                DisplayDriver {
                    spi: self.spi,
                    dc: self.dc,
                    reset: self.reset,
                    busy: self.busy,
                    state: PhantomData,
                },
            ),
            Err(e) => Err(DisplayError::Driver(e)),
        }
    }
}

impl DisplayDriver<Ready> {
    /// Issues one frame refresh, given the outcome of the bus transfer the
    /// platform performed. Available only in the `Ready` state: a
    /// `NotInitialized` driver has no drawing operations.
    ///
    /// A failed transfer surfaces as [`DisplayError::Spi`], the transport
    /// side of the error taxonomy; the driver itself is unchanged either
    /// way and can issue further refreshes.
    pub fn refresh(&mut self, transfer: EspResult<()>) -> (r: Result<(), DisplayError>)
        ensures
            *final(self) == *old(self),
            transfer is Ok <==> r is Ok,
            transfer matches Err(e) ==> r == Err::<(), DisplayError>(DisplayError::Spi(e)),
    {
        match transfer {
            Ok(_) => Ok(()),
            Err(e) => Err(DisplayError::Spi(e)),
        }
    }
}

} // verus!
