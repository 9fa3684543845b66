//! Battery status sampled through the ADC.
//!
//! The platform performs the raw ADC read; everything derived from the
//! reading — doubling it to undo the board's 2:1 sense divider, and the
//! saturating percentage interpolation — is computed and verified here.

use vstd::prelude::*;

use vstd::arithmetic::div_mod::lemma_div_is_ordered;
use vstd::arithmetic::div_mod::lemma_div_pos_is_pos;
use vstd::arithmetic::mul::lemma_mul_inequality;

use crate::gpio;
use crate::peripherals;
use crate::pins;
use crate::EspErrorCode;
use crate::EspResult;

use rounded_div::RoundedDiv;

verus! {

/// Millivolt level at or below which the battery reports 0%.
///
/// The interpolation endpoints are board-revision constants; these are the
/// values for revision 2.0 of the board (other revisions use a higher floor).
pub const BATTERY_EMPTY_MV: u32 = 3400;

/// Millivolt level at or above which the battery reports 100%.
pub const BATTERY_FULL_MV: u32 = 4200;

/// The largest battery voltage a status can record: twice the largest raw
/// sample the ADC can report.
pub const BATTERY_MAX_MV: u32 = 131070;

/// The charge percentage for a given battery voltage: linear interpolation
/// between [`BATTERY_EMPTY_MV`] and [`BATTERY_FULL_MV`], rounded to the
/// nearest integer and saturated to the range 0 to 100.
pub open spec fn percentage_of_millivolts(mv: int) -> int {
    let scaled = if mv <= BATTERY_EMPTY_MV {
        0
    } else {
        (mv - BATTERY_EMPTY_MV) * 100
    };
    let span = BATTERY_FULL_MV - BATTERY_EMPTY_MV;
    let rounded = (scaled + span / 2) / span;
    if rounded >= 100 {
        100
    } else {
        rounded
    }
}

/// The percentage never moves down as the voltage goes up.
pub proof fn lemma_percentage_monotonic(mv1: int, mv2: int)
    requires
        mv1 <= mv2,
    ensures
        percentage_of_millivolts(mv1) <= percentage_of_millivolts(mv2),
{
    let scaled1 = if mv1 <= BATTERY_EMPTY_MV { 0 } else { (mv1 - BATTERY_EMPTY_MV) * 100 };
    let scaled2 = if mv2 <= BATTERY_EMPTY_MV { 0 } else { (mv2 - BATTERY_EMPTY_MV) * 100 };
    if BATTERY_EMPTY_MV < mv1 {
        lemma_mul_inequality(mv1 - BATTERY_EMPTY_MV, mv2 - BATTERY_EMPTY_MV, 100);
    }
    if BATTERY_EMPTY_MV < mv2 {
        lemma_mul_inequality(0, mv2 - BATTERY_EMPTY_MV, 100);
    }
    assert(scaled1 <= scaled2);
    lemma_div_is_ordered(scaled1 + 400, scaled2 + 400, 800);
}

/// The percentage saturates: 0 at or below the empty level, 100 at or above
/// the full level, and always within 0 to 100.
pub proof fn lemma_percentage_saturates(mv: int)
    ensures
        mv <= BATTERY_EMPTY_MV ==> percentage_of_millivolts(mv) == 0,
        mv >= BATTERY_FULL_MV ==> percentage_of_millivolts(mv) == 100,
        0 <= percentage_of_millivolts(mv) <= 100,
{
    let scaled = if mv <= BATTERY_EMPTY_MV { 0 } else { (mv - BATTERY_EMPTY_MV) * 100 };
    if mv > BATTERY_EMPTY_MV {
        lemma_mul_inequality(0, mv - BATTERY_EMPTY_MV, 100);
    }
    lemma_div_pos_is_pos(scaled + 400, 800);
    if mv >= BATTERY_FULL_MV {
        lemma_mul_inequality(800, mv - BATTERY_EMPTY_MV, 100);
        lemma_div_is_ordered(80400, scaled + 400, 800);
        assert(80400int / 800int == 100);
    }
}

/// Relies on `rounded_div::u32` (the `RoundedDiv` impl for `u32`): the
/// quotient of `dividend / divisor` rounded to the nearest integer, with
/// halves rounded up. The divisor bound keeps the crate's doubled-remainder
/// comparison exact.
#[verifier::external_body]
fn rounded_div_u32(dividend: u32, divisor: u32) -> (r: u32)
    requires
        0 < divisor < 0x8000_0000u32,
    ensures
        r == (dividend as int + (divisor as int) / 2) / (divisor as int),
{
    dividend.rounded_div(divisor)
}

/// One battery status snapshot: the sensed battery voltage in millivolts,
/// taken from a single ADC sample.
pub struct BatteryStatus {
    millivolts: u32,
}

impl BatteryStatus {
    #[verifier::type_invariant]
    spec fn wf(self) -> bool {
        self.millivolts <= BATTERY_MAX_MV
    }

    /// The recorded battery voltage, in millivolts.
    pub closed spec fn spec_voltage(&self) -> int {
        self.millivolts as int
    }

    /// Returns the battery voltage in mV.
    pub fn voltage(&self) -> (r: u32)
        ensures
            r == self.spec_voltage(),
    {
        self.millivolts
    }

    /// Returns the charge percentage of the battery: the saturating linear
    /// interpolation between the empty and full levels, rounded to the
    /// nearest integer.
    pub fn percentage(&self) -> (r: u8)
        ensures
            r == percentage_of_millivolts(self.spec_voltage()),
    {
        proof {
            use_type_invariant(self);
            lemma_percentage_saturates(self.millivolts as int);
            if self.millivolts > BATTERY_EMPTY_MV {
                lemma_mul_inequality(
                    self.millivolts - BATTERY_EMPTY_MV,
                    BATTERY_MAX_MV - BATTERY_EMPTY_MV,
                    100,
                );
            }
        }
        let base = self.millivolts.saturating_sub(BATTERY_EMPTY_MV);
        let scaled = base * 100;
        let rounded = rounded_div_u32(scaled, BATTERY_FULL_MV - BATTERY_EMPTY_MV);
        let pct = if rounded >= 100 {
            100
        } else {
            rounded
        };
        pct as u8
    }
}

/// Fixed configuration of the battery ADC channel.
#[derive(Clone, Copy, PartialEq, Eq, Structural, Debug)]
pub struct AdcConfig {
    /// Input attenuation, in whole decibels.
    pub attenuation_db: u8,
    /// Sample resolution, in bits.
    pub resolution_bits: u8,
    /// Whether the converter's calibration curve is applied to readings.
    pub calibration: bool,
}

/// The configuration the battery channel is always set up with: 12-bit
/// resolution with calibration enabled, and high attenuation to cover the
/// divided battery voltage range.
pub open spec fn battery_adc_config() -> AdcConfig {
    AdcConfig { attenuation_db: 11, resolution_bits: 12, calibration: true }
}

/// Driver to retrieve the battery status.
///
/// Owns the sense pin and the ADC unit; the unit is claimed for the driver's
/// whole lifetime.
pub struct BatteryStatusDriver {
    /// The owned battery sense pin.
    adc_pin: gpio::Gpio34,
    /// The owned ADC unit.
    adc_unit: peripherals::Adc1,
    /// The channel configuration.
    config: AdcConfig,
}

impl BatteryStatusDriver {
    /// The configuration the driver's ADC channel was set up with.
    pub closed spec fn config(&self) -> AdcConfig {
        self.config
    }

    /// Returns the configuration the driver's ADC channel was set up with.
    pub fn adc_config(&self) -> (r: AdcConfig)
        ensures
            r == self.config(),
    {
        self.config
    }

    /// Sets up the battery status driver, consuming the battery pin group
    /// and the ADC unit.
    pub fn new(battery_pins: pins::Battery, adc: peripherals::Adc1) -> (r: Self)
        ensures
            r.config() == battery_adc_config(),
    {
        BatteryStatusDriver {
            adc_pin: battery_pins.adc,
            adc_unit: adc,
            config: AdcConfig { attenuation_db: 11, resolution_bits: 12, calibration: true },
        }
    }

    /// Derives the battery status from the outcome of one ADC read performed
    /// by the platform. The raw sample is the millivolt reading at the sense
    /// pin; it is doubled to undo the board's 2:1 divider. A failed read
    /// propagates the platform's error unchanged.
    pub fn status(&self, sample: EspResult<u16>) -> (r: EspResult<BatteryStatus>)
        ensures
            sample matches Ok(mv) ==> r matches Ok(st) && st.spec_voltage() == 2 * mv,
            sample matches Err(e) ==> r == Err::<BatteryStatus, EspErrorCode>(e),
    {
        match sample {
            Ok(mv) => Ok(self.status_from_sample(mv)),
            Err(e) => Err(e),
        }
    }

    /// Computes the battery status from one raw ADC sample, in millivolts at
    /// the sense pin.
    pub fn status_from_sample(&self, sample_mv: u16) -> (r: BatteryStatus)
        ensures
            r.spec_voltage() == 2 * sample_mv,
    {
        BatteryStatus { millivolts: 2 * (sample_mv as u32) }
    }
}

} // verus!
