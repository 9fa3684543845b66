//! The board's pin inventory and its partition into named resource groups.
//!
//! [`Pins`] holds one handle for every exposed GPIO line and is issued once
//! per boot, as part of [`crate::peripherals::Peripherals`]. [`Sets::new`]
//! consumes the inventory and splits it, once, into disjoint groups, one per
//! on-board subsystem. Because every handle is moved, a physical line can
//! never end up in two groups, and the inventory cannot be partitioned twice:
//! both would need a second handle that does not exist.
//!
//! The spec-level map [`pin_owner`] records which subsystem each physical
//! identifier is assigned to; [`lemma_partition_disjoint_and_exhaustive`]
//! proves that this assignment is pairwise disjoint and that, together with
//! the reserved lines, it covers the inventory exactly once.

use vstd::prelude::*;

use crate::gpio;

verus! {

/// The subsystems among which the pin inventory is divided.
#[derive(Clone, Copy, PartialEq, Eq, Structural, Debug)]
pub enum Subsystem {
    /// The e-ink display and its control lines.
    Display,
    /// The battery voltage sense line.
    Battery,
    /// The four user buttons.
    Buttons,
    /// The accelerometer's interrupt lines.
    Accelerometer,
    /// The shared sensor I2C bus lines.
    I2c,
    /// The real-time clock's interrupt line.
    Rtc,
    /// The vibration motor's power line.
    VibrationMotor,
    /// Lines the board leaves unconnected.
    Unused,
}

/// The physical identifiers of every line in the inventory, the two reserved
/// system lines included.
pub open spec fn inventory_ids() -> Set<int> {
    set![0int, 1int, 2int, 3int, 4int, 5int, 6int, 7int, 8int, 9int, 10int, 11int, 12int, 13int, 14int, 15int, 16int, 17int, 18int, 19int, 21int, 22int, 23int, 25int,
        26int, 27int, 32int, 33int, 34int, 35int]
}

/// The two lines reserved for the system console; they are never issued as
/// handles and belong to no group.
pub open spec fn reserved_ids() -> Set<int> {
    set![1int, 3int]
}

/// The subsystem a physical line is assigned to, or `None` for a line that
/// is reserved or not part of the inventory.
pub open spec fn pin_owner(id: int) -> Option<Subsystem> {
    if id == 5 || id == 9 || id == 10 || id == 18 || id == 19 || id == 23 {
        Some(Subsystem::Display)
    } else if id == 34 {
        Some(Subsystem::Battery)
    } else if id == 4 || id == 25 || id == 26 || id == 35 {
        Some(Subsystem::Buttons)
    } else if id == 12 || id == 14 {
        Some(Subsystem::Accelerometer)
    } else if id == 21 || id == 22 {
        Some(Subsystem::I2c)
    } else if id == 27 {
        Some(Subsystem::Rtc)
    } else if id == 13 {
        Some(Subsystem::VibrationMotor)
    } else if id == 0 || id == 2 || id == 6 || id == 7 || id == 8 || id == 11 || id == 15
        || id == 16 || id == 17 || id == 32 || id == 33 {
        Some(Subsystem::Unused)
    } else {
        None
    }
}

/// The identifiers in a pin listing, as a set of mathematical integers.
pub open spec fn ids_as_set(ids: Seq<u8>) -> Set<int> {
    Set::new(|a: int| exists|k: int| 0 <= k < ids.len() && ids[k] == a)
}

/// Each listed identifier is a member of the listing's identifier set.
proof fn lemma_ids_as_set_member(ids: Seq<u8>, k: int)
    requires
        0 <= k < ids.len(),
    ensures
        ids_as_set(ids).contains(ids[k] as int),
{
    assert(0 <= k < ids.len() && ids[k] == ids[k] as int);
}

/// The identifiers assigned to some subsystem.
pub open spec fn assigned_ids() -> Set<int> {
    Set::new(|id: int| pin_owner(id) is Some)
}

/// The identifiers assigned to one particular subsystem.
pub open spec fn subsystem_ids(s: Subsystem) -> Set<int> {
    Set::new(|id: int| pin_owner(id) == Some(s))
}

/// The pin assignment is a partition: distinct subsystems own disjoint sets
/// of physical identifiers, no subsystem owns a reserved line, and the
/// assigned identifiers together with the reserved ones cover the inventory
/// exactly once.
pub proof fn lemma_partition_disjoint_and_exhaustive()
    ensures
        forall|a: Subsystem, b: Subsystem|
            a != b ==> subsystem_ids(a).disjoint(subsystem_ids(b)),
        forall|s: Subsystem| subsystem_ids(s).disjoint(reserved_ids()),
        assigned_ids().disjoint(reserved_ids()),
        assigned_ids().union(reserved_ids()) == inventory_ids(),
{
    assert forall|a: Subsystem, b: Subsystem|
        a != b implies subsystem_ids(a).disjoint(subsystem_ids(b)) by {
        assert forall|i: int|
            subsystem_ids(a).contains(i) implies !subsystem_ids(b).contains(i) by {
            assert(pin_owner(i) == Some(a));
        }
    }
    assert(pin_owner(1) is None);
    assert(pin_owner(3) is None);
    assert(assigned_ids().union(reserved_ids()) =~= inventory_ids());
}

/// Each subsystem's assigned identifiers, written out.
pub proof fn lemma_subsystem_ids()
    ensures
        subsystem_ids(Subsystem::Display) == set![5int, 9int, 10int, 18int, 19int, 23int],
        subsystem_ids(Subsystem::Battery) == set![34int],
        subsystem_ids(Subsystem::Buttons) == set![4int, 25int, 26int, 35int],
        subsystem_ids(Subsystem::Accelerometer) == set![12int, 14int],
        subsystem_ids(Subsystem::I2c) == set![21int, 22int],
        subsystem_ids(Subsystem::Rtc) == set![27int],
        subsystem_ids(Subsystem::VibrationMotor) == set![13int],
        subsystem_ids(Subsystem::Unused) == set![0int, 2int, 6int, 7int, 8int, 11int, 15int, 16int, 17int, 32int, 33int],
{
    assert(subsystem_ids(Subsystem::Display) =~= set![5int, 9int, 10int, 18int, 19int, 23int]);
    assert(subsystem_ids(Subsystem::Battery) =~= set![34int]);
    assert(subsystem_ids(Subsystem::Buttons) =~= set![4int, 25int, 26int, 35int]);
    assert(subsystem_ids(Subsystem::Accelerometer) =~= set![12int, 14int]);
    assert(subsystem_ids(Subsystem::I2c) =~= set![21int, 22int]);
    assert(subsystem_ids(Subsystem::Rtc) =~= set![27int]);
    assert(subsystem_ids(Subsystem::VibrationMotor) =~= set![13int]);
    assert(subsystem_ids(Subsystem::Unused) =~= set![0int, 2int, 6int, 7int, 8int, 11int, 15int, 16int, 17int, 32int, 33int]);
}

/// Pins used for the e-ink display.
pub struct Display {
    /// The display SPI serial clock pin.
    pub spi_sclk: gpio::Gpio18,
    /// The display SPI serial data out pin.
    pub spi_sdo: gpio::Gpio23,
    /// The display SPI chip select pin.
    pub spi_cs: gpio::Gpio5,
    /// The display data/command pin.
    pub disp_dc: gpio::Gpio10,
    /// The display reset pin.
    pub disp_reset: gpio::Gpio9,
    /// The display busy pin.
    pub disp_busy: gpio::Gpio19,
}

impl Display {
    /// The physical identifiers of this group's pins, in field order; as a
    /// set, exactly the identifiers assigned to the display subsystem.
    pub fn pin_ids(&self) -> (r: Vec<u8>)
        ensures
            r@ == seq![18u8, 23u8, 5u8, 10u8, 9u8, 19u8],
            ids_as_set(r@) == subsystem_ids(Subsystem::Display),
    {
        let ids: Vec<u8> = vec![
            self.spi_sclk.id(),
            self.spi_sdo.id(),
            self.spi_cs.id(),
            self.disp_dc.id(),
            self.disp_reset.id(),
            self.disp_busy.id(),
        ];
        assert(ids@ =~= seq![18u8, 23u8, 5u8, 10u8, 9u8, 19u8]);
        proof {
            lemma_ids_as_set_member(ids@, 0);
            lemma_ids_as_set_member(ids@, 1);
            lemma_ids_as_set_member(ids@, 2);
            lemma_ids_as_set_member(ids@, 3);
            lemma_ids_as_set_member(ids@, 4);
            lemma_ids_as_set_member(ids@, 5);
            assert(ids_as_set(ids@) =~= subsystem_ids(Subsystem::Display));
        }
        ids
    }
}

/// Pins to monitor the battery voltage.
pub struct Battery {
    /// The ADC pin used to monitor the battery voltage.
    pub adc: gpio::Gpio34,
}

impl Battery {
    /// The physical identifiers of this group's pins.
    pub fn pin_ids(&self) -> (r: Vec<u8>)
        ensures
            r@ == seq![34u8],
            ids_as_set(r@) == subsystem_ids(Subsystem::Battery),
    {
        let ids: Vec<u8> = vec![self.adc.id()];
        assert(ids@ =~= seq![34u8]);
        proof {
            lemma_ids_as_set_member(ids@, 0);
            assert(ids_as_set(ids@) =~= subsystem_ids(Subsystem::Battery));
        }
        ids
    }
}

/// Pins attached to the watch buttons.
pub struct Buttons {
    /// The button 1 discrete pin.
    pub btn_1: gpio::Gpio26,
    /// The button 2 discrete pin.
    pub btn_2: gpio::Gpio25,
    /// The button 3 discrete pin.
    pub btn_3: gpio::Gpio35,
    /// The button 4 discrete pin.
    pub btn_4: gpio::Gpio4,
}

impl Buttons {
    /// The physical identifiers of this group's pins, in field order.
    pub fn pin_ids(&self) -> (r: Vec<u8>)
        ensures
            r@ == seq![26u8, 25u8, 35u8, 4u8],
            ids_as_set(r@) == subsystem_ids(Subsystem::Buttons),
    {
        let ids: Vec<u8> = vec![
            self.btn_1.id(),
            self.btn_2.id(),
            self.btn_3.id(),
            self.btn_4.id(),
        ];
        assert(ids@ =~= seq![26u8, 25u8, 35u8, 4u8]);
        proof {
            lemma_ids_as_set_member(ids@, 0);
            lemma_ids_as_set_member(ids@, 1);
            lemma_ids_as_set_member(ids@, 2);
            lemma_ids_as_set_member(ids@, 3);
            assert(ids_as_set(ids@) =~= subsystem_ids(Subsystem::Buttons));
        }
        ids
    }
}

/// Pins used for the I2C bus, on which are the accelerometer and the RTC.
pub struct I2CBus {
    /// The I2C bus serial data line pin.
    pub sda: gpio::Gpio21,
    /// The I2C bus serial clock line pin.
    pub scl: gpio::Gpio22,
}

impl I2CBus {
    /// The physical identifiers of this group's pins, in field order.
    pub fn pin_ids(&self) -> (r: Vec<u8>)
        ensures
            r@ == seq![21u8, 22u8],
            ids_as_set(r@) == subsystem_ids(Subsystem::I2c),
    {
        let ids: Vec<u8> = vec![self.sda.id(), self.scl.id()];
        assert(ids@ =~= seq![21u8, 22u8]);
        proof {
            lemma_ids_as_set_member(ids@, 0);
            lemma_ids_as_set_member(ids@, 1);
            assert(ids_as_set(ids@) =~= subsystem_ids(Subsystem::I2c));
        }
        ids
    }
}

/// Pins used for the accelerometer chip; the [`I2CBus`] pins carry its bus
/// traffic.
pub struct Accelerometer {
    /// Accelerometer interrupt 1 pin.
    pub int_1: gpio::Gpio14,
    /// Accelerometer interrupt 2 pin.
    pub int_2: gpio::Gpio12,
}

impl Accelerometer {
    /// The physical identifiers of this group's pins, in field order.
    pub fn pin_ids(&self) -> (r: Vec<u8>)
        ensures
            r@ == seq![14u8, 12u8],
            ids_as_set(r@) == subsystem_ids(Subsystem::Accelerometer),
    {
        let ids: Vec<u8> = vec![self.int_1.id(), self.int_2.id()];
        assert(ids@ =~= seq![14u8, 12u8]);
        proof {
            lemma_ids_as_set_member(ids@, 0);
            lemma_ids_as_set_member(ids@, 1);
            assert(ids_as_set(ids@) =~= subsystem_ids(Subsystem::Accelerometer));
        }
        ids
    }
}

/// Pins used for the real-time clock chip; the [`I2CBus`] pins carry its bus
/// traffic.
pub struct Rtc {
    /// RTC interrupt pin.
    pub int: gpio::Gpio27,
}

impl Rtc {
    /// The physical identifiers of this group's pins.
    pub fn pin_ids(&self) -> (r: Vec<u8>)
        ensures
            r@ == seq![27u8],
            ids_as_set(r@) == subsystem_ids(Subsystem::Rtc),
    {
        let ids: Vec<u8> = vec![self.int.id()];
        assert(ids@ =~= seq![27u8]);
        proof {
            lemma_ids_as_set_member(ids@, 0);
            assert(ids_as_set(ids@) =~= subsystem_ids(Subsystem::Rtc));
        }
        ids
    }
}

/// Pins to control the vibration motor.
pub struct VibrationMotor {
    /// Pin that controls the DC vibration motor power.
    pub power: gpio::Gpio13,
}

impl VibrationMotor {
    /// The physical identifiers of this group's pins.
    pub fn pin_ids(&self) -> (r: Vec<u8>)
        ensures
            r@ == seq![13u8],
            ids_as_set(r@) == subsystem_ids(Subsystem::VibrationMotor),
    {
        let ids: Vec<u8> = vec![self.power.id()];
        assert(ids@ =~= seq![13u8]);
        proof {
            lemma_ids_as_set_member(ids@, 0);
            assert(ids_as_set(ids@) =~= subsystem_ids(Subsystem::VibrationMotor));
        }
        ids
    }
}

/// Pins the board leaves unconnected.
///
/// GPIO 1 and GPIO 3 carry the system console, so they are reserved and are
/// not issued here.
pub struct Unused {
    /// GPIO 0 pin.
    pub gpio0: gpio::Gpio0,
    /// GPIO 2 pin.
    pub gpio2: gpio::Gpio2,
    /// GPIO 6 pin.
    pub gpio6: gpio::Gpio6,
    /// GPIO 7 pin.
    pub gpio7: gpio::Gpio7,
    /// GPIO 8 pin.
    pub gpio8: gpio::Gpio8,
    /// GPIO 11 pin.
    pub gpio11: gpio::Gpio11,
    /// GPIO 15 pin.
    pub gpio15: gpio::Gpio15,
    /// GPIO 16 pin.
    pub gpio16: gpio::Gpio16,
    /// GPIO 17 pin.
    pub gpio17: gpio::Gpio17,
    /// GPIO 32 pin.
    pub gpio32: gpio::Gpio32,
    /// GPIO 33 pin.
    pub gpio33: gpio::Gpio33,
}

impl Unused {
    /// The physical identifiers of this group's pins, in field order.
    pub fn pin_ids(&self) -> (r: Vec<u8>)
        ensures
            r@ == seq![0u8, 2u8, 6u8, 7u8, 8u8, 11u8, 15u8, 16u8, 17u8, 32u8, 33u8],
            ids_as_set(r@) == subsystem_ids(Subsystem::Unused),
    {
        let ids: Vec<u8> = vec![
            self.gpio0.id(),
            self.gpio2.id(),
            self.gpio6.id(),
            self.gpio7.id(),
            self.gpio8.id(),
            self.gpio11.id(),
            self.gpio15.id(),
            self.gpio16.id(),
            self.gpio17.id(),
            self.gpio32.id(),
            self.gpio33.id(),
        ];
        assert(ids@ =~= seq![0u8, 2u8, 6u8, 7u8, 8u8, 11u8, 15u8, 16u8, 17u8, 32u8, 33u8]);
        proof {
            lemma_ids_as_set_member(ids@, 0);
            lemma_ids_as_set_member(ids@, 1);
            lemma_ids_as_set_member(ids@, 2);
            lemma_ids_as_set_member(ids@, 3);
            lemma_ids_as_set_member(ids@, 4);
            lemma_ids_as_set_member(ids@, 5);
            lemma_ids_as_set_member(ids@, 6);
            lemma_ids_as_set_member(ids@, 7);
            lemma_ids_as_set_member(ids@, 8);
            lemma_ids_as_set_member(ids@, 9);
            lemma_ids_as_set_member(ids@, 10);
            assert(ids_as_set(ids@) =~= subsystem_ids(Subsystem::Unused));
        }
        ids
    }
}

/// The full set of GPIO pin handles, one per exposed physical line.
///
/// Issued once per boot as part of
/// [`Peripherals`](crate::peripherals::Peripherals); consumed, once, by
/// [`Sets::new`].
pub struct Pins {
    /// The GPIO 0 pin handle.
    pub gpio0: crate::gpio::Gpio0,
    /// The GPIO 1 pin handle.
    pub gpio1: crate::gpio::Gpio1,
    /// The GPIO 2 pin handle.
    pub gpio2: crate::gpio::Gpio2,
    /// The GPIO 3 pin handle.
    pub gpio3: crate::gpio::Gpio3,
    /// The GPIO 4 pin handle.
    pub gpio4: crate::gpio::Gpio4,
    /// The GPIO 5 pin handle.
    pub gpio5: crate::gpio::Gpio5,
    /// The GPIO 6 pin handle.
    pub gpio6: crate::gpio::Gpio6,
    /// The GPIO 7 pin handle.
    pub gpio7: crate::gpio::Gpio7,
    /// The GPIO 8 pin handle.
    pub gpio8: crate::gpio::Gpio8,
    /// The GPIO 9 pin handle.
    pub gpio9: crate::gpio::Gpio9,
    /// The GPIO 10 pin handle.
    pub gpio10: crate::gpio::Gpio10,
    /// The GPIO 11 pin handle.
    pub gpio11: crate::gpio::Gpio11,
    /// The GPIO 12 pin handle.
    pub gpio12: crate::gpio::Gpio12,
    /// The GPIO 13 pin handle.
    pub gpio13: crate::gpio::Gpio13,
    /// The GPIO 14 pin handle.
    pub gpio14: crate::gpio::Gpio14,
    /// The GPIO 15 pin handle.
    pub gpio15: crate::gpio::Gpio15,
    /// The GPIO 16 pin handle.
    pub gpio16: crate::gpio::Gpio16,
    /// The GPIO 17 pin handle.
    pub gpio17: crate::gpio::Gpio17,
    /// The GPIO 18 pin handle.
    pub gpio18: crate::gpio::Gpio18,
    /// The GPIO 19 pin handle.
    pub gpio19: crate::gpio::Gpio19,
    /// The GPIO 21 pin handle.
    pub gpio21: crate::gpio::Gpio21,
    /// The GPIO 22 pin handle.
    pub gpio22: crate::gpio::Gpio22,
    /// The GPIO 23 pin handle.
    pub gpio23: crate::gpio::Gpio23,
    /// The GPIO 25 pin handle.
    pub gpio25: crate::gpio::Gpio25,
    /// The GPIO 26 pin handle.
    pub gpio26: crate::gpio::Gpio26,
    /// The GPIO 27 pin handle.
    pub gpio27: crate::gpio::Gpio27,
    /// The GPIO 32 pin handle.
    pub gpio32: crate::gpio::Gpio32,
    /// The GPIO 33 pin handle.
    pub gpio33: crate::gpio::Gpio33,
    /// The GPIO 34 pin handle.
    pub gpio34: crate::gpio::Gpio34,
    /// The GPIO 35 pin handle.
    pub gpio35: crate::gpio::Gpio35,
}

impl Pins {
    /// Issues every pin handle, once.
    ///
    /// Called only from
    /// [`Peripherals::new`](crate::peripherals::Peripherals::new), which the
    /// platform invokes once per boot.
    pub(crate) fn new() -> Pins {
        Pins {
            gpio0: crate::gpio::Gpio0 { claim: () },
            gpio1: crate::gpio::Gpio1 { claim: () },
            gpio2: crate::gpio::Gpio2 { claim: () },
            gpio3: crate::gpio::Gpio3 { claim: () },
            gpio4: crate::gpio::Gpio4 { claim: () },
            gpio5: crate::gpio::Gpio5 { claim: () },
            gpio6: crate::gpio::Gpio6 { claim: () },
            gpio7: crate::gpio::Gpio7 { claim: () },
            gpio8: crate::gpio::Gpio8 { claim: () },
            gpio9: crate::gpio::Gpio9 { claim: () },
            gpio10: crate::gpio::Gpio10 { claim: () },
            gpio11: crate::gpio::Gpio11 { claim: () },
            gpio12: crate::gpio::Gpio12 { claim: () },
            gpio13: crate::gpio::Gpio13 { claim: () },
            gpio14: crate::gpio::Gpio14 { claim: () },
            gpio15: crate::gpio::Gpio15 { claim: () },
            gpio16: crate::gpio::Gpio16 { claim: () },
            gpio17: crate::gpio::Gpio17 { claim: () },
            gpio18: crate::gpio::Gpio18 { claim: () },
            gpio19: crate::gpio::Gpio19 { claim: () },
            gpio21: crate::gpio::Gpio21 { claim: () },
            gpio22: crate::gpio::Gpio22 { claim: () },
            gpio23: crate::gpio::Gpio23 { claim: () },
            gpio25: crate::gpio::Gpio25 { claim: () },
            gpio26: crate::gpio::Gpio26 { claim: () },
            gpio27: crate::gpio::Gpio27 { claim: () },
            gpio32: crate::gpio::Gpio32 { claim: () },
            gpio33: crate::gpio::Gpio33 { claim: () },
            gpio34: crate::gpio::Gpio34 { claim: () },
            gpio35: crate::gpio::Gpio35 { claim: () },
        }
    }
}

/// Sets of pins organized by the hardware subsystems featured on the board.
pub struct Sets {
    /// Pins used for the e-ink display.
    pub display: Display,
    /// Pins to monitor the battery voltage.
    pub battery: Battery,
    /// Pins attached to the watch buttons.
    pub buttons: Buttons,
    /// Pins used for the accelerometer chip.
    pub accelerometer: Accelerometer,
    /// Pins used for the I2C bus, on which are the accelerometer and the RTC.
    pub i2c: I2CBus,
    /// Pins used for the real-time clock chip.
    pub rtc: Rtc,
    /// Pins to control the vibration motor.
    pub vibration_motor: VibrationMotor,
    /// Pins the board leaves unconnected.
    pub unused: Unused,
}

impl Sets {
    /// Partitions the pin inventory into the named resource groups.
    ///
    /// The inventory is consumed: every handle moves into exactly one group,
    /// except the two reserved console lines (GPIO 1 and GPIO 3), which are
    /// dropped and never exposed. A second partition of the same inventory is
    /// impossible, since the handles no longer exist outside the groups.
    pub fn new(pins: Pins) -> (r: Sets)
        ensures
            r.display.spi_sclk == pins.gpio18,
            r.display.spi_sdo == pins.gpio23,
            r.display.spi_cs == pins.gpio5,
            r.display.disp_dc == pins.gpio10,
            r.display.disp_reset == pins.gpio9,
            r.display.disp_busy == pins.gpio19,
            r.battery.adc == pins.gpio34,
            r.buttons.btn_1 == pins.gpio26,
            r.buttons.btn_2 == pins.gpio25,
            r.buttons.btn_3 == pins.gpio35,
            r.buttons.btn_4 == pins.gpio4,
            r.accelerometer.int_1 == pins.gpio14,
            r.accelerometer.int_2 == pins.gpio12,
            r.i2c.sda == pins.gpio21,
            r.i2c.scl == pins.gpio22,
            r.rtc.int == pins.gpio27,
            r.vibration_motor.power == pins.gpio13,
            r.unused.gpio0 == pins.gpio0,
            r.unused.gpio2 == pins.gpio2,
            r.unused.gpio6 == pins.gpio6,
            r.unused.gpio7 == pins.gpio7,
            r.unused.gpio8 == pins.gpio8,
            r.unused.gpio11 == pins.gpio11,
            r.unused.gpio15 == pins.gpio15,
            r.unused.gpio16 == pins.gpio16,
            r.unused.gpio17 == pins.gpio17,
            r.unused.gpio32 == pins.gpio32,
            r.unused.gpio33 == pins.gpio33,
    {
        Sets {
            display: Display {
                spi_sclk: pins.gpio18,
                spi_sdo: pins.gpio23,
                spi_cs: pins.gpio5,
                disp_dc: pins.gpio10,
                disp_reset: pins.gpio9,
                disp_busy: pins.gpio19,
            },
            battery: Battery { adc: pins.gpio34 },
            buttons: Buttons {
                btn_1: pins.gpio26,
                btn_2: pins.gpio25,
                btn_3: pins.gpio35,
                btn_4: pins.gpio4,
            },
            accelerometer: Accelerometer {
                int_1: pins.gpio14,
                int_2: pins.gpio12,
            },
            i2c: I2CBus {
                sda: pins.gpio21,
                scl: pins.gpio22,
            },
            rtc: Rtc { int: pins.gpio27 },
            vibration_motor: VibrationMotor { power: pins.gpio13 },
            unused: Unused {
                gpio0: pins.gpio0,
                gpio2: pins.gpio2,
                gpio6: pins.gpio6,
                gpio7: pins.gpio7,
                gpio8: pins.gpio8,
                gpio11: pins.gpio11,
                gpio15: pins.gpio15,
                gpio16: pins.gpio16,
                gpio17: pins.gpio17,
                gpio32: pins.gpio32,
                gpio33: pins.gpio33,
            },
        }
    }
}

} // verus!
