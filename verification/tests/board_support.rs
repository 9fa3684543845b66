//! End-to-end tests of the board support layer: the pin partition, the
//! battery percentage curve, the button wait semantics, and the device
//! driver constructors.

use watchy::accelerometer::AccelerometerDriver;
use watchy::accelerometer::AccelerometerError;
use watchy::accelerometer::ChipError;
use watchy::accelerometer::ACCEL_CHIP_ID;
use watchy::accelerometer::ACCEL_I2C_ADDRESS;
use watchy::battery::BatteryStatusDriver;
use watchy::battery::BATTERY_EMPTY_MV;
use watchy::battery::BATTERY_FULL_MV;
use watchy::button::ButtonDriver;
use watchy::display::display_driver;
use watchy::display::DisplayChipError;
use watchy::display::DisplayError;
use watchy::gpio::PinLevel;
use watchy::gpio::Pull;
use watchy::gpio::WaitStart;
use watchy::i2c_driver;
use watchy::peripherals::Peripherals;
use watchy::pins::Sets;
use watchy::EspErrorCode;

/// The physical identifiers of every exposed line, reserved ones included.
const INVENTORY: [u8; 30] = [
    0, 1, 2, 3, 4, 5, 6, 7, 8, 9, 10, 11, 12, 13, 14, 15, 16, 17, 18, 19, 21, 22, 23, 25, 26,
    27, 32, 33, 34, 35,
];

#[test]
fn partition_is_disjoint_and_exhaustive() {
    let p = Peripherals::new();
    let sets = Sets::new(p.pins);

    let groups: Vec<Vec<u8>> = vec![
        sets.display.pin_ids(),
        sets.battery.pin_ids(),
        sets.buttons.pin_ids(),
        sets.accelerometer.pin_ids(),
        sets.i2c.pin_ids(),
        sets.rtc.pin_ids(),
        sets.vibration_motor.pin_ids(),
        sets.unused.pin_ids(),
    ];
    let reserved: Vec<u8> = vec![1, 3];

    // Pairwise disjoint, reserved set included.
    let mut all: Vec<u8> = Vec::new();
    for g in &groups {
        all.extend_from_slice(g);
    }
    all.extend_from_slice(&reserved);
    let mut sorted = all.clone();
    sorted.sort_unstable();
    for w in sorted.windows(2) {
        assert_ne!(w[0], w[1], "pin {} assigned twice", w[0]);
    }

    // Together they cover the inventory exactly once.
    assert_eq!(sorted, INVENTORY.to_vec());
}

#[test]
fn partition_group_membership() {
    let p = Peripherals::new();
    let sets = Sets::new(p.pins);
    assert_eq!(sets.display.pin_ids(), vec![18, 23, 5, 10, 9, 19]);
    assert_eq!(sets.battery.pin_ids(), vec![34]);
    assert_eq!(sets.buttons.pin_ids(), vec![26, 25, 35, 4]);
    assert_eq!(sets.accelerometer.pin_ids(), vec![14, 12]);
    assert_eq!(sets.i2c.pin_ids(), vec![21, 22]);
    assert_eq!(sets.rtc.pin_ids(), vec![27]);
    assert_eq!(sets.vibration_motor.pin_ids(), vec![13]);
    assert_eq!(
        sets.unused.pin_ids(),
        vec![0, 2, 6, 7, 8, 11, 15, 16, 17, 32, 33]
    );
}

fn percentage_at(millivolts_sample: u16) -> u8 {
    let p = Peripherals::new();
    let sets = Sets::new(p.pins);
    let driver = BatteryStatusDriver::new(sets.battery, p.adc1);
    let status = driver.status_from_sample(millivolts_sample);
    assert_eq!(status.voltage(), 2 * u32::from(millivolts_sample));
    status.percentage()
}

#[test]
fn battery_percentage_examples() {
    // Samples are halved by the 2:1 divider, so a sample of 1700 mV is a
    // battery voltage of 3400 mV.
    assert_eq!(percentage_at(1700), 0); // 3400 mV, the empty level
    assert_eq!(percentage_at(1900), 50); // 3800 mV, the midpoint
    assert_eq!(percentage_at(2100), 100); // 4200 mV, the full level
    assert_eq!(percentage_at(1500), 0); // 3000 mV, saturated low
    assert_eq!(percentage_at(2500), 100); // 5000 mV, saturated high
}

#[test]
fn battery_percentage_rounds_to_nearest() {
    // 3804 mV is 50.5% of the span; rounding to nearest gives 51.
    assert_eq!(percentage_at(1902), 51);
    // 3802 mV is 50.25% of the span; rounding to nearest gives 50.
    assert_eq!(percentage_at(1901), 50);
}

#[test]
fn battery_percentage_monotonic_sweep() {
    let mut last = 0u8;
    for sample in 0u16..=2500u16 {
        let pct = percentage_at(sample);
        assert!(pct >= last, "percentage dropped at sample {}", sample);
        assert!(pct <= 100);
        last = pct;
    }
}

#[test]
fn battery_constants_and_config() {
    assert_eq!(BATTERY_EMPTY_MV, 3400);
    assert_eq!(BATTERY_FULL_MV, 4200);
    let p = Peripherals::new();
    let sets = Sets::new(p.pins);
    let driver = BatteryStatusDriver::new(sets.battery, p.adc1);
    let config = driver.adc_config();
    assert_eq!(config.attenuation_db, 11);
    assert_eq!(config.resolution_bits, 12);
    assert!(config.calibration);
}

#[test]
fn battery_status_propagates_read_errors() {
    let p = Peripherals::new();
    let sets = Sets::new(p.pins);
    let driver = BatteryStatusDriver::new(sets.battery, p.adc1);
    let err = EspErrorCode { code: -1 };
    match driver.status(Err(err)) {
        Err(e) => assert_eq!(e, err),
        Ok(_) => panic!("a failed read must not yield a status"),
    }
    match driver.status(Ok(2000)) {
        Ok(status) => assert_eq!(status.voltage(), 4000),
        Err(_) => panic!("a successful read must yield a status"),
    }
}

#[test]
fn edge_wait_waits_even_at_target_level() {
    let p = Peripherals::new();
    let sets = Sets::new(p.pins);
    // The line already reads high: a press-edge wait must still suspend.
    let mut button = ButtonDriver::new(sets.buttons.btn_1, PinLevel::High);
    assert!(button.is_pressed());
    assert_eq!(button.wait_for_press(), WaitStart::Pending);
    // The wait completes only on a genuinely new rising edge.
    assert!(!button.notify_transition(PinLevel::Low));
    assert!(button.notify_transition(PinLevel::High));
}

#[test]
fn level_wait_returns_immediately_at_target_level() {
    let p = Peripherals::new();
    let sets = Sets::new(p.pins);
    let mut button = ButtonDriver::new(sets.buttons.btn_2, PinLevel::High);
    // Already pressed: the level wait completes at once.
    assert_eq!(button.wait_for_pressed(), WaitStart::Ready);
    // Not released: the released-level wait suspends until the falling edge.
    assert_eq!(button.wait_for_released(), WaitStart::Pending);
    assert!(button.notify_transition(PinLevel::Low));
    // Now released: the released-level wait completes at once again.
    assert_eq!(button.wait_for_released(), WaitStart::Ready);
}

#[test]
fn cancelled_wait_leaves_driver_rearmable() {
    let p = Peripherals::new();
    let sets = Sets::new(p.pins);
    let mut button = ButtonDriver::new(sets.buttons.btn_3, PinLevel::Low);
    assert_eq!(button.wait_for_press(), WaitStart::Pending);
    button.cancel_wait();
    // The cancelled wait had no side effect: the level is unchanged and a
    // new wait arms and completes as if the first had never existed.
    assert!(!button.is_pressed());
    assert_eq!(button.wait_for_press(), WaitStart::Pending);
    assert!(button.notify_transition(PinLevel::High));
    button.cancel_wait();
    assert_eq!(button.wait_for_release(), WaitStart::Pending);
}

#[test]
fn button_pin_driver_round_trip() {
    let p = Peripherals::new();
    let sets = Sets::new(p.pins);
    let button = ButtonDriver::new(sets.buttons.btn_4, PinLevel::Low);
    let pin_driver = button.into_pin_driver();
    assert_eq!(pin_driver.pull_mode(), Pull::Floating);
    assert_eq!(pin_driver.pin_ref().id(), 4);
    assert!(!pin_driver.is_high());
}

#[test]
fn accelerometer_rejects_bad_identity() {
    let p = Peripherals::new();
    let sets = Sets::new(p.pins);
    let bus = i2c_driver(sets.i2c, p.i2c0);
    // A simulated chip answering with the wrong identity value: the
    // construction yields the identity error and no driver.
    let result = AccelerometerDriver::new(sets.accelerometer, bus, Ok(0x12));
    match result {
        Err(AccelerometerError::BadId) => {}
        Err(_) => panic!("an identity mismatch must be reported as a bad chip ID"),
        Ok(_) => panic!("an identity mismatch must not yield a driver"),
    }
}

#[test]
fn accelerometer_accepts_matching_identity() {
    let p = Peripherals::new();
    let sets = Sets::new(p.pins);
    let bus = i2c_driver(sets.i2c, p.i2c0);
    let driver = AccelerometerDriver::new(sets.accelerometer, bus, Ok(ACCEL_CHIP_ID))
        .expect("a matching identity must yield a driver");
    assert_eq!(driver.pin_driver_int1.pull_mode(), Pull::Floating);
    assert_eq!(driver.pin_driver_int1.pin_ref().id(), 14);
    assert_eq!(driver.pin_driver_int2.pull_mode(), Pull::Floating);
    assert_eq!(driver.pin_driver_int2.pin_ref().id(), 12);
    assert_eq!(driver.i2c.config.baudrate_hz, 400_000);
}

#[test]
fn accelerometer_interrupt_line_edge_waits() {
    let p = Peripherals::new();
    let sets = Sets::new(p.pins);
    let bus = i2c_driver(sets.i2c, p.i2c0);
    let mut driver = AccelerometerDriver::new(sets.accelerometer, bus, Ok(ACCEL_CHIP_ID))
        .expect("a matching identity must yield a driver");
    // The interrupt line rests low; an edge wait suspends until the chip
    // raises it, and cancellation leaves the line re-armable.
    assert_eq!(
        driver.pin_driver_int1.wait_for_rising_edge(),
        WaitStart::Pending
    );
    driver.pin_driver_int1.cancel_wait();
    assert_eq!(
        driver.pin_driver_int1.wait_for_rising_edge(),
        WaitStart::Pending
    );
    assert!(driver.pin_driver_int1.notify_transition(PinLevel::High));
    // A level wait on the already-raised line completes at once.
    assert_eq!(driver.pin_driver_int1.wait_for_high(), WaitStart::Ready);
}

#[test]
fn accelerometer_propagates_transport_errors() {
    let p = Peripherals::new();
    let sets = Sets::new(p.pins);
    let bus = i2c_driver(sets.i2c, p.i2c0);
    let fault = ChipError::Bus(EspErrorCode { code: 263 });
    let result = AccelerometerDriver::new(sets.accelerometer, bus, Err(fault));
    match result {
        Err(AccelerometerError::Driver(e)) => assert_eq!(e, fault),
        Err(_) => panic!("a transport failure must not be reported as a bad chip ID"),
        Ok(_) => panic!("a transport failure must not yield a driver"),
    }
}

#[test]
fn accelerometer_chip_constants() {
    assert_eq!(ACCEL_CHIP_ID, 0x13);
    assert_eq!(ACCEL_I2C_ADDRESS, 0x18);
}

#[test]
fn i2c_bus_configuration() {
    let p = Peripherals::new();
    let sets = Sets::new(p.pins);
    let bus = i2c_driver(sets.i2c, p.i2c0);
    assert_eq!(bus.config.baudrate_hz, 400_000);
    assert!(!bus.config.sda_pullup_enabled);
    assert!(!bus.config.scl_pullup_enabled);
    assert_eq!(bus.config.timeout, None);
    assert_eq!(bus.sda.id(), 21);
    assert_eq!(bus.scl.id(), 22);
}

#[test]
fn display_bus_configuration() {
    let p = Peripherals::new();
    let sets = Sets::new(p.pins);
    let display = display_driver(sets.display, p.spi2, PinLevel::Low);
    let config = display.spi_config();
    assert_eq!(config.baudrate_hz, 20_000_000);
    assert!(config.clock_idle_low);
    assert!(config.capture_on_first_edge);
    assert!(config.write_only);
    assert!(config.half_duplex);
    assert!(config.msb_first);
    assert!(config.cs_active_low);
    assert_eq!(config.input_delay_ns, 50);
}

#[test]
fn display_initialization_states() {
    let p = Peripherals::new();
    let sets = Sets::new(p.pins);
    let display = display_driver(sets.display, p.spi2, PinLevel::Low);
    // A successful power-on sequence moves the driver to the ready state,
    // where refreshes are available.
    let mut ready = display
        .initialize(Ok(()))
        .expect("a successful power-on sequence must yield a ready driver");
    assert_eq!(ready.refresh(Ok(())), Ok(()));
    let fault = EspErrorCode { code: 257 };
    assert_eq!(ready.refresh(Err(fault)), Err(DisplayError::Spi(fault)));
    // The failed refresh leaves the driver usable.
    assert_eq!(ready.refresh(Ok(())), Ok(()));
}

#[test]
fn display_initialization_failure_is_chip_distinct() {
    let p = Peripherals::new();
    let sets = Sets::new(p.pins);
    let display = display_driver(sets.display, p.spi2, PinLevel::Low);
    match display.initialize(Err(DisplayChipError::Unknown)) {
        Err(DisplayError::Driver(DisplayChipError::Unknown)) => {}
        Err(DisplayError::Spi(_)) => {
            panic!("a chip protocol failure must stay distinct from a bus error")
        }
        Ok(_) => panic!("a failed power-on sequence must not yield a ready driver"),
    }
}
