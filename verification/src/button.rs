//! Driver for capturing watch button presses.
//!
//! A button driver wraps the claimed input line for one button and exposes
//! its wait primitives with button vocabulary: a press is a rising edge and
//! the pressed state is a high level, since the board's external pull-downs
//! hold a released button low. The wait semantics themselves — edge-waits
//! that always wait for a new transition, level-waits that return at once
//! when already satisfied, and side-effect-free cancellation — are those of
//! [`crate::gpio::InputPinDriver`], stated and proved there.

use vstd::prelude::*;

use crate::gpio::can_start_wait;
use crate::gpio::spec_cancel;
use crate::gpio::spec_notify;
use crate::gpio::spec_start_wait;
use crate::gpio::InputPinDriver;
use crate::gpio::LineState;
use crate::gpio::PinLevel;
use crate::gpio::Pull;
use crate::gpio::WaitKind;
use crate::gpio::WaitStart;

verus! {

/// Trait denoting GPIO pins connected to buttons.
pub trait ButtonPin {

}

impl ButtonPin for crate::gpio::Gpio26 {

}

impl ButtonPin for crate::gpio::Gpio25 {

}

impl ButtonPin for crate::gpio::Gpio35 {

}

impl ButtonPin for crate::gpio::Gpio4 {

}

/// Driver for capturing presses of one button.
pub struct ButtonDriver<P: ButtonPin> {
    /// The claimed input driver for the button pin.
    pin_driver: InputPinDriver<P>,
}

impl<P: ButtonPin> View for ButtonDriver<P> {
    type V = LineState;

    closed spec fn view(&self) -> LineState {
        self.pin_driver@
    }
}

impl<P: ButtonPin> ButtonDriver<P> {
    /// The underlying input pin driver, as recorded.
    pub closed spec fn spec_pin_driver(&self) -> InputPinDriver<P> {
        self.pin_driver
    }

    /// Creates a new button driver for a particular button, given the level
    /// the platform read from the line when claiming it.
    ///
    /// The line is left with no internal pull resistor: the board provides
    /// external pull-downs, and an internal pull cannot even be set for the
    /// button on GPIO 35.
    pub fn new(pin: P, initial_level: PinLevel) -> (r: Self)
        ensures
            r@ == (LineState { level: initial_level, pending: None }),
            r.spec_pin_driver().spec_pin() == pin,
            r.spec_pin_driver().spec_pull() == Pull::Floating,
    {
        ButtonDriver { pin_driver: InputPinDriver::input(pin, Pull::Floating, initial_level) }
    }

    /// Converts this into the underlying input pin driver.
    pub fn into_pin_driver(self) -> (r: InputPinDriver<P>)
        ensures
            r == self.spec_pin_driver(),
    {
        self.pin_driver
    }

    /// Returns whether the button is currently pressed, i.e. whether the
    /// line was last observed high. Non-suspending and read-only.
    pub fn is_pressed(&self) -> (r: bool)
        ensures
            r == (self@.level == PinLevel::High),
    {
        self.pin_driver.is_high()
    }

    /// Arms a wait for the button to be pressed: the next rising edge.
    ///
    /// If the button is already pressed, this does not complete now; it
    /// completes only on the next press, a genuinely new transition.
    pub fn wait_for_press(&mut self) -> (r: WaitStart)
        requires
            can_start_wait(old(self)@),
        ensures
            final(self)@ == spec_start_wait(old(self)@, WaitKind::RisingEdge).0,
            r == spec_start_wait(old(self)@, WaitKind::RisingEdge).1,
            r is Pending,
    {
        self.pin_driver.wait_for_rising_edge()
    }

    /// Arms a wait for the button to be released: the next falling edge.
    ///
    /// If the button is already released, this does not complete now; it
    /// completes only on the next release, a genuinely new transition.
    pub fn wait_for_release(&mut self) -> (r: WaitStart)
        requires
            can_start_wait(old(self)@),
        ensures
            final(self)@ == spec_start_wait(old(self)@, WaitKind::FallingEdge).0,
            r == spec_start_wait(old(self)@, WaitKind::FallingEdge).1,
            r is Pending,
    {
        self.pin_driver.wait_for_falling_edge()
    }

    /// Arms a wait for the button to be in the pressed state.
    ///
    /// If the button is already pressed, this completes at once; otherwise
    /// it completes on the next transition to high.
    pub fn wait_for_pressed(&mut self) -> (r: WaitStart)
        requires
            can_start_wait(old(self)@),
        ensures
            final(self)@ == spec_start_wait(old(self)@, WaitKind::LevelHigh).0,
            r == spec_start_wait(old(self)@, WaitKind::LevelHigh).1,
            r is Ready <==> old(self)@.level == PinLevel::High,
    {
        self.pin_driver.wait_for_high()
    }

    /// Arms a wait for the button to be in the released state.
    ///
    /// If the button is already released, this completes at once; otherwise
    /// it completes on the next transition to low.
    pub fn wait_for_released(&mut self) -> (r: WaitStart)
        requires
            can_start_wait(old(self)@),
        ensures
            final(self)@ == spec_start_wait(old(self)@, WaitKind::LevelLow).0,
            r == spec_start_wait(old(self)@, WaitKind::LevelLow).1,
            r is Ready <==> old(self)@.level == PinLevel::Low,
    {
        self.pin_driver.wait_for_low()
    }

    /// Delivers one level transition observed on the line after the pending
    /// wait, if any, was armed. Returns whether that wait completed; a
    /// completed wait is disarmed.
    pub fn notify_transition(&mut self, to: PinLevel) -> (completed: bool)
        requires
            to != old(self)@.level,
        ensures
            final(self)@ == spec_notify(old(self)@, to).0,
            completed == spec_notify(old(self)@, to).1,
    {
        self.pin_driver.notify_transition(to)
    }

    /// Cancels the pending wait, if any: the task that armed it abandoned
    /// the suspension. The observed level is kept and the driver can arm a
    /// new wait at once.
    pub fn cancel_wait(&mut self)
        ensures
            final(self)@ == spec_cancel(old(self)@),
            can_start_wait(final(self)@),
    {
        self.pin_driver.cancel_wait()
    }
}

} // verus!
