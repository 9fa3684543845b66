//! Models of the board's GPIO lines and of claimed pin drivers.
//!
//! Each physical line is represented by its own handle type. A handle is not
//! `Copy` and has no public constructor, so exclusive control of a line is
//! enforced by ownership: the handle is issued once, inside the one-time pin
//! inventory ([`crate::pins::Pins`]), and from there moves into exactly one
//! resource group and one driver.
//!
//! A claimed input line ([`InputPinDriver`]) carries the edge- and
//! level-wait primitives used by the buttons and the interrupt lines. The
//! platform's cooperative scheduler arms a wait, suspends only the waiting
//! task when the wait is pending, and delivers each hardware edge back as it
//! occurs; a pending wait completes only on a transition delivered after it
//! was armed, so an edge that predates the wait is never replayed.

use vstd::prelude::*;

verus! {

/// The electrical level of a GPIO line.
#[derive(Clone, Copy, PartialEq, Eq, Structural, Debug)]
pub enum PinLevel {
    /// The line reads low.
    Low,
    /// The line reads high.
    High,
}

/// The pull-resistor configuration of an input line.
#[derive(Clone, Copy, PartialEq, Eq, Structural, Debug)]
pub enum Pull {
    /// No internal pull resistor; the board's external resistors decide.
    Floating,
    /// Internal pull-up enabled.
    Up,
    /// Internal pull-down enabled.
    Down,
}

/// The four wait semantics a claimed input line offers.
#[derive(Clone, Copy, PartialEq, Eq, Structural, Debug)]
pub enum WaitKind {
    /// Wait for the next low-to-high transition, whatever the level is now.
    RisingEdge,
    /// Wait for the next high-to-low transition, whatever the level is now.
    FallingEdge,
    /// Wait until the line reads high; complete at once if it already does.
    LevelHigh,
    /// Wait until the line reads low; complete at once if it already does.
    LevelLow,
}

/// The immediate outcome of arming a wait.
#[derive(Clone, Copy, PartialEq, Eq, Structural, Debug)]
pub enum WaitStart {
    /// The wait was already satisfied; nothing is pending.
    Ready,
    /// The wait is armed; it completes on a later transition.
    Pending,
}

/// The abstract state of a claimed input line: the level it was last
/// observed at and the wait pending on it, if any.
pub struct LineState {
    /// The level the line was last observed at.
    pub level: PinLevel,
    /// The armed wait, if one is pending.
    pub pending: Option<WaitKind>,
}

/// Whether a wait of this kind is satisfied at once, before any transition,
/// when the line currently reads `level`: a level-wait is, at its target
/// level; an edge-wait never is.
pub open spec fn satisfied_without_transition(kind: WaitKind, level: PinLevel) -> bool {
    match kind {
        WaitKind::RisingEdge => false,
        WaitKind::FallingEdge => false,
        WaitKind::LevelHigh => level == PinLevel::High,
        WaitKind::LevelLow => level == PinLevel::Low,
    }
}

/// Whether a transition that leaves the line at `to` completes a wait of
/// this kind. A transition always changes the level, so a transition to high
/// is exactly a rising edge.
pub open spec fn completed_by_transition(kind: WaitKind, to: PinLevel) -> bool {
    match kind {
        WaitKind::RisingEdge => to == PinLevel::High,
        WaitKind::FallingEdge => to == PinLevel::Low,
        WaitKind::LevelHigh => to == PinLevel::High,
        WaitKind::LevelLow => to == PinLevel::Low,
    }
}

/// Whether a new wait may be armed: only one wait can be pending at a time.
pub open spec fn can_start_wait(s: LineState) -> bool {
    s.pending is None
}

/// The state after arming a wait of the given kind, and whether the wait
/// completed at once.
pub open spec fn spec_start_wait(s: LineState, kind: WaitKind) -> (LineState, WaitStart) {
    if satisfied_without_transition(kind, s.level) {
        (s, WaitStart::Ready)
    } else {
        (LineState { level: s.level, pending: Some(kind) }, WaitStart::Pending)
    }
}

/// The state after a transition to `to` is delivered, and whether it
/// completed the pending wait.
pub open spec fn spec_notify(s: LineState, to: PinLevel) -> (LineState, bool) {
    let completed = s.pending matches Some(kind) && completed_by_transition(kind, to);
    (
        LineState {
            level: to,
            pending: if completed {
                None
            } else {
                s.pending
            },
        },
        completed,
    )
}

/// The state after cancelling: no wait pending, the observed level kept.
pub open spec fn spec_cancel(s: LineState) -> LineState {
    LineState { level: s.level, pending: None }
}

/// An edge-wait armed while the line already reads its target level still
/// waits for a genuinely new transition: arming an edge-wait never completes
/// at once, whatever the line's state.
pub proof fn lemma_edge_wait_waits_for_new_transition(s: LineState, kind: WaitKind)
    requires
        kind is RisingEdge || kind is FallingEdge,
    ensures
        spec_start_wait(s, kind).1 is Pending,
        spec_start_wait(s, kind).0.pending == Some(kind),
{
}

/// A level-wait armed while the line already reads its target level
/// completes at once and leaves the line's state unchanged.
pub proof fn lemma_level_wait_returns_immediately(s: LineState)
    ensures
        s.level == PinLevel::High ==> spec_start_wait(s, WaitKind::LevelHigh) == (
        s,
        WaitStart::Ready,
        ),
        s.level == PinLevel::Low ==> spec_start_wait(s, WaitKind::LevelLow) == (
        s,
        WaitStart::Ready,
        ),
{
}

/// Cancelling a wait, pending or not, has no side effect beyond disarming
/// it: the observed level is kept, a new wait of any kind may be armed at
/// once, and that wait behaves exactly as on a line that never had a wait
/// pending.
pub proof fn lemma_cancel_rearms(s: LineState, kind: WaitKind)
    ensures
        can_start_wait(spec_cancel(s)),
        spec_cancel(s).level == s.level,
        spec_start_wait(spec_cancel(s), kind) == spec_start_wait(
            (LineState { level: s.level, pending: None }),
            kind,
        ),
{
}

/// A pin claimed and configured as an input, with an explicit pull mode.
///
/// Besides its configuration the driver carries the line's wait state
/// machine: the platform's cooperative scheduler arms a wait, suspends the
/// task when the wait is pending, and delivers each hardware edge through
/// [`InputPinDriver::notify_transition`] as it occurs. A pending wait is
/// completed only by a transition delivered after it was armed, so a wait
/// never observes stale history.
pub struct InputPinDriver<P> {
    /// The owned pin handle.
    pin: P,
    /// The pull mode the line was configured with.
    pull: Pull,
    /// The level the line was last observed at.
    level: PinLevel,
    /// The armed wait, if one is pending.
    pending: Option<WaitKind>,
}

impl<P> View for InputPinDriver<P> {
    type V = LineState;

    closed spec fn view(&self) -> LineState {
        LineState { level: self.level, pending: self.pending }
    }
}

impl<P> InputPinDriver<P> {
    /// The owned pin handle, as recorded at construction.
    pub closed spec fn spec_pin(&self) -> P {
        self.pin
    }

    /// The pull mode the line was configured with.
    pub closed spec fn spec_pull(&self) -> Pull {
        self.pull
    }

    /// Claims `pin` as an input line with the given pull mode, seeded with
    /// the level the platform read from the line when claiming it.
    pub fn input(pin: P, pull: Pull, initial_level: PinLevel) -> (r: Self)
        ensures
            r.spec_pin() == pin,
            r.spec_pull() == pull,
            r@ == (LineState { level: initial_level, pending: None }),
    {
        InputPinDriver { pin, pull, level: initial_level, pending: None }
    }

    /// Returns the pull mode the line was configured with.
    pub fn pull_mode(&self) -> (r: Pull)
        ensures
            r == self.spec_pull(),
    {
        self.pull
    }

    /// Borrows the owned pin handle.
    pub fn pin_ref(&self) -> (r: &P)
        ensures
            *r == self.spec_pin(),
    {
        &self.pin
    }

    /// Returns whether the line was last observed high. Non-suspending and
    /// read-only.
    pub fn is_high(&self) -> (r: bool)
        ensures
            r == (self@.level == PinLevel::High),
    {
        matches!(self.level, PinLevel::High)
    }

    /// Arms a wait for the next rising edge.
    ///
    /// Even if the line already reads high, this does not complete now; it
    /// completes only on a genuinely new low-to-high transition.
    pub fn wait_for_rising_edge(&mut self) -> (r: WaitStart)
        requires
            can_start_wait(old(self)@),
        ensures
            final(self)@ == spec_start_wait(old(self)@, WaitKind::RisingEdge).0,
            r == spec_start_wait(old(self)@, WaitKind::RisingEdge).1,
            r is Pending,
            final(self).spec_pin() == old(self).spec_pin(),
            final(self).spec_pull() == old(self).spec_pull(),
    {
        self.pending = Some(WaitKind::RisingEdge);
        WaitStart::Pending
    }

    /// Arms a wait for the next falling edge.
    ///
    /// Even if the line already reads low, this does not complete now; it
    /// completes only on a genuinely new high-to-low transition.
    pub fn wait_for_falling_edge(&mut self) -> (r: WaitStart)
        requires
            can_start_wait(old(self)@),
        ensures
            final(self)@ == spec_start_wait(old(self)@, WaitKind::FallingEdge).0,
            r == spec_start_wait(old(self)@, WaitKind::FallingEdge).1,
            r is Pending,
            final(self).spec_pin() == old(self).spec_pin(),
            final(self).spec_pull() == old(self).spec_pull(),
    {
        self.pending = Some(WaitKind::FallingEdge);
        WaitStart::Pending
    }

    /// Arms a wait for the line to read high: completes at once when it
    /// already does, and on the next rising transition otherwise.
    pub fn wait_for_high(&mut self) -> (r: WaitStart)
        requires
            can_start_wait(old(self)@),
        ensures
            final(self)@ == spec_start_wait(old(self)@, WaitKind::LevelHigh).0,
            r == spec_start_wait(old(self)@, WaitKind::LevelHigh).1,
            r is Ready <==> old(self)@.level == PinLevel::High,
            final(self).spec_pin() == old(self).spec_pin(),
            final(self).spec_pull() == old(self).spec_pull(),
    {
        if matches!(self.level, PinLevel::High) {
            WaitStart::Ready
        } else {
            self.pending = Some(WaitKind::LevelHigh);
            WaitStart::Pending
        }
    }

    /// Arms a wait for the line to read low: completes at once when it
    /// already does, and on the next falling transition otherwise.
    pub fn wait_for_low(&mut self) -> (r: WaitStart)
        requires
            can_start_wait(old(self)@),
        ensures
            final(self)@ == spec_start_wait(old(self)@, WaitKind::LevelLow).0,
            r == spec_start_wait(old(self)@, WaitKind::LevelLow).1,
            r is Ready <==> old(self)@.level == PinLevel::Low,
            final(self).spec_pin() == old(self).spec_pin(),
            final(self).spec_pull() == old(self).spec_pull(),
    {
        if matches!(self.level, PinLevel::Low) {
            WaitStart::Ready
        } else {
            self.pending = Some(WaitKind::LevelLow);
            WaitStart::Pending
        }
    }

    /// Delivers one level transition observed on the line after the pending
    /// wait, if any, was armed. Returns whether that wait completed; a
    /// completed wait is disarmed.
    ///
    /// Only transitions delivered here can complete a wait, so a wait armed
    /// later never completes on an earlier transition.
    pub fn notify_transition(&mut self, to: PinLevel) -> (completed: bool)
        requires
            to != old(self)@.level,
        ensures
            final(self)@ == spec_notify(old(self)@, to).0,
            completed == spec_notify(old(self)@, to).1,
            final(self).spec_pin() == old(self).spec_pin(),
            final(self).spec_pull() == old(self).spec_pull(),
    {
        let completed = match self.pending {
            Some(WaitKind::RisingEdge) => matches!(to, PinLevel::High),
            Some(WaitKind::FallingEdge) => matches!(to, PinLevel::Low),
            Some(WaitKind::LevelHigh) => matches!(to, PinLevel::High),
            Some(WaitKind::LevelLow) => matches!(to, PinLevel::Low),
            None => false,
        };
        self.level = to;
        if completed {
            self.pending = None;
        }
        completed
    }

    /// Cancels the pending wait, if any: the task that armed it abandoned
    /// the suspension. The observed level is kept and the line can arm a
    /// new wait at once.
    pub fn cancel_wait(&mut self)
        ensures
            final(self)@ == spec_cancel(old(self)@),
            can_start_wait(final(self)@),
            final(self).spec_pin() == old(self).spec_pin(),
            final(self).spec_pull() == old(self).spec_pull(),
    {
        self.pending = None;
    }
}

/// A pin claimed and configured as an output.
pub struct OutputPinDriver<P> {
    /// The owned pin handle.
    pub pin: P,
}

impl<P> OutputPinDriver<P> {
    /// Claims `pin` as an output line.
    pub fn output(pin: P) -> (r: Self)
        ensures
            r.pin == pin,
    {
        OutputPinDriver { pin }
    }
}

/// Exclusive handle to the physical GPIO 0 line.
pub struct Gpio0 {
    pub(crate) claim: (),
}

impl Gpio0 {
    /// The fixed physical identifier of this line.
    pub fn id(&self) -> (r: u8)
        ensures
            r == 0,
    {
        0
    }
}

/// Exclusive handle to the physical GPIO 1 line.
pub struct Gpio1 {
    pub(crate) claim: (),
}

impl Gpio1 {
    /// The fixed physical identifier of this line.
    pub fn id(&self) -> (r: u8)
        ensures
            r == 1,
    {
        1
    }
}

/// Exclusive handle to the physical GPIO 2 line.
pub struct Gpio2 {
    pub(crate) claim: (),
}

impl Gpio2 {
    /// The fixed physical identifier of this line.
    pub fn id(&self) -> (r: u8)
        ensures
            r == 2,
    {
        2
    }
}

/// Exclusive handle to the physical GPIO 3 line.
pub struct Gpio3 {
    pub(crate) claim: (),
}

impl Gpio3 {
    /// The fixed physical identifier of this line.
    pub fn id(&self) -> (r: u8)
        ensures
            r == 3,
    {
        3
    }
}

/// Exclusive handle to the physical GPIO 4 line.
pub struct Gpio4 {
    pub(crate) claim: (),
}

impl Gpio4 {
    /// The fixed physical identifier of this line.
    pub fn id(&self) -> (r: u8)
        ensures
            r == 4,
    {
        4
    }
}

/// Exclusive handle to the physical GPIO 5 line.
pub struct Gpio5 {
    pub(crate) claim: (),
}

impl Gpio5 {
    /// The fixed physical identifier of this line.
    pub fn id(&self) -> (r: u8)
        ensures
            r == 5,
    {
        5
    }
}

/// Exclusive handle to the physical GPIO 6 line.
pub struct Gpio6 {
    pub(crate) claim: (),
}

impl Gpio6 {
    /// The fixed physical identifier of this line.
    pub fn id(&self) -> (r: u8)
        ensures
            r == 6,
    {
        6
    }
}

/// Exclusive handle to the physical GPIO 7 line.
pub struct Gpio7 {
    pub(crate) claim: (),
}

impl Gpio7 {
    /// The fixed physical identifier of this line.
    pub fn id(&self) -> (r: u8)
        ensures
            r == 7,
    {
        7
    }
}

/// Exclusive handle to the physical GPIO 8 line.
pub struct Gpio8 {
    pub(crate) claim: (),
}

impl Gpio8 {
    /// The fixed physical identifier of this line.
    pub fn id(&self) -> (r: u8)
        ensures
            r == 8,
    {
        8
    }
}

/// Exclusive handle to the physical GPIO 9 line.
pub struct Gpio9 {
    pub(crate) claim: (),
}

impl Gpio9 {
    /// The fixed physical identifier of this line.
    pub fn id(&self) -> (r: u8)
        ensures
            r == 9,
    {
        9
    }
}

/// Exclusive handle to the physical GPIO 10 line.
pub struct Gpio10 {
    pub(crate) claim: (),
}

impl Gpio10 {
    /// The fixed physical identifier of this line.
    pub fn id(&self) -> (r: u8)
        ensures
            r == 10,
    {
        10
    }
}

/// Exclusive handle to the physical GPIO 11 line.
pub struct Gpio11 {
    pub(crate) claim: (),
}

impl Gpio11 {
    /// The fixed physical identifier of this line.
    pub fn id(&self) -> (r: u8)
        ensures
            r == 11,
    {
        11
    }
}

/// Exclusive handle to the physical GPIO 12 line.
pub struct Gpio12 {
    pub(crate) claim: (),
}

impl Gpio12 {
    /// The fixed physical identifier of this line.
    pub fn id(&self) -> (r: u8)
        ensures
            r == 12,
    {
        12
    }
}

/// Exclusive handle to the physical GPIO 13 line.
pub struct Gpio13 {
    pub(crate) claim: (),
}

impl Gpio13 {
    /// The fixed physical identifier of this line.
    pub fn id(&self) -> (r: u8)
        ensures
            r == 13,
    {
        13
    }
}

/// Exclusive handle to the physical GPIO 14 line.
pub struct Gpio14 {
    pub(crate) claim: (),
}

impl Gpio14 {
    /// The fixed physical identifier of this line.
    pub fn id(&self) -> (r: u8)
        ensures
            r == 14,
    {
        14
    }
}

/// Exclusive handle to the physical GPIO 15 line.
pub struct Gpio15 {
    pub(crate) claim: (),
}

impl Gpio15 {
    /// The fixed physical identifier of this line.
    pub fn id(&self) -> (r: u8)
        ensures
            r == 15,
    {
        15
    }
}

/// Exclusive handle to the physical GPIO 16 line.
pub struct Gpio16 {
    pub(crate) claim: (),
}

impl Gpio16 {
    /// The fixed physical identifier of this line.
    pub fn id(&self) -> (r: u8)
        ensures
            r == 16,
    {
        16
    }
}

/// Exclusive handle to the physical GPIO 17 line.
pub struct Gpio17 {
    pub(crate) claim: (),
}

impl Gpio17 {
    /// The fixed physical identifier of this line.
    pub fn id(&self) -> (r: u8)
        ensures
            r == 17,
    {
        17
    }
}

/// Exclusive handle to the physical GPIO 18 line.
pub struct Gpio18 {
    pub(crate) claim: (),
}

impl Gpio18 {
    /// The fixed physical identifier of this line.
    pub fn id(&self) -> (r: u8)
        ensures
            r == 18,
    {
        18
    }
}

/// Exclusive handle to the physical GPIO 19 line.
pub struct Gpio19 {
    pub(crate) claim: (),
}

impl Gpio19 {
    /// The fixed physical identifier of this line.
    pub fn id(&self) -> (r: u8)
        ensures
            r == 19,
    {
        19
    }
}

/// Exclusive handle to the physical GPIO 21 line.
pub struct Gpio21 {
    pub(crate) claim: (),
}

impl Gpio21 {
    /// The fixed physical identifier of this line.
    pub fn id(&self) -> (r: u8)
        ensures
            r == 21,
    {
        21
    }
}

/// Exclusive handle to the physical GPIO 22 line.
pub struct Gpio22 {
    pub(crate) claim: (),
}

impl Gpio22 {
    /// The fixed physical identifier of this line.
    pub fn id(&self) -> (r: u8)
        ensures
            r == 22,
    {
        22
    }
}

/// Exclusive handle to the physical GPIO 23 line.
pub struct Gpio23 {
    pub(crate) claim: (),
}

impl Gpio23 {
    /// The fixed physical identifier of this line.
    pub fn id(&self) -> (r: u8)
        ensures
            r == 23,
    {
        23
    }
}

/// Exclusive handle to the physical GPIO 25 line.
pub struct Gpio25 {
    pub(crate) claim: (),
}

impl Gpio25 {
    /// The fixed physical identifier of this line.
    pub fn id(&self) -> (r: u8)
        ensures
            r == 25,
    {
        25
    }
}

/// Exclusive handle to the physical GPIO 26 line.
pub struct Gpio26 {
    pub(crate) claim: (),
}

impl Gpio26 {
    /// The fixed physical identifier of this line.
    pub fn id(&self) -> (r: u8)
        ensures
            r == 26,
    {
        26
    }
}

/// Exclusive handle to the physical GPIO 27 line.
pub struct Gpio27 {
    pub(crate) claim: (),
}

impl Gpio27 {
    /// The fixed physical identifier of this line.
    pub fn id(&self) -> (r: u8)
        ensures
            r == 27,
    {
        27
    }
}

/// Exclusive handle to the physical GPIO 32 line.
pub struct Gpio32 {
    pub(crate) claim: (),
}

impl Gpio32 {
    /// The fixed physical identifier of this line.
    pub fn id(&self) -> (r: u8)
        ensures
            r == 32,
    {
        32
    }
}

/// Exclusive handle to the physical GPIO 33 line.
pub struct Gpio33 {
    pub(crate) claim: (),
}

impl Gpio33 {
    /// The fixed physical identifier of this line.
    pub fn id(&self) -> (r: u8)
        ensures
            r == 33,
    {
        33
    }
}

/// Exclusive handle to the physical GPIO 34 line.
pub struct Gpio34 {
    pub(crate) claim: (),
}

impl Gpio34 {
    /// The fixed physical identifier of this line.
    pub fn id(&self) -> (r: u8)
        ensures
            r == 34,
    {
        34
    }
}

/// Exclusive handle to the physical GPIO 35 line.
pub struct Gpio35 {
    pub(crate) claim: (),
}

impl Gpio35 {
    /// The fixed physical identifier of this line.
    pub fn id(&self) -> (r: u8)
        ensures
            r == 35,
    {
        35
    }
}

} // verus!
