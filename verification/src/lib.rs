//! Non-blocking driver core for an ultrasonic distance sensor driven by a
//! trigger pulse and a timed echo pulse.
//!
//! The driver is a small state machine: a poll (`distance`) emits the trigger
//! pulse and arms the machine, interrupt-driven notifications (`capture`,
//! `timedout`) advance it on echo edges or a guard-timer expiry, and the next
//! poll drains the completed or timed-out measurement exactly once.

use embedded_hal::blocking::delay::DelayUs;
use embedded_hal::digital::OutputPin;
use vstd::prelude::*;

verus! {

/// Wrapper for the return value of the sensor, in whole millimeters.
#[derive(Debug, Copy, Clone)]
pub struct Distance(u32);

impl View for Distance {
    type V = u32;

    closed spec fn view(&self) -> u32 {
        self.0
    }
}

impl Distance {
    /// Get distance as centimeters, rounding toward zero.
    pub fn cm(&self) -> (r: u32)
        ensures
            r == self@ / 10,
    {
        self.0 / 10
    }

    /// Get distance as millimeters.
    pub fn mm(&self) -> (r: u32)
        ensures
            r == self@,
    {
        self.0
    }
}

/// Possible error returned by the sensor.
#[derive(Debug, Copy, Clone)]
pub enum SensorError {
    /// Sensor is in the wrong mode for the notification to take place.
    WrongMode,
}

/// Outcome of a non-blocking poll.
#[derive(Debug, Copy, Clone)]
pub enum PollResult<T> {
    /// A measurement is in flight (or was just started): poll again later.
    NotReady,
    /// The measurement cycle finished and its outcome is delivered.
    Ready(T),
}

/// The measurement state machine's mode tag: exactly one holds at any
/// instant.
#[derive(Debug, Copy, Clone)]
pub enum Mode {
    /// Ready to start a new measurement.
    Idle,
    /// Trigger pulse sent, waiting for the echo's rising edge.
    Triggered,
    /// Rising edge seen, waiting for the echo's falling edge.
    Measuring,
    /// Measurement completed; a reading waits to be drained by one poll.
    Completed,
    /// Measurement timed out; the absence of a reading waits to be drained.
    TimedOut,
}

/// Everything the driver's contracts speak of: the mode tag, the recorded
/// echo-edge timestamps, and the fixed tick frequency of the caller's clock.
pub struct SensorView {
    /// Current mode tag.
    pub mode: Mode,
    /// Tick timestamp of the echo's rising edge (meaningful in
    /// `Measuring` and `Completed`).
    pub rising_tick: u32,
    /// Tick timestamp of the echo's falling edge (meaningful in
    /// `Completed`).
    pub falling_tick: u32,
    /// Frequency, in Hz, of the clock whose ticks `capture` receives.
    pub hz: u32,
}

/// The data-model invariant: the tick frequency is a usable clock rate, and
/// the edge timestamps are cleared whenever the machine is idle.
pub open spec fn view_wf(s: SensorView) -> bool {
    &&& s.hz >= 1
    &&& (s.mode is Idle ==> s.rising_tick == 0 && s.falling_tick == 0)
}

/// An edge notification is accepted exactly while an echo pulse is awaited.
pub open spec fn capture_accepted(m: Mode) -> bool {
    m is Triggered || m is Measuring
}

/// A timeout notification is accepted whenever a measurement is
/// outstanding; in `Completed` it is accepted but deliberately ignored.
pub open spec fn timeout_accepted(m: Mode) -> bool {
    m is Triggered || m is Measuring || m is Completed
}

/// A poll delivers a `Ready` outcome exactly when a finished measurement
/// (or its timeout) waits to be drained.
pub open spec fn poll_delivers(m: Mode) -> bool {
    m is Completed || m is TimedOut
}

/// State after one `distance` poll: an idle machine arms itself, a pending
/// one is left alone, and a finished one is drained back to `Idle` with the
/// edge timestamps cleared.
pub open spec fn poll_step(s: SensorView) -> SensorView {
    match s.mode {
        Mode::Idle => SensorView { mode: Mode::Triggered, ..s },
        Mode::Triggered => s,
        Mode::Measuring => s,
        Mode::Completed => SensorView { mode: Mode::Idle, rising_tick: 0, falling_tick: 0, ..s },
        Mode::TimedOut => SensorView { mode: Mode::Idle, rising_tick: 0, falling_tick: 0, ..s },
    }
}

/// State after an edge notification carrying timestamp `ts`: the driver
/// infers the edge kind from its mode alone; a rejected notification
/// changes nothing.
pub open spec fn capture_step(s: SensorView, ts: u32) -> SensorView {
    match s.mode {
        Mode::Triggered => SensorView { mode: Mode::Measuring, rising_tick: ts, ..s },
        Mode::Measuring => SensorView { mode: Mode::Completed, falling_tick: ts, ..s },
        _ => s,
    }
}

/// State after a timeout notification: an awaited echo is abandoned, a
/// completed result is protected (late timeout ignored), and a rejected
/// notification changes nothing.
pub open spec fn timeout_step(s: SensorView) -> SensorView {
    match s.mode {
        Mode::Triggered => SensorView { mode: Mode::TimedOut, ..s },
        Mode::Measuring => SensorView { mode: Mode::TimedOut, ..s },
        _ => s,
    }
}

/// Half the speed of sound in millimeters per second: 343,210 mm/s / 2,
/// halved because the echo window covers the round trip. Since
/// `ticks / hz` is the window in seconds, `ticks * DISTANCE_FACTOR / hz`
/// is the one-way distance in whole millimeters.
pub const DISTANCE_FACTOR: u64 = 171605;

/// Elapsed ticks between the rising and the falling edge, wraparound-safe:
/// a single counter wraparound inside the echo window still yields the true
/// span.
pub open spec fn elapsed_ticks(rise: u32, fall: u32) -> u32 {
    if fall >= rise {
        (fall - rise) as u32
    } else {
        (fall - rise + 0x1_0000_0000) as u32
    }
}

/// The exact distance in millimeters, rounded toward zero:
/// elapsed ticks × 171605 / hz.
pub open spec fn exact_distance_mm(rise: u32, fall: u32, hz: u32) -> int
    recommends
        hz >= 1,
{
    elapsed_ticks(rise, fall) * (DISTANCE_FACTOR as int) / (hz as int)
}

/// What a completed measurement reads: the exact millimeter value, saturated
/// at `u32::MAX` when a pathological tick span does not fit.
pub open spec fn reading_mm(rise: u32, fall: u32, hz: u32) -> u32 {
    if exact_distance_mm(rise, fall, hz) > u32::MAX {
        u32::MAX
    } else {
        exact_distance_mm(rise, fall, hz) as u32
    }
}

/// Convert a measured echo window into a millimeter reading.
fn compute_distance_mm(rise: u32, fall: u32, hz: u32) -> (r: u32)
    requires
        hz >= 1,
    ensures
        r == reading_mm(rise, fall, hz),
{
    let span: u32 = fall.wrapping_sub(rise);
    let wide: u64 = (span as u64) * DISTANCE_FACTOR;
    let mm_wide: u64 = wide / (hz as u64);
    if mm_wide > (u32::MAX as u64) {
        u32::MAX
    } else {
        mm_wide as u32
    }
}

/// Relies on embedded_hal's `OutputPin::set_high` to drive the trigger line
/// high; a pure hardware side effect, nothing is promised of it.
#[verifier::external_body]
fn set_pin_high<P: OutputPin>(pin: &mut P) {
    pin.set_high();
}

/// Relies on embedded_hal's `OutputPin::set_low` to drive the trigger line
/// low; a pure hardware side effect, nothing is promised of it.
#[verifier::external_body]
fn set_pin_low<P: OutputPin>(pin: &mut P) {
    pin.set_low();
}

/// Relies on embedded_hal's `DelayUs::delay_us` to pause execution for the
/// trigger pulse width; a pure timing side effect, nothing is promised of it.
#[verifier::external_body]
fn pause_us<D: DelayUs<u32>>(delay: &mut D, us: u32) {
    delay.delay_us(us);
}

/// HC-SR04 style ultrasonic sensor driver.
///
/// The driver exclusively owns the trigger pin and the delay provider; tick
/// timestamps are pushed in by the caller through `capture`.
pub struct HcSr04<Pin, Delay> {
    /// Output pin used to trigger the sensor.
    pin: Pin,
    /// Delay provider used to hold the trigger pulse high.
    delay: Delay,
    /// Current mode of the measurement state machine.
    mode: Mode,
    /// Frequency (Hz) of the clock whose ticks `capture` receives.
    hz: u32,
    /// Echo rising-edge timestamp.
    t1: u32,
    /// Echo falling-edge timestamp.
    t2: u32,
}

impl<Pin, Delay> View for HcSr04<Pin, Delay> {
    type V = SensorView;

    closed spec fn view(&self) -> SensorView {
        SensorView { mode: self.mode, rising_tick: self.t1, falling_tick: self.t2, hz: self.hz }
    }
}

impl<Pin, Delay> HcSr04<Pin, Delay> {
    /// The driver's invariant, established by `new` and preserved by every
    /// entry point.
    pub open spec fn wf(&self) -> bool {
        view_wf(self@)
    }

    /// Record that an external interrupt tracking the echo pulse has seen an
    /// edge at tick `ts`.
    ///
    /// The edge kind is inferred from the current mode: in `Triggered` this
    /// must be the rising edge, in `Measuring` the falling edge. In any other
    /// mode the notification is a protocol violation: it is rejected with
    /// `WrongMode` and the state is left untouched.
    pub fn capture(&mut self, ts: u32) -> (r: Result<(), SensorError>)
        requires
            old(self).wf(),
        ensures
            final(self).wf(),
            final(self)@ == capture_step(old(self)@, ts),
            r is Ok <==> capture_accepted(old(self)@.mode),
            r is Err ==> r == Err::<(), SensorError>(SensorError::WrongMode),
    {
        match self.mode {
            Mode::Triggered => {
                self.t1 = ts;
                self.mode = Mode::Measuring;
                Ok(())
            },
            Mode::Measuring => {
                self.t2 = ts;
                self.mode = Mode::Completed;
                Ok(())
            },
            _ => Err(SensorError::WrongMode),
        }
    }

    /// Record that the guard timer watching the measurement has fired.
    ///
    /// While an echo is awaited the measurement is abandoned; a timeout
    /// racing a completed measurement is deliberately ignored so the result
    /// is not discarded; in `Idle` no measurement is outstanding, so the
    /// notification is rejected with `WrongMode` and nothing changes.
    pub fn timedout(&mut self) -> (r: Result<(), SensorError>)
        requires
            old(self).wf(),
        ensures
            final(self).wf(),
            final(self)@ == timeout_step(old(self)@),
            r is Ok <==> timeout_accepted(old(self)@.mode),
            r is Err ==> r == Err::<(), SensorError>(SensorError::WrongMode),
    {
        match self.mode {
            Mode::Triggered => {
                self.mode = Mode::TimedOut;
                Ok(())
            },
            Mode::Measuring => {
                self.mode = Mode::TimedOut;
                Ok(())
            },
            Mode::Completed => Ok(()),
            Mode::Idle => Err(SensorError::WrongMode),
            Mode::TimedOut => Err(SensorError::WrongMode),
        }
    }

    /// Clear the edge timestamps and return to `Idle`.
    fn reset(&mut self)
        ensures
            final(self)@ == (SensorView {
                mode: Mode::Idle,
                rising_tick: 0,
                falling_tick: 0,
                hz: old(self)@.hz,
            }),
    {
        self.t1 = 0;
        self.t2 = 0;
        self.mode = Mode::Idle;
    }
}

impl<Pin, Delay> HcSr04<Pin, Delay> where Pin: OutputPin, Delay: DelayUs<u32> {
    /// Create a new driver from the trigger-capable output pin, the
    /// microsecond delay provider, and the fixed frequency (Hz) of the clock
    /// whose ticks will be passed to `capture`.
    ///
    /// The pin is defensively driven low so every internal state can assume
    /// a low trigger line.
    pub fn new(trigger: Pin, delay: Delay, hz: u32) -> (s: Self)
        requires
            hz >= 1,
        ensures
            s.wf(),
            s@ == (SensorView { mode: Mode::Idle, rising_tick: 0, falling_tick: 0, hz: hz }),
    {
        let mut trigger = trigger;
        set_pin_low(&mut trigger);
        HcSr04 { pin: trigger, delay: delay, mode: Mode::Idle, hz: hz, t1: 0, t2: 0 }
    }

    /// Non-blocking poll for a sensor reading.
    ///
    /// In `Idle` a new measurement is started (trigger pulse emitted) and
    /// `NotReady` is returned; while the measurement is in flight the poll
    /// returns `NotReady` and changes nothing; a completed measurement is
    /// delivered once as `Ready(Some(distance))` and a timed-out one as
    /// `Ready(None)`, either way returning the machine to `Idle`.
    pub fn distance(&mut self) -> (r: PollResult<Option<Distance>>)
        requires
            old(self).wf(),
        ensures
            final(self).wf(),
            final(self)@ == poll_step(old(self)@),
            !poll_delivers(old(self)@.mode) ==> r is NotReady,
            old(self)@.mode is Completed ==> (r matches PollResult::Ready(Some(d)) && d@
                == reading_mm(old(self)@.rising_tick, old(self)@.falling_tick, old(self)@.hz)),
            old(self)@.mode is TimedOut ==> (r matches PollResult::Ready(None)),
    {
        match self.mode {
            Mode::Idle => {
                self.trigger();
                PollResult::NotReady
            },
            Mode::Triggered => PollResult::NotReady,
            Mode::Measuring => PollResult::NotReady,
            Mode::TimedOut => {
                self.reset();
                PollResult::Ready(None)
            },
            Mode::Completed => {
                let d = compute_distance_mm(self.t1, self.t2, self.hz);
                self.reset();
                PollResult::Ready(Some(Distance(d)))
            },
        }
    }

    /// Emit the trigger pulse (pin high, ~10 µs, pin low) and arm the state
    /// machine.
    fn trigger(&mut self)
        ensures
            final(self)@ == (SensorView { mode: Mode::Triggered, ..old(self)@ }),
    {
        set_pin_high(&mut self.pin);
        pause_us(&mut self.delay, 10);
        set_pin_low(&mut self.pin);
        self.mode = Mode::Triggered;
    }
}

/// Law: no double delivery. Once a poll has delivered a `Ready` outcome (the
/// machine stood in `Completed` or `TimedOut`), the machine is idle again,
/// and an edge notification arriving before a new trigger is rejected as a
/// `WrongMode` protocol violation (see `capture`'s contract).
pub proof fn lemma_no_double_delivery(s: SensorView)
    requires
        poll_delivers(s.mode),
    ensures
        poll_step(s).mode is Idle,
        !capture_accepted(poll_step(s).mode),
{
}

/// Law: the poll is idempotent while a measurement is pending. In
/// `Triggered` or `Measuring`, any number of `distance` polls leaves the
/// whole state — the recorded edge timestamps included — exactly as it was,
/// and each such poll returns `NotReady` (see `distance`'s contract).
pub proof fn lemma_poll_idempotent_while_pending(s: SensorView)
    requires
        s.mode is Triggered || s.mode is Measuring,
    ensures
        poll_step(s) == s,
        !poll_delivers(s.mode),
{
}

/// Law: a completed result takes precedence over a late timeout. A timeout
/// notification delivered after the falling edge already produced
/// `Completed` changes nothing, so the eventual poll still delivers the
/// numeric reading of the recorded edges, not an absence (see `distance`'s
/// contract for `Completed`).
pub proof fn lemma_late_timeout_keeps_result(s: SensorView)
    requires
        s.mode is Completed,
    ensures
        timeout_step(s) == s,
        timeout_step(s).mode is Completed,
{
}

/// The tick counter value `span` ticks after `rise`, with modular
/// wraparound at the counter's width.
pub open spec fn ticks_later(rise: u32, span: u32) -> u32 {
    if rise + span > u32::MAX {
        (rise + span - 0x1_0000_0000) as u32
    } else {
        (rise + span) as u32
    }
}

/// Law: the reading is wraparound-safe. An echo window of true span `span`
/// ticks yields the same elapsed-tick count and the same millimeter reading
/// whether or not the tick counter wrapped past its maximum between the
/// rising and the falling edge.
pub proof fn lemma_wraparound_safe(rise: u32, span: u32, hz: u32)
    requires
        hz >= 1,
    ensures
        elapsed_ticks(rise, ticks_later(rise, span)) == span,
        reading_mm(rise, ticks_later(rise, span), hz) == reading_mm(0, span, hz),
{
}

} // verus!
