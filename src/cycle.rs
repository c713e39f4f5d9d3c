use vstd::prelude::*;

use crate::sensor::Error;

verus! {

/// How long the trigger is held low before the pulse, in microseconds.
pub const SETTLE_US: u16 = 2000;

/// Width of the trigger pulse in microseconds, fixed by the sensor.
pub const PULSE_US: u16 = 10;

/// Budget for the echo line to rise, and ceiling on how long it may stay
/// high, in microseconds (the sensor's largest unambiguous range).
pub const ECHO_BUDGET_US: u32 = 30000;

/// One operation that a measurement asks of the sensor's capabilities.
#[derive(Clone, Copy, Debug, PartialEq, Eq)]
pub enum Action {
    /// Drive the trigger line low.
    SetLow,
    /// Drive the trigger line high.
    SetHigh,
    /// Block for the given number of microseconds.
    DelayUs(u16),
    /// Read the microsecond clock.
    ReadClock,
    /// Read whether the echo line is high.
    ReadEcho,
    /// The measurement is over: the echo pulse width in microseconds, or
    /// the error. Nothing more is asked.
    Finish(Result<u32, Error>),
}

/// How the operation last asked for went.
#[derive(Clone, Copy, Debug, PartialEq, Eq)]
pub enum Event {
    /// The pin write or the delay completed.
    Completed,
    /// The pin access reported a fault.
    Fault,
    /// The clock read this many microseconds.
    Clock(u32),
    /// The echo line read high (`true`) or low (`false`).
    Echo(bool),
}

/// Where a measurement stands; each stage waits for the answer to one
/// operation. An answer that does not fit the operation asked for counts
/// as a fault of the capabilities.
#[derive(Clone, Copy, Debug, PartialEq, Eq)]
pub enum Stage {
    /// The trigger was driven low to settle.
    Settle,
    /// The settle delay runs.
    SettleWait,
    /// The trigger was driven high.
    Pulse,
    /// The pulse delay runs.
    PulseWait,
    /// The trigger was driven low again.
    PulseEnd,
    /// The clock was read to start the wait for the echo to rise.
    RiseStart,
    /// Waiting since `since` for the echo to rise; the echo was read.
    RiseSample { since: u32 },
    /// The echo was still low; the clock was read.
    RiseCheck { since: u32 },
    /// The echo rose; the clock was read to time the pulse.
    FallStart,
    /// The echo has been high since `since`; the echo was read.
    FallSample { since: u32 },
    /// The echo was still high; the clock was read.
    FallCheck { since: u32 },
    /// The echo fell; the clock was read to end the pulse.
    FallEnd { since: u32 },
    /// The measurement is over.
    Finished { outcome: Result<u32, Error> },
}

/// Microseconds from `since` to `now` on a clock that wraps at `u32::MAX`.
pub open spec fn elapsed(since: u32, now: u32) -> int {
    if now >= since {
        now - since
    } else {
        now + 0x1_0000_0000 - since
    }
}

/// The stage and operation a measurement starts with.
pub open spec fn initial() -> (Stage, Action) {
    (Stage::Settle, Action::SetLow)
}

/// Ends the measurement with `outcome`.
pub open spec fn finish(outcome: Result<u32, Error>) -> (Stage, Action) {
    (Stage::Finished { outcome }, Action::Finish(outcome))
}

/// After a pin write or a delay: go on to `s` and ask for `a` if it
/// completed, else fail.
pub open spec fn on_completed(e: Event, s: Stage, a: Action) -> (Stage, Action) {
    if e is Completed {
        (s, a)
    } else {
        finish(Err(Error::Gpio))
    }
}

/// After a clock read while waiting since `since`: time out past the
/// budget, else read the echo again from `s`.
pub open spec fn on_clock_check(since: u32, now: u32, s: Stage) -> (Stage, Action) {
    if elapsed(since, now) > ECHO_BUDGET_US {
        finish(Err(Error::Timeout))
    } else {
        (s, Action::ReadEcho)
    }
}

/// The transition of a measurement: from stage `s`, on the answer `e`, the
/// next stage and the operation it asks for.
pub open spec fn next(s: Stage, e: Event) -> (Stage, Action) {
    match s {
        Stage::Settle => on_completed(e, Stage::SettleWait, Action::DelayUs(SETTLE_US)),
        Stage::SettleWait => on_completed(e, Stage::Pulse, Action::SetHigh),
        Stage::Pulse => on_completed(e, Stage::PulseWait, Action::DelayUs(PULSE_US)),
        Stage::PulseWait => on_completed(e, Stage::PulseEnd, Action::SetLow),
        Stage::PulseEnd => on_completed(e, Stage::RiseStart, Action::ReadClock),
        Stage::RiseStart => match e {
            Event::Clock(t) => (Stage::RiseSample { since: t }, Action::ReadEcho),
            _ => finish(Err(Error::Gpio)),
        },
        Stage::RiseSample { since } => match e {
            Event::Echo(false) => (Stage::RiseCheck { since }, Action::ReadClock),
            Event::Echo(true) => (Stage::FallStart, Action::ReadClock),
            _ => finish(Err(Error::Gpio)),
        },
        Stage::RiseCheck { since } => match e {
            Event::Clock(t) => on_clock_check(since, t, Stage::RiseSample { since }),
            _ => finish(Err(Error::Gpio)),
        },
        Stage::FallStart => match e {
            Event::Clock(t) => (Stage::FallSample { since: t }, Action::ReadEcho),
            _ => finish(Err(Error::Gpio)),
        },
        Stage::FallSample { since } => match e {
            Event::Echo(true) => (Stage::FallCheck { since }, Action::ReadClock),
            Event::Echo(false) => (Stage::FallEnd { since }, Action::ReadClock),
            _ => finish(Err(Error::Gpio)),
        },
        Stage::FallCheck { since } => match e {
            Event::Clock(t) => on_clock_check(since, t, Stage::FallSample { since }),
            _ => finish(Err(Error::Gpio)),
        },
        Stage::FallEnd { since } => match e {
            Event::Clock(t) => finish(Ok(elapsed(since, t) as u32)),
            _ => finish(Err(Error::Gpio)),
        },
        Stage::Finished { outcome } => finish(outcome),
    }
}

/// Distance in micrometres for an echo pulse of `pulse_us` microseconds:
/// sound covers 0.0343 cm per microsecond, and the pulse spans the way
/// there and back, so the distance is `pulse_us * 343 / 2` micrometres.
pub open spec fn distance_of(pulse_us: int) -> int {
    pulse_us * 343 / 2
}

/// The distance in micrometres (rounded down) that an echo pulse of
/// `pulse_us` microseconds stands for.
pub fn distance_um(pulse_us: u32) -> (r: u64)
    ensures
        r == distance_of(pulse_us as int),
{
    (pulse_us as u64) * 343 / 2
}

fn gpio_failure() -> (r: (Stage, Action))
    ensures
        r == finish(Err(Error::Gpio)),
{
    (Stage::Finished { outcome: Err(Error::Gpio) }, Action::Finish(Err(Error::Gpio)))
}

fn completed_then(e: Event, s: Stage, a: Action) -> (r: (Stage, Action))
    ensures
        r == on_completed(e, s, a),
{
    match e {
        Event::Completed => (s, a),
        _ => gpio_failure(),
    }
}

fn clock_check(since: u32, now: u32, s: Stage) -> (r: (Stage, Action))
    ensures
        r == on_clock_check(since, now, s),
{
    if now.wrapping_sub(since) > ECHO_BUDGET_US {
        (Stage::Finished { outcome: Err(Error::Timeout) }, Action::Finish(Err(Error::Timeout)))
    } else {
        (s, Action::ReadEcho)
    }
}

impl Stage {
    /// Starts a measurement: the first stage and the first operation, which
    /// drives the trigger low. No earlier measurement is carried over.
    pub fn begin() -> (r: (Stage, Action))
        ensures
            r == initial(),
    {
        (Stage::Settle, Action::SetLow)
    }

    /// Whether the measurement is over.
    pub fn is_finished(&self) -> (r: bool)
        ensures
            r == self is Finished,
    {
        match self {
            Stage::Finished { .. } => true,
            _ => false,
        }
    }

    /// Takes the answer `e` to the operation last asked for, moves to the
    /// next stage and returns the operation asked for now.
    pub fn advance(&mut self, e: Event) -> (a: Action)
        ensures
            (*final(self), a) == next(*old(self), e),
    {
        let (s, a) = match *self {
            Stage::Settle => completed_then(e, Stage::SettleWait, Action::DelayUs(SETTLE_US)),
            Stage::SettleWait => completed_then(e, Stage::Pulse, Action::SetHigh),
            Stage::Pulse => completed_then(e, Stage::PulseWait, Action::DelayUs(PULSE_US)),
            Stage::PulseWait => completed_then(e, Stage::PulseEnd, Action::SetLow),
            Stage::PulseEnd => completed_then(e, Stage::RiseStart, Action::ReadClock),
            Stage::RiseStart => match e {
                Event::Clock(t) => (Stage::RiseSample { since: t }, Action::ReadEcho),
                _ => gpio_failure(),
            },
            Stage::RiseSample { since } => match e {
                Event::Echo(false) => (Stage::RiseCheck { since }, Action::ReadClock),
                Event::Echo(true) => (Stage::FallStart, Action::ReadClock),
                _ => gpio_failure(),
            },
            Stage::RiseCheck { since } => match e {
                Event::Clock(t) => clock_check(since, t, Stage::RiseSample { since }),
                _ => gpio_failure(),
            },
            Stage::FallStart => match e {
                Event::Clock(t) => (Stage::FallSample { since: t }, Action::ReadEcho),
                _ => gpio_failure(),
            },
            Stage::FallSample { since } => match e {
                Event::Echo(true) => (Stage::FallCheck { since }, Action::ReadClock),
                Event::Echo(false) => (Stage::FallEnd { since }, Action::ReadClock),
                _ => gpio_failure(),
            },
            Stage::FallCheck { since } => match e {
                Event::Clock(t) => clock_check(since, t, Stage::FallSample { since }),
                _ => gpio_failure(),
            },
            Stage::FallEnd { since } => match e {
                Event::Clock(t) => {
                    let width = t.wrapping_sub(since);
                    (Stage::Finished { outcome: Ok(width) }, Action::Finish(Ok(width)))
                },
                _ => gpio_failure(),
            },
            Stage::Finished { outcome } => (Stage::Finished { outcome }, Action::Finish(outcome)),
        };
        *self = s;
        a
    }
}

} // verus!
