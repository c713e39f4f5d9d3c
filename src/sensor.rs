use vstd::prelude::*;

verus! {

/// The ways a measurement can fail.
#[derive(Clone, Copy, Debug, PartialEq, Eq, Structural)]
pub enum Error {
    /// The echo line did not rise, or did not fall again, within its budget.
    Timeout,
    /// A pin access reported a fault.
    Gpio,
}

/// A free-running microsecond counter that wraps around at `u32::MAX`.
pub trait Timer {
    /// The current time in microseconds.
    fn now(&self) -> u32;
}

/// The sensor: the trigger output, the echo input, a blocking delay and a
/// microsecond time source, all owned by the driver.
pub struct HCSR04<Trig, Echo, Delay, Tmr> {
    pub trig: Trig,
    pub echo: Echo,
    pub delay: Delay,
    pub timer: Tmr,
}

impl<Trig, Echo, Delay, Tmr> HCSR04<Trig, Echo, Delay, Tmr> {
    /// Takes ownership of the three capabilities; nothing is checked.
    pub fn new(trig: Trig, echo: Echo, delay: Delay, timer: Tmr) -> (r: Self)
        ensures
            r.trig == trig,
            r.echo == echo,
            r.delay == delay,
            r.timer == timer,
    {
        HCSR04 { trig, echo, delay, timer }
    }
}

} // verus!
