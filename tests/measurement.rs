use hc_sr04::cycle::{ECHO_BUDGET_US, PULSE_US, SETTLE_US};
use hc_sr04::{distance_um, Action, Error, Event, Stage, Timer, HCSR04};

/// Answers a measurement with `answers` in turn and returns every operation
/// it asked for, the first one included.
fn drive(answers: &[Event]) -> Vec<Action> {
    let (mut stage, first) = Stage::begin();
    let mut asked = vec![first];
    for e in answers {
        asked.push(stage.advance(*e));
    }
    asked
}

const PULSE_OK: [Event; 5] = [Event::Completed; 5];

fn with_pulse(rest: &[Event]) -> Vec<Event> {
    let mut all = PULSE_OK.to_vec();
    all.extend_from_slice(rest);
    all
}

/// A simulated sensor: the clock starts at `start` and moves one
/// microsecond per read and by the length of each delay; the echo is high
/// from `rise` (counted from the end of the trigger pulse) for `width`
/// microseconds.
struct Bench {
    now: u32,
    pulse_end: Option<u32>,
    rise: u32,
    width: u32,
    trigger: Vec<bool>,
}

impl Bench {
    fn new(start: u32, rise: u32, width: u32) -> Bench {
        Bench { now: start, pulse_end: None, rise, width, trigger: Vec::new() }
    }

    fn echo_high(&self) -> bool {
        match self.pulse_end {
            None => false,
            Some(end) => {
                let since = self.now.wrapping_sub(end);
                since >= self.rise && since < self.rise + self.width
            }
        }
    }

    fn measure(&mut self) -> Result<u32, Error> {
        let (mut stage, mut action) = Stage::begin();
        loop {
            let event = match action {
                Action::SetLow => {
                    self.trigger.push(false);
                    if self.trigger.len() > 1 {
                        self.pulse_end = Some(self.now);
                    }
                    Event::Completed
                }
                Action::SetHigh => {
                    self.trigger.push(true);
                    Event::Completed
                }
                Action::DelayUs(us) => {
                    self.now = self.now.wrapping_add(us as u32);
                    Event::Completed
                }
                Action::ReadClock => {
                    let t = self.now;
                    self.now = self.now.wrapping_add(1);
                    Event::Clock(t)
                }
                Action::ReadEcho => Event::Echo(self.echo_high()),
                Action::Finish(r) => return r,
            };
            action = stage.advance(event);
        }
    }
}

struct FixedTimer(u32);

impl Timer for FixedTimer {
    fn now(&self) -> u32 {
        self.0
    }
}

#[test]
fn new_keeps_its_parts() {
    let sensor = HCSR04::new(1u8, 2u16, 3u32, FixedTimer(77));
    assert_eq!(sensor.trig, 1);
    assert_eq!(sensor.echo, 2);
    assert_eq!(sensor.delay, 3);
    assert_eq!(sensor.timer.now(), 77);
}

#[test]
fn distance_of_typical_reading() {
    // 1160 us * 0.0343 cm/us / 2 = 19.894 cm
    assert_eq!(distance_um(1160), 198_940);
    let cm = distance_um(1160) as f64 / 10_000.0;
    assert!((cm - 1160.0 * 0.0343 / 2.0).abs() < 1e-9);
}

#[test]
fn distance_exact_values() {
    assert_eq!(distance_um(0), 0);
    assert_eq!(distance_um(1), 171);
    assert_eq!(distance_um(2), 343);
    assert_eq!(distance_um(30_000), 5_145_000);
    assert_eq!(distance_um(u32::MAX), u32::MAX as u64 * 343 / 2);
}

#[test]
fn trigger_pulse_sequence() {
    let asked = drive(&PULSE_OK);
    assert_eq!(
        asked,
        vec![
            Action::SetLow,
            Action::DelayUs(SETTLE_US),
            Action::SetHigh,
            Action::DelayUs(PULSE_US),
            Action::SetLow,
            Action::ReadClock,
        ]
    );
    assert_eq!(SETTLE_US, 2000);
    assert_eq!(PULSE_US, 10);
}

#[test]
fn echo_width_is_measured() {
    let asked = drive(&with_pulse(&[
        Event::Clock(100),
        Event::Echo(true),
        Event::Clock(200),
        Event::Echo(false),
        Event::Clock(1360),
    ]));
    assert_eq!(*asked.last().unwrap(), Action::Finish(Ok(1160)));
    let no_trigger_after = asked[5..]
        .iter()
        .all(|a| !matches!(a, Action::SetLow | Action::SetHigh | Action::DelayUs(_)));
    assert!(no_trigger_after);
}

#[test]
fn echo_width_with_polls() {
    let asked = drive(&with_pulse(&[
        Event::Clock(0),
        Event::Echo(false),
        Event::Clock(500),
        Event::Echo(true),
        Event::Clock(600),
        Event::Echo(true),
        Event::Clock(30_600),
        Event::Echo(false),
        Event::Clock(30_600),
    ]));
    assert_eq!(*asked.last().unwrap(), Action::Finish(Ok(30_000)));
}

#[test]
fn echo_width_across_clock_wrap() {
    let asked = drive(&with_pulse(&[
        Event::Clock(u32::MAX - 20),
        Event::Echo(true),
        Event::Clock(u32::MAX - 10),
        Event::Echo(false),
        Event::Clock(1149),
    ]));
    assert_eq!(*asked.last().unwrap(), Action::Finish(Ok(1160)));
}

#[test]
fn no_echo_times_out() {
    let asked = drive(&with_pulse(&[
        Event::Clock(0),
        Event::Echo(false),
        Event::Clock(ECHO_BUDGET_US),
        Event::Echo(false),
        Event::Clock(ECHO_BUDGET_US + 1),
    ]));
    assert_eq!(asked[asked.len() - 2], Action::ReadClock);
    assert_eq!(*asked.last().unwrap(), Action::Finish(Err(Error::Timeout)));
    assert!(!asked.iter().any(|a| matches!(a, Action::Finish(Ok(_)))));
}

#[test]
fn stuck_echo_times_out() {
    let asked = drive(&with_pulse(&[
        Event::Clock(0),
        Event::Echo(true),
        Event::Clock(10),
        Event::Echo(true),
        Event::Clock(30_010),
        Event::Echo(true),
        Event::Clock(30_011),
    ]));
    assert_eq!(asked[asked.len() - 3], Action::ReadEcho);
    assert_eq!(asked[asked.len() - 2], Action::ReadClock);
    assert_eq!(*asked.last().unwrap(), Action::Finish(Err(Error::Timeout)));
}

#[test]
fn fault_at_any_step_is_gpio() {
    let full = with_pulse(&[
        Event::Clock(0),
        Event::Echo(true),
        Event::Clock(10),
        Event::Echo(false),
        Event::Clock(20),
    ]);
    for i in 0..full.len() {
        let mut answers = full[..i].to_vec();
        answers.push(Event::Fault);
        answers.push(Event::Completed);
        let asked = drive(&answers);
        assert_eq!(asked[i + 1], Action::Finish(Err(Error::Gpio)));
        assert_eq!(asked[i + 2], Action::Finish(Err(Error::Gpio)));
    }
}

#[test]
fn answer_that_does_not_fit_is_gpio() {
    let asked = drive(&[Event::Clock(5)]);
    assert_eq!(asked[1], Action::Finish(Err(Error::Gpio)));
    let asked = drive(&with_pulse(&[Event::Echo(true)]));
    assert_eq!(*asked.last().unwrap(), Action::Finish(Err(Error::Gpio)));
}

#[test]
fn finished_measurement_stays_finished() {
    let (mut stage, _) = Stage::begin();
    assert!(!stage.is_finished());
    assert_eq!(stage.advance(Event::Fault), Action::Finish(Err(Error::Gpio)));
    assert!(stage.is_finished());
    assert_eq!(stage.advance(Event::Clock(3)), Action::Finish(Err(Error::Gpio)));
    assert_eq!(stage, Stage::Finished { outcome: Err(Error::Gpio) });
}

#[test]
fn simulated_sensor_reading() {
    let mut bench = Bench::new(5_000, 300, 1160);
    let r = bench.measure().unwrap();
    assert!(r >= 1159 && r <= 1162);
    assert_eq!(bench.trigger, vec![false, true, false]);
}

#[test]
fn simulated_sensor_never_rises() {
    let mut bench = Bench::new(0, 1_000_000, 10);
    assert_eq!(bench.measure(), Err(Error::Timeout));
    assert_eq!(*bench.trigger.last().unwrap(), false);
}

#[test]
fn simulated_sensor_stuck_high() {
    let mut bench = Bench::new(0, 0, 100_000);
    assert_eq!(bench.measure(), Err(Error::Timeout));
    assert_eq!(bench.trigger, vec![false, true, false]);
}

#[test]
fn repeated_measurements_agree() {
    let first = drive(&with_pulse(&[
        Event::Clock(7),
        Event::Echo(true),
        Event::Clock(9),
        Event::Echo(false),
        Event::Clock(1169),
    ]));
    let second = drive(&with_pulse(&[
        Event::Clock(40_000),
        Event::Echo(true),
        Event::Clock(40_002),
        Event::Echo(false),
        Event::Clock(41_162),
    ]));
    assert_eq!(first.last(), second.last());
    let mut bench = Bench::new(123, 250, 800);
    let a = bench.measure();
    let mut bench2 = Bench::new(123, 250, 800);
    let b = bench2.measure();
    assert_eq!(a, b);
    assert!(a.is_ok());
}

#[test]
fn error_kinds_differ() {
    assert_ne!(Error::Timeout, Error::Gpio);
}
