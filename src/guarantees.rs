use vstd::prelude::*;

use crate::cycle::{
    distance_of, elapsed, initial, next, Action, Event, Stage, ECHO_BUDGET_US, PULSE_US, SETTLE_US,
};
use crate::sensor::Error;

verus! {

/// The stage reached, and every operation asked for in order, when a
/// measurement started by `Stage::begin` is answered with `evs`.
pub open spec fn run(evs: Seq<Event>) -> (Stage, Seq<Action>)
    decreases evs.len(),
{
    if evs.len() == 0 {
        (initial().0, seq![initial().1])
    } else {
        let prev = run(evs.drop_last());
        let step = next(prev.0, evs.last());
        (step.0, prev.1.push(step.1))
    }
}

/// Operations on the trigger side: trigger writes and delays.
pub open spec fn is_trigger_side(a: Action) -> bool {
    a is SetLow || a is SetHigh || a is DelayUs
}

/// The trigger-side operations among `acts`, in order.
pub open spec fn trigger_log(acts: Seq<Action>) -> Seq<Action>
    decreases acts.len(),
{
    if acts.len() == 0 {
        seq![]
    } else {
        let rest = trigger_log(acts.drop_last());
        if is_trigger_side(acts.last()) {
            rest.push(acts.last())
        } else {
            rest
        }
    }
}

/// The trigger pulse: low, settle, high, the pulse width, low.
pub open spec fn pulse_sequence() -> Seq<Action> {
    seq![
        Action::SetLow,
        Action::DelayUs(SETTLE_US),
        Action::SetHigh,
        Action::DelayUs(PULSE_US),
        Action::SetLow,
    ]
}

/// The answers of capabilities that carry out the trigger pulse without fault.
pub open spec fn pulse_answers() -> Seq<Event> {
    seq![Event::Completed, Event::Completed, Event::Completed, Event::Completed, Event::Completed]
}

/// The answers of a sensor whose echo is already high at the first read:
/// the rise wait starts at `t0`, the pulse is timed from `t1` and the echo
/// is low again at `t2`.
pub open spec fn echo_answers(t0: u32, t1: u32, t2: u32) -> Seq<Event> {
    pulse_answers() + seq![
        Event::Clock(t0),
        Event::Echo(true),
        Event::Clock(t1),
        Event::Echo(false),
        Event::Clock(t2),
    ]
}

/// Stages that wait for a part of the trigger pulse.
pub open spec fn in_pulse(s: Stage) -> bool {
    s is Settle || s is SettleWait || s is Pulse || s is PulseWait || s is PulseEnd
}

/// How many pulse operations had been asked for on reaching stage `s`.
pub open spec fn pulse_progress(s: Stage) -> int {
    match s {
        Stage::Settle => 1,
        Stage::SettleWait => 2,
        Stage::Pulse => 3,
        Stage::PulseWait => 4,
        _ => 5,
    }
}

/// A finished measurement whose outcome is a pulse width or a timeout.
pub open spec fn timed_outcome(s: Stage) -> bool {
    s matches Stage::Finished { outcome } && outcome != Err::<u32, Error>(Error::Gpio)
}

spec fn trigger_inv(s: Stage, acts: Seq<Action>) -> bool {
    &&& in_pulse(s) ==> trigger_log(acts) == pulse_sequence().take(pulse_progress(s))
        && !acts.contains(Action::ReadClock)
    &&& (!in_pulse(s) && !(s is Finished)) || timed_outcome(s) ==> acts.contains(
        Action::ReadClock,
    )
    &&& acts.contains(Action::ReadClock) ==> trigger_log(acts) == pulse_sequence()
    &&& trigger_log(acts).len() <= 5
    &&& trigger_log(acts) == pulse_sequence().take(trigger_log(acts).len() as int)
}

proof fn lemma_push_contains(acts: Seq<Action>, a: Action, x: Action)
    ensures
        acts.push(a).contains(x) == (acts.contains(x) || a == x),
{
    if acts.contains(x) {
        let i = choose|i: int| 0 <= i < acts.len() && acts[i] == x;
        assert(acts.push(a)[i] == x);
    }
    if a == x {
        assert(acts.push(a)[acts.len() as int] == x);
    }
    if acts.push(a).contains(x) {
        let i = choose|i: int| 0 <= i < acts.push(a).len() && acts.push(a)[i] == x;
        if i < acts.len() {
            assert(acts[i] == x);
        }
    }
}

proof fn lemma_log_push(acts: Seq<Action>, a: Action)
    ensures
        trigger_log(acts.push(a)) == if is_trigger_side(a) {
            trigger_log(acts).push(a)
        } else {
            trigger_log(acts)
        },
{
    assert(acts.push(a).drop_last() =~= acts);
}

proof fn lemma_step(s: Stage, acts: Seq<Action>, e: Event)
    requires
        trigger_inv(s, acts),
    ensures
        trigger_inv(next(s, e).0, acts.push(next(s, e).1)),
{
    let (s2, a) = next(s, e);
    lemma_log_push(acts, a);
    lemma_push_contains(acts, a, Action::ReadClock);
    let p = pulse_sequence();
    let k = pulse_progress(s);
    if in_pulse(s) && e is Completed {
        if k < 5 {
            assert(a == p[k]);
            assert(p.take(k).push(p[k]) =~= p.take(k + 1));
        } else {
            assert(a == Action::ReadClock);
        }
        assert(p.take(5) =~= p);
    }
    if !in_pulse(s) {
        assert(!is_trigger_side(a));
    }
}

proof fn lemma_run_inv(evs: Seq<Event>)
    ensures
        trigger_inv(run(evs).0, run(evs).1),
    decreases evs.len(),
{
    if evs.len() == 0 {
        let acts = seq![Action::SetLow];
        lemma_log_push(seq![], Action::SetLow);
        assert(seq![].push(Action::SetLow) =~= acts);
        assert(trigger_log(Seq::<Action>::empty()) =~= seq![]);
        assert(pulse_sequence().take(1) =~= seq![Action::SetLow]);
        if acts.contains(Action::ReadClock) {
            let i = choose|i: int| 0 <= i < acts.len() && acts[i] == Action::ReadClock;
            assert(acts[i] == Action::SetLow);
        }
    } else {
        lemma_run_inv(evs.drop_last());
        lemma_step(run(evs.drop_last()).0, run(evs.drop_last()).1, evs.last());
    }
}

/// Whatever the capabilities answer, the trigger side of a measurement asks
/// for nothing but a prefix of low, settle delay, high, pulse-width delay,
/// low, in that order. Once the clock has been read, which every measurement
/// that ends with a pulse width or a timeout has done, that whole sequence
/// has been asked for and no other: the last trigger command was low.
pub proof fn lemma_trigger_sequence(evs: Seq<Event>)
    ensures
        trigger_log(run(evs).1).len() <= pulse_sequence().len(),
        trigger_log(run(evs).1) == pulse_sequence().take(trigger_log(run(evs).1).len() as int),
        run(evs).1.contains(Action::ReadClock) ==> trigger_log(run(evs).1) == pulse_sequence(),
        run(evs).1.contains(Action::ReadClock) ==> trigger_log(run(evs).1).last()
            == Action::SetLow,
        timed_outcome(run(evs).0) ==> run(evs).1.contains(Action::ReadClock),
{
    lemma_run_inv(evs);
}

/// A fault of a pin access, or any answer that does not fit the operation
/// asked for, ends a measurement at once with `Gpio`; a finished measurement
/// keeps its outcome and asks for nothing more.
pub proof fn lemma_fault_ends(s: Stage, e: Event)
    ensures
        !(s is Finished) && e is Fault ==> next(s, e) == (
        Stage::Finished { outcome: Err(Error::Gpio) },
        Action::Finish(Err(Error::Gpio)),
        ),
        s matches Stage::Finished { outcome } ==> next(s, e) == (s, Action::Finish(outcome)),
{
}

/// While the echo stays low, a clock read within the budget goes back to
/// reading the echo with the wait's start unchanged; one past the budget
/// ends the measurement with `Timeout`.
pub proof fn lemma_rise_wait(since: u32, now: u32)
    ensures
        next(Stage::RiseSample { since }, Event::Echo(false)) == (
        Stage::RiseCheck { since },
        Action::ReadClock,
        ),
        elapsed(since, now) > ECHO_BUDGET_US ==> next(Stage::RiseCheck { since }, Event::Clock(now))
            == (Stage::Finished { outcome: Err(Error::Timeout) }, Action::Finish(
            Err(Error::Timeout),
        )),
        elapsed(since, now) <= ECHO_BUDGET_US ==> next(Stage::RiseCheck { since }, Event::Clock(now))
            == (Stage::RiseSample { since }, Action::ReadEcho),
{
}

/// While the echo stays high, a clock read within the ceiling goes back to
/// reading the echo with the pulse's start unchanged; one past the ceiling
/// ends the measurement with `Timeout`. When the echo falls, the outcome is
/// the time from the pulse's start to the clock read that follows.
pub proof fn lemma_echo_high(since: u32, now: u32)
    ensures
        next(Stage::FallSample { since }, Event::Echo(true)) == (
        Stage::FallCheck { since },
        Action::ReadClock,
        ),
        elapsed(since, now) > ECHO_BUDGET_US ==> next(Stage::FallCheck { since }, Event::Clock(now))
            == (Stage::Finished { outcome: Err(Error::Timeout) }, Action::Finish(
            Err(Error::Timeout),
        )),
        elapsed(since, now) <= ECHO_BUDGET_US ==> next(Stage::FallCheck { since }, Event::Clock(now))
            == (Stage::FallSample { since }, Action::ReadEcho),
        next(Stage::FallSample { since }, Event::Echo(false)) == (
        Stage::FallEnd { since },
        Action::ReadClock,
        ),
        next(Stage::FallEnd { since }, Event::Clock(now)).0 == (Stage::Finished {
            outcome: Ok(elapsed(since, now) as u32),
        }),
        0 <= elapsed(since, now) <= u32::MAX,
{
}

proof fn lemma_run_push(evs: Seq<Event>, e: Event)
    ensures
        run(evs.push(e)) == (next(run(evs).0, e).0, run(evs).1.push(next(run(evs).0, e).1)),
{
    assert(evs.push(e).drop_last() =~= evs);
}

proof fn lemma_run_pulse()
    ensures
        run(pulse_answers()).0 == Stage::RiseStart,
{
    let e = Event::Completed;
    let e0 = Seq::<Event>::empty();
    lemma_run_push(e0, e);
    lemma_run_push(e0.push(e), e);
    lemma_run_push(e0.push(e).push(e), e);
    lemma_run_push(e0.push(e).push(e).push(e), e);
    lemma_run_push(e0.push(e).push(e).push(e).push(e), e);
    assert(e0.push(e).push(e).push(e).push(e).push(e) =~= pulse_answers());
}

/// A sensor whose echo stays high from `t1` to `t2` yields the pulse width
/// `elapsed(t1, t2)`, measured across a wrap of the clock too, and the
/// distance that width stands for.
pub proof fn lemma_echo_width(t0: u32, t1: u32, t2: u32)
    ensures
        run(echo_answers(t0, t1, t2)).0 == (Stage::Finished {
            outcome: Ok(elapsed(t1, t2) as u32),
        }),
        elapsed(t1, t2) as u32 == elapsed(t1, t2),
        distance_of(elapsed(t1, t2)) == elapsed(t1, t2) * 343 / 2,
{
    lemma_run_pulse();
    let p = pulse_answers();
    lemma_run_push(p, Event::Clock(t0));
    lemma_run_push(p.push(Event::Clock(t0)), Event::Echo(true));
    lemma_run_push(p.push(Event::Clock(t0)).push(Event::Echo(true)), Event::Clock(t1));
    lemma_run_push(
        p.push(Event::Clock(t0)).push(Event::Echo(true)).push(Event::Clock(t1)),
        Event::Echo(false),
    );
    lemma_run_push(
        p.push(Event::Clock(t0)).push(Event::Echo(true)).push(Event::Clock(t1)).push(
            Event::Echo(false),
        ),
        Event::Clock(t2),
    );
    assert(p.push(Event::Clock(t0)).push(Event::Echo(true)).push(Event::Clock(t1)).push(
        Event::Echo(false),
    ).push(Event::Clock(t2)) =~= echo_answers(t0, t1, t2));
}

/// Measurements keep no state: two of them answered with the same pulse
/// width, at any two clock offsets, give the same outcome.
pub proof fn lemma_repeatable(t0: u32, t1: u32, u0: u32, u1: u32, d: u32)
    ensures
        run(echo_answers(t0, t1, t1.wrapping_add(d))).0 == run(
            echo_answers(u0, u1, u1.wrapping_add(d)),
        ).0,
        run(echo_answers(t0, t1, t1.wrapping_add(d))).0 == (Stage::Finished { outcome: Ok(d) }),
{
    lemma_echo_width(t0, t1, t1.wrapping_add(d));
    lemma_echo_width(u0, u1, u1.wrapping_add(d));
}

/// A sensor whose echo is still low at a clock read past the budget yields
/// `Timeout`, and no pulse width.
pub proof fn lemma_no_echo(t0: u32, t1: u32)
    requires
        elapsed(t0, t1) > ECHO_BUDGET_US,
    ensures
        run(pulse_answers() + seq![Event::Clock(t0), Event::Echo(false), Event::Clock(t1)]).0
            == (Stage::Finished { outcome: Err(Error::Timeout) }),
{
    lemma_run_pulse();
    let p = pulse_answers();
    lemma_run_push(p, Event::Clock(t0));
    lemma_run_push(p.push(Event::Clock(t0)), Event::Echo(false));
    lemma_run_push(p.push(Event::Clock(t0)).push(Event::Echo(false)), Event::Clock(t1));
    assert(p.push(Event::Clock(t0)).push(Event::Echo(false)).push(Event::Clock(t1)) =~= p
        + seq![Event::Clock(t0), Event::Echo(false), Event::Clock(t1)]);
}

/// A sensor whose echo rose at `t1` and is still high at a clock read past
/// the ceiling yields `Timeout`, and no pulse width.
pub proof fn lemma_stuck_echo(t0: u32, t1: u32, t2: u32)
    requires
        elapsed(t1, t2) > ECHO_BUDGET_US,
    ensures
        run(
            pulse_answers() + seq![
                Event::Clock(t0),
                Event::Echo(true),
                Event::Clock(t1),
                Event::Echo(true),
                Event::Clock(t2),
            ],
        ).0 == (Stage::Finished { outcome: Err(Error::Timeout) }),
{
    lemma_run_pulse();
    let p = pulse_answers();
    let q = p.push(Event::Clock(t0)).push(Event::Echo(true)).push(Event::Clock(t1));
    lemma_run_push(p, Event::Clock(t0));
    lemma_run_push(p.push(Event::Clock(t0)), Event::Echo(true));
    lemma_run_push(p.push(Event::Clock(t0)).push(Event::Echo(true)), Event::Clock(t1));
    lemma_run_push(q, Event::Echo(true));
    lemma_run_push(q.push(Event::Echo(true)), Event::Clock(t2));
    assert(q.push(Event::Echo(true)).push(Event::Clock(t2)) =~= p + seq![
        Event::Clock(t0),
        Event::Echo(true),
        Event::Clock(t1),
        Event::Echo(true),
        Event::Clock(t2),
    ]);
}

} // verus!
