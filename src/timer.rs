//! The countdown state machine of one running timer.
use vstd::prelude::*;

use crate::event::{Event, EventsBuilder};

verus! {

/// Where a countdown stands. It only moves forward: Running, Warning, Expired.
#[derive(Clone, Copy, Debug, PartialEq, Eq, Structural)]
pub enum Phase {
    Running,
    Warning,
    Expired,
}

pub open spec fn phase_rank(p: Phase) -> nat {
    match p {
        Phase::Running => 0,
        Phase::Warning => 1,
        Phase::Expired => 2,
    }
}

/// The phase that a countdown with `remaining` milliseconds left is in.
pub open spec fn phase_for(remaining: u64, warn: Option<u64>) -> Phase {
    if remaining == 0 {
        Phase::Expired
    } else if warn is Some && remaining <= warn->0 {
        Phase::Warning
    } else {
        Phase::Running
    }
}

/// A running countdown. Times are in milliseconds.
#[derive(Clone, Copy, Debug)]
pub struct TimerRuntime {
    /// Identifies this countdown in `TimerExpired` and `TimerWarn` events.
    pub id: u64,
    /// The configured duration.
    pub time: u64,
    /// The warn threshold, if any.
    pub warn: Option<u64>,
    /// Whether ordinary keys are ignored while this timer is active.
    pub lock_input: bool,
    /// The timestamp at which the countdown started.
    pub started_at: u64,
    pub remaining: u64,
    pub phase: Phase,
}

impl TimerRuntime {
    pub open spec fn wf(self) -> bool {
        &&& self.remaining <= self.time
        &&& self.phase == phase_for(self.remaining, self.warn)
    }

    /// What is left at `now` by the clock alone: the duration minus the time
    /// elapsed since the start, and never below zero.
    pub open spec fn left_at(self, now: u64) -> u64 {
        if now <= self.started_at {
            self.time
        } else if now - self.started_at >= self.time {
            0
        } else {
            (self.time - (now - self.started_at)) as u64
        }
    }

    /// The countdown after a tick at `now`: what is left never grows.
    pub open spec fn spec_update(self, now: u64) -> TimerRuntime {
        let r = if self.left_at(now) < self.remaining {
            self.left_at(now)
        } else {
            self.remaining
        };
        TimerRuntime { remaining: r, phase: phase_for(r, self.warn), ..self }
    }

    /// A fresh countdown started at `now`.
    pub open spec fn fresh(id: u64, time: u64, warn: Option<u64>, lock_input: bool, now: u64) -> TimerRuntime {
        TimerRuntime {
            id,
            time,
            warn,
            lock_input,
            started_at: now,
            remaining: time,
            phase: phase_for(time, warn),
        }
    }

    pub fn new(id: u64, time: u64, warn: Option<u64>, lock_input: bool, now: u64) -> (t: TimerRuntime)
        ensures
            t == TimerRuntime::fresh(id, time, warn, lock_input, now),
            t.wf(),
    {
        TimerRuntime {
            id,
            time,
            warn,
            lock_input,
            started_at: now,
            remaining: time,
            phase: phase_of(time, warn),
        }
    }

    /// Recomputes what is left from the tick's timestamp and records the
    /// phase changes that this brings, in order.
    pub fn update(&mut self, now: u64, out: &mut EventsBuilder)
        requires
            old(self).wf(),
        ensures
            *final(self) == old(self).spec_update(now),
            final(self).wf(),
            final(out)@ == old(out)@ + transition_events(*old(self), *final(self)),
    {
        let left: u64 = if now <= self.started_at {
            self.time
        } else if now - self.started_at >= self.time {
            0
        } else {
            self.time - (now - self.started_at)
        };
        let before = self.phase;
        if left < self.remaining {
            self.remaining = left;
        }
        self.phase = phase_of(self.remaining, self.warn);
        if before == Phase::Running && self.phase != Phase::Running && self.warn.is_some() {
            out.push(Event::TimerWarn { timer_id: self.id });
        }
        if before != Phase::Expired && self.phase == Phase::Expired {
            out.push(Event::TimerExpired { timer_id: self.id });
        }
        proof {
            assert(final(out)@ =~= old(out)@ + transition_events(*old(self), *final(self)));
        }
    }
}

fn phase_of(remaining: u64, warn: Option<u64>) -> (p: Phase)
    ensures
        p == phase_for(remaining, warn),
{
    if remaining == 0 {
        Phase::Expired
    } else {
        match warn {
            Some(w) => if remaining <= w {
                Phase::Warning
            } else {
                Phase::Running
            },
            None => Phase::Running,
        }
    }
}

/// The events that going from `a` to `b` records: a warning when a timer with
/// a threshold leaves Running, then an expiry when it reaches Expired.
pub open spec fn transition_events(a: TimerRuntime, b: TimerRuntime) -> Seq<Event> {
    (if a.phase == Phase::Running && b.phase != Phase::Running && a.warn is Some {
        seq![Event::TimerWarn { timer_id: a.id }]
    } else {
        Seq::empty()
    }) + (if a.phase != Phase::Expired && b.phase == Phase::Expired {
        seq![Event::TimerExpired { timer_id: a.id }]
    } else {
        Seq::empty()
    })
}

/// A countdown's phase only moves forward, and what is left never grows.
pub proof fn lemma_update_monotone(t: TimerRuntime, now: u64)
    requires
        t.wf(),
    ensures
        t.spec_update(now).wf(),
        t.spec_update(now).remaining <= t.remaining,
        phase_rank(t.spec_update(now).phase) >= phase_rank(t.phase),
{
}

/// Tick granularity does not matter: a tick at `a` followed by one at `b`
/// leaves the countdown where one tick at `b` does, and records the same
/// phase changes in the same order.
pub proof fn lemma_tick_granularity(t: TimerRuntime, a: u64, b: u64)
    requires
        t.wf(),
        a <= b,
    ensures
        t.spec_update(a).spec_update(b) == t.spec_update(b),
        transition_events(t, t.spec_update(a)) + transition_events(
            t.spec_update(a),
            t.spec_update(a).spec_update(b),
        ) == transition_events(t, t.spec_update(b)),
{
    let m = t.spec_update(a);
    assert(t.left_at(b) <= t.left_at(a));
    assert(m.spec_update(b) == t.spec_update(b));
    assert(transition_events(t, m) + transition_events(m, m.spec_update(b)) =~= transition_events(
        t,
        t.spec_update(b),
    ));
}

} // verus!
