//! Runs one schedule: starts its timers in turn and reacts to each cycle's
//! events.
use vstd::prelude::*;

use crate::config::{find_timer, title_index, Action, Schedule, Timer, TimerEndAction};
use crate::event::{Event, Events, EventsBuilder};
use crate::timer::{transition_events, TimerRuntime};

verus! {

/// Where a schedule stands.
#[derive(Clone, Copy, Debug, PartialEq, Eq, Structural)]
pub enum RunState {
    /// Not started yet.
    Idle,
    Active,
    AwaitingConfirmation,
    Finished,
    Failed,
}

/// A runtime failure of one schedule.
#[derive(Clone, Copy, Debug, PartialEq, Eq, Structural)]
pub enum ScheduleError {
    /// The action at this index names a timer that the configuration lacks.
    ConfigReference(usize),
}

/// What a schedule reports after a step.
#[derive(Clone, Copy, Debug, PartialEq, Eq, Structural)]
pub enum Outcome {
    Continue,
    Finished,
    Failed(ScheduleError),
}

/// The duration, warn threshold and input lock that a timer runs with.
pub type TimerSetup = (u64, Option<u64>, bool);

/// The timer that an action starts, with `timers` to look titles up in.
pub open spec fn resolve(a: Action, timers: Seq<Timer>) -> Option<TimerSetup> {
    match a {
        Action::StartExistingTimer(name, _) => match title_index(timers, name@) {
            Some(i) => Some((timers[i].time, timers[i].warn, timers[i].lock_input)),
            None => None,
        },
        Action::StartTimer(t, _) => Some((t.time, t.warn, t.lock_input)),
    }
}

fn resolve_action(a: &Action, timers: &Vec<Timer>) -> (r: Option<TimerSetup>)
    ensures
        r == resolve(*a, timers@),
{
    match a {
        Action::StartExistingTimer(name, _) => match find_timer(timers, name) {
            Some(i) => Some((timers[i].time, timers[i].warn, timers[i].lock_input)),
            None => None,
        },
        Action::StartTimer(t, _) => Some((t.time, t.warn, t.lock_input)),
    }
}

/// A schedule in progress.
#[derive(Clone, Debug)]
pub struct ScheduleRunner {
    pub schedule: Schedule,
    /// Index of the current action.
    pub cursor: usize,
    /// The current action's countdown.
    pub timer: Option<TimerRuntime>,
    pub state: RunState,
}

impl ScheduleRunner {
    pub open spec fn len(self) -> int {
        self.schedule.actions@.len() as int
    }

    pub open spec fn wf(self) -> bool {
        &&& self.len() > 0
        &&& self.cursor < self.len()
        &&& match self.state {
            RunState::Active | RunState::AwaitingConfirmation => self.timer is Some
                && self.timer->0.wf(),
            _ => self.timer is None,
        }
    }

    /// Starting action `n`: a fresh countdown, or failure where the action
    /// names a missing timer.
    pub open spec fn spec_start_at(self, n: int, timers: Seq<Timer>, now: u64, id: u64) -> (
        ScheduleRunner,
        Outcome,
    ) {
        match resolve(self.schedule.actions@[n], timers) {
            Some(d) => (
                ScheduleRunner {
                    cursor: n as usize,
                    timer: Some(TimerRuntime::fresh(id, d.0, d.1, d.2, now)),
                    state: RunState::Active,
                    ..self
                },
                Outcome::Continue,
            ),
            None => (
                ScheduleRunner { cursor: n as usize, timer: None, state: RunState::Failed, ..self },
                Outcome::Failed(ScheduleError::ConfigReference(n as usize)),
            ),
        }
    }

    /// Moving past the current action: the next one, the first one again in
    /// a looping schedule, or the end.
    pub open spec fn spec_advance(self, timers: Seq<Timer>, now: u64, id: u64) -> (
        ScheduleRunner,
        Outcome,
    ) {
        if self.cursor + 1 < self.len() {
            self.spec_start_at(self.cursor + 1, timers, now, id)
        } else if self.schedule.loop_schedule {
            self.spec_start_at(0, timers, now, id)
        } else {
            (ScheduleRunner { timer: None, state: RunState::Finished, ..self }, Outcome::Finished)
        }
    }

    /// Whether `batch` holds the expiry of the current countdown.
    pub open spec fn expired_in(self, batch: Seq<Event>) -> bool {
        self.timer is Some && batch.contains(Event::TimerExpired { timer_id: self.timer->0.id })
    }

    /// The reaction to one cycle's batch.
    pub open spec fn spec_on_cycle(self, batch: Seq<Event>, timers: Seq<Timer>, now: u64, id: u64) -> (
        ScheduleRunner,
        Outcome,
    ) {
        match self.state {
            RunState::Active => if self.expired_in(batch) {
                if self.schedule.actions@[self.cursor as int].end_action() == TimerEndAction::Next {
                    self.spec_advance(timers, now, id)
                } else {
                    (ScheduleRunner { state: RunState::AwaitingConfirmation, ..self }, Outcome::Continue)
                }
            } else {
                (self, Outcome::Continue)
            },
            RunState::AwaitingConfirmation => if batch.contains(Event::ConfirmReceived) {
                self.spec_advance(timers, now, id)
            } else {
                (self, Outcome::Continue)
            },
            _ => (self, Outcome::Continue),
        }
    }

    /// A runner that has not started `schedule` yet.
    pub fn new(schedule: Schedule) -> (r: ScheduleRunner)
        requires
            schedule.actions@.len() > 0,
        ensures
            r == (ScheduleRunner { schedule, cursor: 0, timer: None, state: RunState::Idle }),
            r.wf(),
    {
        ScheduleRunner { schedule, cursor: 0, timer: None, state: RunState::Idle }
    }

    pub open spec fn spec_running(self) -> bool {
        self.state == RunState::Active || self.state == RunState::AwaitingConfirmation
    }

    /// Whether the schedule is running or waiting for a confirmation.
    pub fn is_running(&self) -> (b: bool)
        ensures
            b == self.spec_running(),
    {
        self.state == RunState::Active || self.state == RunState::AwaitingConfirmation
    }

    fn start_at(&mut self, n: usize, timers: &Vec<Timer>, now: u64, id: u64) -> (o: Outcome)
        requires
            old(self).wf(),
            n < old(self).len(),
        ensures
            (*final(self), o) == old(self).spec_start_at(n as int, timers@, now, id),
            final(self).wf(),
    {
        match resolve_action(&self.schedule.actions[n], timers) {
            Some(d) => {
                self.cursor = n;
                self.timer = Some(TimerRuntime::new(id, d.0, d.1, d.2, now));
                self.state = RunState::Active;
                Outcome::Continue
            },
            None => {
                self.cursor = n;
                self.timer = None;
                self.state = RunState::Failed;
                Outcome::Failed(ScheduleError::ConfigReference(n))
            },
        }
    }

    fn advance(&mut self, timers: &Vec<Timer>, now: u64, id: u64) -> (o: Outcome)
        requires
            old(self).wf(),
        ensures
            (*final(self), o) == old(self).spec_advance(timers@, now, id),
            final(self).wf(),
    {
        if self.cursor < self.schedule.actions.len() - 1 {
            self.start_at(self.cursor + 1, timers, now, id)
        } else if self.schedule.loop_schedule {
            self.start_at(0, timers, now, id)
        } else {
            self.timer = None;
            self.state = RunState::Finished;
            Outcome::Finished
        }
    }

    /// Starts the schedule at its first action with countdown `id`. Does
    /// nothing while it runs, or once it has failed.
    pub fn start(&mut self, timers: &Vec<Timer>, now: u64, id: u64) -> (o: Outcome)
        requires
            old(self).wf(),
        ensures
            (*final(self), o) == (if old(self).state == RunState::Idle || old(self).state
                == RunState::Finished {
                old(self).spec_start_at(0, timers@, now, id)
            } else {
                (*old(self), Outcome::Continue)
            }),
            final(self).wf(),
    {
        if self.state == RunState::Idle || self.state == RunState::Finished {
            self.start_at(0, timers, now, id)
        } else {
            Outcome::Continue
        }
    }

    /// Brings the active countdown up to `now`, recording its phase changes.
    pub fn refresh(&mut self, now: u64, out: &mut EventsBuilder)
        requires
            old(self).wf(),
        ensures
            final(self).wf(),
            old(self).state == RunState::Active ==> *final(self) == (ScheduleRunner {
                timer: Some(old(self).timer->0.spec_update(now)),
                ..*old(self)
            }) && final(out)@ == old(out)@ + transition_events(
                old(self).timer->0,
                old(self).timer->0.spec_update(now),
            ),
            old(self).state != RunState::Active ==> *final(self) == *old(self) && final(out)@
                == old(out)@,
    {
        if self.state == RunState::Active {
            match &mut self.timer {
                Some(t) => t.update(now, out),
                None => {},
            }
        }
    }

    /// Reacts to one cycle's batch; `id` names a countdown started here.
    pub fn on_cycle(&mut self, batch: &Events, timers: &Vec<Timer>, now: u64, id: u64) -> (o: Outcome)
        requires
            old(self).wf(),
        ensures
            (*final(self), o) == old(self).spec_on_cycle(batch@, timers@, now, id),
            final(self).wf(),
    {
        match self.state {
            RunState::Active => {
                let expired = match &self.timer {
                    Some(t) => batch.contains(&Event::TimerExpired { timer_id: t.id }),
                    None => false,
                };
                if expired {
                    let next = match &self.schedule.actions[self.cursor] {
                        Action::StartExistingTimer(_, e) => *e == TimerEndAction::Next,
                        Action::StartTimer(_, e) => *e == TimerEndAction::Next,
                    };
                    if next {
                        self.advance(timers, now, id)
                    } else {
                        self.state = RunState::AwaitingConfirmation;
                        Outcome::Continue
                    }
                } else {
                    Outcome::Continue
                }
            },
            RunState::AwaitingConfirmation => {
                if batch.contains(&Event::ConfirmReceived) {
                    self.advance(timers, now, id)
                } else {
                    Outcome::Continue
                }
            },
            _ => Outcome::Continue,
        }
    }
}

/// A looping schedule that completes its last action starts its first one
/// again, with a fresh countdown of the full configured duration.
pub proof fn lemma_loop_restart(r: ScheduleRunner, batch: Seq<Event>, timers: Seq<Timer>, now: u64, id: u64)
    requires
        r.wf(),
        r.schedule.loop_schedule,
        r.cursor == r.len() - 1,
        (r.state == RunState::Active && r.expired_in(batch) && r.schedule.actions@[r.cursor as int].end_action()
            == TimerEndAction::Next) || (r.state == RunState::AwaitingConfirmation && batch.contains(
            Event::ConfirmReceived,
        )),
        resolve(r.schedule.actions@[0], timers) is Some,
    ensures
        ({
            let (n, o) = r.spec_on_cycle(batch, timers, now, id);
            let d = resolve(r.schedule.actions@[0], timers)->0;
            &&& o == Outcome::Continue
            &&& n.cursor == 0
            &&& n.state == RunState::Active
            &&& n.timer == Some(TimerRuntime::fresh(id, d.0, d.1, d.2, now))
            &&& n.timer->0.remaining == d.0
            &&& n.timer->0.started_at == now
        }),
{
}

/// Starting an action that names a timer missing from the configuration
/// fails this schedule with a reference error, and drops its countdown.
pub proof fn lemma_missing_reference(r: ScheduleRunner, n: int, timers: Seq<Timer>, now: u64, id: u64)
    requires
        r.wf(),
        0 <= n < r.len(),
        r.schedule.actions@[n] matches Action::StartExistingTimer(name, _) && title_index(timers, name@) is None,
    ensures
        r.spec_start_at(n, timers, now, id) == (
            ScheduleRunner { cursor: n as usize, timer: None, state: RunState::Failed, ..r },
            Outcome::Failed(ScheduleError::ConfigReference(n as usize)),
        ),
{
}

} // verus!
