//! One cycle of the scheduler: build the batch of events, then hand it to
//! every schedule.
use vstd::prelude::*;

use crate::config::{Cfg, Timer};
use crate::event::{Event, Events, EventsBuilder};
use crate::schedule::{Outcome, RunState, ScheduleRunner};
use crate::timer::transition_events;

verus! {

/// All schedules of a configuration and the timers that they refer to.
pub struct MainLoop {
    pub timers: Vec<Timer>,
    pub runners: Vec<ScheduleRunner>,
    /// The id that the next countdown gets.
    pub next_id: u64,
    /// Whether the first cycle has run.
    pub started: bool,
}

/// The events that a cycle starts with: the tick, the key unless input is
/// locked, and the confirmation.
pub open spec fn input_events(now: u64, key: Option<u32>, locked: bool, confirm: bool) -> Seq<Event> {
    seq![Event::Tick { timestamp: now }] + key_events(key, locked) + (if confirm {
        seq![Event::ConfirmReceived]
    } else {
        Seq::empty()
    })
}

/// The key press that a cycle records: none while input is locked.
pub open spec fn key_events(pressed: Option<u32>, ignored: bool) -> Seq<Event> {
    if pressed is Some && !ignored {
        Seq::empty().push(Event::KeyPress { key: pressed->0 })
    } else {
        Seq::empty()
    }
}

proof fn lemma_key_pressed(pressed: Option<u32>, ignored: bool, k: u32)
    requires
        pressed == Some(k),
        !ignored,
    ensures
        key_events(pressed, ignored) == Seq::<Event>::empty().push(Event::KeyPress { key: k }),
{
}

fn push_key(b: &mut EventsBuilder, pressed: Option<u32>, locked: bool)
    ensures
        final(b)@ == old(b)@ + key_events(pressed, locked),
{
    match pressed {
        Some(k) => if !locked {
            b.push(Event::KeyPress { key: k });
            proof {
                lemma_key_pressed(pressed, locked, k);
            }
            assert(b@ =~= old(b)@ + key_events(pressed, locked));
        } else {
            assert(b@ =~= old(b)@ + key_events(pressed, locked));
        },
        None => {
            assert(b@ =~= old(b)@ + key_events(pressed, locked));
        },
    }
}

/// A runner as the start of a cycle leaves it: started when `startup` asks
/// for it, with id `id`.
pub open spec fn started_runner(r: ScheduleRunner, startup: bool, timers: Seq<Timer>, now: u64, id: u64) -> ScheduleRunner {
    if startup && r.schedule.start_on_startup && (r.state == RunState::Idle || r.state == RunState::Finished) {
        r.spec_start_at(0, timers, now, id).0
    } else {
        r
    }
}

/// What refreshing a runner at `now` records.
pub open spec fn refresh_events(r: ScheduleRunner, now: u64) -> Seq<Event> {
    if r.state == RunState::Active {
        transition_events(r.timer->0, r.timer->0.spec_update(now))
    } else {
        Seq::empty()
    }
}

/// A runner after refreshing at `now`.
pub open spec fn refreshed(r: ScheduleRunner, now: u64) -> ScheduleRunner {
    if r.state == RunState::Active {
        ScheduleRunner { timer: Some(r.timer->0.spec_update(now)), ..r }
    } else {
        r
    }
}

/// The events that refreshing all of `rs`, in order, records.
pub open spec fn all_refresh_events(rs: Seq<ScheduleRunner>, now: u64) -> Seq<Event>
    decreases rs.len(),
{
    if rs.len() == 0 {
        Seq::empty()
    } else {
        all_refresh_events(rs.drop_last(), now) + refresh_events(rs.last(), now)
    }
}

/// What starting a runner at the start of a cycle reports.
pub open spec fn start_outcome(r: ScheduleRunner, startup: bool, timers: Seq<Timer>, now: u64, id: u64) -> Outcome {
    if startup && r.schedule.start_on_startup && (r.state == RunState::Idle || r.state == RunState::Finished) {
        r.spec_start_at(0, timers, now, id).1
    } else {
        Outcome::Continue
    }
}

/// Countdown ids handed out in one pass over the runners: `base` onwards.
pub open spec fn id_at(base: u64, i: int) -> u64 {
    (base + i) as u64
}

impl MainLoop {
    pub open spec fn started_runners(self, now: u64) -> Seq<ScheduleRunner> {
        Seq::new(
            self.runners@.len(),
            |i: int| started_runner(self.runners@[i], !self.started, self.timers@, now, id_at(self.next_id, i)),
        )
    }

    pub open spec fn wf(self) -> bool {
        forall|i: int| 0 <= i < self.runners@.len() ==> (#[trigger] self.runners@[i]).wf()
    }

    /// Whether ordinary keys are ignored: some running schedule's countdown
    /// locks input.
    pub open spec fn spec_locked(self) -> bool {
        exists|i: int|
            0 <= i < self.runners@.len() && self.runners@[i].state == RunState::Active
                && (#[trigger] self.runners@[i]).timer->0.lock_input
    }

    /// A loop over a validated configuration, with no schedule started.
    pub fn new(cfg: Cfg) -> (m: MainLoop)
        requires
            cfg.valid(),
        ensures
            m.wf(),
            m.timers == cfg.timers,
            m.runners@.len() == cfg.schedules@.len(),
            forall|i: int|
                0 <= i < m.runners@.len() ==> (#[trigger] m.runners@[i]) == (ScheduleRunner {
                    schedule: cfg.schedules@[i],
                    cursor: 0,
                    timer: None,
                    state: RunState::Idle,
                }),
            m.next_id == 0,
            !m.started,
    {
        let Cfg { timers, schedules } = cfg;
        let mut runners: Vec<ScheduleRunner> = Vec::new();
        let mut rest = schedules;
        let ghost all = rest@;
        let n: usize = rest.len();
        let mut i: usize = 0;
        while rest.len() > 0
            invariant
                i + rest@.len() == all.len(),
                all.len() == n,
                runners@.len() == i,
                rest@ == all.subrange(i as int, all.len() as int),
                forall|k: int| 0 <= k < all.len() ==> crate::config::schedule_ok(#[trigger] all[k]),
                forall|k: int|
                    0 <= k < i ==> (#[trigger] runners@[k]) == (ScheduleRunner {
                        schedule: all[k],
                        cursor: 0,
                        timer: None,
                        state: RunState::Idle,
                    }),
            decreases rest@.len(),
        {
            let s = rest.remove(0);
            assert(s == all[i as int]);
            runners.push(ScheduleRunner::new(s));
            i = i + 1;
        }
        MainLoop { timers, runners, next_id: 0, started: false }
    }

    /// Opens a cycle at `now`: on the first cycle starts the schedules marked
    /// for startup, brings every running countdown up to `now`, and returns
    /// the cycle's batch with the startup failures, by runner index.
    pub fn begin(&mut self, now: u64, key: Option<u32>, confirm: bool) -> (res: (Events, Vec<(usize, Outcome)>))
        requires
            old(self).wf(),
            old(self).next_id + old(self).runners@.len() <= u64::MAX,
        ensures
            final(self).wf(),
            final(self).timers == old(self).timers,
            final(self).started,
            final(self).next_id == old(self).next_id + old(self).runners@.len(),
            final(self).runners@.len() == old(self).runners@.len(),
            forall|i: int|
                0 <= i < old(self).runners@.len() ==> final(self).runners@[i] == refreshed(
                    #[trigger] old(self).started_runners(now)[i],
                    now,
                ),
            res.0@ == input_events(now, key, old(self).spec_locked(), confirm) + all_refresh_events(
                old(self).started_runners(now),
                now,
            ),
            forall|k: int|
                0 <= k < res.1@.len() ==> {
                    let (i, o) = #[trigger] res.1@[k];
                    &&& i < old(self).runners@.len()
                    &&& o != Outcome::Continue
                    &&& o == start_outcome(
                        old(self).runners@[i as int],
                        !old(self).started,
                        old(self).timers@,
                        now,
                        id_at(old(self).next_id, i as int),
                    )
                },
            forall|i: int|
                0 <= i < old(self).runners@.len() && start_outcome(
                    #[trigger] old(self).runners@[i],
                    !old(self).started,
                    old(self).timers@,
                    now,
                    id_at(old(self).next_id, i),
                ) != Outcome::Continue ==> exists|k: int| 0 <= k < res.1@.len() && res.1@[k].0 == i,
    {
        let ghost pre = *self;
        let locked = self.locked();
        let mut b = Events::builder();
        b.push(Event::Tick { timestamp: now });
        push_key(&mut b, key, locked);
        assert(b@ =~= seq![Event::Tick { timestamp: now }] + key_events(key, locked));
        let ghost mid = b@;
        if confirm {
            b.push(Event::ConfirmReceived);
            assert(b@ =~= mid + seq![Event::ConfirmReceived]);
        } else {
            assert(b@ =~= mid + Seq::<Event>::empty());
        }
        proof {
            assert(locked == pre.spec_locked());
            assert(b@ =~= input_events(now, key, pre.spec_locked(), confirm));
            assert(pre.started_runners(now).take(0) =~= Seq::<ScheduleRunner>::empty());
        }
        let first = !self.started;
        let mut rest: Vec<ScheduleRunner> = Vec::new();
        std::mem::swap(&mut rest, &mut self.runners);
        let n: usize = rest.len();
        let mut failed: Vec<(usize, Outcome)> = Vec::new();
        let mut i: usize = 0;
        while i < n
            invariant
                n == pre.runners@.len(),
                i + rest@.len() == n,
                rest@ == pre.runners@.subrange(i as int, n as int),
                pre.wf(),
                pre.next_id + n <= u64::MAX,
                first == !pre.started,
                self.timers == pre.timers,
                self.next_id == pre.next_id,
                self.started == pre.started,
                self.runners@.len() == i,
                forall|j: int| 0 <= j < i ==> (#[trigger] self.runners@[j]).wf(),
                forall|j: int|
                    0 <= j < i ==> self.runners@[j] == refreshed(
                        #[trigger] pre.started_runners(now)[j],
                        now,
                    ),
                b@ == input_events(now, key, pre.spec_locked(), confirm) + all_refresh_events(
                    pre.started_runners(now).take(i as int),
                    now,
                ),
                forall|k: int|
                    0 <= k < failed@.len() ==> {
                        let (j, o) = #[trigger] failed@[k];
                        &&& j < i
                        &&& o != Outcome::Continue
                        &&& o == start_outcome(pre.runners@[j as int], first, pre.timers@, now, id_at(pre.next_id, j as int))
                    },
                forall|j: int|
                    0 <= j < i && start_outcome(#[trigger] pre.runners@[j], first, pre.timers@, now, id_at(pre.next_id, j))
                        != Outcome::Continue ==> exists|k: int| 0 <= k < failed@.len() && failed@[k].0 == j,
            decreases n - i,
        {
            let mut r = rest.remove(0);
            assert(r == pre.runners@[i as int]);
            assert(r.wf());
            let id: u64 = self.next_id + i as u64;
            if first && r.schedule.start_on_startup && (r.state == RunState::Idle || r.state == RunState::Finished) {
                let o = r.start(&self.timers, now, id);
                let ghost before = failed@;
                if o != Outcome::Continue {
                    failed.push((i, o));
                    assert(failed@[failed@.len() - 1].0 == i);
                }
                assert(forall|k: int| 0 <= k < before.len() ==> failed@[k] == before[k]);
            }
            assert(r == pre.started_runners(now)[i as int]);
            r.refresh(now, &mut b);
            proof {
                let st = pre.started_runners(now);
                assert(st.take(i + 1).drop_last() =~= st.take(i as int));
                assert(b@ =~= input_events(now, key, pre.spec_locked(), confirm) + all_refresh_events(
                    st.take(i + 1),
                    now,
                ));
            }
            self.runners.push(r);
            i = i + 1;
        }
        proof {
            assert(pre.started_runners(now).take(n as int) =~= pre.started_runners(now));
        }
        self.started = true;
        self.next_id = self.next_id + n as u64;
        (b.finish(), failed)
    }

    /// Hands `batch` to every runner, in order, and returns what each one
    /// that did not simply continue reported, by runner index.
    pub fn dispatch(&mut self, batch: &Events, now: u64) -> (rep: Vec<(usize, Outcome)>)
        requires
            old(self).wf(),
            old(self).next_id + old(self).runners@.len() <= u64::MAX,
        ensures
            final(self).wf(),
            final(self).timers == old(self).timers,
            final(self).started == old(self).started,
            final(self).next_id == old(self).next_id + old(self).runners@.len(),
            final(self).runners@.len() == old(self).runners@.len(),
            forall|i: int|
                0 <= i < old(self).runners@.len() ==> final(self).runners@[i] == (
                #[trigger] old(self).runners@[i]).spec_on_cycle(
                    batch@,
                    old(self).timers@,
                    now,
                    id_at(old(self).next_id, i),
                ).0,
            forall|k: int|
                0 <= k < rep@.len() ==> {
                    let (i, o) = #[trigger] rep@[k];
                    &&& i < old(self).runners@.len()
                    &&& o != Outcome::Continue
                    &&& o == old(self).runners@[i as int].spec_on_cycle(
                        batch@,
                        old(self).timers@,
                        now,
                        id_at(old(self).next_id, i as int),
                    ).1
                },
            forall|i: int|
                0 <= i < old(self).runners@.len() && (#[trigger] old(self).runners@[i]).spec_on_cycle(
                    batch@,
                    old(self).timers@,
                    now,
                    id_at(old(self).next_id, i),
                ).1 != Outcome::Continue ==> exists|k: int| 0 <= k < rep@.len() && rep@[k].0 == i,
    {
        let ghost pre = *self;
        let mut rest: Vec<ScheduleRunner> = Vec::new();
        std::mem::swap(&mut rest, &mut self.runners);
        let n: usize = rest.len();
        let mut rep: Vec<(usize, Outcome)> = Vec::new();
        let mut i: usize = 0;
        while i < n
            invariant
                n == pre.runners@.len(),
                i + rest@.len() == n,
                rest@ == pre.runners@.subrange(i as int, n as int),
                pre.wf(),
                pre.next_id + n <= u64::MAX,
                self.timers == pre.timers,
                self.next_id == pre.next_id,
                self.started == pre.started,
                self.runners@.len() == i,
                forall|j: int| 0 <= j < i ==> (#[trigger] self.runners@[j]).wf(),
                forall|j: int|
                    0 <= j < i ==> self.runners@[j] == (#[trigger] pre.runners@[j]).spec_on_cycle(
                        batch@,
                        pre.timers@,
                        now,
                        id_at(pre.next_id, j),
                    ).0,
                forall|k: int|
                    0 <= k < rep@.len() ==> {
                        let (j, o) = #[trigger] rep@[k];
                        &&& j < i
                        &&& o != Outcome::Continue
                        &&& o == pre.runners@[j as int].spec_on_cycle(batch@, pre.timers@, now, id_at(pre.next_id, j as int)).1
                    },
                forall|j: int|
                    0 <= j < i && (#[trigger] pre.runners@[j]).spec_on_cycle(batch@, pre.timers@, now, id_at(pre.next_id, j)).1
                        != Outcome::Continue ==> exists|k: int| 0 <= k < rep@.len() && rep@[k].0 == j,
            decreases n - i,
        {
            let mut r = rest.remove(0);
            assert(r == pre.runners@[i as int]);
            assert(r.wf());
            let id: u64 = self.next_id + i as u64;
            let o = r.on_cycle(batch, &self.timers, now, id);
            let ghost before = rep@;
            if o != Outcome::Continue {
                rep.push((i, o));
                assert(rep@[rep@.len() - 1].0 == i);
            }
            assert(forall|k: int| 0 <= k < before.len() ==> rep@[k] == before[k]);
            self.runners.push(r);
            i = i + 1;
        }
        self.next_id = self.next_id + n as u64;
        rep
    }

    /// Whether the loop has nothing left to run: the first cycle has started
    /// the startup schedules and none is running any more.
    pub fn all_done(&self) -> (b: bool)
        ensures
            b == (self.started && forall|i: int|
                0 <= i < self.runners@.len() ==> !(#[trigger] self.runners@[i]).spec_running()),
    {
        if !self.started {
            return false;
        }
        let mut i: usize = 0;
        while i < self.runners.len()
            invariant
                i <= self.runners@.len(),
                forall|j: int| 0 <= j < i ==> !(#[trigger] self.runners@[j]).spec_running(),
            decreases self.runners@.len() - i,
        {
            if self.runners[i].is_running() {
                return false;
            }
            i = i + 1;
        }
        true
    }

    /// Whether ordinary keys are ignored now.
    pub fn locked(&self) -> (b: bool)
        requires
            self.wf(),
        ensures
            b == self.spec_locked(),
    {
        let mut i: usize = 0;
        while i < self.runners.len()
            invariant
                i <= self.runners@.len(),
                self.wf(),
                forall|j: int|
                    0 <= j < i ==> !(self.runners@[j].state == RunState::Active
                        && (#[trigger] self.runners@[j]).timer->0.lock_input),
            decreases self.runners@.len() - i,
        {
            let r = &self.runners[i];
            assert(self.runners@[i as int].wf());
            if r.state == RunState::Active {
                match &r.timer {
                    Some(t) => if t.lock_input {
                        return true;
                    },
                    None => {},
                }
            }
            i = i + 1;
        }
        false
    }
}

} // verus!
