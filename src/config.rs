//! Timer and schedule definitions, as plain values. Durations are in
//! milliseconds.
use vstd::prelude::*;

use crate::utils::W;

verus! {

/// A terminal color.
#[derive(Clone, Copy, Debug, PartialEq, Eq, Structural)]
pub enum Color {
    Black,
    DarkGrey,
    Red,
    DarkRed,
    Green,
    DarkGreen,
    Yellow,
    DarkYellow,
    Blue,
    DarkBlue,
    Magenta,
    DarkMagenta,
    Cyan,
    DarkCyan,
    White,
    Grey,
    Rgb { r: u8, g: u8, b: u8 },
    AnsiValue(u8),
}

/// Presentation hints for a timer.
#[derive(Clone, Copy, Debug, PartialEq, Eq, Structural)]
pub struct Theme {
    pub primary_color: W<Color>,
    pub secondary_color: W<Color>,
    pub gradient_bar: bool,
}

impl Default for Theme {
    fn default() -> (t: Theme)
        ensures
            t == (Theme {
                primary_color: W(Color::Grey),
                secondary_color: W(Color::Grey),
                gradient_bar: true,
            }),
    {
        Theme { primary_color: W(Color::Grey), secondary_color: W(Color::Grey), gradient_bar: true }
    }
}

/// A timer definition.
#[derive(Clone, Debug)]
pub struct Timer {
    pub title: String,
    pub lock_input: bool,
    pub warn: Option<u64>,
    pub time: u64,
    pub theme: Option<Theme>,
    pub sound: Option<String>,
}

/// What happens once a schedule's timer expires.
#[derive(Clone, Copy, Debug, PartialEq, Eq, Structural)]
pub enum TimerEndAction {
    /// Go on to the next action at once.
    Next,
    /// Wait for a confirmation first.
    WaitForConfirmation,
}

/// One step of a schedule.
#[derive(Clone, Debug)]
pub enum Action {
    /// Start the timer of the configuration with this title.
    StartExistingTimer(String, TimerEndAction),
    /// Start the timer defined here.
    StartTimer(Timer, TimerEndAction),
}

impl Action {
    pub open spec fn end_action(self) -> TimerEndAction {
        match self {
            Action::StartExistingTimer(_, e) => e,
            Action::StartTimer(_, e) => e,
        }
    }
}

/// A named sequence of actions.
#[derive(Clone, Debug)]
pub struct Schedule {
    pub title: String,
    pub actions: Vec<Action>,
    pub loop_schedule: bool,
    pub start_on_startup: bool,
}

/// A whole configuration.
#[derive(Clone, Debug)]
pub struct Cfg {
    pub timers: Vec<Timer>,
    pub schedules: Vec<Schedule>,
}

/// Why a configuration was refused.
#[derive(Clone, Copy, Debug, PartialEq, Eq, Structural)]
pub enum ConfigError {
    /// The timer at this index has a zero duration, or a warn threshold not below it.
    InvalidTimer(usize),
    /// The timer at this index has the title of an earlier one.
    DuplicateTitle(usize),
    /// The schedule at this index has no actions.
    EmptySchedule(usize),
    /// An inline timer of this schedule, at this action, is invalid.
    InvalidInlineTimer(usize, usize),
}

/// A duration above zero, and a warn threshold, if any, below it.
pub open spec fn timer_ok(t: Timer) -> bool {
    t.time > 0 && (t.warn is Some ==> t.warn->0 < t.time)
}

pub open spec fn action_ok(a: Action) -> bool {
    match a {
        Action::StartTimer(t, _) => timer_ok(t),
        Action::StartExistingTimer(_, _) => true,
    }
}

pub open spec fn schedule_ok(s: Schedule) -> bool {
    s.actions@.len() > 0 && forall|j: int| 0 <= j < s.actions@.len() ==> action_ok(#[trigger] s.actions@[j])
}

/// Index of the first timer titled `name`.
pub open spec fn title_index(timers: Seq<Timer>, name: Seq<char>) -> Option<int> {
    if exists|i: int| 0 <= i < timers.len() && timers[i].title@ == name {
        let i = choose|i: int|
            0 <= i < timers.len() && timers[i].title@ == name && forall|j: int|
                0 <= j < i ==> timers[j].title@ != name;
        Some(i)
    } else {
        None
    }
}

impl Cfg {
    /// Every timer valid and titled uniquely, every schedule non-empty with
    /// valid inline timers.
    pub open spec fn valid(self) -> bool {
        &&& forall|i: int| 0 <= i < self.timers@.len() ==> timer_ok(#[trigger] self.timers@[i])
        &&& forall|i: int, j: int|
            0 <= i < j < self.timers@.len() ==> self.timers@[i].title@ != self.timers@[j].title@
        &&& forall|i: int| 0 <= i < self.schedules@.len() ==> schedule_ok(#[trigger] self.schedules@[i])
    }

    /// Checks the configuration as a whole before anything runs.
    pub fn validate(&self) -> (r: Result<(), ConfigError>)
        ensures
            r is Ok <==> self.valid(),
            r matches Err(ConfigError::InvalidTimer(i)) ==> i < self.timers@.len() && !timer_ok(self.timers@[i as int]),
            r matches Err(ConfigError::DuplicateTitle(j)) ==> j < self.timers@.len() && exists|i: int|
                0 <= i < j && self.timers@[i].title@ == self.timers@[j as int].title@,
            r matches Err(ConfigError::EmptySchedule(i)) ==> i < self.schedules@.len()
                && self.schedules@[i as int].actions@.len() == 0,
            r matches Err(ConfigError::InvalidInlineTimer(i, k)) ==> i < self.schedules@.len() && k
                < self.schedules@[i as int].actions@.len() && !action_ok(self.schedules@[i as int].actions@[k as int]),
    {
        let mut i: usize = 0;
        while i < self.timers.len()
            invariant
                i <= self.timers@.len(),
                forall|a: int| 0 <= a < i ==> timer_ok(#[trigger] self.timers@[a]),
                forall|a: int, b: int| 0 <= a < b < i ==> self.timers@[a].title@ != self.timers@[b].title@,
            decreases self.timers@.len() - i,
        {
            let t = &self.timers[i];
            let ok = t.time > 0 && match t.warn {
                Some(w) => w < t.time,
                None => true,
            };
            if !ok {
                return Err(ConfigError::InvalidTimer(i));
            }
            let mut j: usize = 0;
            while j < i
                invariant
                    j <= i < self.timers@.len(),
                    forall|a: int| 0 <= a < j ==> self.timers@[a].title@ != self.timers@[i as int].title@,
                decreases i - j,
            {
                if self.timers[j].title == self.timers[i].title {
                    return Err(ConfigError::DuplicateTitle(i));
                }
                j = j + 1;
            }
            i = i + 1;
        }
        let mut s: usize = 0;
        while s < self.schedules.len()
            invariant
                s <= self.schedules@.len(),
                forall|a: int| 0 <= a < self.timers@.len() ==> timer_ok(#[trigger] self.timers@[a]),
                forall|a: int, b: int|
                    0 <= a < b < self.timers@.len() ==> self.timers@[a].title@ != self.timers@[b].title@,
                forall|a: int| 0 <= a < s ==> schedule_ok(#[trigger] self.schedules@[a]),
            decreases self.schedules@.len() - s,
        {
            let actions = &self.schedules[s].actions;
            if actions.len() == 0 {
                return Err(ConfigError::EmptySchedule(s));
            }
            let mut k: usize = 0;
            while k < actions.len()
                invariant
                    k <= actions@.len(),
                    s < self.schedules@.len(),
                    actions == self.schedules@[s as int].actions,
                    forall|b: int| 0 <= b < k ==> action_ok(#[trigger] actions@[b]),
                decreases actions@.len() - k,
            {
                match &actions[k] {
                    Action::StartTimer(t, _) => {
                        let ok = t.time > 0 && match t.warn {
                            Some(w) => w < t.time,
                            None => true,
                        };
                        if !ok {
                            return Err(ConfigError::InvalidInlineTimer(s, k));
                        }
                    },
                    Action::StartExistingTimer(_, _) => {},
                }
                k = k + 1;
            }
            s = s + 1;
        }
        Ok(())
    }
}

/// The index of the first timer titled `name`, if any.
pub fn find_timer(timers: &Vec<Timer>, name: &String) -> (r: Option<usize>)
    ensures
        r is None <==> title_index(timers@, name@) is None,
        r matches Some(i) ==> title_index(timers@, name@) == Some(i as int) && i < timers@.len()
            && timers@[i as int].title@ == name@,
{
    let mut i: usize = 0;
    while i < timers.len()
        invariant
            i <= timers@.len(),
            forall|j: int| 0 <= j < i ==> timers@[j].title@ != name@,
        decreases timers@.len() - i,
    {
        if timers[i].title == *name {
            let ghost gi = i as int;
            assert(0 <= gi < timers@.len() && timers@[gi].title@ == name@ && forall|j: int|
                0 <= j < gi ==> timers@[j].title@ != name@);
            proof {
                let c = choose|c: int|
                    0 <= c < timers@.len() && timers@[c].title@ == name@ && forall|j: int|
                        0 <= j < c ==> timers@[j].title@ != name@;
                if c < gi {
                } else if c > gi {
                    assert(timers@[gi].title@ != name@);
                }
            }
            return Some(i);
        }
        i = i + 1;
    }
    None
}

} // verus!
