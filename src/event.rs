//! Events and per-cycle event batches.
use vstd::prelude::*;

verus! {

/// The kind of an event, without its payload.
#[derive(Clone, Copy, Debug, PartialEq, Eq, Structural)]
pub enum EventKind {
    Tick,
    KeyPress,
    TimerExpired,
    TimerWarn,
    ConfirmReceived,
}

/// One event of a cycle. Two events are equal exactly when their kinds and
/// their payloads are equal.
#[derive(Clone, Copy, Debug, PartialEq, Eq, Structural)]
pub enum Event {
    /// Time advanced; `timestamp` is in milliseconds.
    Tick { timestamp: u64 },
    /// A key was pressed; `key` is its code.
    KeyPress { key: u32 },
    TimerExpired { timer_id: u64 },
    TimerWarn { timer_id: u64 },
    ConfirmReceived,
}

impl Event {
    pub open spec fn spec_kind(self) -> EventKind {
        match self {
            Event::Tick { .. } => EventKind::Tick,
            Event::KeyPress { .. } => EventKind::KeyPress,
            Event::TimerExpired { .. } => EventKind::TimerExpired,
            Event::TimerWarn { .. } => EventKind::TimerWarn,
            Event::ConfirmReceived => EventKind::ConfirmReceived,
        }
    }

    pub fn kind(&self) -> (k: EventKind)
        ensures
            k == self.spec_kind(),
    {
        match self {
            Event::Tick { .. } => EventKind::Tick,
            Event::KeyPress { .. } => EventKind::KeyPress,
            Event::TimerExpired { .. } => EventKind::TimerExpired,
            Event::TimerWarn { .. } => EventKind::TimerWarn,
            Event::ConfirmReceived => EventKind::ConfirmReceived,
        }
    }

    /// Whether this event is of kind `k`.
    pub fn is(&self, k: EventKind) -> (r: bool)
        ensures
            r == (self.spec_kind() == k),
    {
        self.kind() == k
    }
}


/// The payload of an event, as a number.
pub open spec fn payload(e: Event) -> int {
    match e {
        Event::Tick { timestamp } => timestamp as int,
        Event::KeyPress { key } => key as int,
        Event::TimerExpired { timer_id } => timer_id as int,
        Event::TimerWarn { timer_id } => timer_id as int,
        Event::ConfirmReceived => 0,
    }
}

/// Two events are equal exactly when both their kinds and their payloads
/// are: events of different kinds never are, whatever their payloads.
pub proof fn lemma_event_eq(a: Event, b: Event)
    ensures
        (a == b) <==> (a.spec_kind() == b.spec_kind() && payload(a) == payload(b)),
{
}

/// A batch of events under construction.
pub struct EventsBuilder(Vec<Event>);

impl View for EventsBuilder {
    type V = Seq<Event>;

    closed spec fn view(&self) -> Seq<Event> {
        self.0@
    }
}

impl EventsBuilder {
    pub fn new() -> (b: EventsBuilder)
        ensures
            b@ == Seq::<Event>::empty(),
    {
        EventsBuilder(Vec::new())
    }

    /// Appends an event; equal events may be recorded more than once.
    pub fn push(&mut self, with: Event)
        ensures
            final(self)@ == old(self)@.push(with),
    {
        self.0.push(with)
    }

    /// Ends the batch; the result is never changed afterwards.
    pub fn finish(self) -> (e: Events)
        ensures
            e@ == self@,
    {
        Events(self.0)
    }
}

/// A finished batch of events, in the order they were recorded.
pub struct Events(Vec<Event>);

impl View for Events {
    type V = Seq<Event>;

    closed spec fn view(&self) -> Seq<Event> {
        self.0@
    }
}

/// Index of the earliest event of kind `k` in `s`, if any.
pub open spec fn first_of_kind(s: Seq<Event>, k: EventKind) -> Option<int>
    decreases s.len(),
{
    if s.len() == 0 {
        None
    } else if s[0].spec_kind() == k {
        Some(0)
    } else {
        match first_of_kind(s.drop_first(), k) {
            Some(i) => Some(i + 1),
            None => None,
        }
    }
}

pub proof fn lemma_first_of_kind(s: Seq<Event>, k: EventKind)
    ensures
        match first_of_kind(s, k) {
            Some(i) => 0 <= i < s.len() && s[i].spec_kind() == k && forall|j: int|
                0 <= j < i ==> s[j].spec_kind() != k,
            None => forall|j: int| 0 <= j < s.len() ==> s[j].spec_kind() != k,
        },
    decreases s.len(),
{
    if s.len() > 0 && s[0].spec_kind() != k {
        lemma_first_of_kind(s.drop_first(), k);
        assert forall|j: int| 1 <= j < s.len() implies s[j] == s.drop_first()[j - 1] by {}
    }
}

impl Events {
    pub fn builder() -> (b: EventsBuilder)
        ensures
            b@ == Seq::<Event>::empty(),
    {
        EventsBuilder::new()
    }

    pub fn len(&self) -> (n: usize)
        ensures
            n == self@.len(),
    {
        self.0.len()
    }

    /// Whether an equal event (same kind, same payload) is in the batch.
    pub fn contains(&self, event: &Event) -> (r: bool)
        ensures
            r == self@.contains(*event),
    {
        let mut i: usize = 0;
        while i < self.0.len()
            invariant
                i <= self@.len(),
                forall|j: int| 0 <= j < i ==> self@[j] != *event,
            decreases self@.len() - i,
        {
            if self.0[i] == *event {
                return true;
            }
            i = i + 1;
        }
        false
    }

    /// The earliest event of kind `k`, if any.
    pub fn find(&self, k: EventKind) -> (r: Option<&Event>)
        ensures
            match first_of_kind(self@, k) {
                Some(i) => r == Some(&self@[i]),
                None => r is None,
            },
    {
        proof {
            lemma_first_of_kind(self@, k);
        }
        let mut i: usize = 0;
        while i < self.0.len()
            invariant
                i <= self@.len(),
                forall|j: int| 0 <= j < i ==> self@[j].spec_kind() != k,
                match first_of_kind(self@, k) {
                    Some(f) => 0 <= f < self@.len() && self@[f].spec_kind() == k && forall|j: int|
                        0 <= j < f ==> self@[j].spec_kind() != k,
                    None => forall|j: int| 0 <= j < self@.len() ==> self@[j].spec_kind() != k,
                },
            decreases self@.len() - i,
        {
            if self.0[i].is(k) {
                return Some(&self.0[i]);
            }
            i = i + 1;
        }
        None
    }
}

} // verus!
