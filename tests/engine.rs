use termtimer::config::{find_timer, Action, Cfg, Color, ConfigError, Schedule, Theme, Timer, TimerEndAction};
use termtimer::event::{Event, EventKind, Events};
use termtimer::main_loop::MainLoop;
use termtimer::schedule::{Outcome, RunState, ScheduleError, ScheduleRunner};
use termtimer::timer::{Phase, TimerRuntime};
use termtimer::utils::W;

fn timer(title: &str, time: u64, warn: Option<u64>) -> Timer {
    Timer { title: title.to_string(), lock_input: false, warn, time, theme: None, sound: None }
}

fn schedule(title: &str, actions: Vec<Action>, looping: bool, startup: bool) -> Schedule {
    Schedule { title: title.to_string(), actions, loop_schedule: looping, start_on_startup: startup }
}

fn cycle(r: &mut ScheduleRunner, timers: &Vec<Timer>, now: u64, id: u64, confirm: bool) -> Outcome {
    let mut b = Events::builder();
    b.push(Event::Tick { timestamp: now });
    if confirm {
        b.push(Event::ConfirmReceived);
    }
    r.refresh(now, &mut b);
    let batch = b.finish();
    r.on_cycle(&batch, timers, now, id)
}

fn events_of(batch: &Events, kind: EventKind) -> usize {
    let mut n = 0;
    for e in [
        Event::TimerExpired { timer_id: 1 },
        Event::TimerWarn { timer_id: 1 },
    ] {
        if e.is(kind) && batch.contains(&e) {
            n += 1;
        }
    }
    n
}

#[test]
fn event_equality_is_tag_aware() {
    assert_ne!(Event::TimerExpired { timer_id: 5 }, Event::TimerWarn { timer_id: 5 });
    assert_eq!(Event::TimerWarn { timer_id: 5 }, Event::TimerWarn { timer_id: 5 });
    assert_ne!(Event::TimerWarn { timer_id: 5 }, Event::TimerWarn { timer_id: 6 });
    assert_ne!(Event::Tick { timestamp: 7 }, Event::KeyPress { key: 7 });
    let mut b = Events::builder();
    b.push(Event::TimerWarn { timer_id: 5 });
    b.push(Event::TimerWarn { timer_id: 5 });
    let batch = b.finish();
    assert_eq!(batch.len(), 2);
    assert!(batch.contains(&Event::TimerWarn { timer_id: 5 }));
    assert!(!batch.contains(&Event::TimerExpired { timer_id: 5 }));
}

#[test]
fn find_returns_earliest_of_kind() {
    let mut b = Events::builder();
    b.push(Event::Tick { timestamp: 3 });
    b.push(Event::KeyPress { key: 10 });
    b.push(Event::KeyPress { key: 20 });
    let batch = b.finish();
    assert_eq!(batch.find(EventKind::KeyPress), Some(&Event::KeyPress { key: 10 }));
    assert_eq!(batch.find(EventKind::Tick), Some(&Event::Tick { timestamp: 3 }));
    assert_eq!(batch.find(EventKind::ConfirmReceived), None);
    assert_eq!(Events::builder().finish().find(EventKind::Tick), None);
}

#[test]
fn sixty_second_timer_with_one_second_ticks() {
    let mut t = TimerRuntime::new(1, 60_000, Some(10_000), false, 0);
    assert_eq!(t.phase, Phase::Running);
    for s in 1..=60u64 {
        let mut b = Events::builder();
        b.push(Event::Tick { timestamp: s * 1000 });
        t.update(s * 1000, &mut b);
        let batch = b.finish();
        if s < 50 {
            assert_eq!(t.phase, Phase::Running);
        }
        if s == 50 {
            assert_eq!(t.phase, Phase::Warning);
            assert!(batch.contains(&Event::TimerWarn { timer_id: 1 }));
        }
        if s > 50 && s < 60 {
            assert_eq!(t.phase, Phase::Warning);
            assert_eq!(batch.len(), 1);
        }
        if s == 60 {
            assert_eq!(t.phase, Phase::Expired);
            assert_eq!(t.remaining, 0);
            assert_eq!(batch.len(), 2);
            assert_eq!(events_of(&batch, EventKind::TimerExpired), 1);
        }
    }
    let mut b = Events::builder();
    t.update(61_000, &mut b);
    assert_eq!(b.finish().len(), 0);
    assert_eq!(t.phase, Phase::Expired);
}

fn transitions(ticks: &[u64]) -> Vec<Event> {
    let mut t = TimerRuntime::new(1, 60_000, Some(10_000), false, 0);
    let mut all = Vec::new();
    for &now in ticks {
        let mut b = Events::builder();
        t.update(now, &mut b);
        let batch = b.finish();
        for kind in [EventKind::TimerWarn, EventKind::TimerExpired] {
            if let Some(e) = batch.find(kind) {
                all.push(*e);
            }
        }
    }
    all
}

#[test]
fn tick_granularity_does_not_change_transitions() {
    let fine: Vec<u64> = (1..=70).map(|s| s * 1000).collect();
    let expected = vec![Event::TimerWarn { timer_id: 1 }, Event::TimerExpired { timer_id: 1 }];
    assert_eq!(transitions(&fine), expected);
    assert_eq!(transitions(&[30_000, 55_000, 90_000]), expected);
    assert_eq!(transitions(&[90_000]), expected);
}

#[test]
fn remaining_never_grows_when_time_goes_back() {
    let mut t = TimerRuntime::new(2, 10_000, None, false, 1_000);
    let mut b = Events::builder();
    t.update(6_000, &mut b);
    assert_eq!(t.remaining, 5_000);
    t.update(2_000, &mut b);
    assert_eq!(t.remaining, 5_000);
    assert_eq!(t.phase, Phase::Running);
    assert_eq!(b.finish().len(), 0);
}

#[test]
fn next_wait_next_schedule_runs_to_finish() {
    let timers = vec![timer("A", 1_000, None), timer("C", 3_000, None)];
    let actions = vec![
        Action::StartExistingTimer("A".to_string(), TimerEndAction::Next),
        Action::StartTimer(timer("B", 2_000, None), TimerEndAction::WaitForConfirmation),
        Action::StartExistingTimer("C".to_string(), TimerEndAction::Next),
    ];
    let mut r = ScheduleRunner::new(schedule("s", actions, false, false));
    assert_eq!(r.state, RunState::Idle);
    assert_eq!(r.start(&timers, 0, 1), Outcome::Continue);
    assert_eq!(r.state, RunState::Active);
    assert_eq!(r.start(&timers, 0, 99), Outcome::Continue);
    assert_eq!(r.timer.unwrap().id, 1);
    assert_eq!(cycle(&mut r, &timers, 500, 2, false), Outcome::Continue);
    assert_eq!(r.cursor, 0);
    assert_eq!(cycle(&mut r, &timers, 1_000, 2, false), Outcome::Continue);
    assert_eq!(r.cursor, 1);
    assert_eq!(r.state, RunState::Active);
    assert_eq!(r.timer.unwrap().time, 2_000);
    assert_eq!(cycle(&mut r, &timers, 3_000, 3, false), Outcome::Continue);
    assert_eq!(r.state, RunState::AwaitingConfirmation);
    assert_eq!(r.cursor, 1);
    assert_eq!(cycle(&mut r, &timers, 9_000, 3, false), Outcome::Continue);
    assert_eq!(r.state, RunState::AwaitingConfirmation);
    assert_eq!(cycle(&mut r, &timers, 10_000, 3, true), Outcome::Continue);
    assert_eq!(r.cursor, 2);
    assert_eq!(r.state, RunState::Active);
    assert_eq!(r.timer.unwrap().time, 3_000);
    assert_eq!(cycle(&mut r, &timers, 13_000, 4, false), Outcome::Finished);
    assert_eq!(r.state, RunState::Finished);
    assert!(r.timer.is_none());
    assert!(!r.is_running());
}

#[test]
fn looping_schedule_restarts_with_full_duration() {
    let timers = vec![timer("A", 1_000, None), timer("B", 4_000, Some(1_000))];
    let actions = vec![
        Action::StartExistingTimer("A".to_string(), TimerEndAction::Next),
        Action::StartExistingTimer("B".to_string(), TimerEndAction::Next),
    ];
    let mut r = ScheduleRunner::new(schedule("loop", actions, true, false));
    r.start(&timers, 0, 1);
    cycle(&mut r, &timers, 1_000, 2, false);
    assert_eq!(r.cursor, 1);
    cycle(&mut r, &timers, 3_000, 3, false);
    assert_eq!(r.timer.unwrap().remaining, 2_000);
    assert_eq!(cycle(&mut r, &timers, 5_000, 4, false), Outcome::Continue);
    assert_eq!(r.cursor, 0);
    assert_eq!(r.state, RunState::Active);
    let t = r.timer.unwrap();
    assert_eq!(t.remaining, 1_000);
    assert_eq!(t.started_at, 5_000);
    assert_eq!(t.id, 4);
}

#[test]
fn missing_timer_fails_only_its_schedule() {
    let cfg = Cfg {
        timers: vec![timer("A", 2_000, None)],
        schedules: vec![
            schedule(
                "broken",
                vec![Action::StartExistingTimer("missing".to_string(), TimerEndAction::Next)],
                false,
                true,
            ),
            schedule("fine", vec![Action::StartExistingTimer("A".to_string(), TimerEndAction::Next)], false, true),
        ],
    };
    assert_eq!(cfg.validate(), Ok(()));
    let mut m = MainLoop::new(cfg);
    let (batch, failed) = m.begin(0, None, false);
    assert_eq!(failed, vec![(0, Outcome::Failed(ScheduleError::ConfigReference(0)))]);
    assert!(batch.contains(&Event::Tick { timestamp: 0 }));
    assert_eq!(m.runners[0].state, RunState::Failed);
    assert!(m.runners[0].timer.is_none());
    assert_eq!(m.runners[1].state, RunState::Active);
    assert_eq!(m.dispatch(&batch, 0), vec![]);
    let (batch, failed) = m.begin(2_000, None, false);
    assert!(failed.is_empty());
    assert!(!m.all_done());
    assert_eq!(m.dispatch(&batch, 2_000), vec![(1, Outcome::Finished)]);
    assert_eq!(m.runners[0].state, RunState::Failed);
    assert!(m.all_done());
}

#[test]
fn locked_timer_ignores_keys() {
    let mut a = timer("A", 5_000, None);
    a.lock_input = true;
    let cfg = Cfg {
        timers: vec![a],
        schedules: vec![schedule("s", vec![Action::StartExistingTimer("A".to_string(), TimerEndAction::Next)], false, false)],
    };
    let mut m = MainLoop::new(cfg);
    let (batch, _) = m.begin(0, Some(113), false);
    assert!(batch.contains(&Event::KeyPress { key: 113 }));
    let timers = m.timers.clone();
    m.runners[0].start(&timers, 0, 100);
    assert!(m.locked());
    let (batch, _) = m.begin(1_000, Some(113), true);
    assert!(!batch.contains(&Event::KeyPress { key: 113 }));
    assert!(batch.contains(&Event::ConfirmReceived));
}

#[test]
fn validate_reports_each_error() {
    let ok = || schedule("s", vec![Action::StartExistingTimer("A".to_string(), TimerEndAction::Next)], false, false);
    let zero = Cfg { timers: vec![timer("A", 0, None)], schedules: vec![] };
    assert_eq!(zero.validate(), Err(ConfigError::InvalidTimer(0)));
    let warn = Cfg { timers: vec![timer("A", 10, Some(10))], schedules: vec![] };
    assert_eq!(warn.validate(), Err(ConfigError::InvalidTimer(0)));
    let dup = Cfg { timers: vec![timer("A", 10, None), timer("A", 20, None)], schedules: vec![ok()] };
    assert_eq!(dup.validate(), Err(ConfigError::DuplicateTitle(1)));
    let empty = Cfg { timers: vec![timer("A", 10, None)], schedules: vec![ok(), schedule("e", vec![], false, false)] };
    assert_eq!(empty.validate(), Err(ConfigError::EmptySchedule(1)));
    let inline = Cfg {
        timers: vec![],
        schedules: vec![schedule(
            "i",
            vec![
                Action::StartTimer(timer("x", 5, None), TimerEndAction::Next),
                Action::StartTimer(timer("y", 5, Some(9)), TimerEndAction::Next),
            ],
            false,
            false,
        )],
    };
    assert_eq!(inline.validate(), Err(ConfigError::InvalidInlineTimer(0, 1)));
}

#[test]
fn find_timer_takes_first_title() {
    let timers = vec![timer("A", 1, None), timer("B", 2, None)];
    assert_eq!(find_timer(&timers, &"B".to_string()), Some(1));
    assert_eq!(find_timer(&timers, &"C".to_string()), None);
}

#[test]
fn default_theme_is_grey_gradient() {
    let t = Theme::default();
    assert_eq!(t.primary_color, W(Color::Grey));
    assert_eq!(t.secondary_color, W(Color::Grey));
    assert!(t.gradient_bar);
}
