use backend_supervisor::supervisor::{
    Action, Event, Phase, Supervisor, Wait, POLL_INTERVAL_MS, READY_TIMEOUT_MS, REUSE_PROBE_MS,
};

fn feed(s: &mut Supervisor, events: &[Event]) -> Vec<Action> {
    let mut actions = Vec::new();
    for e in events {
        assert!(s.accepts(*e));
        actions.push(s.step(*e));
    }
    actions
}

#[test]
fn reuses_backend_already_listening() {
    let mut s = Supervisor::new();
    let acts = feed(
        &mut s,
        &[Event::Started { now: 1000 }, Event::Probed { reachable: true }],
    );
    assert_eq!(acts, vec![Action::Probe, Action::Finish { ready: true }]);
    assert_eq!(s.phase(), Phase::Reused);
    assert_eq!(s.outcome(), Some(true));
    assert!(s.is_finished());
    assert!(!acts.contains(&Action::Spawn));
}

#[test]
fn spawns_when_nothing_listens_and_becomes_ready() {
    let mut s = Supervisor::new();
    let acts = feed(
        &mut s,
        &[
            Event::Started { now: 0 },
            Event::Probed { reachable: false },
            Event::Slept { now: 120 },
            Event::Probed { reachable: false },
            Event::Slept { now: 250 },
            Event::Spawned { ok: true, now: 260 },
            Event::Probed { reachable: false },
            Event::Slept { now: 380 },
            Event::Probed { reachable: true },
        ],
    );
    assert_eq!(
        acts,
        vec![
            Action::Probe,
            Action::Sleep { ms: POLL_INTERVAL_MS },
            Action::Probe,
            Action::Sleep { ms: POLL_INTERVAL_MS },
            Action::Spawn,
            Action::Probe,
            Action::Sleep { ms: POLL_INTERVAL_MS },
            Action::Probe,
            Action::Finish { ready: true },
        ]
    );
    assert_eq!(s.phase(), Phase::Ready);
    assert_eq!(s.outcome(), Some(true));
}

#[test]
fn gives_up_when_port_never_opens() {
    let mut s = Supervisor::new();
    feed(
        &mut s,
        &[
            Event::Started { now: 0 },
            Event::Probed { reachable: false },
            Event::Slept { now: 300 },
        ],
    );
    assert_eq!(s.phase(), Phase::Spawning);
    assert_eq!(s.step(Event::Spawned { ok: true, now: 1000 }), Action::Probe);
    assert_eq!(
        s.phase(),
        Phase::Probing { wait: Wait::Spawned, deadline: 1000 + READY_TIMEOUT_MS }
    );
    let mut now: u64 = 1000;
    let mut probes: u64 = 0;
    loop {
        assert_eq!(s.outcome(), None);
        assert_eq!(
            s.step(Event::Probed { reachable: false }),
            Action::Sleep { ms: POLL_INTERVAL_MS }
        );
        probes += 1;
        now += POLL_INTERVAL_MS;
        match s.step(Event::Slept { now }) {
            Action::Probe => assert!(now < 1000 + READY_TIMEOUT_MS),
            Action::Finish { ready } => {
                assert!(!ready);
                break;
            }
            other => panic!("unexpected action {:?}", other),
        }
    }
    assert!(now >= 1000 + READY_TIMEOUT_MS);
    assert!(now < 1000 + READY_TIMEOUT_MS + POLL_INTERVAL_MS);
    assert_eq!(probes, 125);
    assert_eq!(s.phase(), Phase::Failed);
    assert_eq!(s.outcome(), Some(false));
}

#[test]
fn failed_spawn_ends_without_waiting() {
    let mut s = Supervisor::new();
    feed(
        &mut s,
        &[
            Event::Started { now: 0 },
            Event::Probed { reachable: false },
            Event::Slept { now: REUSE_PROBE_MS },
        ],
    );
    assert_eq!(
        s.step(Event::Spawned { ok: false, now: REUSE_PROBE_MS }),
        Action::Finish { ready: false }
    );
    assert_eq!(s.phase(), Phase::Failed);
    assert!(s.is_finished());
    assert!(!s.accepts(Event::Probed { reachable: true }));
    assert!(!s.accepts(Event::Slept { now: 0 }));
}

#[test]
fn second_launch_against_ready_backend_spawns_nothing() {
    let mut first = Supervisor::new();
    let first_acts = feed(
        &mut first,
        &[
            Event::Started { now: 0 },
            Event::Probed { reachable: false },
            Event::Slept { now: 260 },
            Event::Spawned { ok: true, now: 270 },
            Event::Probed { reachable: true },
        ],
    );
    let mut second = Supervisor::new();
    let second_acts = feed(
        &mut second,
        &[Event::Started { now: 5000 }, Event::Probed { reachable: true }],
    );
    let spawns = first_acts
        .iter()
        .chain(second_acts.iter())
        .filter(|a| **a == Action::Spawn)
        .count();
    assert_eq!(spawns, 1);
    assert_eq!(first.outcome(), Some(true));
    assert_eq!(second.phase(), Phase::Reused);
}

#[test]
fn reuse_probe_deadline_is_short() {
    let mut s = Supervisor::new();
    s.step(Event::Started { now: 40 });
    assert_eq!(
        s.phase(),
        Phase::Probing { wait: Wait::Existing, deadline: 40 + REUSE_PROBE_MS }
    );
    s.step(Event::Probed { reachable: false });
    assert_eq!(s.step(Event::Slept { now: 40 + REUSE_PROBE_MS - 1 }), Action::Probe);
    s.step(Event::Probed { reachable: false });
    assert_eq!(s.step(Event::Slept { now: 40 + REUSE_PROBE_MS }), Action::Spawn);
}

#[test]
fn deadline_holds_at_clock_end() {
    let mut s = Supervisor::new();
    s.step(Event::Started { now: u64::MAX - 10 });
    assert_eq!(
        s.phase(),
        Phase::Probing { wait: Wait::Existing, deadline: u64::MAX }
    );
}

#[test]
fn unexpected_events_are_refused() {
    let s = Supervisor::new();
    assert!(s.accepts(Event::Started { now: 0 }));
    assert!(!s.accepts(Event::Probed { reachable: true }));
    assert!(!s.accepts(Event::Spawned { ok: true, now: 0 }));
    assert!(!s.is_finished());
    assert_eq!(s.outcome(), None);
}
