use vstd::prelude::*;

verus! {

/// How long the first check for an already running backend may take.
pub const REUSE_PROBE_MS: u64 = 250;

/// How long a freshly spawned backend has to open its port.
pub const READY_TIMEOUT_MS: u64 = 15000;

/// Pause between two probes of the port.
pub const POLL_INTERVAL_MS: u64 = 120;

/// Which readiness wait is under way.
#[derive(Clone, Copy, Debug, PartialEq, Eq, Structural)]
pub enum Wait {
    /// Looking for a backend that was started before this one.
    Existing,
    /// Waiting for the backend that this supervisor spawned.
    Spawned,
}

/// Where the supervisor stands. Times are milliseconds on a monotonic clock.
#[derive(Clone, Copy, Debug, PartialEq, Eq, Structural)]
pub enum Phase {
    /// Nothing has been checked yet.
    Unchecked,
    /// A probe of the port was asked for and its outcome is awaited.
    Probing { wait: Wait, deadline: u64 },
    /// A pause between probes was asked for and its end is awaited.
    Pausing { wait: Wait, deadline: u64 },
    /// The backend's spawn was asked for and its outcome is awaited.
    Spawning,
    /// A backend was already listening: nothing was spawned.
    Reused,
    /// The spawned backend opened its port in time.
    Ready,
    /// The spawn failed, or the backend did not open its port in time.
    Failed,
}

/// What the outside world reports back to the supervisor.
#[derive(Clone, Copy, Debug, PartialEq, Eq, Structural)]
pub enum Event {
    /// The supervisor is started at time `now`.
    Started { now: u64 },
    /// One connection attempt to the port has been made.
    Probed { reachable: bool },
    /// The pause is over; the clock reads `now`.
    Slept { now: u64 },
    /// The spawn was attempted at time `now`; `ok` tells whether it succeeded.
    Spawned { ok: bool, now: u64 },
}

/// What the supervisor asks the outside world to do next.
#[derive(Clone, Copy, Debug, PartialEq, Eq, Structural)]
pub enum Action {
    /// Make one connection attempt to the backend's port.
    Probe,
    /// Pause for `ms` milliseconds, then report the time.
    Sleep { ms: u64 },
    /// Spawn the backend process with its launch arguments and environment.
    Spawn,
    /// The supervision is over; `ready` tells whether the backend is reachable.
    Finish { ready: bool },
}

/// `now + ms`, held at the clock's end.
pub open spec fn deadline_after(now: u64, ms: u64) -> u64 {
    if now + ms > u64::MAX {
        u64::MAX
    } else {
        (now + ms) as u64
    }
}

/// Whether the supervisor in phase `p` takes event `e`.
pub open spec fn accepts(p: Phase, e: Event) -> bool {
    match (p, e) {
        (Phase::Unchecked, Event::Started { .. }) => true,
        (Phase::Probing { .. }, Event::Probed { .. }) => true,
        (Phase::Pausing { .. }, Event::Slept { .. }) => true,
        (Phase::Spawning, Event::Spawned { .. }) => true,
        _ => false,
    }
}

/// Whether `p` is one of the three end states.
pub open spec fn is_terminal(p: Phase) -> bool {
    p is Reused || p is Ready || p is Failed
}

/// What follows once the wait `w` has run past its deadline.
pub open spec fn expiry(w: Wait) -> (Phase, Action) {
    match w {
        Wait::Existing => (Phase::Spawning, Action::Spawn),
        Wait::Spawned => (Phase::Failed, Action::Finish { ready: false }),
    }
}

/// The phase and action that event `e` leads to from phase `p`, where `p` accepts `e`.
pub open spec fn next(p: Phase, e: Event) -> (Phase, Action) {
    match (p, e) {
        (Phase::Unchecked, Event::Started { now }) => (
            Phase::Probing { wait: Wait::Existing, deadline: deadline_after(now, REUSE_PROBE_MS) },
            Action::Probe,
        ),
        (Phase::Probing { wait, deadline }, Event::Probed { reachable }) => {
            if reachable {
                match wait {
                    Wait::Existing => (Phase::Reused, Action::Finish { ready: true }),
                    Wait::Spawned => (Phase::Ready, Action::Finish { ready: true }),
                }
            } else {
                (Phase::Pausing { wait, deadline }, Action::Sleep { ms: POLL_INTERVAL_MS })
            }
        },
        (Phase::Pausing { wait, deadline }, Event::Slept { now }) => {
            if now < deadline {
                (Phase::Probing { wait, deadline }, Action::Probe)
            } else {
                expiry(wait)
            }
        },
        (Phase::Spawning, Event::Spawned { ok, now }) => {
            if ok {
                (
                    Phase::Probing {
                        wait: Wait::Spawned,
                        deadline: deadline_after(now, READY_TIMEOUT_MS),
                    },
                    Action::Probe,
                )
            } else {
                (Phase::Failed, Action::Finish { ready: false })
            }
        },
        _ => (p, Action::Finish { ready: false }),
    }
}

/// The supervisor of the backend process: decides, event by event, whether to reuse a running
/// backend, spawn one, keep polling its port, or give up.
pub struct Supervisor {
    phase: Phase,
}

impl Supervisor {
    pub closed spec fn view_phase(&self) -> Phase {
        self.phase
    }

    /// A supervisor that has checked nothing yet.
    pub fn new() -> (r: Supervisor)
        ensures
            r.view_phase() == Phase::Unchecked,
    {
        Supervisor { phase: Phase::Unchecked }
    }

    /// The current phase.
    pub fn phase(&self) -> (r: Phase)
        ensures
            r == self.view_phase(),
    {
        self.phase
    }

    /// Whether the supervision is over.
    pub fn is_finished(&self) -> (r: bool)
        ensures
            r == is_terminal(self.view_phase()),
    {
        match self.phase {
            Phase::Reused | Phase::Ready | Phase::Failed => true,
            _ => false,
        }
    }

    /// The outcome once the supervision is over: whether the backend is reachable.
    pub fn outcome(&self) -> (r: Option<bool>)
        ensures
            r == match self.view_phase() {
                Phase::Reused | Phase::Ready => Some(true),
                Phase::Failed => Some(false),
                _ => None::<bool>,
            },
    {
        match self.phase {
            Phase::Reused | Phase::Ready => Some(true),
            Phase::Failed => Some(false),
            _ => None,
        }
    }

    /// Whether the current phase takes event `e`.
    pub fn accepts(&self, e: Event) -> (r: bool)
        ensures
            r == accepts(self.view_phase(), e),
    {
        match (self.phase, e) {
            (Phase::Unchecked, Event::Started { .. }) => true,
            (Phase::Probing { .. }, Event::Probed { .. }) => true,
            (Phase::Pausing { .. }, Event::Slept { .. }) => true,
            (Phase::Spawning, Event::Spawned { .. }) => true,
            _ => false,
        }
    }

    /// Takes event `e` and returns the next action.
    pub fn step(&mut self, e: Event) -> (r: Action)
        requires
            accepts(old(self).view_phase(), e),
        ensures
            (final(self).view_phase(), r) == next(old(self).view_phase(), e),
    {
        match (self.phase, e) {
            (Phase::Unchecked, Event::Started { now }) => {
                self.phase = Phase::Probing {
                    wait: Wait::Existing,
                    deadline: now.saturating_add(REUSE_PROBE_MS),
                };
                Action::Probe
            },
            (Phase::Probing { wait, deadline }, Event::Probed { reachable }) => {
                if reachable {
                    self.phase = match wait {
                        Wait::Existing => Phase::Reused,
                        Wait::Spawned => Phase::Ready,
                    };
                    Action::Finish { ready: true }
                } else {
                    self.phase = Phase::Pausing { wait, deadline };
                    Action::Sleep { ms: POLL_INTERVAL_MS }
                }
            },
            (Phase::Pausing { wait, deadline }, Event::Slept { now }) => {
                if now < deadline {
                    self.phase = Phase::Probing { wait, deadline };
                    Action::Probe
                } else {
                    match wait {
                        Wait::Existing => {
                            self.phase = Phase::Spawning;
                            Action::Spawn
                        },
                        Wait::Spawned => {
                            self.phase = Phase::Failed;
                            Action::Finish { ready: false }
                        },
                    }
                }
            },
            (Phase::Spawning, Event::Spawned { ok, now }) => {
                if ok {
                    self.phase = Phase::Probing {
                        wait: Wait::Spawned,
                        deadline: now.saturating_add(READY_TIMEOUT_MS),
                    };
                    Action::Probe
                } else {
                    self.phase = Phase::Failed;
                    Action::Finish { ready: false }
                }
            },
            _ => Action::Finish { ready: false },
        }
    }
}

} // verus!
