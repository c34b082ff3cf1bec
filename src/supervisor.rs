//! The supervisor's decisions. Given its record of the supervised process
//! and what just happened, it computes the next record and the one action
//! to perform next; whoever drives it performs the action and reports back
//! the outcome as the next event.
use vstd::prelude::*;

verus! {

/// Where the supervised process stands in its lifecycle.
#[derive(Clone, Copy, Debug, PartialEq, Eq, Structural)]
pub enum LifecycleState {
    /// Spawned and inside its grace period, or past it and not yet probed.
    Starting,
    /// The last health check after the grace period succeeded.
    Healthy,
    /// A health check after the grace period failed; a kill is due.
    Unhealthy,
    /// No process runs; a spawn is due.
    Terminated,
}

/// The supervisor's record of one supervised process. Times are
/// milliseconds on a monotonic clock.
#[derive(Clone, Copy, Debug, PartialEq, Eq, Structural)]
pub struct ProcessRecord {
    /// The process identifier; set while a process runs.
    pub pid: Option<u32>,
    pub state: LifecycleState,
    /// When `state` was entered.
    pub since: u64,
    /// When the process was spawned.
    pub started_at: u64,
}

/// What the driver observed, in answer to the last action.
#[derive(Clone, Copy, Debug, PartialEq, Eq, Structural)]
pub enum Event {
    /// A new process runs with identifier `pid` (answers `Spawn`).
    Spawned { pid: u32, now: u64 },
    /// The process could not be created (answers `Spawn`).
    SpawnFailed,
    /// A polling interval passed (answers `Wait`).
    Tick { now: u64 },
    /// The output stream of process `pid` closed: it ended (answers `Wait`).
    OutputClosed { pid: u32, now: u64 },
    /// A health check classified the process (answers `Probe`).
    Probed { healthy: bool, now: u64 },
    /// The forced kill was requested (answers `Kill`).
    KillIssued { now: u64 },
}

/// What the driver does next.
#[derive(Clone, Copy, Debug, PartialEq, Eq, Structural)]
pub enum Action {
    /// Spawn a new process; report `Spawned` or `SpawnFailed`.
    Spawn,
    /// Wait one polling interval; report `Tick`, or `OutputClosed` where
    /// the output stream closes first.
    Wait,
    /// Run one health check; report `Probed`.
    Probe,
    /// Forcibly end the process `pid`; report `KillIssued`.
    Kill { pid: u32 },
    /// Stop supervising: the process could not be spawned.
    Halt,
}

/// Whether the grace period of the process in `r` is over at `now`.
pub open spec fn grace_elapsed(r: ProcessRecord, grace: u64, now: u64) -> bool {
    now >= r.started_at && now - r.started_at >= grace
}

impl ProcessRecord {
    /// A process identifier is held exactly while a process runs, and a
    /// health verdict is only ever reached after the grace period.
    pub open spec fn wf(self, grace: u64) -> bool {
        &&& (self.pid is Some <==> self.state != LifecycleState::Terminated)
        &&& (self.state == LifecycleState::Healthy || self.state == LifecycleState::Unhealthy)
            ==> grace_elapsed(self, grace, self.since)
    }
}

/// The record after the process of `r` ended at `now`.
pub open spec fn ended(r: ProcessRecord, now: u64) -> ProcessRecord {
    ProcessRecord { pid: None, state: LifecycleState::Terminated, since: now, started_at: r.started_at }
}

/// The record `r` with `state` entered at `now`.
pub open spec fn entered(r: ProcessRecord, state: LifecycleState, now: u64) -> ProcessRecord {
    ProcessRecord { pid: r.pid, state, since: now, started_at: r.started_at }
}

/// The identifier held by `r`, or 0 where none is.
pub open spec fn pid_of(r: ProcessRecord) -> u32 {
    match r.pid {
        Some(p) => p,
        None => 0,
    }
}

/// The action that a running process's record asks for when nothing
/// changes: the kill where one is due, else waiting.
pub open spec fn pending(r: ProcessRecord) -> Action {
    if r.state == LifecycleState::Unhealthy {
        Action::Kill { pid: pid_of(r) }
    } else {
        Action::Wait
    }
}

/// One decision: the next record and action after event `e` in record `r`,
/// with a grace period of `grace` milliseconds.
pub open spec fn next(r: ProcessRecord, grace: u64, e: Event) -> (ProcessRecord, Action) {
    if r.state == LifecycleState::Terminated {
        match e {
            Event::Spawned { pid, now } => (
                ProcessRecord {
                    pid: Some(pid),
                    state: LifecycleState::Starting,
                    since: now,
                    started_at: now,
                },
                Action::Wait,
            ),
            Event::SpawnFailed => (r, Action::Halt),
            _ => (r, Action::Spawn),
        }
    } else {
        match e {
            Event::OutputClosed { pid, now } => if r.pid == Some(pid) {
                (ended(r, now), Action::Spawn)
            } else {
                (r, pending(r))
            },
            Event::Tick { now } => if r.state == LifecycleState::Unhealthy {
                (r, pending(r))
            } else if r.state == LifecycleState::Healthy || grace_elapsed(r, grace, now) {
                (r, Action::Probe)
            } else {
                (r, Action::Wait)
            },
            Event::Probed { healthy, now } => if r.state == LifecycleState::Unhealthy
                || !grace_elapsed(r, grace, now) {
                (r, pending(r))
            } else if healthy {
                if r.state == LifecycleState::Healthy {
                    (r, Action::Wait)
                } else {
                    (entered(r, LifecycleState::Healthy, now), Action::Wait)
                }
            } else {
                (entered(r, LifecycleState::Unhealthy, now), Action::Kill { pid: pid_of(r) })
            },
            Event::KillIssued { now } => if r.state == LifecycleState::Unhealthy {
                (ended(r, now), Action::Spawn)
            } else {
                (r, pending(r))
            },
            _ => (r, pending(r)),
        }
    }
}

/// The records and actions after each event of `events`, from record `r`.
pub open spec fn run_trace(r: ProcessRecord, grace: u64, events: Seq<Event>) -> Seq<
    (ProcessRecord, Action),
>
    decreases events.len(),
{
    if events.len() == 0 {
        Seq::empty()
    } else {
        let (r1, a1) = next(r, grace, events[0]);
        seq![(r1, a1)] + run_trace(r1, grace, events.drop_first())
    }
}

/// Supervises one process at a time, restarting it whenever it ends or
/// stops answering health checks.
#[derive(Clone, Copy, Debug)]
pub struct Supervisor {
    pub record: ProcessRecord,
    /// How long after a spawn health checks are suppressed, in milliseconds.
    pub grace_ms: u64,
}

impl Supervisor {
    pub open spec fn wf(&self) -> bool {
        self.record.wf(self.grace_ms)
    }

    /// A supervisor with no process yet: its first action is `Spawn`.
    pub fn new(grace_ms: u64) -> (s: Supervisor)
        ensures
            s.wf(),
            s.grace_ms == grace_ms,
            s.record.state == LifecycleState::Terminated,
            s.record.pid is None,
    {
        Supervisor {
            record: ProcessRecord {
                pid: None,
                state: LifecycleState::Terminated,
                since: 0,
                started_at: 0,
            },
            grace_ms,
        }
    }

    /// Applies event `e` and returns the action to perform next.
    pub fn step(&mut self, e: Event) -> (a: Action)
        requires
            old(self).wf(),
        ensures
            final(self).wf(),
            final(self).grace_ms == old(self).grace_ms,
            (final(self).record, a) == next(old(self).record, old(self).grace_ms, e),
    {
        let r = self.record;
        let grace = self.grace_ms;
        let pid: u32 = match r.pid {
            Some(p) => p,
            None => 0,
        };
        let due = if r.state == LifecycleState::Unhealthy {
            Action::Kill { pid }
        } else {
            Action::Wait
        };
        if r.state == LifecycleState::Terminated {
            return match e {
                Event::Spawned { pid, now } => {
                    self.record = ProcessRecord {
                        pid: Some(pid),
                        state: LifecycleState::Starting,
                        since: now,
                        started_at: now,
                    };
                    Action::Wait
                },
                Event::SpawnFailed => Action::Halt,
                _ => Action::Spawn,
            };
        }
        match e {
            Event::OutputClosed { pid: closed, now } => {
                if pid == closed {
                    self.record = ProcessRecord {
                        pid: None,
                        state: LifecycleState::Terminated,
                        since: now,
                        started_at: r.started_at,
                    };
                    Action::Spawn
                } else {
                    due
                }
            },
            Event::Tick { now } => {
                let elapsed = now >= r.started_at && now - r.started_at >= grace;
                if r.state == LifecycleState::Unhealthy {
                    due
                } else if r.state == LifecycleState::Healthy || elapsed {
                    Action::Probe
                } else {
                    Action::Wait
                }
            },
            Event::Probed { healthy, now } => {
                let elapsed = now >= r.started_at && now - r.started_at >= grace;
                if r.state == LifecycleState::Unhealthy || !elapsed {
                    due
                } else if healthy {
                    if r.state != LifecycleState::Healthy {
                        self.record = ProcessRecord {
                            pid: r.pid,
                            state: LifecycleState::Healthy,
                            since: now,
                            started_at: r.started_at,
                        };
                    }
                    Action::Wait
                } else {
                    self.record = ProcessRecord {
                        pid: r.pid,
                        state: LifecycleState::Unhealthy,
                        since: now,
                        started_at: r.started_at,
                    };
                    Action::Kill { pid }
                }
            },
            Event::KillIssued { now } => {
                if r.state == LifecycleState::Unhealthy {
                    self.record = ProcessRecord {
                        pid: None,
                        state: LifecycleState::Terminated,
                        since: now,
                        started_at: r.started_at,
                    };
                    Action::Spawn
                } else {
                    due
                }
            },
            _ => due,
        }
    }
}

/// Whether `e` is a health-check result or a timer tick observed before the
/// grace period of the process in `r` ended.
pub open spec fn check_during_grace(r: ProcessRecord, grace: u64, e: Event) -> bool {
    match e {
        Event::Tick { now } => !grace_elapsed(r, grace, now),
        Event::Probed { now, .. } => !grace_elapsed(r, grace, now),
        _ => false,
    }
}

/// Whatever the health checks report during the grace period of a freshly
/// started process, the supervisor only waits: it issues no kill and the
/// record stays as it is.
pub proof fn lemma_no_kill_during_grace(r: ProcessRecord, grace: u64, events: Seq<Event>)
    requires
        r.wf(grace),
        r.state == LifecycleState::Starting,
        forall|i: int| 0 <= i < events.len() ==> check_during_grace(r, grace, #[trigger] events[i]),
    ensures
        run_trace(r, grace, events).len() == events.len(),
        forall|i: int|
            0 <= i < events.len() ==> #[trigger] run_trace(r, grace, events)[i] == (r, Action::Wait),
    decreases events.len(),
{
    if events.len() > 0 {
        assert(next(r, grace, events[0]) == (r, Action::Wait));
        assert(check_during_grace(r, grace, events[0]));
        let rest = events.drop_first();
        assert forall|i: int| 0 <= i < rest.len() implies check_during_grace(
            r,
            grace,
            #[trigger] rest[i],
        ) by {
            assert(rest[i] == events[i + 1]);
        }
        lemma_no_kill_during_grace(r, grace, rest);
        assert forall|i: int| 0 <= i < events.len() implies #[trigger] run_trace(
            r,
            grace,
            events,
        )[i] == (r, Action::Wait) by {
            if i > 0 {
                assert(run_trace(r, grace, events)[i] == run_trace(r, grace, rest)[i - 1]);
            }
        }
    }
}

/// A kill is only ever requested for the process of the record, once its
/// grace period is over: the record it leaves is `Unhealthy`, entered after
/// the grace period.
pub proof fn lemma_kill_only_after_grace(r: ProcessRecord, grace: u64, e: Event)
    requires
        r.wf(grace),
    ensures
        next(r, grace, e).1 is Kill ==> {
            &&& r.pid == Some(next(r, grace, e).1->pid)
            &&& next(r, grace, e).0.state == LifecycleState::Unhealthy
            &&& grace_elapsed(next(r, grace, e).0, grace, next(r, grace, e).0.since)
        },
{
}

/// One failed health check after the grace period leads to exactly one kill
/// and one restart: the kill is issued at once, its completion brings
/// exactly one spawn, and the end of the killed process's output, observed
/// after the new process started, brings no second one.
pub proof fn lemma_unhealthy_kills_and_restarts_once(
    r: ProcessRecord,
    grace: u64,
    now: u64,
    killed_at: u64,
    new_pid: u32,
    spawned_at: u64,
    closed_at: u64,
)
    requires
        r.wf(grace),
        r.state == LifecycleState::Starting || r.state == LifecycleState::Healthy,
        grace_elapsed(r, grace, now),
        r.pid != Some(new_pid),
    ensures
        ({
            let (r1, a1) = next(r, grace, Event::Probed { healthy: false, now });
            let (r2, a2) = next(r1, grace, Event::KillIssued { now: killed_at });
            let (r3, a3) = next(r2, grace, Event::Spawned { pid: new_pid, now: spawned_at });
            let (r4, a4) = next(r3, grace, Event::OutputClosed { pid: pid_of(r), now: closed_at });
            &&& r1.state == LifecycleState::Unhealthy
            &&& a1 == Action::Kill { pid: pid_of(r) }
            &&& r2.state == LifecycleState::Terminated
            &&& r2.pid is None
            &&& a2 == Action::Spawn
            &&& r3.state == LifecycleState::Starting
            &&& r3.pid == Some(new_pid)
            &&& a3 == Action::Wait
            &&& r4 == r3
            &&& a4 == Action::Wait
        }),
{
}

/// The supervisor never stops on its own: every decision keeps the record
/// well formed, and the only one that halts answers a failed spawn.
pub proof fn lemma_never_halts_on_its_own(r: ProcessRecord, grace: u64, e: Event)
    requires
        r.wf(grace),
    ensures
        next(r, grace, e).0.wf(grace),
        next(r, grace, e).1 == Action::Halt ==> e == Event::SpawnFailed && r.state
            == LifecycleState::Terminated,
{
}

} // verus!
