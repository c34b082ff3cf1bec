use rds_backend::supervisor::{Action, Event, LifecycleState, Supervisor};

const GRACE: u64 = 1000;

fn started(pid: u32, now: u64) -> Supervisor {
    let mut s = Supervisor::new(GRACE);
    assert_eq!(s.step(Event::Spawned { pid, now }), Action::Wait);
    s
}

#[test]
fn new_supervisor_has_no_process() {
    let s = Supervisor::new(GRACE);
    assert_eq!(s.record.state, LifecycleState::Terminated);
    assert_eq!(s.record.pid, None);
    assert_eq!(s.grace_ms, GRACE);
}

#[test]
fn spawn_enters_starting() {
    let s = started(42, 5);
    assert_eq!(s.record.state, LifecycleState::Starting);
    assert_eq!(s.record.pid, Some(42));
    assert_eq!(s.record.started_at, 5);
    assert_eq!(s.record.since, 5);
}

#[test]
fn probes_during_grace_never_kill() {
    let mut s = started(42, 0);
    let before = s.record;
    for now in [1u64, 100, 500, 999] {
        assert_eq!(s.step(Event::Tick { now }), Action::Wait);
        assert_eq!(s.step(Event::Probed { healthy: false, now }), Action::Wait);
        assert_eq!(s.step(Event::Probed { healthy: true, now }), Action::Wait);
        assert_eq!(s.record, before);
    }
}

#[test]
fn one_failed_check_gives_one_kill_and_one_restart() {
    let mut s = started(42, 0);
    assert_eq!(s.step(Event::Tick { now: 1000 }), Action::Probe);
    assert_eq!(s.step(Event::Probed { healthy: false, now: 1000 }), Action::Kill { pid: 42 });
    assert_eq!(s.record.state, LifecycleState::Unhealthy);
    assert_eq!(s.step(Event::KillIssued { now: 1001 }), Action::Spawn);
    assert_eq!(s.record.state, LifecycleState::Terminated);
    assert_eq!(s.record.pid, None);
    assert_eq!(s.step(Event::Spawned { pid: 43, now: 1002 }), Action::Wait);
    // the killed process's output closes only now: no second restart
    assert_eq!(s.step(Event::OutputClosed { pid: 42, now: 1003 }), Action::Wait);
    assert_eq!(s.record.state, LifecycleState::Starting);
    assert_eq!(s.record.pid, Some(43));
}

#[test]
fn supervisor_halts_only_on_spawn_failure() {
    let mut s = Supervisor::new(GRACE);
    assert_eq!(s.step(Event::Tick { now: 3 }), Action::Spawn);
    assert_eq!(s.step(Event::KillIssued { now: 3 }), Action::Spawn);
    assert_eq!(s.step(Event::Probed { healthy: false, now: 3 }), Action::Spawn);
    assert_eq!(s.step(Event::SpawnFailed), Action::Halt);
    let mut r = started(9, 0);
    assert_eq!(r.step(Event::SpawnFailed), Action::Wait);
}

#[test]
fn refused_probe_cycles_through_kill_and_restart() {
    let mut s = Supervisor::new(GRACE);
    let mut now: u64 = 0;
    let mut pid: u32 = 100;
    let mut states = Vec::new();
    for _ in 0..3 {
        assert_eq!(s.step(Event::Spawned { pid, now }), Action::Wait);
        states.push(s.record.state);
        now += 500;
        assert_eq!(s.step(Event::Tick { now }), Action::Wait);
        states.push(s.record.state);
        now += 500;
        assert_eq!(s.step(Event::Tick { now }), Action::Probe);
        assert_eq!(s.step(Event::Probed { healthy: false, now }), Action::Kill { pid });
        states.push(s.record.state);
        assert_eq!(s.step(Event::KillIssued { now }), Action::Spawn);
        states.push(s.record.state);
        pid += 1;
    }
    let cycle = [
        LifecycleState::Starting,
        LifecycleState::Starting,
        LifecycleState::Unhealthy,
        LifecycleState::Terminated,
    ];
    assert_eq!(states, [cycle, cycle, cycle].concat());
}

#[test]
fn accepted_probe_stays_healthy() {
    let mut s = started(7, 0);
    assert_eq!(s.step(Event::Tick { now: 500 }), Action::Wait);
    assert_eq!(s.record.state, LifecycleState::Starting);
    assert_eq!(s.step(Event::Tick { now: 1000 }), Action::Probe);
    assert_eq!(s.step(Event::Probed { healthy: true, now: 1000 }), Action::Wait);
    assert_eq!(s.record.state, LifecycleState::Healthy);
    assert_eq!(s.record.since, 1000);
    for k in 1..50u64 {
        let now = 1000 + k * 1000;
        assert_eq!(s.step(Event::Tick { now }), Action::Probe);
        assert_eq!(s.step(Event::Probed { healthy: true, now }), Action::Wait);
        assert_eq!(s.record.state, LifecycleState::Healthy);
        assert_eq!(s.record.since, 1000);
        assert_eq!(s.record.pid, Some(7));
    }
}

#[test]
fn natural_exit_restarts_without_failed_probe() {
    let mut s = started(7, 0);
    assert_eq!(s.step(Event::Tick { now: 1000 }), Action::Probe);
    assert_eq!(s.step(Event::Probed { healthy: true, now: 1000 }), Action::Wait);
    assert_eq!(s.record.state, LifecycleState::Healthy);
    assert_eq!(s.step(Event::OutputClosed { pid: 7, now: 1500 }), Action::Spawn);
    assert_eq!(s.record.state, LifecycleState::Terminated);
    assert_eq!(s.record.pid, None);
    assert_eq!(s.record.since, 1500);
    assert_eq!(s.step(Event::Spawned { pid: 8, now: 1600 }), Action::Wait);
    assert_eq!(s.record.state, LifecycleState::Starting);
    assert_eq!(s.record.started_at, 1600);
}

#[test]
fn output_of_another_process_is_ignored() {
    let mut s = started(7, 0);
    assert_eq!(s.step(Event::OutputClosed { pid: 6, now: 10 }), Action::Wait);
    assert_eq!(s.record.state, LifecycleState::Starting);
    assert_eq!(s.record.pid, Some(7));
}

#[test]
fn pending_kill_is_repeated_until_issued() {
    let mut s = started(7, 0);
    assert_eq!(s.step(Event::Probed { healthy: false, now: 2000 }), Action::Kill { pid: 7 });
    assert_eq!(s.step(Event::Tick { now: 2001 }), Action::Kill { pid: 7 });
    assert_eq!(s.step(Event::Probed { healthy: true, now: 2002 }), Action::Kill { pid: 7 });
    assert_eq!(s.record.state, LifecycleState::Unhealthy);
    assert_eq!(s.record.since, 2000);
}

#[test]
fn unhealthy_after_healthy_kills() {
    let mut s = started(7, 0);
    assert_eq!(s.step(Event::Probed { healthy: true, now: 1000 }), Action::Wait);
    assert_eq!(s.step(Event::Probed { healthy: false, now: 2000 }), Action::Kill { pid: 7 });
    assert_eq!(s.record.state, LifecycleState::Unhealthy);
}

#[test]
fn clock_before_spawn_counts_as_grace() {
    let mut s = started(7, 5000);
    assert_eq!(s.step(Event::Probed { healthy: false, now: 10 }), Action::Wait);
    assert_eq!(s.record.state, LifecycleState::Starting);
}
