use sidecar_supervisor::status::BackendStatus;
use sidecar_supervisor::supervisor::{Effects, Event, Supervisor};

fn crash_message(e: &Effects) -> Option<String> {
    match &e.publish {
        Some(BackendStatus::Crashed { error }) => Some(error.clone()),
        _ => None,
    }
}

fn launched(pid: u32) -> Supervisor {
    let mut s = Supervisor::new();
    s.step(Event::PortAllocated { port: Some(8765) });
    s.step(Event::Spawned { result: Ok(pid) });
    s
}

fn healthy(pid: u32) -> Supervisor {
    let mut s = launched(pid);
    s.step(Event::HealthChecked { pid, ok: true });
    s
}

#[test]
fn port_is_zero_before_allocation() {
    let mut s = Supervisor::new();
    assert_eq!(s.get_api_port(), 0);
    s.step(Event::PortAllocated { port: Some(15003) });
    assert_eq!(s.get_api_port(), 15003);
}

#[test]
fn launch_publishes_starting_then_supervises() {
    let mut s = Supervisor::new();
    let e = s.step(Event::PortAllocated { port: Some(8765) });
    assert!(matches!(e.publish, Some(BackendStatus::Starting)));
    assert_eq!(e.spawn_on, Some(8765));
    let e = s.step(Event::Spawned { result: Ok(42) });
    assert!(e.publish.is_none());
    assert_eq!(e.supervise, Some(42));
    assert_eq!(e.kill, None);
    assert_eq!(s.process, Some(42));
}

#[test]
fn no_free_port_is_a_crash() {
    let mut s = Supervisor::new();
    let e = s.step(Event::PortAllocated { port: None });
    assert_eq!(crash_message(&e), Some("No available ports".to_string()));
    assert_eq!(e.spawn_on, None);
}

#[test]
fn spawn_failure_is_a_crash() {
    let mut s = Supervisor::new();
    s.step(Event::PortAllocated { port: Some(8765) });
    let e = s.step(Event::Spawned { result: Err("Failed to spawn sidecar: not found".to_string()) });
    assert_eq!(crash_message(&e), Some("Failed to spawn sidecar: not found".to_string()));
    assert_eq!(e.supervise, None);
    assert_eq!(s.process, None);
}

#[test]
fn healthy_is_published_once() {
    let mut s = launched(7);
    let e = s.step(Event::HealthChecked { pid: 7, ok: true });
    assert!(matches!(e.publish, Some(BackendStatus::Healthy)));
    let e = s.step(Event::HealthChecked { pid: 7, ok: true });
    assert!(e.publish.is_none());
}

#[test]
fn unhealthy_after_three_failures_only_once() {
    let mut s = healthy(7);
    let e = s.step(Event::HealthChecked { pid: 7, ok: false });
    assert!(e.publish.is_none());
    let e = s.step(Event::HealthChecked { pid: 7, ok: false });
    assert!(e.publish.is_none());
    let e = s.step(Event::HealthChecked { pid: 7, ok: false });
    assert!(matches!(e.publish, Some(BackendStatus::Unhealthy)));
    assert!(!s.is_healthy);
    let e = s.step(Event::HealthChecked { pid: 7, ok: false });
    assert!(e.publish.is_none());
    let e = s.step(Event::HealthPoll { pid: 7 });
    assert!(!e.stop);
}

#[test]
fn unreachable_from_start_turns_unhealthy() {
    let mut s = launched(3);
    for _ in 0..2 {
        let e = s.step(Event::HealthChecked { pid: 3, ok: false });
        assert!(e.publish.is_none());
    }
    let e = s.step(Event::HealthChecked { pid: 3, ok: false });
    assert!(matches!(e.publish, Some(BackendStatus::Unhealthy)));
}

#[test]
fn a_success_resets_the_failure_count() {
    let mut s = healthy(7);
    s.step(Event::HealthChecked { pid: 7, ok: false });
    s.step(Event::HealthChecked { pid: 7, ok: false });
    let e = s.step(Event::HealthChecked { pid: 7, ok: true });
    assert!(e.publish.is_none());
    assert_eq!(s.health_failures, 0);
    s.step(Event::HealthChecked { pid: 7, ok: false });
    let e = s.step(Event::HealthChecked { pid: 7, ok: false });
    assert!(e.publish.is_none());
}

#[test]
fn recovery_publishes_healthy() {
    let mut s = healthy(7);
    for _ in 0..3 {
        s.step(Event::HealthChecked { pid: 7, ok: false });
    }
    let e = s.step(Event::HealthChecked { pid: 7, ok: true });
    assert!(matches!(e.publish, Some(BackendStatus::Healthy)));
}

#[test]
fn crash_mid_session_reports_then_relaunches() {
    let mut s = healthy(7);
    let e = s.step(Event::Terminated { pid: 7, description: "exit code 1".to_string() });
    assert_eq!(crash_message(&e), Some("Process exited with status: exit code 1".to_string()));
    assert!(e.restart_after_grace);
    assert!(e.stop);
    assert_eq!(s.process, None);
    let e = s.step(Event::HealthPoll { pid: 7 });
    assert!(e.stop);
    let e = s.step(Event::GraceElapsed);
    assert!(e.wake_coordinator);
    let e = s.step(Event::RestartTaken);
    assert!(matches!(e.publish, Some(BackendStatus::Restarting)));
    assert!(e.relaunch_after_delay);
    let e = s.step(Event::PortAllocated { port: Some(8765) });
    assert!(matches!(e.publish, Some(BackendStatus::Starting)));
    let e = s.step(Event::Spawned { result: Ok(8) });
    assert_eq!(e.supervise, Some(8));
}

#[test]
fn failed_relaunch_is_reported_and_waits() {
    let mut s = healthy(7);
    s.step(Event::Terminated { pid: 7, description: "exit code 2".to_string() });
    s.step(Event::GraceElapsed);
    s.step(Event::RestartTaken);
    s.step(Event::PortAllocated { port: Some(8765) });
    let e = s.step(Event::Spawned { result: Err("Failed to spawn sidecar: gone".to_string()) });
    assert_eq!(crash_message(&e), Some("Failed to spawn sidecar: gone".to_string()));
    assert!(!e.restart_after_grace);
    assert!(!s.restart_in_progress);
    assert!(!s.restart_pending);
}

#[test]
fn external_restart_while_healthy() {
    let mut s = healthy(7);
    let e = s.step(Event::RestartRequested);
    assert!(e.wake_coordinator);
    let e = s.step(Event::RestartTaken);
    assert!(matches!(e.publish, Some(BackendStatus::Restarting)));
    assert_eq!(e.kill, Some(7));
    let e = s.step(Event::Terminated { pid: 7, description: "signal 9".to_string() });
    assert!(e.publish.is_none());
    assert!(!e.restart_after_grace);
    let e = s.step(Event::HealthChecked { pid: 7, ok: true });
    assert!(e.publish.is_none());
    assert!(e.stop);
    let e = s.step(Event::PortAllocated { port: Some(8765) });
    assert!(matches!(e.publish, Some(BackendStatus::Starting)));
    let e = s.step(Event::Spawned { result: Ok(9) });
    assert_eq!(e.supervise, Some(9));
    let e = s.step(Event::HealthChecked { pid: 9, ok: true });
    assert!(matches!(e.publish, Some(BackendStatus::Healthy)));
}

#[test]
fn rapid_restart_requests_coalesce() {
    let mut s = healthy(7);
    let e = s.step(Event::RestartRequested);
    assert!(e.wake_coordinator);
    for _ in 0..4 {
        let e = s.step(Event::RestartRequested);
        assert!(!e.wake_coordinator);
    }
    let e = s.step(Event::RestartTaken);
    assert!(e.relaunch_after_delay);
    let e = s.step(Event::RestartTaken);
    assert!(!e.relaunch_after_delay);
    s.step(Event::RestartRequested);
    let e = s.step(Event::RestartTaken);
    assert!(!e.relaunch_after_delay);
    assert!(s.restart_pending);
    s.step(Event::PortAllocated { port: Some(8765) });
    s.step(Event::Spawned { result: Ok(9) });
    let e = s.step(Event::RestartTaken);
    assert!(e.relaunch_after_delay);
    assert_eq!(e.kill, Some(9));
}

#[test]
fn shutdown_silences_the_supervisor() {
    let mut s = healthy(7);
    s.step(Event::RestartRequested);
    let e = s.step(Event::ShutdownRequested);
    assert_eq!(e.kill, Some(7));
    assert!(e.publish.is_none());
    let e = s.step(Event::RestartTaken);
    assert!(e.stop);
    assert!(e.publish.is_none());
    assert!(!e.relaunch_after_delay);
    let e = s.step(Event::HealthPoll { pid: 7 });
    assert!(e.stop);
    let e = s.step(Event::Terminated { pid: 7, description: "signal 9".to_string() });
    assert!(e.publish.is_none());
    let e = s.step(Event::GraceElapsed);
    assert!(!e.wake_coordinator);
    let e = s.step(Event::PortAllocated { port: Some(8765) });
    assert!(e.publish.is_none());
    assert_eq!(e.spawn_on, None);
    let e = s.step(Event::Spawned { result: Ok(11) });
    assert_eq!(e.kill, Some(11));
    assert_eq!(e.supervise, None);
    assert_eq!(s.process, None);
}
