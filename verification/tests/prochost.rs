//! The process-host model: idempotent start and stop, spawn failures, and
//! the watchdog's respawn protocol.

use lunacam::command::build_command;
use lunacam::error::StreamError;
use lunacam::prochost::{ProcHost, Watchdog, WatchdogAction};
use lunacam::stream::Orientation;

fn host() -> ProcHost {
    ProcHost::new(build_command(Orientation::Landscape, "/var/lib/lunacam"))
}

#[test]
fn new_host_is_not_running() {
    let h = host();
    assert!(!h.running());
}

#[test]
fn host_forces_kill_on_drop() {
    let cmd = build_command(Orientation::Landscape, "/var/lib/lunacam");
    assert!(!cmd.kill_on_drop);
    let h = ProcHost::new(cmd);
    assert!(h.command_ref().kill_on_drop);
}

#[test]
fn start_runs_and_is_idempotent() {
    let mut h = host();
    // A stopped host asks for a spawn.
    let req = h.start_request();
    assert!(req.is_some());
    assert_eq!(req.unwrap().program, "ffmpeg");
    // A successful spawn leaves the host running.
    assert!(h.start_apply(true).is_ok());
    assert!(h.running());
    // A start on a running host is a no-op: no spawn, no duplicate watchdog.
    assert!(h.start_request().is_none());
    assert!(h.running());
}

#[test]
fn failed_spawn_leaves_host_stopped() {
    let mut h = host();
    assert!(h.start_request().is_some());
    assert_eq!(h.start_apply(false), Err(StreamError::SpawnFailed));
    assert!(!h.running());
}

#[test]
fn stop_stops_and_is_idempotent() {
    let mut h = host();
    let _ = h.start_apply(true);
    assert!(h.running());
    // Stopping a running host signals the watchdog.
    assert!(h.stop());
    assert!(!h.running());
    // Stopping an already-stopped host is a no-op: nothing to signal.
    assert!(!h.stop());
    assert!(!h.running());
}

#[test]
fn watchdog_exit_makes_host_not_running() {
    let mut h = host();
    let _ = h.start_apply(true);
    h.watchdog_exited();
    assert!(!h.running());
}

#[test]
fn teardown_signals_running_watchdog() {
    let mut h = host();
    let _ = h.start_apply(true);
    assert!(h.teardown_request());
    assert!(!h.running());

    let mut h2 = host();
    assert!(!h2.teardown_request());
}

#[test]
fn watchdog_respawns_on_external_kill() {
    let mut w = Watchdog::new();
    assert!(w.monitoring());
    assert_eq!(w.generation(), 1);
    // The child exits without a stop having been signaled: respawn.
    assert_eq!(w.decide(false), WatchdogAction::Respawn);
    w.on_respawn(true);
    // Still monitoring — the host still counts as running — but the child's
    // identity has changed.
    assert!(w.monitoring());
    assert_eq!(w.generation(), 2);
}

#[test]
fn watchdog_exits_on_stop_signal() {
    let mut w = Watchdog::new();
    assert_eq!(w.decide(true), WatchdogAction::KillChildAndExit);
    w.on_stop();
    assert!(!w.monitoring());
    assert_eq!(w.generation(), 1);
}

#[test]
fn watchdog_gives_up_on_failed_respawn() {
    let mut w = Watchdog::new();
    assert_eq!(w.decide(false), WatchdogAction::Respawn);
    w.on_respawn(false);
    assert!(!w.monitoring());
}
