//! Child-process supervision model.
//!
//! A [`ProcHost`] keeps the authoritative bookkeeping for one supervised
//! external process: whether a watchdog is active and which launch
//! specification the process is started from. The operating-system work
//! itself (spawning, signalling, killing) happens in an unverified runtime
//! that consults this model for every decision and reports every outcome
//! back, so the protocol proved here is the one the runtime follows.
//!
//! A [`Watchdog`] models one monitoring era: the background unit that waits
//! on child exit or on a stop signal, respawning the child on unexpected
//! exit and killing it on a stop request.

use vstd::prelude::*;

use crate::command::CommandSpec;
use crate::error::StreamError;

verus! {

/// Supervises one external child process.
///
/// The host is bound to a launch specification at construction and is not
/// running. A successful start activates a watchdog that owns the child;
/// a stop signals that watchdog and deactivates it. The stored launch
/// specification always has kill-on-drop set, so a child handle discarded
/// by the runtime, however abruptly, takes the process down with it.
pub struct ProcHost {
    cmd: CommandSpec,
    running: bool,
}

impl ProcHost {
    /// The launch specification the host (re)starts the child from.
    pub closed spec fn command(&self) -> CommandSpec {
        self.cmd
    }

    /// Whether a watchdog is currently active.
    pub closed spec fn is_running(&self) -> bool {
        self.running
    }

    /// Every launch the host ever requests kills the child when its handle
    /// is dropped: the guarantee behind safe teardown.
    pub open spec fn wf(&self) -> bool {
        self.command().kill_on_drop
    }

    /// Creates a host bound to `cmd`, not running.
    ///
    /// Kill-on-drop is forced on, whatever the caller passed: the host must
    /// never hand out a launch specification that can orphan the child.
    pub fn new(cmd: CommandSpec) -> (h: Self)
        ensures
            !h.is_running(),
            h.wf(),
            h.command() == (CommandSpec { kill_on_drop: true, ..cmd }),
    {
        let mut cmd = cmd;
        cmd.kill_on_drop = true;
        ProcHost { cmd, running: false }
    }

    /// The stored launch specification, for the runtime to spawn from.
    pub fn command_ref(&self) -> (c: &CommandSpec)
        ensures
            *c == self.command(),
    {
        &self.cmd
    }

    /// Cheap, non-blocking read of whether a watchdog is active.
    pub fn running(&self) -> (r: bool)
        ensures
            r == self.is_running(),
    {
        self.running
    }

    /// Decides a start: `None` when the host is already running (a start is
    /// then a no-op), otherwise the specification the runtime must spawn.
    pub fn start_request(&self) -> (r: Option<&CommandSpec>)
        ensures
            self.is_running() <==> r is None,
            r matches Some(c) ==> *c == self.command(),
    {
        if self.running {
            None
        } else {
            Some(&self.cmd)
        }
    }

    /// Records the outcome of the spawn that a `start_request` asked for.
    ///
    /// On success a watchdog is active and the host is running; on failure
    /// the host stays not running and the caller gets `SpawnFailed`.
    pub fn start_apply(&mut self, spawned: bool) -> (r: Result<(), StreamError>)
        requires
            !old(self).is_running(),
        ensures
            final(self).is_running() == spawned,
            final(self).command() == old(self).command(),
            final(self).wf() == old(self).wf(),
            r matches Ok(()) <==> spawned,
            r matches Err(e) ==> e == StreamError::SpawnFailed,
    {
        if spawned {
            self.running = true;
            Ok(())
        } else {
            Err(StreamError::SpawnFailed)
        }
    }

    /// Stops the host: afterwards no watchdog is active. Returns whether the
    /// runtime must signal the watchdog (true exactly when one was active;
    /// on an already-stopped host a stop is a no-op).
    pub fn stop(&mut self) -> (signal: bool)
        ensures
            !final(self).is_running(),
            signal == old(self).is_running(),
            final(self).command() == old(self).command(),
            final(self).wf() == old(self).wf(),
    {
        let was = self.running;
        self.running = false;
        was
    }

    /// Records that the watchdog exited on its own (its respawn failed):
    /// the host is no longer running and only an explicit start recovers it.
    pub fn watchdog_exited(&mut self)
        ensures
            !final(self).is_running(),
            final(self).command() == old(self).command(),
            final(self).wf() == old(self).wf(),
    {
        self.running = false;
    }

    /// Decides teardown, mirroring a stop without acknowledgment: the
    /// runtime must signal the watchdog exactly when one is active.
    /// Even if that signal is lost, `wf` says the discarded child handle
    /// kills the process.
    pub fn teardown_request(&mut self) -> (signal: bool)
        ensures
            !final(self).is_running(),
            signal == old(self).is_running(),
            final(self).command() == old(self).command(),
            final(self).wf() == old(self).wf(),
    {
        let was = self.running;
        self.running = false;
        was
    }
}

/// Discarding a host never leaves the child alive: every launch
/// specification a well-formed host spawns from has kill-on-drop set, so
/// the runtime's child handle terminates the process when it is dropped,
/// and teardown additionally signals any active watchdog.
pub proof fn lemma_teardown_terminates(h: ProcHost)
    requires
        h.wf(),
    ensures
        h.command().kill_on_drop,
{
}

/// What the watchdog does when its wait completes.
#[derive(Clone, Copy, Debug, PartialEq, Eq, Structural)]
pub enum WatchdogAction {
    /// The child exited unexpectedly: respawn it at once from the stored
    /// launch specification, with no backoff and no retry limit.
    Respawn,
    /// A stop was requested: kill the child and exit without respawning.
    KillChildAndExit,
}

/// Model of one watchdog era: the background unit that owns the child
/// handle from a successful start until a stop or a failed respawn.
///
/// `generation` counts the processes this watchdog has owned, so a respawn
/// changes the supervised child's identity while the host stays running.
pub struct Watchdog {
    generation: u64,
    monitoring: bool,
}

impl Watchdog {
    /// How many child processes this watchdog has owned so far.
    pub closed spec fn spec_generation(&self) -> u64 {
        self.generation
    }

    /// Whether the watchdog is still waiting on child exit or stop signal.
    pub closed spec fn is_monitoring(&self) -> bool {
        self.monitoring
    }

    /// A watchdog begins monitoring the one child that the successful
    /// start spawned.
    pub fn new() -> (w: Self)
        ensures
            w.is_monitoring(),
            w.spec_generation() == 1,
    {
        Watchdog { generation: 1, monitoring: true }
    }

    /// The generation, readable by the runtime (for logging a respawn).
    pub fn generation(&self) -> (g: u64)
        ensures
            g == self.spec_generation(),
    {
        self.generation
    }

    /// Whether the watchdog is still monitoring.
    pub fn monitoring(&self) -> (r: bool)
        ensures
            r == self.is_monitoring(),
    {
        self.monitoring
    }

    /// Decides the reaction to a completed wait: an unexpected child exit
    /// is always answered with an immediate respawn, a stop signal with
    /// killing the child and exiting.
    pub fn decide(&self, stop_signaled: bool) -> (a: WatchdogAction)
        requires
            self.is_monitoring(),
        ensures
            a == if stop_signaled {
                WatchdogAction::KillChildAndExit
            } else {
                WatchdogAction::Respawn
            },
    {
        if stop_signaled {
            WatchdogAction::KillChildAndExit
        } else {
            WatchdogAction::Respawn
        }
    }

    /// Records the outcome of the respawn that `decide` asked for. On
    /// success the watchdog keeps monitoring a new child — the host still
    /// counts as running, and the generation grows: the supervised child's
    /// identity has changed. On failure it exits and the host must be told
    /// it is no longer running.
    pub fn on_respawn(&mut self, ok: bool)
        requires
            old(self).is_monitoring(),
            old(self).spec_generation() < u64::MAX,
        ensures
            final(self).is_monitoring() == ok,
            ok ==> final(self).spec_generation() == old(self).spec_generation() + 1
                && final(self).spec_generation() != old(self).spec_generation(),
    {
        if ok {
            self.generation = self.generation + 1;
        } else {
            self.monitoring = false;
        }
    }

    /// Records that the stop request was carried out: the child was killed
    /// and the watchdog exits, never to respawn.
    pub fn on_stop(&mut self)
        requires
            old(self).is_monitoring(),
        ensures
            !final(self).is_monitoring(),
            final(self).spec_generation() == old(self).spec_generation(),
    {
        self.monitoring = false;
    }
}

} // verus!
