//! Video stream control: configuration state and the controller that
//! applies updates to it.
//!
//! The controller owns the stream's desired state and its process host.
//! Applying a change is an ordered protocol over three collaborating side
//! effects — the transcoder process, the reverse-proxy configuration file,
//! and the persisted settings record. The protocol is driven as a small
//! state machine: the controller hands the runtime one [`UpdateAction`] at
//! a time, the runtime performs it and reports whether it succeeded, and
//! the controller decides the next step. Every decision, every ordering
//! rule and the resulting state are verified here; the runtime only
//! executes.

use vstd::prelude::*;

use crate::command::{build_command, is_transcoder_command};
use crate::error::StreamError;
use crate::prochost::ProcHost;

verus! {

/// Video stream orientation.
#[derive(Clone, Copy, Debug, PartialEq, Eq, Structural)]
pub enum Orientation {
    Landscape,
    Portrait,
    InvertedLandscape,
    InvertedPortrait,
}

impl Default for Orientation {
    /// The default orientation is landscape.
    fn default() -> (r: Self)
        ensures
            r == Orientation::Landscape,
    {
        Orientation::Landscape
    }
}

/// The name an orientation is written as in persisted and transmitted
/// state.
pub open spec fn orientation_name(o: Orientation) -> Seq<char> {
    match o {
        Orientation::Landscape => "landscape"@,
        Orientation::Portrait => "portrait"@,
        Orientation::InvertedLandscape => "invertedLandscape"@,
        Orientation::InvertedPortrait => "invertedPortrait"@,
    }
}

/// The tag an orientation is stored as where a small integer is wanted.
pub open spec fn orientation_tag(o: Orientation) -> i32 {
    match o {
        Orientation::Landscape => 0,
        Orientation::Portrait => 1,
        Orientation::InvertedLandscape => 2,
        Orientation::InvertedPortrait => 3,
    }
}

impl Orientation {
    /// The orientation's name.
    pub fn name(&self) -> (r: &'static str)
        ensures
            r@ == orientation_name(*self),
    {
        match self {
            Orientation::Landscape => "landscape",
            Orientation::Portrait => "portrait",
            Orientation::InvertedLandscape => "invertedLandscape",
            Orientation::InvertedPortrait => "invertedPortrait",
        }
    }

    /// The orientation's small-integer tag.
    pub fn to_tag(&self) -> (r: i32)
        ensures
            r == orientation_tag(*self),
    {
        match self {
            Orientation::Landscape => 0,
            Orientation::Portrait => 1,
            Orientation::InvertedLandscape => 2,
            Orientation::InvertedPortrait => 3,
        }
    }

    /// The orientation a tag stands for: exactly the tags 0 through 3 are
    /// recognized.
    pub fn from_tag(tag: i32) -> (r: Option<Orientation>)
        ensures
            r matches Some(o) ==> orientation_tag(o) == tag,
            r is None <==> !(0 <= tag <= 3),
    {
        match tag {
            0 => Some(Orientation::Landscape),
            1 => Some(Orientation::Portrait),
            2 => Some(Orientation::InvertedLandscape),
            3 => Some(Orientation::InvertedPortrait),
            _ => None,
        }
    }
}

/// The state of a video stream: whether it is enabled (its transcoder
/// running) and its orientation.
#[derive(Clone, Copy, Debug, PartialEq, Eq, Structural)]
pub struct StreamState {
    pub enabled: bool,
    pub orientation: Orientation,
}

impl Default for StreamState {
    /// A fresh node starts disabled, in landscape orientation.
    fn default() -> (r: Self)
        ensures
            !r.enabled,
            r.orientation == Orientation::Landscape,
    {
        StreamState { enabled: false, orientation: Orientation::Landscape }
    }
}

/// A partial update to the stream's state; `None` means "unchanged".
#[derive(Clone, Copy, Debug)]
pub struct StreamUpdate {
    pub enabled: Option<bool>,
    pub orientation: Option<Orientation>,
}

/// The value of `o`, or `d` where `o` is `None`.
pub open spec fn opt_or<T>(o: Option<T>, d: T) -> T {
    match o {
        Some(x) => x,
        None => d,
    }
}

/// The observable state of a stream controller: its orientation, whether
/// its process host is running, and whether the reverse-proxy
/// configuration file is present (as last confirmed by the runtime).
pub struct StreamModel {
    pub orientation: Orientation,
    pub running: bool,
    pub proxy: bool,
}

/// What an update must do, decided up front from the current state and the
/// patch: stop the transcoder, rebuild the host against a new orientation,
/// start the transcoder — and the orientation the stream ends up with.
#[derive(Clone, Copy, Debug, PartialEq, Eq, Structural)]
pub struct UpdatePlan {
    pub do_stop: bool,
    pub do_reconfig: bool,
    pub do_start: bool,
    pub orientation: Orientation,
}

/// Whether the plan does anything at all; only then is the resulting state
/// persisted.
pub open spec fn dirty(p: UpdatePlan) -> bool {
    p.do_stop || p.do_reconfig || p.do_start
}

/// The plan for applying `u` to a stream in state `m`:
/// - stop when the patch disables a running stream, or changes the
///   orientation while the stream is running;
/// - reconfigure exactly when the orientation changes;
/// - start when the patch enables a stopped stream, or a reconfigured
///   stream is meant to end up enabled.
pub open spec fn plan_spec(m: StreamModel, u: StreamUpdate) -> UpdatePlan {
    let o_changes = match u.orientation {
        Some(o) => o != m.orientation,
        None => false,
    };
    let target_enabled = opt_or(u.enabled, m.running);
    UpdatePlan {
        do_stop: m.running && (u.enabled == Some(false) || o_changes),
        do_reconfig: o_changes,
        do_start: (!m.running && u.enabled == Some(true)) || (o_changes && target_enabled),
        orientation: opt_or(u.orientation, m.orientation),
    }
}

/// Facts about a plan that hold whenever it was computed from the state it
/// is applied to; the machine's transitions rely on them.
pub open spec fn plan_ok(init: StreamModel, p: UpdatePlan) -> bool {
    &&& p.do_stop ==> init.running
    &&& p.do_reconfig && !p.do_stop ==> !init.running
    &&& p.do_start && !p.do_stop && !p.do_reconfig ==> !init.running
    &&& !p.do_reconfig ==> p.orientation == init.orientation
}

/// The state a stream reaches when every step of plan `p` succeeds.
pub open spec fn success_model(init: StreamModel, p: UpdatePlan) -> StreamModel {
    StreamModel {
        orientation: p.orientation,
        running: if p.do_start {
            true
        } else if p.do_stop {
            false
        } else {
            init.running
        },
        proxy: if p.do_start {
            true
        } else if p.do_stop {
            false
        } else {
            init.proxy
        },
    }
}

/// One step the runtime must perform for the controller.
#[derive(Clone, Copy, Debug, PartialEq, Eq, Structural)]
pub enum UpdateAction {
    /// Signal the watchdog to terminate the child and await its
    /// acknowledgment. A lost signal is logged, never treated as a leak.
    StopHost,
    /// Remove the stream's reverse-proxy configuration file.
    RemoveProxyConfig,
    /// Reload the reverse proxy. The outcome is ignored: a proxy that will
    /// not reload must not corrupt the stream subsystem.
    ReloadProxy,
    /// Discard the real process host and rebuild it from the controller's
    /// current launch specification.
    ReconfigureHost,
    /// Spawn the transcoder from the controller's launch specification.
    SpawnTranscoder,
    /// Write the stream's reverse-proxy configuration file.
    WriteProxyConfig,
    /// Persist the controller's current state under the settings key.
    PersistState,
    /// The operation is complete; collect its outcome from the run.
    Finish,
}

/// Where an update run stands: the action currently handed to the runtime,
/// or `Done`.
#[derive(Clone, Copy, Debug, PartialEq, Eq, Structural)]
pub enum UpdatePhase {
    Stop,
    Remove,
    ReloadStop,
    Reconfig,
    Spawn,
    Write,
    ReloadStart,
    Persist,
    Done,
}

/// The action the runtime performs while a run is in phase `ph`.
pub open spec fn phase_action(ph: UpdatePhase) -> UpdateAction {
    match ph {
        UpdatePhase::Stop => UpdateAction::StopHost,
        UpdatePhase::Remove => UpdateAction::RemoveProxyConfig,
        UpdatePhase::ReloadStop => UpdateAction::ReloadProxy,
        UpdatePhase::Reconfig => UpdateAction::ReconfigureHost,
        UpdatePhase::Spawn => UpdateAction::SpawnTranscoder,
        UpdatePhase::Write => UpdateAction::WriteProxyConfig,
        UpdatePhase::ReloadStart => UpdateAction::ReloadProxy,
        UpdatePhase::Persist => UpdateAction::PersistState,
        UpdatePhase::Done => UpdateAction::Finish,
    }
}

/// The stop segment of a plan's script.
pub open spec fn stop_actions(p: UpdatePlan) -> Seq<UpdateAction> {
    if p.do_stop {
        seq![UpdateAction::StopHost, UpdateAction::RemoveProxyConfig, UpdateAction::ReloadProxy]
    } else {
        Seq::empty()
    }
}

/// The reconfigure segment of a plan's script.
pub open spec fn reconfig_actions(p: UpdatePlan) -> Seq<UpdateAction> {
    if p.do_reconfig {
        seq![UpdateAction::ReconfigureHost]
    } else {
        Seq::empty()
    }
}

/// The start segment of a plan's script.
pub open spec fn start_actions(p: UpdatePlan) -> Seq<UpdateAction> {
    if p.do_start {
        seq![UpdateAction::SpawnTranscoder, UpdateAction::WriteProxyConfig, UpdateAction::ReloadProxy]
    } else {
        Seq::empty()
    }
}

/// The persistence segment of a plan's script.
pub open spec fn persist_actions(p: UpdatePlan) -> Seq<UpdateAction> {
    if dirty(p) {
        seq![UpdateAction::PersistState]
    } else {
        Seq::empty()
    }
}

/// The full sequence of actions an update with plan `p` performs when every
/// step succeeds: stop, then reconfigure, then start, then persist.
pub open spec fn script(p: UpdatePlan) -> Seq<UpdateAction> {
    stop_actions(p) + reconfig_actions(p) + start_actions(p) + persist_actions(p)
}

/// The actions emitted so far when phase `ph` is pending.
pub open spec fn emitted_at(p: UpdatePlan, ph: UpdatePhase) -> Seq<UpdateAction> {
    match ph {
        UpdatePhase::Stop => seq![UpdateAction::StopHost],
        UpdatePhase::Remove => seq![UpdateAction::StopHost, UpdateAction::RemoveProxyConfig],
        UpdatePhase::ReloadStop => stop_actions(p),
        UpdatePhase::Reconfig => stop_actions(p) + seq![UpdateAction::ReconfigureHost],
        UpdatePhase::Spawn => stop_actions(p) + reconfig_actions(p) + seq![UpdateAction::SpawnTranscoder],
        UpdatePhase::Write => stop_actions(p) + reconfig_actions(p)
            + seq![UpdateAction::SpawnTranscoder, UpdateAction::WriteProxyConfig],
        UpdatePhase::ReloadStart => stop_actions(p) + reconfig_actions(p) + start_actions(p),
        UpdatePhase::Persist => stop_actions(p) + reconfig_actions(p) + start_actions(p)
            + seq![UpdateAction::PersistState],
        UpdatePhase::Done => script(p),
    }
}

/// Which plans can have phase `ph` pending.
pub open spec fn phase_enabled(p: UpdatePlan, ph: UpdatePhase) -> bool {
    match ph {
        UpdatePhase::Stop | UpdatePhase::Remove | UpdatePhase::ReloadStop => p.do_stop,
        UpdatePhase::Reconfig => p.do_reconfig,
        UpdatePhase::Spawn | UpdatePhase::Write | UpdatePhase::ReloadStart => p.do_start,
        UpdatePhase::Persist => dirty(p),
        UpdatePhase::Done => true,
    }
}

/// The stream's state while phase `ph` of plan `p` is pending, starting
/// from `init`: the effect of every acknowledged earlier step.
pub open spec fn model_at(init: StreamModel, p: UpdatePlan, ph: UpdatePhase) -> StreamModel {
    match ph {
        UpdatePhase::Stop => init,
        UpdatePhase::Remove => StreamModel { running: false, ..init },
        UpdatePhase::ReloadStop => StreamModel { running: false, proxy: false, ..init },
        UpdatePhase::Reconfig => StreamModel {
            running: false,
            proxy: if p.do_stop { false } else { init.proxy },
            ..init
        },
        UpdatePhase::Spawn => StreamModel {
            orientation: p.orientation,
            running: false,
            proxy: if p.do_stop { false } else { init.proxy },
        },
        UpdatePhase::Write => StreamModel {
            orientation: p.orientation,
            running: true,
            proxy: if p.do_stop { false } else { init.proxy },
        },
        UpdatePhase::ReloadStart => StreamModel { orientation: p.orientation, running: true, proxy: true },
        UpdatePhase::Persist => success_model(init, p),
        UpdatePhase::Done => success_model(init, p),
    }
}

/// The phase pending after the stop segment completes.
pub open spec fn after_stop_segment(p: UpdatePlan) -> UpdatePhase {
    if p.do_reconfig {
        UpdatePhase::Reconfig
    } else if p.do_start {
        UpdatePhase::Spawn
    } else {
        UpdatePhase::Persist
    }
}

/// The phase pending after the reconfigure step completes.
pub open spec fn after_reconfig(p: UpdatePlan) -> UpdatePhase {
    if p.do_start {
        UpdatePhase::Spawn
    } else {
        UpdatePhase::Persist
    }
}

/// The first pending phase of plan `p`, or `Done` for a plan that does
/// nothing.
pub open spec fn first_phase(p: UpdatePlan) -> UpdatePhase {
    if p.do_stop {
        UpdatePhase::Stop
    } else if p.do_reconfig {
        UpdatePhase::Reconfig
    } else if p.do_start {
        UpdatePhase::Spawn
    } else {
        UpdatePhase::Done
    }
}

/// One transition of the update machine: from pending phase `ph` with
/// runtime outcome `ok`, the stream's new state, the next pending phase,
/// and the failure recorded, if any. Outcomes are consulted only for the
/// fallible steps; a failure there aborts the remaining steps.
pub open spec fn step_result(p: UpdatePlan, ph: UpdatePhase, ok: bool, m: StreamModel) -> (
    StreamModel,
    UpdatePhase,
    Option<StreamError>,
) {
    match ph {
        UpdatePhase::Stop => (StreamModel { running: false, ..m }, UpdatePhase::Remove, None),
        UpdatePhase::Remove => if ok {
            (StreamModel { proxy: false, ..m }, UpdatePhase::ReloadStop, None)
        } else {
            (m, UpdatePhase::Done, Some(StreamError::ProxyIoFailed))
        },
        UpdatePhase::ReloadStop => (m, after_stop_segment(p), None),
        UpdatePhase::Reconfig => (
            StreamModel { orientation: p.orientation, ..m },
            after_reconfig(p),
            None,
        ),
        UpdatePhase::Spawn => if ok {
            (StreamModel { running: true, ..m }, UpdatePhase::Write, None)
        } else {
            (m, UpdatePhase::Done, Some(StreamError::SpawnFailed))
        },
        UpdatePhase::Write => if ok {
            (StreamModel { proxy: true, ..m }, UpdatePhase::ReloadStart, None)
        } else {
            (m, UpdatePhase::Done, Some(StreamError::ProxyIoFailed))
        },
        UpdatePhase::ReloadStart => (m, UpdatePhase::Persist, None),
        UpdatePhase::Persist => if ok {
            (m, UpdatePhase::Done, None)
        } else {
            (m, UpdatePhase::Done, Some(StreamError::PersistenceFailed))
        },
        UpdatePhase::Done => (m, UpdatePhase::Done, None),
    }
}

/// One in-flight update operation: the plan being applied, the pending
/// phase, and the failure that ended it early, if any.
pub struct UpdateRun {
    plan: UpdatePlan,
    phase: UpdatePhase,
    failure: Option<StreamError>,
    init: Ghost<StreamModel>,
    emitted: Ghost<Seq<UpdateAction>>,
}

impl UpdateRun {
    /// The plan this run applies.
    pub closed spec fn plan(&self) -> UpdatePlan {
        self.plan
    }

    /// The pending phase.
    pub closed spec fn phase(&self) -> UpdatePhase {
        self.phase
    }

    /// The failure that aborted the run, if any.
    pub closed spec fn failure(&self) -> Option<StreamError> {
        self.failure
    }

    /// The stream's state when the run began.
    pub closed spec fn init(&self) -> StreamModel {
        self.init@
    }

    /// Every action handed to the runtime so far.
    pub closed spec fn emitted(&self) -> Seq<UpdateAction> {
        self.emitted@
    }

    /// The run's internal consistency with the stream state `m` it runs
    /// against. While the run is pending, `m` is exactly the state the
    /// acknowledged steps have produced and the emitted actions are a
    /// prefix of the plan's script; a completed, failure-free run has
    /// emitted the whole script and produced the plan's success state.
    pub open spec fn inv(&self, m: StreamModel) -> bool {
        &&& plan_ok(self.init(), self.plan())
        &&& if self.phase() is Done {
            match self.failure() {
                None => m == success_model(self.init(), self.plan()) && self.emitted() == script(
                    self.plan(),
                ),
                Some(e) => e == StreamError::ProxyIoFailed || e == StreamError::SpawnFailed
                    || e == StreamError::PersistenceFailed,
            }
        } else {
            &&& self.failure() is None
            &&& m == model_at(self.init(), self.plan(), self.phase())
            &&& self.emitted() == emitted_at(self.plan(), self.phase())
            &&& phase_enabled(self.plan(), self.phase())
        }
    }

    /// Whether the run is complete.
    pub fn is_finished(&self) -> (r: bool)
        ensures
            r == (self.phase() is Done),
    {
        match self.phase {
            UpdatePhase::Done => true,
            _ => false,
        }
    }

    /// The outcome of a completed run: `Ok` when every step succeeded, or
    /// the error that aborted it.
    pub fn outcome(&self) -> (r: Result<(), StreamError>)
        requires
            self.phase() is Done,
        ensures
            match self.failure() {
                None => r matches Ok(()),
                Some(e) => r matches Err(err) && err == e,
            },
    {
        match self.failure {
            None => Ok(()),
            Some(e) => Err(e),
        }
    }
}

/// The stream controller: the current orientation, the process host bound
/// to that orientation's launch specification, the last confirmed state of
/// the reverse-proxy configuration file, and the node's state directory.
pub struct Stream {
    orientation: Orientation,
    host: ProcHost,
    proxy: bool,
    state_dir: String,
}

impl Stream {
    /// The controller's observable state.
    pub closed spec fn model(&self) -> StreamModel {
        StreamModel {
            orientation: self.orientation,
            running: self.host.is_running(),
            proxy: self.proxy,
        }
    }

    /// The node's state directory.
    pub closed spec fn dir(&self) -> Seq<char> {
        self.state_dir@
    }

    /// Well-formedness: the host is bound to the transcoder command for the
    /// controller's current orientation, with kill-on-drop set.
    pub closed spec fn wf(&self) -> bool {
        &&& self.host.wf()
        &&& is_transcoder_command(self.host.command(), self.orientation, self.state_dir@)
    }

    /// A live snapshot of the stream's state. `enabled` is derived from the
    /// host, never cached.
    pub fn state(&self) -> (s: StreamState)
        ensures
            s.enabled == self.model().running,
            s.orientation == self.model().orientation,
    {
        StreamState { enabled: self.host.running(), orientation: self.orientation }
    }

    /// The launch specification the runtime spawns the transcoder from: the
    /// transcoder command for the current orientation, with kill-on-drop set.
    pub fn host_command(&self) -> (c: &crate::command::CommandSpec)
        requires
            self.wf(),
        ensures
            is_transcoder_command(*c, self.model().orientation, self.dir()),
            c.kill_on_drop,
    {
        self.host.command_ref()
    }

    /// Computes the plan for applying `patch` to the current state.
    pub fn plan_update(&self, patch: &StreamUpdate) -> (p: UpdatePlan)
        ensures
            p == plan_spec(self.model(), *patch),
    {
        let running = self.host.running();
        let o_changes = match patch.orientation {
            Some(o) => o != self.orientation,
            None => false,
        };
        let target_enabled = match patch.enabled {
            Some(e) => e,
            None => running,
        };
        UpdatePlan {
            do_stop: running && (patch.enabled == Some(false) || o_changes),
            do_reconfig: o_changes,
            do_start: (!running && patch.enabled == Some(true)) || (o_changes && target_enabled),
            orientation: match patch.orientation {
                Some(o) => o,
                None => self.orientation,
            },
        }
    }

    /// Begins applying `patch`: decides the plan and hands the runtime the
    /// first action. A patch that changes nothing completes immediately
    /// with `Finish` — no stop, no reconfigure, no start, no persistence.
    pub fn update_begin(&self, patch: &StreamUpdate) -> (r: (UpdateRun, UpdateAction))
        requires
            self.wf(),
        ensures
            r.0.plan() == plan_spec(self.model(), *patch),
            r.0.init() == self.model(),
            r.0.phase() == first_phase(r.0.plan()),
            r.0.failure() is None,
            r.0.inv(self.model()),
            r.1 == phase_action(r.0.phase()),
            r.0.emitted() == if r.0.phase() is Done {
                Seq::<UpdateAction>::empty()
            } else {
                seq![r.1]
            },
    {
        let plan = self.plan_update(patch);
        let phase = if plan.do_stop {
            UpdatePhase::Stop
        } else if plan.do_reconfig {
            UpdatePhase::Reconfig
        } else if plan.do_start {
            UpdatePhase::Spawn
        } else {
            UpdatePhase::Done
        };
        let action = Self::action_of(phase);
        let ghost emitted = if phase is Done {
            Seq::<UpdateAction>::empty()
        } else {
            seq![action]
        };
        let run = UpdateRun {
            plan,
            phase,
            failure: None,
            init: Ghost(self.model()),
            emitted: Ghost(emitted),
        };
        proof {
            assert(run.inv(self.model())) by {
                if !(phase is Done) {
                    assert(run.emitted() =~= emitted_at(plan, phase));
                } else {
                    assert(script(plan) =~= Seq::<UpdateAction>::empty());
                }
            }
        }
        (run, action)
    }

    /// The action for a pending phase.
    fn action_of(ph: UpdatePhase) -> (a: UpdateAction)
        ensures
            a == phase_action(ph),
    {
        match ph {
            UpdatePhase::Stop => UpdateAction::StopHost,
            UpdatePhase::Remove => UpdateAction::RemoveProxyConfig,
            UpdatePhase::ReloadStop => UpdateAction::ReloadProxy,
            UpdatePhase::Reconfig => UpdateAction::ReconfigureHost,
            UpdatePhase::Spawn => UpdateAction::SpawnTranscoder,
            UpdatePhase::Write => UpdateAction::WriteProxyConfig,
            UpdatePhase::ReloadStart => UpdateAction::ReloadProxy,
            UpdatePhase::Persist => UpdateAction::PersistState,
            UpdatePhase::Done => UpdateAction::Finish,
        }
    }

    /// Consumes the outcome of the pending action and hands the runtime the
    /// next one. The outcome is consulted only for the fallible steps
    /// (removing or writing the proxy configuration, spawning the
    /// transcoder, persisting state); a failure there records the error and
    /// aborts the remaining steps, leaving the stream in its actual,
    /// possibly partially updated state.
    #[verifier::rlimit(60)]
    pub fn update_step(&mut self, run: &mut UpdateRun, ok: bool) -> (a: UpdateAction)
        requires
            old(self).wf(),
            !(old(run).phase() is Done),
            old(run).inv(old(self).model()),
        ensures
            final(self).wf(),
            final(self).dir() == old(self).dir(),
            final(run).plan() == old(run).plan(),
            final(run).init() == old(run).init(),
            final(run).inv(final(self).model()),
            ({
                let (m2, ph2, f2) = step_result(
                    old(run).plan(),
                    old(run).phase(),
                    ok,
                    old(self).model(),
                );
                &&& final(self).model() == m2
                &&& final(run).phase() == ph2
                &&& final(run).failure() == f2
            }),
            a == phase_action(final(run).phase()),
            final(run).emitted() == if final(run).phase() is Done {
                old(run).emitted()
            } else {
                old(run).emitted().push(a)
            },
    {
        let ghost plan = run.plan;
        match run.phase {
            UpdatePhase::Stop => {
                self.host.stop();
                run.phase = UpdatePhase::Remove;
            },
            UpdatePhase::Remove => {
                if ok {
                    self.proxy = false;
                    run.phase = UpdatePhase::ReloadStop;
                } else {
                    run.failure = Some(StreamError::ProxyIoFailed);
                    run.phase = UpdatePhase::Done;
                }
            },
            UpdatePhase::ReloadStop => {
                run.phase = if run.plan.do_reconfig {
                    UpdatePhase::Reconfig
                } else if run.plan.do_start {
                    UpdatePhase::Spawn
                } else {
                    UpdatePhase::Persist
                };
            },
            UpdatePhase::Reconfig => {
                self.orientation = run.plan.orientation;
                self.host = ProcHost::new(build_command(run.plan.orientation, self.state_dir.as_str()));
                run.phase = if run.plan.do_start {
                    UpdatePhase::Spawn
                } else {
                    UpdatePhase::Persist
                };
            },
            UpdatePhase::Spawn => {
                if ok {
                    let _ = self.host.start_apply(true);
                    run.phase = UpdatePhase::Write;
                } else {
                    run.failure = Some(StreamError::SpawnFailed);
                    run.phase = UpdatePhase::Done;
                }
            },
            UpdatePhase::Write => {
                if ok {
                    self.proxy = true;
                    run.phase = UpdatePhase::ReloadStart;
                } else {
                    run.failure = Some(StreamError::ProxyIoFailed);
                    run.phase = UpdatePhase::Done;
                }
            },
            UpdatePhase::ReloadStart => {
                run.phase = UpdatePhase::Persist;
            },
            UpdatePhase::Persist => {
                if ok {
                    run.phase = UpdatePhase::Done;
                } else {
                    run.failure = Some(StreamError::PersistenceFailed);
                    run.phase = UpdatePhase::Done;
                }
            },
            UpdatePhase::Done => {
                // Excluded by the precondition; no transition.
            },
        }
        let action = Self::action_of(run.phase);
        if !matches!(run.phase, UpdatePhase::Done) {
            proof {
                run.emitted@ = run.emitted@.push(action);
            }
        }
        proof {
            assert(run.inv(self.model())) by {
                if !(run.phase is Done) {
                    assert(run.emitted@ =~= emitted_at(plan, run.phase));
                } else if run.failure is None {
                    assert(run.emitted@ =~= script(plan));
                }
            }
        }
        action
    }
}

/// Where an initialization run stands: the action currently handed to the
/// runtime, or `Done`.
#[derive(Clone, Copy, Debug, PartialEq, Eq, Structural)]
pub enum InitPhase {
    Persist,
    Spawn,
    Write,
    Remove,
    Reload,
    Done,
}

/// The action the runtime performs while an initialization run is in phase
/// `ph`.
pub open spec fn init_phase_action(ph: InitPhase) -> UpdateAction {
    match ph {
        InitPhase::Persist => UpdateAction::PersistState,
        InitPhase::Spawn => UpdateAction::SpawnTranscoder,
        InitPhase::Write => UpdateAction::WriteProxyConfig,
        InitPhase::Remove => UpdateAction::RemoveProxyConfig,
        InitPhase::Reload => UpdateAction::ReloadProxy,
        InitPhase::Done => UpdateAction::Finish,
    }
}

/// The first pending phase of an initialization: persist the defaults when
/// no state was loaded, then bring process and proxy configuration in line
/// with the (loaded or default) state.
pub open spec fn init_first_phase(fresh: bool, enabled: bool) -> InitPhase {
    if fresh {
        InitPhase::Persist
    } else if enabled {
        InitPhase::Spawn
    } else {
        InitPhase::Remove
    }
}

/// The full sequence of actions an initialization performs when every step
/// succeeds.
pub open spec fn init_script(fresh: bool, enabled: bool) -> Seq<UpdateAction> {
    (if fresh {
        seq![UpdateAction::PersistState]
    } else {
        Seq::empty()
    }) + (if enabled {
        seq![UpdateAction::SpawnTranscoder, UpdateAction::WriteProxyConfig]
    } else {
        seq![UpdateAction::RemoveProxyConfig]
    }) + seq![UpdateAction::ReloadProxy]
}

/// The actions emitted so far when phase `ph` of an initialization is
/// pending.
pub open spec fn init_emitted_at(fresh: bool, enabled: bool, ph: InitPhase) -> Seq<UpdateAction> {
    let persist_seg: Seq<UpdateAction> = if fresh {
        seq![UpdateAction::PersistState]
    } else {
        Seq::empty()
    };
    match ph {
        InitPhase::Persist => seq![UpdateAction::PersistState],
        InitPhase::Spawn => persist_seg + seq![UpdateAction::SpawnTranscoder],
        InitPhase::Write => persist_seg
            + seq![UpdateAction::SpawnTranscoder, UpdateAction::WriteProxyConfig],
        InitPhase::Remove => persist_seg + seq![UpdateAction::RemoveProxyConfig],
        InitPhase::Reload => init_script(fresh, enabled),
        InitPhase::Done => init_script(fresh, enabled),
    }
}

/// Which initializations can have phase `ph` pending.
pub open spec fn init_phase_enabled(fresh: bool, enabled: bool, ph: InitPhase) -> bool {
    match ph {
        InitPhase::Persist => fresh,
        InitPhase::Spawn | InitPhase::Write => enabled,
        InitPhase::Remove => !enabled,
        InitPhase::Reload | InitPhase::Done => true,
    }
}

/// The stream's state while phase `ph` of an initialization from state
/// `st` is pending.
pub open spec fn init_model_at(st: StreamState, ph: InitPhase) -> StreamModel {
    let base = StreamModel { orientation: st.orientation, running: false, proxy: false };
    match ph {
        InitPhase::Persist => base,
        InitPhase::Spawn => base,
        InitPhase::Write => StreamModel { running: true, ..base },
        InitPhase::Remove => base,
        InitPhase::Reload => init_success(st),
        InitPhase::Done => init_success(st),
    }
}

/// The state a successful initialization from `st` produces: the
/// transcoder runs and the proxy configuration exists exactly when `st`
/// says the stream is enabled.
pub open spec fn init_success(st: StreamState) -> StreamModel {
    StreamModel { orientation: st.orientation, running: st.enabled, proxy: st.enabled }
}

/// One transition of the initialization machine.
pub open spec fn init_step_result(fresh: bool, enabled: bool, ph: InitPhase, ok: bool, m: StreamModel) -> (
    StreamModel,
    InitPhase,
    Option<StreamError>,
) {
    match ph {
        InitPhase::Persist => if ok {
            (m, if enabled { InitPhase::Spawn } else { InitPhase::Remove }, None)
        } else {
            (m, InitPhase::Done, Some(StreamError::PersistenceFailed))
        },
        InitPhase::Spawn => if ok {
            (StreamModel { running: true, ..m }, InitPhase::Write, None)
        } else {
            (m, InitPhase::Done, Some(StreamError::SpawnFailed))
        },
        InitPhase::Write => if ok {
            (StreamModel { proxy: true, ..m }, InitPhase::Reload, None)
        } else {
            (m, InitPhase::Done, Some(StreamError::ProxyIoFailed))
        },
        InitPhase::Remove => if ok {
            (StreamModel { proxy: false, ..m }, InitPhase::Reload, None)
        } else {
            (m, InitPhase::Done, Some(StreamError::ProxyIoFailed))
        },
        InitPhase::Reload => (m, InitPhase::Done, None),
        InitPhase::Done => (m, InitPhase::Done, None),
    }
}

/// One in-flight initialization: whether the defaults must first be
/// persisted, whether the stream comes up enabled, the pending phase, and
/// the failure that ended the run early, if any.
pub struct InitRun {
    fresh: bool,
    enabled: bool,
    phase: InitPhase,
    failure: Option<StreamError>,
    start_state: Ghost<StreamState>,
    emitted: Ghost<Seq<UpdateAction>>,
}

impl InitRun {
    /// Whether no persisted state was found (the defaults are written back).
    pub closed spec fn fresh(&self) -> bool {
        self.fresh
    }

    /// Whether the stream comes up enabled.
    pub closed spec fn enabled(&self) -> bool {
        self.enabled
    }

    /// The pending phase.
    pub closed spec fn phase(&self) -> InitPhase {
        self.phase
    }

    /// The failure that aborted the run, if any.
    pub closed spec fn failure(&self) -> Option<StreamError> {
        self.failure
    }

    /// The loaded (or default) state the stream is brought in line with.
    pub closed spec fn start_state(&self) -> StreamState {
        self.start_state@
    }

    /// Every action handed to the runtime so far.
    pub closed spec fn emitted(&self) -> Seq<UpdateAction> {
        self.emitted@
    }

    /// The run's internal consistency with the stream state `m` it runs
    /// against; see [`UpdateRun::inv`].
    pub open spec fn inv(&self, m: StreamModel) -> bool {
        &&& self.enabled() == self.start_state().enabled
        &&& if self.phase() is Done {
            match self.failure() {
                None => m == init_success(self.start_state()) && self.emitted() == init_script(
                    self.fresh(),
                    self.enabled(),
                ),
                Some(e) => e == StreamError::ProxyIoFailed || e == StreamError::SpawnFailed
                    || e == StreamError::PersistenceFailed,
            }
        } else {
            &&& self.failure() is None
            &&& m == init_model_at(self.start_state(), self.phase())
            &&& self.emitted() == init_emitted_at(self.fresh(), self.enabled(), self.phase())
            &&& init_phase_enabled(self.fresh(), self.enabled(), self.phase())
        }
    }

    /// Whether the run is complete.
    pub fn is_finished(&self) -> (r: bool)
        ensures
            r == (self.phase() is Done),
    {
        match self.phase {
            InitPhase::Done => true,
            _ => false,
        }
    }

    /// The outcome of a completed run.
    pub fn outcome(&self) -> (r: Result<(), StreamError>)
        requires
            self.phase() is Done,
        ensures
            match self.failure() {
                None => r matches Ok(()),
                Some(e) => r matches Err(err) && err == e,
            },
    {
        match self.failure {
            None => Ok(()),
            Some(e) => Err(e),
        }
    }
}

impl Stream {
    /// Builds the stream controller from the persisted state, or from the
    /// defaults when none was found, and begins bringing the node in line
    /// with it: persist the defaults if they are new, start the transcoder
    /// and write the proxy configuration if the stream is enabled (remove
    /// the configuration if it is not), and reload the proxy once.
    ///
    /// Must be called exactly once per process lifetime; the controller it
    /// returns is the one instance everything else shares.
    pub fn initialize(loaded: Option<StreamState>, state_dir: String) -> (r: (Stream, InitRun, UpdateAction))
        ensures
            r.0.wf(),
            r.0.dir() == state_dir@,
            r.0.model() == (StreamModel {
                orientation: r.1.start_state().orientation,
                running: false,
                proxy: false,
            }),
            r.1.start_state() == opt_or(loaded, StreamState { enabled: false, orientation: Orientation::Landscape }),
            r.1.fresh() == (loaded is None),
            r.1.failure() is None,
            r.1.phase() == init_first_phase(r.1.fresh(), r.1.enabled()),
            r.1.inv(r.0.model()),
            r.2 == init_phase_action(r.1.phase()),
    {
        let fresh = loaded.is_none();
        let state = match loaded {
            Some(s) => s,
            None => StreamState { enabled: false, orientation: Orientation::Landscape },
        };
        let host = ProcHost::new(build_command(state.orientation, state_dir.as_str()));
        let stream = Stream { orientation: state.orientation, host, proxy: false, state_dir };
        let phase = if fresh {
            InitPhase::Persist
        } else if state.enabled {
            InitPhase::Spawn
        } else {
            InitPhase::Remove
        };
        let action = Self::init_action_of(phase);
        let ghost emitted = seq![action];
        let run = InitRun {
            fresh,
            enabled: state.enabled,
            phase,
            failure: None,
            start_state: Ghost(state),
            emitted: Ghost(emitted),
        };
        proof {
            assert(run.inv(stream.model())) by {
                assert(run.emitted@ =~= init_emitted_at(fresh, state.enabled, phase));
            }
        }
        (stream, run, action)
    }

    /// The action for a pending initialization phase.
    fn init_action_of(ph: InitPhase) -> (a: UpdateAction)
        ensures
            a == init_phase_action(ph),
    {
        match ph {
            InitPhase::Persist => UpdateAction::PersistState,
            InitPhase::Spawn => UpdateAction::SpawnTranscoder,
            InitPhase::Write => UpdateAction::WriteProxyConfig,
            InitPhase::Remove => UpdateAction::RemoveProxyConfig,
            InitPhase::Reload => UpdateAction::ReloadProxy,
            InitPhase::Done => UpdateAction::Finish,
        }
    }

    /// Consumes the outcome of the pending initialization action and hands
    /// the runtime the next one; failures abort the remaining steps, as in
    /// [`Stream::update_step`].
    #[verifier::rlimit(60)]
    pub fn init_step(&mut self, run: &mut InitRun, ok: bool) -> (a: UpdateAction)
        requires
            old(self).wf(),
            !(old(run).phase() is Done),
            old(run).inv(old(self).model()),
        ensures
            final(self).wf(),
            final(self).dir() == old(self).dir(),
            final(run).fresh() == old(run).fresh(),
            final(run).enabled() == old(run).enabled(),
            final(run).start_state() == old(run).start_state(),
            final(run).inv(final(self).model()),
            ({
                let (m2, ph2, f2) = init_step_result(
                    old(run).fresh(),
                    old(run).enabled(),
                    old(run).phase(),
                    ok,
                    old(self).model(),
                );
                &&& final(self).model() == m2
                &&& final(run).phase() == ph2
                &&& final(run).failure() == f2
            }),
            a == init_phase_action(final(run).phase()),
            final(run).emitted() == if final(run).phase() is Done {
                old(run).emitted()
            } else {
                old(run).emitted().push(a)
            },
    {
        let ghost fresh = run.fresh;
        let ghost enabled = run.enabled;
        match run.phase {
            InitPhase::Persist => {
                if ok {
                    run.phase = if run.enabled {
                        InitPhase::Spawn
                    } else {
                        InitPhase::Remove
                    };
                } else {
                    run.failure = Some(StreamError::PersistenceFailed);
                    run.phase = InitPhase::Done;
                }
            },
            InitPhase::Spawn => {
                if ok {
                    let _ = self.host.start_apply(true);
                    run.phase = InitPhase::Write;
                } else {
                    run.failure = Some(StreamError::SpawnFailed);
                    run.phase = InitPhase::Done;
                }
            },
            InitPhase::Write => {
                if ok {
                    self.proxy = true;
                    run.phase = InitPhase::Reload;
                } else {
                    run.failure = Some(StreamError::ProxyIoFailed);
                    run.phase = InitPhase::Done;
                }
            },
            InitPhase::Remove => {
                if ok {
                    self.proxy = false;
                    run.phase = InitPhase::Reload;
                } else {
                    run.failure = Some(StreamError::ProxyIoFailed);
                    run.phase = InitPhase::Done;
                }
            },
            InitPhase::Reload => {
                run.phase = InitPhase::Done;
            },
            InitPhase::Done => {
                // Excluded by the precondition; no transition.
            },
        }
        let action = Self::init_action_of(run.phase);
        if !matches!(run.phase, InitPhase::Done) {
            proof {
                run.emitted@ = run.emitted@.push(action);
            }
        }
        proof {
            assert(run.inv(self.model())) by {
                if !(run.phase is Done) {
                    assert(run.emitted@ =~= init_emitted_at(fresh, enabled, run.phase));
                } else if run.failure is None {
                    assert(run.emitted@ =~= init_script(fresh, enabled));
                }
            }
        }
        action
    }
}

/// Applying an update reflects the patched fields and leaves unspecified
/// fields unchanged: when every step succeeds, the stream is enabled
/// exactly as the patch says (or as it was, where the patch is silent) and
/// oriented as the patch says (or as it was).
pub proof fn lemma_update_reflects_patch(m: StreamModel, u: StreamUpdate)
    ensures
        success_model(m, plan_spec(m, u)).running == opt_or(u.enabled, m.running),
        success_model(m, plan_spec(m, u)).orientation == opt_or(u.orientation, m.orientation),
{
}

/// A successful update keeps the proxy configuration in step with the
/// stream: if the file's presence matched the transcoder's state before,
/// it does after — the proxy never points at a stream that is not running.
pub proof fn lemma_update_preserves_proxy_sync(m: StreamModel, u: StreamUpdate)
    requires
        m.proxy == m.running,
    ensures
        ({
            let r = success_model(m, plan_spec(m, u));
            r.proxy == r.running
        }),
{
}

/// An orientation change on a stream that is running and stays enabled
/// executes exactly: stop the host, remove the proxy configuration, reload;
/// reconfigure the host; spawn, write the proxy configuration, reload;
/// persist — stop before reconfigure before start.
pub proof fn lemma_orientation_change_script(m: StreamModel, u: StreamUpdate)
    requires
        m.running,
        u.orientation matches Some(o) && o != m.orientation,
        u.enabled != Some(false),
    ensures
        script(plan_spec(m, u)) =~= seq![
            UpdateAction::StopHost,
            UpdateAction::RemoveProxyConfig,
            UpdateAction::ReloadProxy,
            UpdateAction::ReconfigureHost,
            UpdateAction::SpawnTranscoder,
            UpdateAction::WriteProxyConfig,
            UpdateAction::ReloadProxy,
            UpdateAction::PersistState,
        ],
{
}

/// A patch that changes nothing is a no-op: its plan does nothing and its
/// script is empty — no stop, no reconfigure, no start, no reload, no
/// persistence write.
pub proof fn lemma_unchanged_patch_is_noop(m: StreamModel, u: StreamUpdate)
    requires
        u.enabled matches Some(e) ==> e == m.running,
        u.orientation matches Some(o) ==> o == m.orientation,
    ensures
        !dirty(plan_spec(m, u)),
        script(plan_spec(m, u)) =~= Seq::<UpdateAction>::empty(),
{
}

} // verus!
