//! Driving the stream controller through whole operations, checking the
//! action order, the outcomes, and the resulting state.

use lunacam::error::StreamError;
use lunacam::stream::{Orientation, Stream, StreamState, StreamUpdate, UpdateAction};

const DIR: &str = "/var/lib/lunacam";

/// Runs an initialization to completion with every step succeeding,
/// returning the stream and the actions performed.
fn init_ok(loaded: Option<StreamState>) -> (Stream, Vec<UpdateAction>) {
    let (mut stream, mut run, mut action) = Stream::initialize(loaded, String::from(DIR));
    let mut actions = Vec::new();
    while action != UpdateAction::Finish {
        actions.push(action);
        action = stream.init_step(&mut run, true);
    }
    assert!(run.is_finished());
    assert!(run.outcome().is_ok());
    (stream, actions)
}

/// Runs an update to completion with every step succeeding, returning the
/// actions performed.
fn update_ok(stream: &mut Stream, patch: &StreamUpdate) -> Vec<UpdateAction> {
    let (mut run, mut action) = stream.update_begin(patch);
    let mut actions = Vec::new();
    while action != UpdateAction::Finish {
        actions.push(action);
        action = stream.update_step(&mut run, true);
    }
    assert!(run.is_finished());
    assert!(run.outcome().is_ok());
    actions
}

#[test]
fn fresh_initialize_persists_defaults_and_clears_proxy() {
    let (stream, actions) = init_ok(None);
    assert_eq!(
        actions,
        vec![
            UpdateAction::PersistState,
            UpdateAction::RemoveProxyConfig,
            UpdateAction::ReloadProxy,
        ]
    );
    let st = stream.state();
    assert!(!st.enabled);
    assert_eq!(st.orientation, Orientation::Landscape);
}

#[test]
fn initialize_enabled_starts_and_writes_proxy() {
    let loaded = StreamState { enabled: true, orientation: Orientation::Portrait };
    let (stream, actions) = init_ok(Some(loaded));
    assert_eq!(
        actions,
        vec![
            UpdateAction::SpawnTranscoder,
            UpdateAction::WriteProxyConfig,
            UpdateAction::ReloadProxy,
        ]
    );
    let st = stream.state();
    assert!(st.enabled);
    assert_eq!(st.orientation, Orientation::Portrait);
}

#[test]
fn scenario_enable_rotate_repeat() {
    // Start from {enabled: false, orientation: Landscape}.
    let (mut stream, _) = init_ok(None);

    // PATCH {enabled: true}: proxy config written, child running, one reload.
    let enable = StreamUpdate { enabled: Some(true), orientation: None };
    let actions = update_ok(&mut stream, &enable);
    assert_eq!(
        actions,
        vec![
            UpdateAction::SpawnTranscoder,
            UpdateAction::WriteProxyConfig,
            UpdateAction::ReloadProxy,
            UpdateAction::PersistState,
        ]
    );
    let st = stream.state();
    assert!(st.enabled);
    assert_eq!(st.orientation, Orientation::Landscape);

    // PATCH {orientation: Portrait}: stop, reconfigure, start, the proxy
    // config rewritten and the proxy reloaded again.
    let rotate = StreamUpdate { enabled: None, orientation: Some(Orientation::Portrait) };
    let actions = update_ok(&mut stream, &rotate);
    assert_eq!(
        actions,
        vec![
            UpdateAction::StopHost,
            UpdateAction::RemoveProxyConfig,
            UpdateAction::ReloadProxy,
            UpdateAction::ReconfigureHost,
            UpdateAction::SpawnTranscoder,
            UpdateAction::WriteProxyConfig,
            UpdateAction::ReloadProxy,
            UpdateAction::PersistState,
        ]
    );
    let st = stream.state();
    assert!(st.enabled);
    assert_eq!(st.orientation, Orientation::Portrait);
    // The host is now bound to the new orientation's command.
    let cmd = stream.host_command();
    assert!(cmd.args.iter().any(|a| a == "rotate=90"));

    // Repeating PATCH {enabled: true} with no actual change is a no-op: no
    // stop, no reconfig, no start, no extra reload, no persistence write.
    let (run, action) = stream.update_begin(&enable);
    assert_eq!(action, UpdateAction::Finish);
    assert!(run.is_finished());
    assert!(run.outcome().is_ok());
    let st = stream.state();
    assert!(st.enabled);
    assert_eq!(st.orientation, Orientation::Portrait);
}

#[test]
fn disable_stops_and_removes_proxy() {
    let loaded = StreamState { enabled: true, orientation: Orientation::Landscape };
    let (mut stream, _) = init_ok(Some(loaded));
    let disable = StreamUpdate { enabled: Some(false), orientation: None };
    let actions = update_ok(&mut stream, &disable);
    assert_eq!(
        actions,
        vec![
            UpdateAction::StopHost,
            UpdateAction::RemoveProxyConfig,
            UpdateAction::ReloadProxy,
            UpdateAction::PersistState,
        ]
    );
    assert!(!stream.state().enabled);
}

#[test]
fn rotate_while_disabled_only_reconfigures() {
    let (mut stream, _) = init_ok(None);
    let rotate = StreamUpdate { enabled: None, orientation: Some(Orientation::InvertedPortrait) };
    let actions = update_ok(&mut stream, &rotate);
    assert_eq!(actions, vec![UpdateAction::ReconfigureHost, UpdateAction::PersistState]);
    let st = stream.state();
    assert!(!st.enabled);
    assert_eq!(st.orientation, Orientation::InvertedPortrait);
}

#[test]
fn spawn_failure_aborts_and_reports() {
    let (mut stream, _) = init_ok(None);
    let enable = StreamUpdate { enabled: Some(true), orientation: None };
    let (mut run, action) = stream.update_begin(&enable);
    assert_eq!(action, UpdateAction::SpawnTranscoder);
    let action = stream.update_step(&mut run, false);
    assert_eq!(action, UpdateAction::Finish);
    assert_eq!(run.outcome(), Err(StreamError::SpawnFailed));
    // The live state reports what actually happened: still disabled.
    assert!(!stream.state().enabled);
}

#[test]
fn remove_failure_aborts_after_stop() {
    let loaded = StreamState { enabled: true, orientation: Orientation::Landscape };
    let (mut stream, _) = init_ok(Some(loaded));
    let disable = StreamUpdate { enabled: Some(false), orientation: None };
    let (mut run, action) = stream.update_begin(&disable);
    assert_eq!(action, UpdateAction::StopHost);
    let action = stream.update_step(&mut run, true);
    assert_eq!(action, UpdateAction::RemoveProxyConfig);
    let action = stream.update_step(&mut run, false);
    assert_eq!(action, UpdateAction::Finish);
    assert_eq!(run.outcome(), Err(StreamError::ProxyIoFailed));
    // The stop had already been applied: the partial state is reported.
    assert!(!stream.state().enabled);
}

#[test]
fn persist_failure_reports_persistence_error() {
    let (mut stream, _) = init_ok(None);
    let rotate = StreamUpdate { enabled: None, orientation: Some(Orientation::Portrait) };
    let (mut run, action) = stream.update_begin(&rotate);
    assert_eq!(action, UpdateAction::ReconfigureHost);
    let action = stream.update_step(&mut run, true);
    assert_eq!(action, UpdateAction::PersistState);
    let action = stream.update_step(&mut run, false);
    assert_eq!(action, UpdateAction::Finish);
    assert_eq!(run.outcome(), Err(StreamError::PersistenceFailed));
    // The reconfiguration itself took effect.
    assert_eq!(stream.state().orientation, Orientation::Portrait);
}

#[test]
fn fresh_persist_failure_aborts_initialization() {
    let (mut stream, mut run, action) = Stream::initialize(None, String::from(DIR));
    assert_eq!(action, UpdateAction::PersistState);
    let action = stream.init_step(&mut run, false);
    assert_eq!(action, UpdateAction::Finish);
    assert_eq!(run.outcome(), Err(StreamError::PersistenceFailed));
    assert!(!stream.state().enabled);
}

#[test]
fn update_after_failed_update_reflects_live_state() {
    // Enable, but fail the proxy write: the child runs, the proxy config
    // does not exist.
    let (mut stream, _) = init_ok(None);
    let enable = StreamUpdate { enabled: Some(true), orientation: None };
    let (mut run, action) = stream.update_begin(&enable);
    assert_eq!(action, UpdateAction::SpawnTranscoder);
    let action = stream.update_step(&mut run, true);
    assert_eq!(action, UpdateAction::WriteProxyConfig);
    let action = stream.update_step(&mut run, false);
    assert_eq!(action, UpdateAction::Finish);
    assert_eq!(run.outcome(), Err(StreamError::ProxyIoFailed));
    assert!(stream.state().enabled);

    // A later disable still works from the actual state.
    let disable = StreamUpdate { enabled: Some(false), orientation: None };
    let actions = update_ok(&mut stream, &disable);
    assert_eq!(actions[0], UpdateAction::StopHost);
    assert!(!stream.state().enabled);
}
