//! Errors of the stream subsystem.

use vstd::prelude::*;

verus! {

/// What can go wrong while managing the stream.
///
/// `SignalFailed` and `ProxyReloadFailed` are warning-level: the runtime
/// logs them and the operation carries on (teardown still guarantees
/// termination, and a stale proxy never corrupts stream state). The other
/// variants abort the remaining steps of the operation that hit them and
/// propagate to the caller.
#[derive(Clone, Copy, Debug, PartialEq, Eq, Structural)]
pub enum StreamError {
    /// Spawning the transcoder process failed; the host stays not running.
    SpawnFailed,
    /// The stop signal to the watchdog could not be delivered.
    SignalFailed,
    /// Persisting the stream state to the settings store failed.
    PersistenceFailed,
    /// Writing or removing the reverse-proxy configuration file failed.
    ProxyIoFailed,
    /// Reloading the reverse proxy failed.
    ProxyReloadFailed,
    /// The stream subsystem was used before it was initialized.
    Uninitialized,
}

impl StreamError {
    /// A short description, one per variant.
    pub fn describe(&self) -> (r: &'static str)
        ensures
            r@ == self.describe_spec(),
    {
        match self {
            StreamError::SpawnFailed => "failed to spawn the transcoder process",
            StreamError::SignalFailed => "failed to signal the watchdog",
            StreamError::PersistenceFailed => "failed to persist stream state",
            StreamError::ProxyIoFailed => "failed to update the proxy configuration file",
            StreamError::ProxyReloadFailed => "failed to reload the proxy",
            StreamError::Uninitialized => "the stream subsystem is not initialized",
        }
    }

    /// The description `describe` returns.
    pub open spec fn describe_spec(&self) -> Seq<char> {
        match self {
            StreamError::SpawnFailed => "failed to spawn the transcoder process"@,
            StreamError::SignalFailed => "failed to signal the watchdog"@,
            StreamError::PersistenceFailed => "failed to persist stream state"@,
            StreamError::ProxyIoFailed => "failed to update the proxy configuration file"@,
            StreamError::ProxyReloadFailed => "failed to reload the proxy"@,
            StreamError::Uninitialized => "the stream subsystem is not initialized"@,
        }
    }
}

} // verus!
