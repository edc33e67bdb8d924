//! Web API types: the serializable shapes the HTTP layer exchanges.

use vstd::prelude::*;

use crate::stream::{Orientation, StreamState, StreamUpdate};

verus! {

/// Video stream settings, every field optional.
#[derive(Clone, Copy, Debug)]
pub struct StreamSettings {
    pub enabled: Option<bool>,
    pub orientation: Option<Orientation>,
}

impl Default for StreamSettings {
    /// Empty settings: nothing specified.
    fn default() -> (r: Self)
        ensures
            r.enabled is None,
            r.orientation is None,
    {
        StreamSettings { enabled: None, orientation: None }
    }
}

impl StreamSettings {
    /// The partial update these settings describe.
    pub fn to_update(&self) -> (u: StreamUpdate)
        ensures
            u.enabled == self.enabled,
            u.orientation == self.orientation,
    {
        StreamUpdate { enabled: self.enabled, orientation: self.orientation }
    }

    /// The settings describing a stream's full state, both fields present.
    pub fn of_state(st: &StreamState) -> (r: Self)
        ensures
            r.enabled == Some(st.enabled),
            r.orientation == Some(st.orientation),
    {
        StreamSettings { enabled: Some(st.enabled), orientation: Some(st.orientation) }
    }
}

/// Streaming camera settings, every field optional.
pub struct CameraSettings {
    pub enabled: Option<bool>,
    pub hostname: Option<String>,
    pub id: Option<i32>,
    pub device_key: Option<String>,
    pub friendly_name: Option<String>,
    pub orientation: Option<Orientation>,
}

/// API representation of a user account.
pub struct UserResource {
    pub display_name: Option<String>,
    pub id: Option<i32>,
    pub password: Option<String>,
    pub username: Option<String>,
}

} // verus!
