//! System configuration.

use vstd::prelude::*;

verus! {

/// Critical configuration needed for the system to operate correctly. It
/// is loaded from a file by the hosting program.
pub struct SystemConfig {
    /// Address on which the node listens for HTTP requests.
    pub listen: String,
    /// Path to static web content.
    pub static_path: String,
    /// Path to HTML templates.
    pub template_path: String,
    /// Path to user configuration storage.
    pub user_config_path: String,
}

} // verus!
