//! Locations of the reverse-proxy configuration.
//!
//! The proxy itself is an external collaborator; the stream subsystem only
//! writes or removes one configuration file for the stream and asks for a
//! reload. The file's path is deterministic: this module computes it, the
//! runtime touches it.

use vstd::prelude::*;

verus! {

/// The directory the proxy configuration lives in, under the node's state
/// directory.
pub fn proxy_config_dir(state_dir: &str) -> (r: String)
    ensures
        r@ == state_dir@ + "/nginx"@,
{
    String::from_str(state_dir).concat("/nginx")
}

/// The path of the stream's proxy configuration file, under the node's
/// state directory.
pub fn proxy_config_path(state_dir: &str) -> (r: String)
    ensures
        r@ == state_dir@ + "/nginx/hls.conf"@,
{
    String::from_str(state_dir).concat("/nginx/hls.conf")
}

} // verus!
