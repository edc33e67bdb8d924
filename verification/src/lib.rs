//! Core of a small edge video node: a supervised external transcoder
//! process and the stream controller that manages it.
//!
//! The controller logic is verified. Everything that touches the operating
//! system (spawning the transcoder, writing the reverse-proxy
//! configuration, persisting settings) is driven through explicit action
//! values that a thin runtime executes, reporting each outcome back to the
//! verified core.

pub mod api;
pub mod auth;
pub mod command;
pub mod config;
pub mod error;
pub mod prochost;
pub mod proxy;
pub mod sec;
pub mod settings;
pub mod stream;
