//! Version management for Godot engine releases: the identity of a release,
//! the registry that maps releases to download locations, the resumable
//! download protocol, the archive extraction plan, and the activation state.
//!
//! Everything here computes on plain values. Network and filesystem effects
//! are requested as actions and reported back as events by the caller.

pub mod activation;
pub mod archive;
pub mod config;
pub mod download;
pub mod error;
pub mod parse;
pub mod paths;
pub mod pipeline;
pub mod platform;
pub mod registry;
pub mod store;
pub mod text;
pub mod version;
