//! Boundary layer between foreign callers and an animation playback engine.
//!
//! The crate holds the rules of the boundary: status codes, text and array
//! marshalling, the handle registry, the size-query/fill protocol for
//! collections, the mapping of the flat configuration record, and the
//! mapping of engine events to callback invocations.

pub mod arrays;
pub mod codec;
pub mod config;
pub mod float32;
pub mod listener;
pub mod manifest;
pub mod marker;
pub mod observer;
pub mod player;
pub mod registry;
pub mod status;
