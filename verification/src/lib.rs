//! Verified core of a small request/response server: user permissions,
//! the wire data model, the read-buffer framing and the per-connection
//! request loop, as state machines that an I/O driver runs.

pub mod auth;
pub mod data;
pub mod buffer;
pub mod wave;
