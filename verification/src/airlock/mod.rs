//! The airlock: cross-shard artifact transfer through scanning, approval and commit.
pub mod markers;
pub mod mime;
pub mod scrub;
pub mod pipeline;
pub mod service;
pub mod ipc;
