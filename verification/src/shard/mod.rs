//! Persona shards: their lifecycle and its request interface.
pub mod manager;
pub mod ipc;
