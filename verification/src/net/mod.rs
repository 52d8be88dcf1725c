//! Per-shard network routing policy: route profiles, the kill switch, leak
//! checks, and the firewall backend that enforces them.
pub mod profile;
pub mod backend;
pub mod service;
pub mod ipc;
