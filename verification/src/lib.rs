//! Verified core logic of the SpecterOS privacy services: the airlock
//! transfer pipeline, shard lifecycle management, network routing policy,
//! emergency modes, capability tokens, A/B updates, keys, layered
//! configuration, desktop shard isolation and the control shell.
use vstd::prelude::*;

pub mod text;
pub mod paths;
pub mod signing;
pub mod collections;
pub mod audit;
pub mod ipc;
pub mod airlock;
pub mod shard;
pub mod net;
pub mod guardian;
pub mod shell;
pub mod update;
pub mod policy;
pub mod keys;
pub mod isolation;
pub mod config;
pub mod layers;

verus! {

} // verus!
