//! Dependency resolution and lock reconciliation for a Lua package manager.
//!
//! The library holds the manifest and lock models, the merge of a lock
//! entry into a manifest entry, the resolution of on-disk paths, the
//! per-node reconciliation state machine and the planning steps of the
//! tree walker. Everything that touches the disk or the network is done
//! by the caller, which hands the observed facts back in plain values.

pub mod dependency;
pub mod paths;
pub mod reconcile;
pub mod remediate;
pub mod config;
pub mod walker;
pub mod commands;
