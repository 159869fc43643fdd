//! Launch orchestration and process-lifecycle library for running Windows
//! games under a Linux compatibility layer (Proton/Wine), optionally wrapped
//! in the Gamescope compositor.
//!
//! The library holds the verified core: configuration validation, launch
//! command construction, the process-name classifier that drives the forced
//! termination sweep, and the persisted-configuration codec. Process-table
//! access goes through a small set of trusted wrappers over the `sysinfo`
//! crate; spawning the game process and file I/O are left to the caller,
//! which hands the library plain values.

pub mod classify;
pub mod codec;
pub mod command;
pub mod config;
pub mod config_store;
pub mod error;
pub mod launcher;
pub mod path;
pub mod process;
pub mod state;
pub mod steam;
pub mod sys;
pub mod text;
