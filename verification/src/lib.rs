//! Supervision of a single backend process by a desktop shell.
//!
//! The shell starts one backend executable when it comes up, replaces it on
//! demand and terminates it when its window closes. This crate holds the
//! decisions of that lifecycle: where the executable lives below the resource
//! root, in what order a child is terminated, located and spawned, and which
//! child the supervisor owns after every step. The host performs the work
//! itself (it terminates and spawns processes and looks the resource root up)
//! and tells the supervisor how each piece of work ended.

pub mod command;
pub mod laws;
pub mod platform;
pub mod protocol;
pub mod supervisor;
