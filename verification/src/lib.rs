//! Startup of a desktop application shell.
//!
//! The shell attaches a fixed set of framework plugins, hands control to the
//! framework's event loop, and treats a failed start as fatal. This crate
//! holds what the shell itself decides: which plugins are attached and in
//! which order ([`plan`]), and what follows from the way the event loop
//! returned ([`outcome`]). Driving the framework is left to the caller.

pub mod outcome;
pub mod plan;
pub mod plugin;

pub use outcome::{conclude, fatal_message, Outcome, FAILURE_CONTEXT};
pub use plan::{startup_plan, startup_plugins, LOCAL_SERVER_PORT};
pub use plugin::Plugin;
