//! Startup supervision for a desktop application that launches a bundled
//! backend sidecar.
//!
//! The crate holds the decisions of the startup sequence as a verified state
//! machine. The surrounding shell performs the outside work (registering
//! plugins, touching the file system, creating the process) and reports each
//! answer back as an event.

pub mod bootstrap;
pub mod config;
pub mod data_dir;
pub mod decimal;
pub mod diagnostics;
pub mod laws;
pub mod protocol;
pub mod run;
pub mod supervisor;
