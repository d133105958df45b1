//! Snapshot orchestration and retention for incremental local backups.
//!
//! The library decides; the caller performs. Each command is a small state
//! machine whose current step names the outside work to do next (probe a
//! tool, create a directory, run synchronization jobs, ...). The caller does
//! that work and feeds the outcome back as an event.

pub mod calendar;
pub mod paths;
pub mod error;
pub mod config;
pub mod command;
pub mod update;
pub mod clean;
pub mod remote;
pub mod help;
