//! Verified core of a USB-stick provisioning tool.
//!
//! The library holds the logic that decides what the tool does: partition
//! geometry planning, the per-filesystem format command tables, the error
//! taxonomy with its exit codes, the scoped-mount and raw-copy decision
//! rules, and the provisioning state machine. The unverified front end
//! performs the actual device, process and filesystem I/O and consults this
//! library for every decision.

pub mod copy;
pub mod dd;
pub mod error;
pub mod formatting;
pub mod geometry;
pub mod iso;
pub mod mount;
pub mod parted;
pub mod partitioning;
pub mod text;
pub mod tui;
