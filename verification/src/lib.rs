//! Verified core of a workflow activity reporter.
//!
//! The library parses hosting-platform timestamps, decides what a fetched
//! run-list or workflow-list payload means, and renders the human-readable
//! report. All network and terminal I/O lives outside the library; callers
//! hand in plain values and receive plain values back.

pub mod decimal;
pub mod fetch;
pub mod localtime;
pub mod model;
pub mod render;
pub mod timestamp;
