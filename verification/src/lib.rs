//! Console progress display for a file-synchronization run.
//!
//! The library renders a live, single-line progress display: a fixed-budget
//! line layout (percent, index/total, filename, ETA) recomputed on every tick
//! against the current terminal width, with encoding-safe filename truncation,
//! `HH:MM:SS` duration formatting, and line erasure for a clean summary.
//! Every rendering function is a pure function from a progress snapshot and a
//! width to the exact text to emit; an unverified shell is expected to write
//! that text to the terminal.

pub mod console_info;
pub mod duration;
pub mod progress;
pub mod render;
pub mod style;
pub mod text;
pub mod truncate;
pub mod width;
