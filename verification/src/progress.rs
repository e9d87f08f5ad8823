//! The data the sync engine reports: per-tick snapshots and final counters.

use vstd::prelude::*;

verus! {

/// One immutable snapshot of the transfer, produced per tick by the engine.
pub struct Progress {
    /// 1-based ordinal of the current file.
    pub index: usize,
    /// Total file count.
    pub num_files: usize,
    /// Display path of the current file; may be arbitrarily long.
    pub current_file: String,
    /// Bytes transferred of the current file.
    pub file_done: usize,
    /// Total bytes of the current file. The renderer divides by this, so a
    /// zero size is excluded by [`Progress::wf`] rather than given a
    /// made-up percentage.
    pub file_size: usize,
    /// Estimated remaining seconds for the current file.
    pub eta: usize,
}

impl Progress {
    /// The invariant the renderer expects of a snapshot: a meaningful
    /// ordinal, progress within bounds, and a nonzero file size.
    pub open spec fn wf(&self) -> bool {
        &&& 1 <= self.index <= self.num_files
        &&& self.file_done <= self.file_size
        &&& 0 < self.file_size
    }
}

/// Counters reported once when the whole sync is done.
pub struct Stats {
    pub num_synced: usize,
    pub up_to_date: usize,
    pub copied: usize,
    pub symlink_created: usize,
    pub symlink_updated: usize,
}

/// The capability interface the sync engine drives, in lifecycle order
/// `start`, then any number of `new_file` and `progress` calls, then
/// `done_syncing`, then `end`. Each call yields the exact text to emit for
/// that event — an unverified shell writes it to the terminal — so sinks
/// other than the console one (a silent sink, a log-file sink) can be added
/// without touching the engine.
pub trait ProgressInfo {
    /// The one-line announcement emitted when syncing begins.
    fn start(&self, source: &str, destination: &str) -> String;

    /// Hook for the beginning of a new file; reserved, may yield no text.
    fn new_file(&self, name: &str) -> String;

    /// The redrawn status line for one progress tick.
    fn progress(&self, p: &Progress) -> String
        requires
            p.wf(),
    ;

    /// The text that blanks the status line once all transfers complete.
    fn done_syncing(&self) -> String;

    /// The final human-readable summary.
    fn end(&self, stats: &Stats) -> String;
}

} // verus!
