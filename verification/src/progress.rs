//! Progress accounting for a model download: a running byte count, the
//! expected total, and an iteration counter that keeps the event volume
//! coarse.
//!
//! The handler produces progress reports as values; a consumer drains them
//! independently, decoupling transfer speed from consumer processing speed.

use vstd::prelude::*;

verus! {

/// Number of update calls between two progress reports.
pub const ITERATION_LOG: usize = 1000;

/// A progress report: bytes downloaded when it was emitted, and the expected
/// total.
#[derive(Clone, Copy, PartialEq, Eq, Structural, Debug)]
pub struct ProgressReport {
    pub downloaded: usize,
    pub total: usize,
}

/// Progress accounting of one download.
#[derive(Clone, Debug)]
pub struct DownloadProgressHandler {
    current: usize,
    total: usize,
    iteration: usize,
    finished: bool,
}

impl DownloadProgressHandler {
    /// Bytes accounted so far.
    pub closed spec fn current(self) -> usize {
        self.current
    }

    /// The expected total, as announced at initialization.
    pub closed spec fn total(self) -> usize {
        self.total
    }

    /// Update calls accounted so far.
    pub closed spec fn iteration(self) -> usize {
        self.iteration
    }

    /// Whether the download was already reported finished.
    pub closed spec fn finished(self) -> bool {
        self.finished
    }

    /// A fresh handler with all counters at zero.
    pub fn new() -> (h: Self)
        ensures
            h.current() == 0,
            h.total() == 0,
            h.iteration() == 0,
            !h.finished(),
    {
        DownloadProgressHandler { current: 0, total: 0, iteration: 0, finished: false }
    }

    /// Announces the expected size of the file about to be downloaded and
    /// resets the counters.
    pub fn init(&mut self, size: usize, _filename: &str)
        ensures
            final(self).total() == size,
            final(self).current() == 0,
            final(self).iteration() == 0,
            final(self).finished() == old(self).finished(),
    {
        self.total = size;
        self.current = 0;
        self.iteration = 0;
    }

    /// Accounts one downloaded chunk of `size` bytes. Every
    /// [`ITERATION_LOG`]-th call — counting from the first, which always
    /// reports — returns a progress report carrying the byte count as it
    /// stood before this chunk, and the expected total.
    pub fn update(&mut self, size: usize) -> (r: Option<ProgressReport>)
        requires
            old(self).current() + size <= usize::MAX,
            old(self).iteration() < usize::MAX,
        ensures
            final(self).current() == old(self).current() + size,
            final(self).iteration() == old(self).iteration() + 1,
            final(self).total() == old(self).total(),
            final(self).finished() == old(self).finished(),
            r is Some <==> old(self).iteration() % ITERATION_LOG == 0,
            r matches Some(p) ==> p.downloaded == old(self).current() && p.total == old(
                self,
            ).total(),
    {
        let report = if self.iteration % ITERATION_LOG == 0 {
            Some(ProgressReport { downloaded: self.current, total: self.total })
        } else {
            None
        };
        self.current = self.current + size;
        self.iteration = self.iteration + 1;
        report
    }

    /// Marks the download finished. Returns whether this call was the one
    /// that finished it, so a completion action runs at most once.
    pub fn finish(&mut self) -> (r: bool)
        ensures
            final(self).finished(),
            final(self).current() == old(self).current(),
            final(self).total() == old(self).total(),
            final(self).iteration() == old(self).iteration(),
            r == !old(self).finished(),
    {
        let r = !self.finished;
        self.finished = true;
        r
    }
}

} // verus!
