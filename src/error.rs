//! Errors of the downloader.
use vstd::prelude::*;

verus! {

/// Why a run, or part of it, did not succeed.
#[derive(Debug)]
pub enum YtrsError {
    /// A required program is not installed.
    MissingDependency(String),
    /// yt-dlp ended unsuccessfully, with this exit code if it exited.
    YtDlpFailed(Option<i32>),
    /// No usable URL was given.
    NoValidUrls,
    /// This many items of a batch failed.
    PartialFailure(usize),
    /// The coordination between tasks broke down.
    SemaphoreClosed,
    /// Download options that cannot be combined.
    InvalidModeCombo(String),
    /// The number of parallel downloads is zero.
    InvalidParallelism,
    /// An operating system error, as text.
    Io(String),
}

} // verus!
