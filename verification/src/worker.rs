//! The worker's side of the job protocol: which descriptors a worker takes
//! up, and the marker that it leaves when a job is finished.

use crate::files::{mtime_before, Mtime};
use vstd::prelude::*;

verus! {

/// The promise to create a file once a job is finished, however the job
/// ends. Whoever holds it creates the file when it lets go of it.
pub struct CreateFileOnDropped {
    /// The file to create.
    pub file_path: String,
}

impl CreateFileOnDropped {
    /// The promise to create `file_path`.
    pub fn new(file_path: String) -> (r: Self)
        ensures
            r.file_path@ == file_path@,
    {
        CreateFileOnDropped { file_path }
    }
}

/// A worker takes a descriptor up if it was modified after the worker
/// started and after the worker last took it up; one never taken up counts
/// as taken up at the epoch.
pub open spec fn is_fresh(mtime: Mtime, started: Mtime, last_seen: Option<Mtime>) -> bool {
    mtime_before(started, mtime) && mtime_before(
        match last_seen {
            Some(seen) => seen,
            None => (0i64, 0u32),
        },
        mtime,
    )
}

/// Whether a worker that started at `started` takes up a descriptor that
/// was modified at `mtime` and that it last took up at `last_seen`.
pub fn descriptor_is_fresh(mtime: Mtime, started: Mtime, last_seen: Option<Mtime>) -> (r: bool)
    ensures
        r == is_fresh(mtime, started, last_seen),
{
    let seen: Mtime = match last_seen {
        Some(seen) => seen,
        None => (0i64, 0u32),
    };
    (started.0 < mtime.0 || (started.0 == mtime.0 && started.1 < mtime.1)) && (seen.0 < mtime.0 || (
    seen.0 == mtime.0 && seen.1 < mtime.1))
}

} // verus!
