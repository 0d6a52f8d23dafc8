//! One module for each family of operating systems, and the choice between
//! them.

pub mod linux;
pub mod windows;

use vstd::prelude::*;

use crate::error::Error;
use crate::thread::Thread;
use self::linux::{listed_threads, names_of, TaskEntry};
use self::windows::{census, ThreadEntry};

verus! {

/// The outcome of an enumeration as plain values.
pub open spec fn outcome_view(outcome: Result<Vec<Thread>, Error>) -> Result<Seq<Thread>, Error> {
    match outcome {
        Ok(threads) => Ok(threads@),
        Err(e) => Err(e),
    }
}

/// What the system handed over when it was asked for the threads.
#[derive(Debug)]
pub enum Listing {
    /// The handle-based family: the id of the asking process, and the
    /// entries of a walk through the system-wide snapshot.
    Snapshot { process_id: u32, entries: Vec<ThreadEntry> },
    /// The directory-scan family: the entries of the directory of the
    /// asking process.
    TaskDirectory { tasks: Vec<TaskEntry> },
    /// The system handed over neither.
    Unavailable,
}

/// What a listing comes to: the threads of the asking process in the order
/// in which the system listed them, or why there is no census.
pub open spec fn enumeration(listing: Listing) -> Result<Seq<Thread>, Error> {
    match listing {
        Listing::Snapshot { process_id, entries } => census(process_id, entries@),
        Listing::TaskDirectory { tasks } => Ok(listed_threads(names_of(tasks@))),
        Listing::Unavailable => Err(Error::EnumerationUnavailable),
    }
}

/// The threads of the asking process, by the rules of the family that the
/// listing is of.
pub fn get_threads(listing: &Listing) -> (r: Result<Vec<Thread>, Error>)
    ensures
        outcome_view(r) == enumeration(*listing),
{
    match listing {
        Listing::Snapshot { process_id, entries } => windows::get_threads(*process_id, entries),
        Listing::TaskDirectory { tasks } => Ok(linux::get_threads(tasks)),
        Listing::Unavailable => Err(Error::EnumerationUnavailable),
    }
}

} // verus!
