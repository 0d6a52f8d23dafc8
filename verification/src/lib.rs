//! A census of the threads of a process: which threads it owns, and for each
//! of them its lifecycle status, its times and whether it waits for I/O.
//!
//! The operating system is asked elsewhere. This crate decides what to ask
//! next, judges every answer, and turns the raw numbers into calendar
//! instants and durations.

use vstd::prelude::*;

pub mod clock;
pub mod error;
pub mod platform;
pub mod render;
pub mod thread;

pub use clock::{CpuTime, Timestamp};
pub use error::Error;
pub use platform::Listing;
pub use render::{fmt_offsetdatetime, fmt_thread};
pub use thread::{Stopped, Thread, ThreadInfo, ThreadStatus};

use crate::platform::{enumeration, outcome_view};

verus! {

/// Get all threads of the asking process, out of what the system listed.
pub fn get_threads(listing: &Listing) -> (r: Result<Vec<Thread>, Error>)
    ensures
        outcome_view(r) == enumeration(*listing),
{
    platform::get_threads(listing)
}

} // verus!
