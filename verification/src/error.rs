//! The failures that a census can end in.

use vstd::prelude::*;

verus! {

/// Why an enumeration or a resolution failed.
#[derive(Debug, Clone, Copy, PartialEq, Eq, Structural)]
pub enum Error {
    /// The system handed out neither a snapshot nor a listing.
    EnumerationUnavailable,
    /// A record did not have the shape that the running system promises.
    MalformedRecord,
    /// The thread was gone by the time it was asked about.
    ThreadVanished,
    /// One of the queries about a thread failed; the code is the system's own.
    QueryFailed { os_code: u32 },
    /// A raw time lies outside what the calendar can hold.
    ConversionOverflow,
}

} // verus!
