//! The handle-based family: a system-wide snapshot that is walked entry by
//! entry, and a handle on a thread that is asked four questions.
//!
//! The system counts time in ticks of 100 nanoseconds from
//! 1601-01-01T00:00:00Z and hands each count out as two 32-bit words.

pub mod inquiry;
pub mod walk;

use vstd::prelude::*;

use vstd::std_specs::convert::TryFromSpecImpl;

use crate::clock::{in_calendar, CpuTime, Timestamp};
use crate::error::Error;
use crate::platform::outcome_view;
use crate::thread::{
    Stopped, StoppedView, Thread, ThreadInfo, ThreadInfoView, ThreadStatus, ThreadStatusView,
};

verus! {

/// The ticks from 1601-01-01T00:00:00Z to 1970-01-01T00:00:00Z.
pub const OFFSET_TO_UNIX_TIME: i128 = 116_444_736_000_000_000;

/// The last tick that the calendar has a date for; it lies in the last
/// second of the year 9999.
pub const LAST_DATED_TICK: u64 = 2_650_467_743_999_999_999;

/// A count of ticks as the system hands it out: the upper and the lower
/// half of a 64-bit number.
#[derive(Debug, Clone, Copy, PartialEq, Eq, Structural)]
pub struct FileTime {
    pub high: u32,
    pub low: u32,
}

impl FileTime {
    /// The count that the two words stand for.
    pub open spec fn ticks(self) -> nat {
        (self.high * 0x1_0000_0000 + self.low) as nat
    }
}

/// The instant that lies `ticks` ticks after 1601-01-01T00:00:00Z, in
/// nanoseconds from 1970-01-01T00:00:00Z.
pub open spec fn unix_nanos_at(ticks: nat) -> int {
    (ticks - OFFSET_TO_UNIX_TIME) * 100
}

fn ticks_of(time: FileTime) -> (ticks: u64)
    ensures
        ticks == time.ticks(),
{
    let high: u64 = time.high as u64;
    let low: u64 = time.low as u64;
    assert(high << 32 == high * 0x1_0000_0000) by (bit_vector)
        requires
            high <= 0xffff_ffff,
    ;
    (high << 32) + low
}

/// A count of ticks as a span of time, cut down to whole microseconds:
/// what is left of a microsecond is dropped, never rounded up.
pub fn filetime_to_duration(time: FileTime) -> (span: CpuTime)
    ensures
        span@ == time.ticks() / 10,
{
    CpuTime::from_micros(ticks_of(time) / 10)
}

/// A count of ticks as an instant of the calendar, exact to the tick.
///
/// The count 0 is 1601-01-01T00:00:00Z. A count behind the year 9999 is a
/// [`Error::ConversionOverflow`].
pub fn filetime_to_time_offsetdatetime(time: FileTime) -> (r: Result<Timestamp, Error>)
    ensures
        match r {
            Ok(instant) => time.ticks() <= LAST_DATED_TICK && instant@ == unix_nanos_at(
                time.ticks(),
            ),
            Err(e) => time.ticks() > LAST_DATED_TICK && e == Error::ConversionOverflow,
        },
{
    let ticks: i128 = ticks_of(time) as i128;
    let time_in_unix_epoch: i128 = ticks - OFFSET_TO_UNIX_TIME;
    let unix_time_nanos: i128 = time_in_unix_epoch * 100;
    proof {
        lemma_last_dated_tick(time.ticks());
    }
    Timestamp::from_unix_nanos(unix_time_nanos)
}

/// The ticks from 1601-01-01T00:00:00Z to the beginning of a second that is
/// counted from 1970-01-01T00:00:00Z.
pub open spec fn ticks_at(unix_seconds: int) -> int {
    (unix_seconds + 11_644_473_600) * 10_000_000
}

/// Dating is exact.
///
/// The instant of a count of ticks lies in the second that holds the tick,
/// as many ticks behind the beginning of that second as the count is. So
/// the ticks of a whole second give that second back, with nothing added.
pub proof fn lemma_dated_to_the_tick(ticks: nat, unix_seconds: int)
    ensures
        unix_nanos_at(ticks) == (ticks / 10_000_000 - 11_644_473_600) * 1_000_000_000 + (ticks
            % 10_000_000) * 100,
        ticks_at(unix_seconds) >= 0 ==> unix_nanos_at(ticks_at(unix_seconds) as nat)
            == unix_seconds * 1_000_000_000,
{
}

/// The calendar has a date for a count of ticks exactly up to
/// [`LAST_DATED_TICK`]; no count is too early for it.
pub proof fn lemma_last_dated_tick(ticks: nat)
    ensures
        in_calendar(unix_nanos_at(ticks)) <==> ticks <= LAST_DATED_TICK,
{
}

/// The size from which an entry of the snapshot holds both the id of its
/// thread, at byte 8, and the id of the process that owns it, at byte 12.
pub const MIN_ENTRY_SIZE: u32 = 16;

/// One entry of the system-wide snapshot of threads, as far as a census
/// reads it.
#[derive(Debug, Clone, Copy, PartialEq, Eq, Structural)]
pub struct ThreadEntry {
    /// The size in bytes that the entry reports of itself.
    pub size: u32,
    pub thread_id: u32,
    pub owner_process_id: u32,
}

impl ThreadEntry {
    /// Whether the entry is large enough to be believed. A system of another
    /// version may hand out shorter entries, in which the ids are not what
    /// was read from them.
    pub open spec fn well_formed(self) -> bool {
        self.size >= MIN_ENTRY_SIZE
    }
}

/// The process that owns the entry's thread; an entry that is too short is
/// a [`Error::MalformedRecord`].
pub fn get_owner_process_id(value: ThreadEntry) -> (r: Result<u32, Error>)
    ensures
        r == if value.well_formed() {
            Ok::<u32, Error>(value.owner_process_id)
        } else {
            Err::<u32, Error>(Error::MalformedRecord)
        },
{
    if value.size < MIN_ENTRY_SIZE {
        return Err(Error::MalformedRecord);
    }
    Ok(value.owner_process_id)
}

impl TryFrom<ThreadEntry> for Thread {
    type Error = Error;

    /// The thread of an entry; an entry that is too short is a
    /// [`Error::MalformedRecord`].
    fn try_from(value: ThreadEntry) -> (r: Result<Self, Self::Error>) {
        if value.size < MIN_ENTRY_SIZE {
            return Err(Error::MalformedRecord);
        }
        Ok(Thread::new(value.thread_id))
    }
}

impl TryFromSpecImpl<ThreadEntry> for Thread {
    open spec fn obeys_try_from_spec() -> bool {
        true
    }

    open spec fn try_from_spec(v: ThreadEntry) -> Result<Self, Self::Error> {
        if v.well_formed() {
            Ok(Thread::with_id(v.thread_id))
        } else {
            Err(Error::MalformedRecord)
        }
    }
}

/// Whether every entry is large enough to be believed.
pub open spec fn all_well_formed(entries: Seq<ThreadEntry>) -> bool {
    forall|i: int| 0 <= i < entries.len() ==> (#[trigger] entries[i]).well_formed()
}

/// The threads of the entries that `process_id` owns, in the order of the
/// entries.
pub open spec fn owned_threads(process_id: u32, entries: Seq<ThreadEntry>) -> Seq<Thread> {
    entries.filter(|e: ThreadEntry| e.owner_process_id == process_id).map_values(
        |e: ThreadEntry| Thread::with_id(e.thread_id),
    )
}

/// What a census makes of a whole snapshot: the threads that the process
/// owns, or a [`Error::MalformedRecord`] if one entry, whoever owns it, is
/// too short.
pub open spec fn census(process_id: u32, entries: Seq<ThreadEntry>) -> Result<Seq<Thread>, Error> {
    if all_well_formed(entries) {
        Ok(owned_threads(process_id, entries))
    } else {
        Err(Error::MalformedRecord)
    }
}

/// What one more entry adds to the threads that a process owns.
pub proof fn lemma_owned_threads_push(process_id: u32, entries: Seq<ThreadEntry>, last: ThreadEntry)
    ensures
        owned_threads(process_id, entries.push(last)) == if last.owner_process_id == process_id {
            owned_threads(process_id, entries).push(Thread::with_id(last.thread_id))
        } else {
            owned_threads(process_id, entries)
        },
{
    let owned = |e: ThreadEntry| e.owner_process_id == process_id;
    let thread = |e: ThreadEntry| Thread::with_id(e.thread_id);
    reveal(Seq::filter);
    assert(entries.push(last).drop_last() =~= entries);
    if owned(last) {
        assert(entries.filter(owned).push(last).map_values(thread) =~= entries.filter(
            owned,
        ).map_values(thread).push(thread(last)));
    }
}

/// Which entry a thread that a process owns comes from.
pub proof fn lemma_owned_threads_contains(
    process_id: u32,
    entries: Seq<ThreadEntry>,
    thread: Thread,
)
    ensures
        owned_threads(process_id, entries).contains(thread) <==> exists|i: int|
            0 <= i < entries.len() && (#[trigger] entries[i]).owner_process_id == process_id
                && Thread::with_id(entries[i].thread_id) == thread,
    decreases entries.len(),
{
    if entries.len() == 0 {
        reveal(Seq::filter);
    } else {
        let before = entries.drop_last();
        let last = entries.last();
        lemma_owned_threads_contains(process_id, before, thread);
        lemma_owned_threads_push(process_id, before, last);
        assert(before.push(last) =~= entries);
        let owned_before = owned_threads(process_id, before);
        if owned_threads(process_id, entries).contains(thread) {
            if last.owner_process_id == process_id && Thread::with_id(last.thread_id) == thread {
                assert(entries[entries.len() - 1] == last);
            } else {
                if last.owner_process_id == process_id {
                    let k = choose|k: int|
                        0 <= k < owned_before.len() + 1 && owned_before.push(
                            Thread::with_id(last.thread_id),
                        )[k] == thread;
                    assert(owned_before[k] == thread);
                }
                assert(owned_before.contains(thread));
                let i = choose|i: int|
                    0 <= i < before.len() && (#[trigger] before[i]).owner_process_id == process_id
                        && Thread::with_id(before[i].thread_id) == thread;
                assert(entries[i] == before[i]);
            }
        }
        if exists|i: int|
            0 <= i < entries.len() && (#[trigger] entries[i]).owner_process_id == process_id
                && Thread::with_id(entries[i].thread_id) == thread {
            let i = choose|i: int|
                0 <= i < entries.len() && (#[trigger] entries[i]).owner_process_id == process_id
                    && Thread::with_id(entries[i].thread_id) == thread;
            if i < before.len() {
                assert(before[i] == entries[i]);
                assert(owned_before.contains(thread));
                let k = choose|k: int| 0 <= k < owned_before.len() && owned_before[k] == thread;
                if last.owner_process_id == process_id {
                    assert(owned_before.push(Thread::with_id(last.thread_id))[k] == thread);
                }
            } else {
                assert(entries[i] == last);
                assert(owned_before.push(thread)[owned_before.len() as int] == thread);
            }
        }
    }
}

/// A census does not depend on the order of the snapshot.
///
/// Two snapshots that hold the same entries, in whatever order and however
/// often, either both spoil the census or give the same set of threads.
pub proof fn lemma_census_ignores_order(
    process_id: u32,
    first: Seq<ThreadEntry>,
    second: Seq<ThreadEntry>,
)
    requires
        first.to_set() == second.to_set(),
    ensures
        census(process_id, first) is Ok <==> census(process_id, second) is Ok,
        owned_threads(process_id, first).to_set() == owned_threads(process_id, second).to_set(),
{
    assert forall|a: Seq<ThreadEntry>, b: Seq<ThreadEntry>|
        a.to_set() == b.to_set() && all_well_formed(a) implies all_well_formed(b) by {
        assert forall|i: int| 0 <= i < b.len() implies (#[trigger] b[i]).well_formed() by {
            assert(b.to_set().contains(b[i]));
            assert(a.contains(b[i]));
        }
    }
    assert forall|a: Seq<ThreadEntry>, b: Seq<ThreadEntry>, thread: Thread|
        a.to_set() == b.to_set() && owned_threads(process_id, a).contains(
            thread,
        ) implies owned_threads(process_id, b).contains(thread) by {
        lemma_owned_threads_contains(process_id, a, thread);
        lemma_owned_threads_contains(process_id, b, thread);
        let i = choose|i: int|
            0 <= i < a.len() && (#[trigger] a[i]).owner_process_id == process_id
                && Thread::with_id(a[i].thread_id) == thread;
        assert(a.to_set().contains(a[i]));
        assert(b.contains(a[i]));
        let j = choose|j: int| 0 <= j < b.len() && b[j] == a[i];
        assert(b[j].owner_process_id == process_id);
    }
    assert(owned_threads(process_id, first).to_set() =~= owned_threads(
        process_id,
        second,
    ).to_set());
}

/// The threads that the process `process_id` owns, out of a walk through the
/// system-wide snapshot.
///
/// They come in the order of the snapshot. One entry that is too short
/// spoils the whole walk, whoever owns it: the census is then a
/// [`Error::MalformedRecord`].
pub fn get_threads(process_id: u32, entries: &Vec<ThreadEntry>) -> (r: Result<Vec<Thread>, Error>)
    ensures
        outcome_view(r) == census(process_id, entries@),
{
    let mut res: Vec<Thread> = Vec::new();
    let mut i: usize = 0;
    assert(entries@.take(0) =~= Seq::<ThreadEntry>::empty());
    while i < entries.len()
        invariant
            i <= entries.len(),
            all_well_formed(entries@.take(i as int)),
            res@ == owned_threads(process_id, entries@.take(i as int)),
        decreases entries.len() - i,
    {
        let thread_entry = entries[i];
        proof {
            lemma_owned_threads_push(process_id, entries@.take(i as int), thread_entry);
            assert(entries@.take(i as int).push(thread_entry) =~= entries@.take(i + 1));
        }
        match get_owner_process_id(thread_entry) {
            Err(e) => {
                return Err(e);
            },
            Ok(owner) => {
                if owner == process_id {
                    match Thread::try_from(thread_entry) {
                        Err(e) => {
                            return Err(e);
                        },
                        Ok(thread) => {
                            res.push(thread);
                        },
                    }
                }
            },
        }
        i += 1;
    }
    assert(entries@.take(i as int) =~= entries@);
    Ok(res)
}

/// The exit code that the system reports of a thread that has not ended.
pub const STILL_ACTIVE: u32 = 259;

/// The four times that the system keeps of a thread. The time of exit means
/// nothing while the thread runs.
#[derive(Debug, Clone, Copy, PartialEq, Eq, Structural)]
pub struct ThreadTimes {
    pub creation: FileTime,
    pub exit: FileTime,
    pub kernel: FileTime,
    pub user: FileTime,
}

/// What the system answered to the four questions about a thread.
#[derive(Debug)]
pub struct ThreadFacts {
    pub io_pending: bool,
    pub exit_code: u32,
    /// The thread's description; empty if none was set.
    pub name: String,
    pub times: ThreadTimes,
}

/// The answers as plain values.
pub struct ThreadFactsView {
    pub io_pending: bool,
    pub exit_code: u32,
    pub name: Seq<char>,
    pub times: ThreadTimes,
}

impl View for ThreadFacts {
    type V = ThreadFactsView;

    open spec fn view(&self) -> ThreadFactsView {
        ThreadFactsView {
            io_pending: self.io_pending,
            exit_code: self.exit_code,
            name: self.name@,
            times: self.times,
        }
    }
}

/// The status that an exit code and a time of exit stand for.
///
/// The code [`STILL_ACTIVE`] is a running thread, and the time of exit is
/// then not looked at. Every other code is a stopped thread, which keeps
/// the code as it is.
pub open spec fn status_at(exit_code: u32, exit: FileTime) -> Result<ThreadStatusView, Error> {
    if exit_code == STILL_ACTIVE {
        Ok(ThreadStatusView::Running)
    } else if exit.ticks() <= LAST_DATED_TICK {
        Ok(
            ThreadStatusView::Stopped(
                StoppedView { exit_code, exit_time: unix_nanos_at(exit.ticks()) },
            ),
        )
    } else {
        Err(Error::ConversionOverflow)
    }
}

/// The record that the answers about the thread `thread` make.
pub open spec fn info_at(thread: u32, facts: ThreadFactsView) -> Result<ThreadInfoView, Error> {
    match status_at(facts.exit_code, facts.times.exit) {
        Err(e) => Err(e),
        Ok(status) => if facts.times.creation.ticks() <= LAST_DATED_TICK {
            Ok(
                ThreadInfoView {
                    thread,
                    name: facts.name,
                    status,
                    created: unix_nanos_at(facts.times.creation.ticks()),
                    kernel_time: facts.times.kernel.ticks() / 10,
                    user_time: facts.times.user.ticks() / 10,
                    io_pending: facts.io_pending,
                },
            )
        } else {
            Err(Error::ConversionOverflow)
        },
    }
}

/// Tells a running thread from a stopped one by its exit code, and dates
/// the end of a stopped one.
pub fn thread_status(exit_code: u32, exit_time: FileTime) -> (r: Result<ThreadStatus, Error>)
    ensures
        match r {
            Ok(status) => status_at(exit_code, exit_time) == Ok::<ThreadStatusView, Error>(
                status@,
            ),
            Err(e) => status_at(exit_code, exit_time) == Err::<ThreadStatusView, Error>(e),
        },
        exit_code == STILL_ACTIVE ==> (r matches Ok(status) && status@ is Running),
        exit_code != STILL_ACTIVE ==> match r {
            Ok(status) => (status@ matches ThreadStatusView::Stopped(stopped) && stopped.exit_code
                == exit_code),
            Err(e) => e == Error::ConversionOverflow,
        },
{
    if exit_code == STILL_ACTIVE {
        Ok(ThreadStatus::Running)
    } else {
        match filetime_to_time_offsetdatetime(exit_time) {
            Ok(instant) => Ok(ThreadStatus::Stopped(Stopped::new(exit_code, instant))),
            Err(e) => Err(e),
        }
    }
}

impl Thread {
    /// The record of this thread, out of what the system answered about it.
    ///
    /// The time of creation is dated, and the time of exit if the thread
    /// has stopped; the two spans are cut down to whole microseconds. A time
    /// to be dated that lies behind the year 9999 is a
    /// [`Error::ConversionOverflow`].
    pub fn get_info(&self, facts: ThreadFacts) -> (r: Result<ThreadInfo, Error>)
        ensures
            match r {
                Ok(info) => info_at(self@, facts@) == Ok::<ThreadInfoView, Error>(info@),
                Err(e) => info_at(self@, facts@) == Err::<ThreadInfoView, Error>(e),
            },
            r is Ok <==> facts.times.creation.ticks() <= LAST_DATED_TICK && (facts.exit_code
                != STILL_ACTIVE ==> facts.times.exit.ticks() <= LAST_DATED_TICK),
            r matches Ok(info) ==> info@.thread == self@ && (info@.status is Stopped
                <==> facts.exit_code != STILL_ACTIVE),
            r matches Err(e) ==> e == Error::ConversionOverflow,
    {
        let status = match thread_status(facts.exit_code, facts.times.exit) {
            Ok(status) => status,
            Err(e) => {
                return Err(e);
            },
        };
        let created = match filetime_to_time_offsetdatetime(facts.times.creation) {
            Ok(instant) => instant,
            Err(e) => {
                return Err(e);
            },
        };
        Ok(
            ThreadInfo::new(
                *self,
                facts.name,
                status,
                created,
                filetime_to_duration(facts.times.kernel),
                filetime_to_duration(facts.times.user),
                facts.io_pending,
            ),
        )
    }
}

} // verus!
