//! A thread's identity, and the record that a census makes of it.

use vstd::prelude::*;

use crate::clock::{CpuTime, Timestamp};

verus! {

/// The identifier that the system gave a thread.
///
/// It is a number and nothing more: holding one keeps no thread alive, and
/// the thread it names may be gone at any moment.
#[derive(Debug, Hash, Clone, Copy, PartialEq, Eq, PartialOrd, Ord, Structural)]
pub struct Thread {
    id: u32,
}

impl View for Thread {
    type V = u32;

    closed spec fn view(&self) -> u32 {
        self.id
    }
}

impl Thread {
    /// The thread that the system knows under `id`.
    pub closed spec fn with_id(id: u32) -> Thread {
        Thread { id }
    }

    pub(crate) fn new(id: u32) -> (thread: Thread)
        ensures
            thread == Thread::with_id(id),
            thread@ == id,
    {
        Thread { id }
    }

    /// The number under which the system knows this thread.
    pub fn id(&self) -> (id: u32)
        ensures
            id == self@,
            *self == Thread::with_id(id),
    {
        self.id
    }

    /// A thread is its number: the thread of a number has that number for
    /// its view, and every thread is the thread of its view.
    pub proof fn lemma_with_id(thread: Thread, id: u32)
        ensures
            Thread::with_id(id)@ == id,
            thread == Thread::with_id(thread@),
    {
    }
}

/// What is known of a thread that has ended.
#[derive(Debug)]
pub struct Stopped {
    exit_code: u32,
    exit_time: Timestamp,
}

/// A stopped thread as plain values: its exit code and the nanoseconds
/// from 1970-01-01T00:00:00Z to its end.
pub struct StoppedView {
    pub exit_code: u32,
    pub exit_time: int,
}

impl View for Stopped {
    type V = StoppedView;

    closed spec fn view(&self) -> StoppedView {
        StoppedView { exit_code: self.exit_code, exit_time: self.exit_time@ }
    }
}

impl Stopped {
    pub(crate) fn new(exit_code: u32, exit_time: Timestamp) -> (stopped: Stopped)
        ensures
            stopped@ == (StoppedView { exit_code, exit_time: exit_time@ }),
    {
        Stopped { exit_code, exit_time }
    }

    /// The code that the thread ended with, as the system reports it.
    pub fn exit_code(&self) -> (code: u32)
        ensures
            code == self@.exit_code,
    {
        self.exit_code
    }

    /// The instant at which the thread ended.
    pub fn exit_time(&self) -> (instant: Timestamp)
        ensures
            instant@ == self@.exit_time,
    {
        self.exit_time
    }
}

/// Where a thread is in its life. There is one way only, from running to
/// stopped, and a census sees it without causing it.
#[derive(Debug)]
pub enum ThreadStatus {
    Running,
    Stopped(Stopped),
}

/// A status as plain values.
pub enum ThreadStatusView {
    Running,
    Stopped(StoppedView),
}

impl View for ThreadStatus {
    type V = ThreadStatusView;

    open spec fn view(&self) -> ThreadStatusView {
        match self {
            ThreadStatus::Running => ThreadStatusView::Running,
            ThreadStatus::Stopped(stopped) => ThreadStatusView::Stopped(stopped@),
        }
    }
}

/// What a thread looked like at the instant it was asked about.
#[derive(Debug)]
pub struct ThreadInfo {
    thread: Thread,
    name: String,
    status: ThreadStatus,
    created: Timestamp,
    kernel_time: CpuTime,
    user_time: CpuTime,
    io_pending: bool,
}

/// A thread's record as plain values: instants in nanoseconds from
/// 1970-01-01T00:00:00Z, spans in microseconds.
pub struct ThreadInfoView {
    pub thread: u32,
    pub name: Seq<char>,
    pub status: ThreadStatusView,
    pub created: int,
    pub kernel_time: nat,
    pub user_time: nat,
    pub io_pending: bool,
}

impl View for ThreadInfo {
    type V = ThreadInfoView;

    closed spec fn view(&self) -> ThreadInfoView {
        ThreadInfoView {
            thread: self.thread@,
            name: self.name@,
            status: self.status@,
            created: self.created@,
            kernel_time: self.kernel_time@,
            user_time: self.user_time@,
            io_pending: self.io_pending,
        }
    }
}

impl ThreadInfo {
    pub(crate) fn new(
        thread: Thread,
        name: String,
        status: ThreadStatus,
        created: Timestamp,
        kernel_time: CpuTime,
        user_time: CpuTime,
        io_pending: bool,
    ) -> (info: ThreadInfo)
        ensures
            info@ == (ThreadInfoView {
                thread: thread@,
                name: name@,
                status: status@,
                created: created@,
                kernel_time: kernel_time@,
                user_time: user_time@,
                io_pending,
            }),
    {
        ThreadInfo { thread, name, status, created, kernel_time, user_time, io_pending }
    }

    /// The thread that the record is about.
    pub fn thread(&self) -> (thread: Thread)
        ensures
            thread@ == self@.thread,
    {
        self.thread
    }

    /// The label that was given to the thread; empty if it has none.
    pub fn name(&self) -> (name: &String)
        ensures
            name@ == self@.name,
    {
        &self.name
    }

    /// Whether the thread runs or has stopped.
    pub fn status(&self) -> (status: &ThreadStatus)
        ensures
            status@ == self@.status,
    {
        &self.status
    }

    /// The instant at which the thread was created.
    pub fn created(&self) -> (instant: Timestamp)
        ensures
            instant@ == self@.created,
    {
        self.created
    }

    /// The processor time that the thread has spent in kernel mode.
    pub fn kernel_time(&self) -> (span: CpuTime)
        ensures
            span@ == self@.kernel_time,
    {
        self.kernel_time
    }

    /// The processor time that the thread has spent in user mode.
    pub fn user_time(&self) -> (span: CpuTime)
        ensures
            span@ == self@.user_time,
    {
        self.user_time
    }

    /// Whether the thread waits for an I/O request of its own to complete.
    pub fn io_pending(&self) -> (pending: bool)
        ensures
            pending == self@.io_pending,
    {
        self.io_pending
    }
}

} // verus!
