//! The questions about one thread, one step at a time.
//!
//! An [`Inquiry`] says what to ask next; whoever drives it asks and reports
//! the answer. The thread is asked through a handle of the system: once
//! opened it is closed before the inquiry ends, whichever question failed.

use vstd::prelude::*;

use super::{info_at, ThreadFacts, ThreadFactsView, ThreadTimes, STILL_ACTIVE};
use crate::error::Error;
use crate::thread::{Thread, ThreadInfo, ThreadInfoView};

verus! {

/// The code with which the system refuses a thread id that names no thread.
pub const ERROR_INVALID_PARAMETER: u32 = 87;

/// What the driver of an inquiry is to do next.
#[derive(Debug, Clone, Copy, PartialEq, Eq, Structural)]
pub enum InquiryAction {
    /// Open a handle on the thread, for queries only.
    Open,
    /// Ask whether the thread waits for I/O.
    AskIoPending,
    /// Ask for the thread's exit code.
    AskExitCode,
    /// Ask for the thread's description.
    AskDescription,
    /// Ask for the thread's four times.
    AskTimes,
    /// Close the handle.
    Close,
    /// Nothing more: the inquiry has its outcome.
    Finish,
}

/// What came of the last action.
#[derive(Debug)]
pub enum InquiryEvent {
    Opened,
    /// The system opened no handle; the code is its own.
    OpenRefused { os_code: u32 },
    IoPending(bool),
    ExitCode(u32),
    Description(String),
    Times(ThreadTimes),
    /// The system did not answer the question; the code is its own.
    Refused { os_code: u32 },
    Closed,
}

/// Where an inquiry stands, as plain values.
pub enum InquiryStage {
    /// Nothing was asked of the system yet.
    Idle,
    /// The handle is open, and of the four answers those named are in.
    AskingIoPending,
    AskingExitCode { io_pending: bool },
    AskingDescription { io_pending: bool, exit_code: u32 },
    AskingTimes { io_pending: bool, exit_code: u32, name: Seq<char> },
    /// The handle is open and no longer asked through.
    Closing { outcome: Result<ThreadInfoView, Error> },
    /// No handle is open, and there is nothing left to do.
    Done { outcome: Result<ThreadInfoView, Error> },
}

/// An inquiry as plain values: the id of the thread that it is about, and
/// how far it has come.
pub struct InquiryView {
    pub thread: u32,
    pub stage: InquiryStage,
}

/// What a refusal to open a handle means: the thread is gone if the system
/// does not know its id, and the inquiry has failed otherwise.
pub open spec fn open_failure(os_code: u32) -> Error {
    if os_code == ERROR_INVALID_PARAMETER {
        Error::ThreadVanished
    } else {
        Error::QueryFailed { os_code }
    }
}

impl InquiryView {
    /// The inquiry before its first step.
    pub open spec fn begin(thread: u32) -> InquiryView {
        InquiryView { thread, stage: InquiryStage::Idle }
    }

    /// Whether the inquiry holds a handle on the thread.
    pub open spec fn holds_handle(self) -> bool {
        !(self.stage is Idle || self.stage is Done)
    }

    /// What is to be done next.
    pub open spec fn action(self) -> InquiryAction {
        match self.stage {
            InquiryStage::Idle => InquiryAction::Open,
            InquiryStage::AskingIoPending => InquiryAction::AskIoPending,
            InquiryStage::AskingExitCode { .. } => InquiryAction::AskExitCode,
            InquiryStage::AskingDescription { .. } => InquiryAction::AskDescription,
            InquiryStage::AskingTimes { .. } => InquiryAction::AskTimes,
            InquiryStage::Closing { .. } => InquiryAction::Close,
            InquiryStage::Done { .. } => InquiryAction::Finish,
        }
    }

    /// The inquiry after `event`.
    ///
    /// The first question that the system does not answer ends the asking,
    /// and so does the fourth answer; either way the handle is closed next.
    /// An event that is no answer to the action that is due changes nothing.
    pub open spec fn step(self, event: InquiryEvent) -> InquiryView {
        let stage = match (self.stage, event) {
            (InquiryStage::Idle, InquiryEvent::Opened) => InquiryStage::AskingIoPending,
            (InquiryStage::Idle, InquiryEvent::OpenRefused { os_code }) => InquiryStage::Done {
                outcome: Err(open_failure(os_code)),
            },
            (
                InquiryStage::AskingIoPending,
                InquiryEvent::IoPending(io_pending),
            ) => InquiryStage::AskingExitCode { io_pending },
            (
                InquiryStage::AskingExitCode { io_pending },
                InquiryEvent::ExitCode(exit_code),
            ) => InquiryStage::AskingDescription { io_pending, exit_code },
            (
                InquiryStage::AskingDescription { io_pending, exit_code },
                InquiryEvent::Description(name),
            ) => InquiryStage::AskingTimes { io_pending, exit_code, name: name@ },
            (
                InquiryStage::AskingTimes { io_pending, exit_code, name },
                InquiryEvent::Times(times),
            ) => InquiryStage::Closing {
                outcome: info_at(
                    self.thread,
                    ThreadFactsView { io_pending, exit_code, name, times },
                ),
            },
            (
                InquiryStage::AskingIoPending,
                InquiryEvent::Refused { os_code },
            ) => InquiryStage::Closing { outcome: Err(Error::QueryFailed { os_code }) },
            (
                InquiryStage::AskingExitCode { .. },
                InquiryEvent::Refused { os_code },
            ) => InquiryStage::Closing { outcome: Err(Error::QueryFailed { os_code }) },
            (
                InquiryStage::AskingDescription { .. },
                InquiryEvent::Refused { os_code },
            ) => InquiryStage::Closing { outcome: Err(Error::QueryFailed { os_code }) },
            (
                InquiryStage::AskingTimes { .. },
                InquiryEvent::Refused { os_code },
            ) => InquiryStage::Closing { outcome: Err(Error::QueryFailed { os_code }) },
            (InquiryStage::Closing { outcome }, InquiryEvent::Closed) => InquiryStage::Done {
                outcome,
            },
            (stage, _) => stage,
        };
        InquiryView { thread: self.thread, stage }
    }

    /// The inquiry after all of `events`, from its beginning.
    pub open spec fn run(thread: u32, events: Seq<InquiryEvent>) -> InquiryView
        decreases events.len(),
    {
        if events.len() == 0 {
            InquiryView::begin(thread)
        } else {
            InquiryView::run(thread, events.drop_last()).step(events.last())
        }
    }
}

/// Whether `event` can come of `action`.
pub open spec fn answers(action: InquiryAction, event: InquiryEvent) -> bool {
    match action {
        InquiryAction::Open => event is Opened || event is OpenRefused,
        InquiryAction::AskIoPending => event is IoPending || event is Refused,
        InquiryAction::AskExitCode => event is ExitCode || event is Refused,
        InquiryAction::AskDescription => event is Description || event is Refused,
        InquiryAction::AskTimes => event is Times || event is Refused,
        InquiryAction::Close => event is Closed,
        InquiryAction::Finish => false,
    }
}

/// Whether a driver that did each time what was due, and reported what came
/// of it, can have reported `events`.
pub open spec fn obeys(thread: u32, events: Seq<InquiryEvent>) -> bool {
    forall|i: int|
        0 <= i < events.len() ==> answers(
            InquiryView::run(thread, events.take(i)).action(),
            #[trigger] events[i],
        )
}

/// The handles that `events` leave open: those opened less those closed.
pub open spec fn open_handles(events: Seq<InquiryEvent>) -> int
    decreases events.len(),
{
    if events.len() == 0 {
        0
    } else {
        open_handles(events.drop_last()) + match events.last() {
            InquiryEvent::Opened => 1int,
            InquiryEvent::Closed => -1int,
            _ => 0int,
        }
    }
}

/// The outcome of an inquiry as plain values.
pub open spec fn verdict_view(outcome: Result<ThreadInfo, Error>) -> Result<ThreadInfoView, Error> {
    match outcome {
        Ok(info) => Ok(info@),
        Err(e) => Err(e),
    }
}

#[derive(Debug)]
enum Stage {
    Idle,
    AskingIoPending,
    AskingExitCode { io_pending: bool },
    AskingDescription { io_pending: bool, exit_code: u32 },
    AskingTimes { io_pending: bool, exit_code: u32, name: String },
    Closing { outcome: Result<ThreadInfo, Error> },
    Done { outcome: Result<ThreadInfo, Error> },
}

/// The questions about one thread, and the answers so far.
#[derive(Debug)]
pub struct Inquiry {
    thread: Thread,
    stage: Stage,
}

impl View for Inquiry {
    type V = InquiryView;

    closed spec fn view(&self) -> InquiryView {
        InquiryView {
            thread: self.thread@,
            stage: match self.stage {
                Stage::Idle => InquiryStage::Idle,
                Stage::AskingIoPending => InquiryStage::AskingIoPending,
                Stage::AskingExitCode { io_pending } => InquiryStage::AskingExitCode { io_pending },
                Stage::AskingDescription {
                    io_pending,
                    exit_code,
                } => InquiryStage::AskingDescription { io_pending, exit_code },
                Stage::AskingTimes { io_pending, exit_code, name } => InquiryStage::AskingTimes {
                    io_pending,
                    exit_code,
                    name: name@,
                },
                Stage::Closing { outcome } => InquiryStage::Closing {
                    outcome: verdict_view(outcome),
                },
                Stage::Done { outcome } => InquiryStage::Done { outcome: verdict_view(outcome) },
            },
        }
    }
}

/// What a refusal to open a handle means.
fn judge_refusal(os_code: u32) -> (e: Error)
    ensures
        e == open_failure(os_code),
{
    if os_code == ERROR_INVALID_PARAMETER {
        Error::ThreadVanished
    } else {
        Error::QueryFailed { os_code }
    }
}

impl Inquiry {
    /// An inquiry about `thread`, before its first step.
    pub fn begin(thread: Thread) -> (inquiry: Inquiry)
        ensures
            inquiry@ == InquiryView::begin(thread@),
    {
        Inquiry { thread, stage: Stage::Idle }
    }

    /// What is to be done next.
    pub fn action(&self) -> (action: InquiryAction)
        ensures
            action == self@.action(),
    {
        match &self.stage {
            Stage::Idle => InquiryAction::Open,
            Stage::AskingIoPending => InquiryAction::AskIoPending,
            Stage::AskingExitCode { .. } => InquiryAction::AskExitCode,
            Stage::AskingDescription { .. } => InquiryAction::AskDescription,
            Stage::AskingTimes { .. } => InquiryAction::AskTimes,
            Stage::Closing { .. } => InquiryAction::Close,
            Stage::Done { .. } => InquiryAction::Finish,
        }
    }

    /// Takes in what came of the last action.
    ///
    /// With the fourth answer the record is made. A thread that the system
    /// does not know is a [`Error::ThreadVanished`]; any other refusal is a
    /// [`Error::QueryFailed`] with the system's code, and after one the
    /// remaining questions are not asked. An event that is no answer to the
    /// action that is due changes nothing.
    pub fn step(self, event: InquiryEvent) -> (next: Inquiry)
        ensures
            next@ == self@.step(event),
    {
        let thread = self.thread;
        let stage = match (self.stage, event) {
            (Stage::Idle, InquiryEvent::Opened) => Stage::AskingIoPending,
            (Stage::Idle, InquiryEvent::OpenRefused { os_code }) => Stage::Done {
                outcome: Err(judge_refusal(os_code)),
            },
            (Stage::AskingIoPending, InquiryEvent::IoPending(io_pending)) => Stage::AskingExitCode {
                io_pending,
            },
            (
                Stage::AskingExitCode { io_pending },
                InquiryEvent::ExitCode(exit_code),
            ) => Stage::AskingDescription { io_pending, exit_code },
            (
                Stage::AskingDescription { io_pending, exit_code },
                InquiryEvent::Description(name),
            ) => Stage::AskingTimes { io_pending, exit_code, name },
            (
                Stage::AskingTimes { io_pending, exit_code, name },
                InquiryEvent::Times(times),
            ) => Stage::Closing {
                outcome: thread.get_info(ThreadFacts { io_pending, exit_code, name, times }),
            },
            (Stage::AskingIoPending, InquiryEvent::Refused { os_code }) => Stage::Closing {
                outcome: Err(Error::QueryFailed { os_code }),
            },
            (Stage::AskingExitCode { .. }, InquiryEvent::Refused { os_code }) => Stage::Closing {
                outcome: Err(Error::QueryFailed { os_code }),
            },
            (
                Stage::AskingDescription { .. },
                InquiryEvent::Refused { os_code },
            ) => Stage::Closing { outcome: Err(Error::QueryFailed { os_code }) },
            (Stage::AskingTimes { .. }, InquiryEvent::Refused { os_code }) => Stage::Closing {
                outcome: Err(Error::QueryFailed { os_code }),
            },
            (Stage::Closing { outcome }, InquiryEvent::Closed) => Stage::Done { outcome },
            (stage, _) => stage,
        };
        Inquiry { thread, stage }
    }

    /// The outcome of the inquiry, once there is nothing left to do: the
    /// record of the thread, or why there is none.
    pub fn outcome(self) -> (r: Option<Result<ThreadInfo, Error>>)
        ensures
            match self@.stage {
                InquiryStage::Done { outcome } => r matches Some(o) && verdict_view(o) == outcome,
                _ => r is None,
            },
    {
        match self.stage {
            Stage::Done { outcome } => Some(outcome),
            _ => None,
        }
    }
}

/// A driver that obeyed through `events` obeyed through all but the last.
proof fn lemma_obeys_before(thread: u32, events: Seq<InquiryEvent>)
    requires
        obeys(thread, events),
        events.len() > 0,
    ensures
        obeys(thread, events.drop_last()),
        answers(InquiryView::run(thread, events.drop_last()).action(), events.last()),
{
    let before = events.drop_last();
    assert forall|i: int| 0 <= i < before.len() implies answers(
        InquiryView::run(thread, before.take(i)).action(),
        #[trigger] before[i],
    ) by {
        assert(before.take(i) =~= events.take(i));
        assert(before[i] == events[i]);
    }
    assert(events.take(events.len() - 1) =~= before);
    assert(events[events.len() - 1] == events.last());
}

/// The handle is closed on every way out.
///
/// Whatever a driver that obeys has reported: at most one handle is open, it
/// is open exactly while the inquiry holds it, and none is open once the
/// inquiry has nothing left to do.
pub proof fn lemma_handle_closed(thread: u32, events: Seq<InquiryEvent>)
    requires
        obeys(thread, events),
    ensures
        open_handles(events) == if InquiryView::run(thread, events).holds_handle() {
            1int
        } else {
            0int
        },
        InquiryView::run(thread, events).action() == InquiryAction::Finish ==> open_handles(events)
            == 0,
    decreases events.len(),
{
    if events.len() > 0 {
        lemma_obeys_before(thread, events);
        lemma_handle_closed(thread, events.drop_last());
    }
}

/// Whether the first events are the handle and the answers that brought the
/// inquiry to where it stands.
spec fn answered(stage: InquiryStage, events: Seq<InquiryEvent>) -> bool {
    match stage {
        InquiryStage::Idle => events.len() == 0,
        InquiryStage::AskingIoPending => events.len() == 1 && events[0] is Opened,
        InquiryStage::AskingExitCode { io_pending } => {
            &&& events.len() == 2
            &&& events[0] is Opened
            &&& events[1] == InquiryEvent::IoPending(io_pending)
        },
        InquiryStage::AskingDescription { io_pending, exit_code } => {
            &&& events.len() == 3
            &&& events[0] is Opened
            &&& events[1] == InquiryEvent::IoPending(io_pending)
            &&& events[2] == InquiryEvent::ExitCode(exit_code)
        },
        InquiryStage::AskingTimes { io_pending, exit_code, name } => {
            &&& events.len() == 4
            &&& events[0] is Opened
            &&& events[1] == InquiryEvent::IoPending(io_pending)
            &&& events[2] == InquiryEvent::ExitCode(exit_code)
            &&& events[3] matches InquiryEvent::Description(a)
            &&& a@ == name
        },
        _ => false,
    }
}

/// What the reports of a driver that obeys say of an inquiry whose asking
/// is over.
spec fn settled(thread: u32, outcome: Result<ThreadInfoView, Error>, events: Seq<InquiryEvent>) -> bool {
    ||| refused_after_opening(outcome, events)
    ||| fully_answered(thread, outcome, events)
}

/// The system opened a handle and then left a question without an answer:
/// the outcome is that refusal.
pub open spec fn refused_after_opening(
    outcome: Result<ThreadInfoView, Error>,
    events: Seq<InquiryEvent>,
) -> bool {
    &&& 2 <= events.len() <= 5
    &&& events[0] is Opened
    &&& events.last() matches InquiryEvent::Refused { os_code }
    &&& outcome == Err::<ThreadInfoView, Error>(Error::QueryFailed { os_code })
}

/// The system opened a handle and answered all four questions: the outcome
/// is the record that the answers make.
pub open spec fn fully_answered(
    thread: u32,
    outcome: Result<ThreadInfoView, Error>,
    events: Seq<InquiryEvent>,
) -> bool {
    &&& events.len() == 5
    &&& events[0] is Opened
    &&& events[1] matches InquiryEvent::IoPending(io_pending)
    &&& events[2] matches InquiryEvent::ExitCode(exit_code)
    &&& events[3] matches InquiryEvent::Description(name)
    &&& events[4] matches InquiryEvent::Times(times)
    &&& outcome == info_at(thread, ThreadFactsView { io_pending, exit_code, name: name@, times })
}

/// The system opened no handle: the outcome says whether the thread is gone.
pub open spec fn refused_to_open(
    outcome: Result<ThreadInfoView, Error>,
    events: Seq<InquiryEvent>,
) -> bool {
    &&& events.len() == 1
    &&& events[0] matches InquiryEvent::OpenRefused { os_code }
    &&& outcome == Err::<ThreadInfoView, Error>(open_failure(os_code))
}

proof fn lemma_inquiry_trace(thread: u32, events: Seq<InquiryEvent>)
    requires
        obeys(thread, events),
    ensures
        InquiryView::run(thread, events).thread == thread,
        match InquiryView::run(thread, events).stage {
            InquiryStage::Closing { outcome } => settled(thread, outcome, events),
            InquiryStage::Done { outcome } => refused_to_open(outcome, events) || (events.len() > 0
                && events.last() is Closed && settled(thread, outcome, events.drop_last())),
            stage => answered(stage, events),
        },
    decreases events.len(),
{
    if events.len() > 0 {
        let before = events.drop_last();
        lemma_obeys_before(thread, events);
        lemma_inquiry_trace(thread, before);
        assert(events.take(events.len() - 1) =~= before);
        assert forall|i: int| 0 <= i < before.len() implies before[i] == events[i] by {}
    }
}

/// The inquiry comes to what the system's answers make.
///
/// Whatever a driver that obeys has reported, once the inquiry has nothing
/// left to do the reports are of one of three kinds. No handle was opened:
/// the outcome is [`open_failure`] of the system's code. Or a handle was
/// opened, a question was refused, and the handle was closed: the outcome
/// is a [`Error::QueryFailed`] with the code of that refusal. Or a handle
/// was opened, the four questions were answered, and the handle was closed:
/// the outcome is [`info_at`] of the four answers.
pub proof fn lemma_inquiry_outcome(thread: u32, events: Seq<InquiryEvent>)
    requires
        obeys(thread, events),
        InquiryView::run(thread, events).stage is Done,
    ensures
        ({
            let outcome = InquiryView::run(thread, events).stage->Done_outcome;
            ||| refused_to_open(outcome, events)
            ||| events.last() is Closed && refused_after_opening(outcome, events.drop_last())
            ||| events.last() is Closed && fully_answered(thread, outcome, events.drop_last())
        }),
{
    lemma_inquiry_trace(thread, events);
}

/// A thread that has ended is never taken for a running one.
///
/// Whatever a driver that obeys has reported, if the system never gave the
/// exit code [`STILL_ACTIVE`], the outcome is no record of a running
/// thread: it is the record of a stopped one, or a failure. And if the
/// system refused the handle because it did not know the thread, the
/// outcome is a [`Error::ThreadVanished`].
pub proof fn lemma_ended_thread_never_runs(thread: u32, events: Seq<InquiryEvent>)
    requires
        obeys(thread, events),
        InquiryView::run(thread, events).stage is Done,
        forall|i: int|
            0 <= i < events.len() ==> #[trigger] events[i] != InquiryEvent::ExitCode(STILL_ACTIVE),
    ensures
        ({
            let outcome = InquiryView::run(thread, events).stage->Done_outcome;
            &&& outcome matches Ok(info) ==> info.status is Stopped
            &&& events[0] == (InquiryEvent::OpenRefused { os_code: ERROR_INVALID_PARAMETER })
                ==> outcome == Err::<ThreadInfoView, Error>(Error::ThreadVanished)
        }),
{
    lemma_inquiry_outcome(thread, events);
    if events.len() == 6 {
        assert(events.drop_last()[2] == events[2]);
    }
}

} // verus!
