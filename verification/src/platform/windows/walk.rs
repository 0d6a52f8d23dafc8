//! The walk through the system-wide snapshot, one step at a time.
//!
//! A [`Walk`] says what to do next; whoever drives it does that and reports
//! what came of it. The snapshot is a handle of the system: once taken it is
//! released before the walk ends, however the walk ends.

use vstd::prelude::*;

use super::{
    all_well_formed, census, get_owner_process_id, lemma_owned_threads_push, owned_threads,
    ThreadEntry,
};
use crate::error::Error;
use crate::platform::outcome_view;
use crate::thread::Thread;

verus! {

/// What the driver of a walk is to do next.
#[derive(Debug, Clone, Copy, PartialEq, Eq, Structural)]
pub enum WalkAction {
    /// Take a snapshot of the threads of all processes.
    TakeSnapshot,
    /// Read the first entry of the snapshot.
    ReadFirst,
    /// Read the entry after the one read last.
    ReadNext,
    /// Release the snapshot.
    Release,
    /// Nothing more: the walk has its outcome.
    Finish,
}

/// What came of the last action.
#[derive(Debug, Clone, Copy, PartialEq, Eq, Structural)]
pub enum WalkEvent {
    SnapshotTaken,
    /// The system handed out no snapshot.
    SnapshotRefused,
    /// The entry that was read.
    Entry(ThreadEntry),
    /// There was no entry left to read.
    Exhausted,
    Released,
}

/// Where a walk stands, as plain values.
pub enum WalkStage {
    /// Nothing was asked of the system yet.
    Idle,
    /// The snapshot is held and read; `found` is what the entries read so
    /// far gave, `started` whether any was asked for.
    Reading { found: Seq<Thread>, started: bool },
    /// The snapshot is held and no longer read.
    Releasing { outcome: Result<Seq<Thread>, Error> },
    /// No snapshot is held, and there is nothing left to do.
    Done { outcome: Result<Seq<Thread>, Error> },
}

/// A walk as plain values: the process whose threads are looked for, and how
/// far the walk has come.
pub struct WalkView {
    pub process_id: u32,
    pub stage: WalkStage,
}

impl WalkView {
    /// The walk before its first step.
    pub open spec fn begin(process_id: u32) -> WalkView {
        WalkView { process_id, stage: WalkStage::Idle }
    }

    /// Whether the walk holds the snapshot.
    pub open spec fn holds_snapshot(self) -> bool {
        self.stage is Reading || self.stage is Releasing
    }

    /// What is to be done next.
    pub open spec fn action(self) -> WalkAction {
        match self.stage {
            WalkStage::Idle => WalkAction::TakeSnapshot,
            WalkStage::Reading { started, .. } => if started {
                WalkAction::ReadNext
            } else {
                WalkAction::ReadFirst
            },
            WalkStage::Releasing { .. } => WalkAction::Release,
            WalkStage::Done { .. } => WalkAction::Finish,
        }
    }

    /// The walk after `event`. An event that is no answer to the action
    /// that is due changes nothing.
    pub open spec fn step(self, event: WalkEvent) -> WalkView {
        let stage = match (self.stage, event) {
            (WalkStage::Idle, WalkEvent::SnapshotTaken) => WalkStage::Reading {
                found: Seq::empty(),
                started: false,
            },
            (WalkStage::Idle, WalkEvent::SnapshotRefused) => WalkStage::Done {
                outcome: Err(Error::EnumerationUnavailable),
            },
            (WalkStage::Reading { found, .. }, WalkEvent::Entry(entry)) => if !entry.well_formed() {
                WalkStage::Releasing { outcome: Err(Error::MalformedRecord) }
            } else if entry.owner_process_id == self.process_id {
                WalkStage::Reading {
                    found: found.push(Thread::with_id(entry.thread_id)),
                    started: true,
                }
            } else {
                WalkStage::Reading { found, started: true }
            },
            (WalkStage::Reading { found, .. }, WalkEvent::Exhausted) => WalkStage::Releasing {
                outcome: Ok(found),
            },
            (WalkStage::Releasing { outcome }, WalkEvent::Released) => WalkStage::Done { outcome },
            (stage, _) => stage,
        };
        WalkView { process_id: self.process_id, stage }
    }

    /// The walk after all of `events`, from its beginning.
    pub open spec fn run(process_id: u32, events: Seq<WalkEvent>) -> WalkView
        decreases events.len(),
    {
        if events.len() == 0 {
            WalkView::begin(process_id)
        } else {
            WalkView::run(process_id, events.drop_last()).step(events.last())
        }
    }
}

/// Whether `event` can come of `action`.
pub open spec fn answers(action: WalkAction, event: WalkEvent) -> bool {
    match action {
        WalkAction::TakeSnapshot => event is SnapshotTaken || event is SnapshotRefused,
        WalkAction::ReadFirst | WalkAction::ReadNext => event is Entry || event is Exhausted,
        WalkAction::Release => event is Released,
        WalkAction::Finish => false,
    }
}

/// Whether a driver that did each time what was due, and reported what came
/// of it, can have reported `events`.
pub open spec fn obeys(process_id: u32, events: Seq<WalkEvent>) -> bool {
    forall|i: int|
        0 <= i < events.len() ==> answers(
            WalkView::run(process_id, events.take(i)).action(),
            #[trigger] events[i],
        )
}

/// The snapshots that `events` leave open: those taken less those released.
pub open spec fn open_snapshots(events: Seq<WalkEvent>) -> int
    decreases events.len(),
{
    if events.len() == 0 {
        0
    } else {
        open_snapshots(events.drop_last()) + match events.last() {
            WalkEvent::SnapshotTaken => 1int,
            WalkEvent::Released => -1int,
            _ => 0int,
        }
    }
}

/// The entries that were read, in their order.
pub open spec fn entries_read(events: Seq<WalkEvent>) -> Seq<ThreadEntry>
    decreases events.len(),
{
    if events.len() == 0 {
        Seq::empty()
    } else {
        match events.last() {
            WalkEvent::Entry(entry) => entries_read(events.drop_last()).push(entry),
            _ => entries_read(events.drop_last()),
        }
    }
}

#[derive(Debug)]
enum Stage {
    Idle,
    Reading { found: Vec<Thread>, started: bool },
    Releasing { outcome: Result<Vec<Thread>, Error> },
    Done { outcome: Result<Vec<Thread>, Error> },
}

/// A walk through the system-wide snapshot, in search of the threads of one
/// process.
#[derive(Debug)]
pub struct Walk {
    process_id: u32,
    stage: Stage,
}

impl View for Walk {
    type V = WalkView;

    closed spec fn view(&self) -> WalkView {
        WalkView {
            process_id: self.process_id,
            stage: match self.stage {
                Stage::Idle => WalkStage::Idle,
                Stage::Reading { found, started } => WalkStage::Reading { found: found@, started },
                Stage::Releasing { outcome } => WalkStage::Releasing {
                    outcome: outcome_view(outcome),
                },
                Stage::Done { outcome } => WalkStage::Done { outcome: outcome_view(outcome) },
            },
        }
    }
}

impl Walk {
    /// A walk in search of the threads of the process `process_id`, before
    /// its first step.
    pub fn begin(process_id: u32) -> (walk: Walk)
        ensures
            walk@ == WalkView::begin(process_id),
    {
        Walk { process_id, stage: Stage::Idle }
    }

    /// What is to be done next.
    pub fn action(&self) -> (action: WalkAction)
        ensures
            action == self@.action(),
    {
        match &self.stage {
            Stage::Idle => WalkAction::TakeSnapshot,
            Stage::Reading { started, .. } => if *started {
                WalkAction::ReadNext
            } else {
                WalkAction::ReadFirst
            },
            Stage::Releasing { .. } => WalkAction::Release,
            Stage::Done { .. } => WalkAction::Finish,
        }
    }

    /// Takes in what came of the last action.
    ///
    /// An entry that is too short ends the reading at once, and so does the
    /// end of the snapshot; either way the snapshot is released next. An
    /// event that is no answer to the action that is due changes nothing.
    pub fn step(self, event: WalkEvent) -> (next: Walk)
        ensures
            next@ == self@.step(event),
    {
        let process_id = self.process_id;
        let stage = match (self.stage, event) {
            (Stage::Idle, WalkEvent::SnapshotTaken) => Stage::Reading {
                found: Vec::new(),
                started: false,
            },
            (Stage::Idle, WalkEvent::SnapshotRefused) => Stage::Done {
                outcome: Err(Error::EnumerationUnavailable),
            },
            (Stage::Reading { found, started }, WalkEvent::Entry(entry)) => {
                let mut found = found;
                match get_owner_process_id(entry) {
                    Err(e) => Stage::Releasing { outcome: Err(e) },
                    Ok(owner) => {
                        if owner == process_id {
                            match Thread::try_from(entry) {
                                Err(e) => Stage::Releasing { outcome: Err(e) },
                                Ok(thread) => {
                                    found.push(thread);
                                    Stage::Reading { found, started: true }
                                },
                            }
                        } else {
                            Stage::Reading { found, started: true }
                        }
                    },
                }
            },
            (Stage::Reading { found, started }, WalkEvent::Exhausted) => Stage::Releasing {
                outcome: Ok(found),
            },
            (Stage::Releasing { outcome }, WalkEvent::Released) => Stage::Done { outcome },
            (stage, _) => stage,
        };
        Walk { process_id, stage }
    }

    /// The outcome of the walk, once there is nothing left to do: the
    /// threads of the process in the order of the snapshot, or why there is
    /// no census.
    pub fn outcome(self) -> (r: Option<Result<Vec<Thread>, Error>>)
        ensures
            match self@.stage {
                WalkStage::Done { outcome } => r matches Some(o) && outcome_view(o) == outcome,
                _ => r is None,
            },
    {
        match self.stage {
            Stage::Done { outcome } => Some(outcome),
            _ => None,
        }
    }
}

/// A driver that obeyed through `events` obeyed through all but the last.
proof fn lemma_obeys_before(process_id: u32, events: Seq<WalkEvent>)
    requires
        obeys(process_id, events),
        events.len() > 0,
    ensures
        obeys(process_id, events.drop_last()),
        answers(WalkView::run(process_id, events.drop_last()).action(), events.last()),
{
    let before = events.drop_last();
    assert forall|i: int| 0 <= i < before.len() implies answers(
        WalkView::run(process_id, before.take(i)).action(),
        #[trigger] before[i],
    ) by {
        assert(before.take(i) =~= events.take(i));
        assert(before[i] == events[i]);
    }
    assert(events.take(events.len() - 1) =~= before);
    assert(events[events.len() - 1] == events.last());
}

/// The snapshot is released on every way out.
///
/// Whatever a driver that obeys has reported: at most one snapshot is open,
/// it is open exactly while the walk holds it, and none is open once the
/// walk has nothing left to do.
pub proof fn lemma_snapshot_released(process_id: u32, events: Seq<WalkEvent>)
    requires
        obeys(process_id, events),
    ensures
        open_snapshots(events) == if WalkView::run(process_id, events).holds_snapshot() {
            1int
        } else {
            0int
        },
        WalkView::run(process_id, events).action() == WalkAction::Finish ==> open_snapshots(events)
            == 0,
    decreases events.len(),
{
    if events.len() > 0 {
        lemma_obeys_before(process_id, events);
        lemma_snapshot_released(process_id, events.drop_last());
    }
}

/// The walk comes to what a census makes of the entries that were read.
///
/// Whatever a driver that obeys has reported: once the reading is over, the
/// outcome is the census of the entries read, unless no snapshot was to be
/// had, which is a [`Error::EnumerationUnavailable`]; and while it goes on,
/// every entry read was well formed and the threads found are those that
/// the process owns among them.
pub proof fn lemma_walk_outcome(process_id: u32, events: Seq<WalkEvent>)
    requires
        obeys(process_id, events),
    ensures
        WalkView::run(process_id, events).process_id == process_id,
        match WalkView::run(process_id, events).stage {
            WalkStage::Idle => events.len() == 0,
            WalkStage::Reading { found, started } => {
                &&& events.first() is SnapshotTaken
                &&& all_well_formed(entries_read(events))
                &&& found == owned_threads(process_id, entries_read(events))
                &&& started <==> entries_read(events).len() > 0
            },
            WalkStage::Releasing { outcome } => {
                &&& events.first() is SnapshotTaken
                &&& outcome == census(process_id, entries_read(events))
            },
            WalkStage::Done { outcome } => if events.first() is SnapshotRefused {
                outcome == Err::<Seq<Thread>, Error>(Error::EnumerationUnavailable)
            } else {
                outcome == census(process_id, entries_read(events))
            },
        },
    decreases events.len(),
{
    if events.len() > 0 {
        let before = events.drop_last();
        lemma_obeys_before(process_id, events);
        lemma_walk_outcome(process_id, before);
        let read = entries_read(before);
        match events.last() {
            WalkEvent::Entry(entry) => {
                lemma_owned_threads_push(process_id, read, entry);
                assert(read.push(entry).last() == entry);
                if all_well_formed(read) && entry.well_formed() {
                    assert(all_well_formed(read.push(entry)));
                }
            },
            WalkEvent::SnapshotRefused => {
                assert(before.len() == 0);
            },
            WalkEvent::SnapshotTaken => {
                assert(before.len() == 0);
                reveal(Seq::filter);
            },
            _ => {},
        }
        if before.len() > 0 {
            assert(before.first() == events.first());
        }
    }
}

} // verus!
