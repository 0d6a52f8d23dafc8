use thread_census::platform::windows::walk::{Walk, WalkAction, WalkEvent};
use thread_census::platform::windows::{get_threads, ThreadEntry};
use thread_census::{Error, Thread};

fn entry(thread_id: u32, owner_process_id: u32) -> ThreadEntry {
    ThreadEntry { size: 28, thread_id, owner_process_id }
}

fn ids(threads: &[Thread]) -> Vec<u32> {
    threads.iter().map(|thread| thread.id()).collect()
}

/// Drives a walk over a snapshot that holds `entries`, and counts what the
/// walk had done to the snapshot.
fn drive(process_id: u32, entries: &[ThreadEntry]) -> (Result<Vec<Thread>, Error>, u32, u32) {
    let mut walk = Walk::begin(process_id);
    let mut taken = 0;
    let mut released = 0;
    let mut next = 0;
    loop {
        let event = match walk.action() {
            WalkAction::TakeSnapshot => {
                taken += 1;
                WalkEvent::SnapshotTaken
            }
            WalkAction::ReadFirst => {
                assert_eq!(next, 0);
                next += 1;
                entries.first().map_or(WalkEvent::Exhausted, |e| WalkEvent::Entry(*e))
            }
            WalkAction::ReadNext => {
                assert!(next > 0);
                next += 1;
                entries.get(next - 1).map_or(WalkEvent::Exhausted, |e| WalkEvent::Entry(*e))
            }
            WalkAction::Release => {
                released += 1;
                WalkEvent::Released
            }
            WalkAction::Finish => return (walk.outcome().unwrap(), taken, released),
        };
        walk = walk.step(event);
    }
}

#[test]
fn a_walk_begins_with_the_snapshot() {
    let walk = Walk::begin(1);
    assert_eq!(walk.action(), WalkAction::TakeSnapshot);
    assert!(walk.outcome().is_none());
}

#[test]
fn a_walk_reads_the_first_entry_then_the_next() {
    let walk = Walk::begin(1).step(WalkEvent::SnapshotTaken);
    assert_eq!(walk.action(), WalkAction::ReadFirst);
    let walk = walk.step(WalkEvent::Entry(entry(5, 1)));
    assert_eq!(walk.action(), WalkAction::ReadNext);
    let walk = walk.step(WalkEvent::Entry(entry(6, 2)));
    assert_eq!(walk.action(), WalkAction::ReadNext);
    let walk = walk.step(WalkEvent::Exhausted);
    assert_eq!(walk.action(), WalkAction::Release);
    assert!(walk.outcome().is_none());
}

#[test]
fn a_walk_ends_with_the_threads_of_the_process() {
    let walk = Walk::begin(1)
        .step(WalkEvent::SnapshotTaken)
        .step(WalkEvent::Entry(entry(5, 1)))
        .step(WalkEvent::Entry(entry(6, 2)))
        .step(WalkEvent::Entry(entry(7, 1)))
        .step(WalkEvent::Exhausted)
        .step(WalkEvent::Released);
    assert_eq!(walk.action(), WalkAction::Finish);
    assert_eq!(ids(&walk.outcome().unwrap().unwrap()), vec![5, 7]);
}

#[test]
fn an_empty_snapshot_is_an_empty_census() {
    let walk = Walk::begin(1).step(WalkEvent::SnapshotTaken).step(WalkEvent::Exhausted);
    assert_eq!(walk.action(), WalkAction::Release);
    let walk = walk.step(WalkEvent::Released);
    assert_eq!(ids(&walk.outcome().unwrap().unwrap()), Vec::<u32>::new());
}

#[test]
fn no_snapshot_is_no_census_and_nothing_to_release() {
    let walk = Walk::begin(1).step(WalkEvent::SnapshotRefused);
    assert_eq!(walk.action(), WalkAction::Finish);
    assert_eq!(walk.outcome().unwrap().unwrap_err(), Error::EnumerationUnavailable);
}

#[test]
fn a_short_entry_ends_the_reading_and_the_snapshot_is_released() {
    let short = ThreadEntry { size: 12, thread_id: 6, owner_process_id: 2 };
    let walk = Walk::begin(1)
        .step(WalkEvent::SnapshotTaken)
        .step(WalkEvent::Entry(entry(5, 1)))
        .step(WalkEvent::Entry(short));
    assert_eq!(walk.action(), WalkAction::Release);
    let walk = walk.step(WalkEvent::Released);
    assert_eq!(walk.action(), WalkAction::Finish);
    assert_eq!(walk.outcome().unwrap().unwrap_err(), Error::MalformedRecord);
}

#[test]
fn what_is_no_answer_changes_nothing() {
    let walk = Walk::begin(1).step(WalkEvent::Released).step(WalkEvent::Entry(entry(5, 1)));
    assert_eq!(walk.action(), WalkAction::TakeSnapshot);
    let walk = walk
        .step(WalkEvent::SnapshotTaken)
        .step(WalkEvent::SnapshotTaken)
        .step(WalkEvent::Released)
        .step(WalkEvent::SnapshotRefused);
    assert_eq!(walk.action(), WalkAction::ReadFirst);
    let walk = walk
        .step(WalkEvent::Entry(entry(5, 1)))
        .step(WalkEvent::Exhausted)
        .step(WalkEvent::Entry(entry(6, 1)))
        .step(WalkEvent::Exhausted);
    assert_eq!(walk.action(), WalkAction::Release);
    let walk = walk.step(WalkEvent::Released).step(WalkEvent::SnapshotTaken);
    assert_eq!(walk.action(), WalkAction::Finish);
    assert_eq!(ids(&walk.outcome().unwrap().unwrap()), vec![5]);
}

#[test]
fn a_driven_walk_releases_what_it_took() {
    let entries = vec![entry(1, 7), entry(2, 8), entry(3, 7)];
    let (outcome, taken, released) = drive(7, &entries);
    assert_eq!(ids(&outcome.unwrap()), vec![1, 3]);
    assert_eq!((taken, released), (1, 1));

    let spoiled = vec![entry(1, 7), ThreadEntry { size: 3, thread_id: 2, owner_process_id: 7 }];
    let (outcome, taken, released) = drive(7, &spoiled);
    assert_eq!(outcome.unwrap_err(), Error::MalformedRecord);
    assert_eq!((taken, released), (1, 1));
}

#[test]
fn a_driven_walk_comes_to_the_census_of_its_entries() {
    let snapshots = vec![
        vec![],
        vec![entry(1, 7)],
        vec![entry(1, 8)],
        vec![entry(1, 7), entry(2, 8), entry(3, 7), entry(4, 7)],
        vec![entry(1, 7), ThreadEntry { size: 15, thread_id: 2, owner_process_id: 8 }, entry(3, 7)],
    ];
    for entries in snapshots {
        let (walked, _, _) = drive(7, &entries);
        let counted = get_threads(7, &entries);
        assert_eq!(walked.map(|threads| ids(&threads)), counted.map(|threads| ids(&threads)));
    }
}
