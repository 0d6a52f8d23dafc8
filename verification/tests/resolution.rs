use thread_census::platform::windows::{
    thread_status, FileTime, ThreadEntry, ThreadFacts, ThreadTimes, STILL_ACTIVE,
};
use thread_census::{fmt_offsetdatetime, fmt_thread, Error, Thread, ThreadStatus};

fn thread(id: u32) -> Thread {
    Thread::try_from(ThreadEntry { size: 28, thread_id: id, owner_process_id: 0 }).unwrap()
}

fn file_time(ticks: u64) -> FileTime {
    FileTime { high: (ticks >> 32) as u32, low: ticks as u32 }
}

const NEW_YEAR_2024: u64 = 133_485_408_000_000_000;

fn facts(exit_code: u32, creation: u64, exit: u64) -> ThreadFacts {
    ThreadFacts {
        io_pending: true,
        exit_code,
        name: String::from("pool-3"),
        times: ThreadTimes {
            creation: file_time(creation),
            exit: file_time(exit),
            kernel: file_time(156_255),
            user: file_time(30_000_019),
        },
    }
}

#[test]
fn the_still_running_code_is_a_running_thread() {
    assert_eq!(STILL_ACTIVE, 259);
    assert!(matches!(thread_status(259, file_time(0)), Ok(ThreadStatus::Running)));
}

#[test]
fn a_running_thread_has_no_time_of_exit() {
    // The time of exit is not looked at, whatever it holds.
    assert!(matches!(thread_status(259, file_time(u64::MAX)), Ok(ThreadStatus::Running)));
}

#[test]
fn every_other_code_is_a_stopped_thread_with_that_code() {
    for code in [0u32, 1, 258, 260, 0xC000_0005, u32::MAX] {
        match thread_status(code, file_time(NEW_YEAR_2024 + 10_000_000)) {
            Ok(ThreadStatus::Stopped(stopped)) => {
                assert_eq!(stopped.exit_code(), code);
                assert_eq!(stopped.exit_time().unix_nanos(), 1_704_067_201_000_000_000);
            }
            other => panic!("{:?}", other),
        }
    }
}

#[test]
fn a_stopped_thread_needs_a_time_of_exit_with_a_date() {
    assert_eq!(thread_status(0, file_time(u64::MAX)).unwrap_err(), Error::ConversionOverflow);
}

#[test]
fn the_record_of_a_running_thread() {
    let info = thread(77).get_info(facts(STILL_ACTIVE, NEW_YEAR_2024, 0)).unwrap();
    assert_eq!(info.thread(), thread(77));
    assert_eq!(info.thread().id(), 77);
    assert_eq!(info.name(), "pool-3");
    assert!(matches!(info.status(), ThreadStatus::Running));
    assert_eq!(info.created().unix_nanos(), 1_704_067_200_000_000_000);
    assert_eq!(info.kernel_time().as_micros(), 15_625);
    assert_eq!(info.user_time().as_micros(), 3_000_001);
    assert!(info.io_pending());
    assert_eq!(fmt_thread(&info.thread()), "77");
    assert_eq!(fmt_offsetdatetime(&info.created()), Some(String::from("2024-01-01T00:00:00Z")));
}

#[test]
fn the_record_of_a_stopped_thread() {
    let info = thread(78).get_info(facts(3, NEW_YEAR_2024, NEW_YEAR_2024 + 25)).unwrap();
    match info.status() {
        ThreadStatus::Stopped(stopped) => {
            assert_eq!(stopped.exit_code(), 3);
            assert_eq!(stopped.exit_time().unix_nanos(), 1_704_067_200_000_002_500);
        }
        ThreadStatus::Running => panic!("a thread that has ended does not run"),
    }
    assert_eq!(info.created().unix_nanos(), 1_704_067_200_000_000_000);
}

#[test]
fn the_record_keeps_what_it_was_given() {
    let given = ThreadFacts {
        io_pending: false,
        exit_code: STILL_ACTIVE,
        name: String::new(),
        times: ThreadTimes {
            creation: file_time(0),
            exit: file_time(0),
            kernel: file_time(0),
            user: file_time(15),
        },
    };
    let info = thread(0).get_info(given).unwrap();
    assert_eq!(info.thread().id(), 0);
    assert_eq!(info.name(), "");
    assert!(!info.io_pending());
    assert_eq!(info.created().unix_nanos(), -11_644_473_600_000_000_000);
    assert_eq!(info.kernel_time().as_micros(), 0);
    assert_eq!(info.user_time().as_micros(), 1);
}

#[test]
fn a_time_of_creation_without_a_date_is_an_overflow() {
    let outcome = thread(1).get_info(facts(STILL_ACTIVE, u64::MAX, 0));
    assert_eq!(outcome.unwrap_err(), Error::ConversionOverflow);
}

#[test]
fn a_time_of_exit_without_a_date_is_an_overflow_once_the_thread_has_stopped() {
    let stopped = thread(1).get_info(facts(0, NEW_YEAR_2024, u64::MAX));
    assert_eq!(stopped.unwrap_err(), Error::ConversionOverflow);
    let running = thread(1).get_info(facts(STILL_ACTIVE, NEW_YEAR_2024, u64::MAX));
    assert!(matches!(running.unwrap().status(), ThreadStatus::Running));
}

#[test]
fn the_record_is_shown() {
    let info = thread(5).get_info(facts(STILL_ACTIVE, NEW_YEAR_2024, 0)).unwrap();
    let shown = format!("{:?}", info);
    assert!(shown.contains("pool-3"));
    assert!(shown.contains("Running"));
}
