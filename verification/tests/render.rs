use thread_census::platform::windows::ThreadEntry;
use thread_census::{fmt_thread, Thread};

fn thread(id: u32) -> Thread {
    Thread::try_from(ThreadEntry { size: 28, thread_id: id, owner_process_id: 0 }).unwrap()
}

#[test]
fn a_thread_is_written_as_its_bare_id() {
    assert_eq!(fmt_thread(&thread(4021)), "4021");
    assert_eq!(fmt_thread(&thread(7)), "7");
}

#[test]
fn the_smallest_and_the_largest_id() {
    assert_eq!(fmt_thread(&thread(0)), "0");
    assert_eq!(fmt_thread(&thread(u32::MAX)), "4294967295");
}

#[test]
fn every_digit_is_written() {
    assert_eq!(fmt_thread(&thread(1_234_567_890)), "1234567890");
    assert_eq!(fmt_thread(&thread(10)), "10");
    assert_eq!(fmt_thread(&thread(9)), "9");
    assert_eq!(fmt_thread(&thread(100_000)), "100000");
    assert_eq!(fmt_thread(&thread(909)), "909");
}

#[test]
fn an_id_is_written_as_std_writes_it() {
    for id in [0u32, 1, 9, 10, 11, 99, 100, 101, 65_535, 65_536, 999_999_999, 1_000_000_000] {
        assert_eq!(fmt_thread(&thread(id)), id.to_string());
    }
}
