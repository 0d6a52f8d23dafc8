//! The directory-scan family: the system shows the threads of a process as
//! the entries of a directory, each under the thread's id in decimal digits.
//!
//! Threads end while the directory is read. An entry that is gone, or
//! whose name is no id, is left out of the census and spoils nothing.

use vstd::prelude::*;

use crate::thread::Thread;

verus! {

/// One entry of the listing of the directory.
#[derive(Debug)]
pub enum TaskEntry {
    /// The name of the entry, byte for byte.
    Named(Vec<u8>),
    /// The entry was gone before its name could be read.
    Vanished,
}

/// Whether the byte is an ASCII decimal digit.
pub open spec fn is_digit(byte: u8) -> bool {
    48 <= byte <= 57
}

/// Whether the name is made of decimal digits, and of one at least.
pub open spec fn is_decimal(name: Seq<u8>) -> bool {
    name.len() > 0 && forall|i: int| 0 <= i < name.len() ==> is_digit(#[trigger] name[i])
}

/// The number that a name of decimal digits stands for.
pub open spec fn decimal_value(name: Seq<u8>) -> nat
    decreases name.len(),
{
    if name.len() == 0 {
        0
    } else {
        decimal_value(name.drop_last()) * 10 + (name.last() - 48) as nat
    }
}

/// The thread id that a name stands for: the name is made of decimal
/// digits, with no sign and no blank, and the number fits in 32 bits.
pub open spec fn thread_id_of(name: Seq<u8>) -> Option<u32> {
    if is_decimal(name) && decimal_value(name) <= u32::MAX {
        Some(decimal_value(name) as u32)
    } else {
        None
    }
}

impl View for TaskEntry {
    type V = Option<Seq<u8>>;

    /// The name of the entry, if it had one left.
    open spec fn view(&self) -> Option<Seq<u8>> {
        match self {
            TaskEntry::Named(name) => Some(name@),
            TaskEntry::Vanished => None,
        }
    }
}

/// A listing as plain values: the names of its entries.
pub open spec fn names_of(listing: Seq<TaskEntry>) -> Seq<Option<Seq<u8>>> {
    listing.map_values(|entry: TaskEntry| entry@)
}

/// The thread that an entry stands for, if it stands for one.
pub open spec fn thread_of(entry: Option<Seq<u8>>) -> Option<Thread> {
    match entry {
        Some(name) => match thread_id_of(name) {
            Some(id) => Some(Thread::with_id(id)),
            None => None,
        },
        None => None,
    }
}

/// The threads that a listing stands for, in the order of the listing.
pub open spec fn listed_threads(names: Seq<Option<Seq<u8>>>) -> Seq<Thread> {
    names.filter_map(|entry: Option<Seq<u8>>| thread_of(entry))
}

/// Which entry a listed thread comes from.
pub proof fn lemma_listed_threads_contains(names: Seq<Option<Seq<u8>>>, thread: Thread)
    ensures
        listed_threads(names).contains(thread) <==> exists|i: int|
            0 <= i < names.len() && thread_of(#[trigger] names[i]) == Some(thread),
    decreases names.len(),
{
    let of = |entry: Option<Seq<u8>>| thread_of(entry);
    if names.len() > 0 {
        let before = names.drop_last();
        let listed_before = listed_threads(before);
        lemma_listed_threads_contains(before, thread);
        if listed_threads(names).contains(thread) {
            if thread_of(names.last()) == Some(thread) {
                assert(names[names.len() - 1] == names.last());
            } else {
                if thread_of(names.last()) is Some {
                    let k = choose|k: int|
                        0 <= k < listed_threads(names).len() && listed_threads(names)[k] == thread;
                    assert(listed_before[k] == thread);
                }
                assert(listed_before.contains(thread));
                let i = choose|i: int|
                    0 <= i < before.len() && thread_of(#[trigger] before[i]) == Some(thread);
                assert(names[i] == before[i]);
            }
        }
        if exists|i: int| 0 <= i < names.len() && thread_of(#[trigger] names[i]) == Some(thread) {
            let i = choose|i: int|
                0 <= i < names.len() && thread_of(#[trigger] names[i]) == Some(thread);
            if i < before.len() {
                assert(before[i] == names[i]);
                assert(listed_before.contains(thread));
                let k = choose|k: int| 0 <= k < listed_before.len() && listed_before[k] == thread;
                assert(listed_threads(names)[k] == thread);
            } else {
                assert(listed_threads(names)[listed_before.len() as int] == thread);
            }
        }
    }
}

/// A listing's threads do not depend on its order.
///
/// Two listings that hold the same names, in whatever order and however
/// often, stand for the same set of threads.
pub proof fn lemma_listing_ignores_order(
    first: Seq<Option<Seq<u8>>>,
    second: Seq<Option<Seq<u8>>>,
)
    requires
        first.to_set() == second.to_set(),
    ensures
        listed_threads(first).to_set() == listed_threads(second).to_set(),
{
    assert forall|a: Seq<Option<Seq<u8>>>, b: Seq<Option<Seq<u8>>>, thread: Thread|
        a.to_set() == b.to_set() && listed_threads(a).contains(thread) implies listed_threads(
        b,
    ).contains(thread) by {
        lemma_listed_threads_contains(a, thread);
        lemma_listed_threads_contains(b, thread);
        let i = choose|i: int| 0 <= i < a.len() && thread_of(#[trigger] a[i]) == Some(thread);
        assert(a.to_set().contains(a[i]));
        assert(b.contains(a[i]));
        let j = choose|j: int| 0 <= j < b.len() && b[j] == a[i];
        assert(thread_of(b[j]) == Some(thread));
    }
    assert(listed_threads(first).to_set() =~= listed_threads(second).to_set());
}

/// A name of decimal digits stands for no less than any of its beginnings.
proof fn lemma_decimal_value_grows(name: Seq<u8>, i: int)
    requires
        is_decimal(name),
        0 <= i <= name.len(),
    ensures
        decimal_value(name.take(i)) <= decimal_value(name),
    decreases name.len() - i,
{
    if i == name.len() {
        assert(name.take(i) =~= name);
    } else {
        lemma_decimal_value_grows(name, i + 1);
        assert(name.take(i + 1).drop_last() =~= name.take(i));
        assert(is_digit(name[i]));
    }
}

/// Reads a name as a thread id.
pub fn parse_thread_id(name: &[u8]) -> (r: Option<u32>)
    ensures
        r == thread_id_of(name@),
{
    if name.len() == 0 {
        return None;
    }
    let mut value: u64 = 0;
    let mut i: usize = 0;
    assert(name@.take(0) =~= Seq::<u8>::empty());
    while i < name.len()
        invariant
            i <= name.len(),
            forall|j: int| 0 <= j < i ==> is_digit(#[trigger] name@[j]),
            value == decimal_value(name@.take(i as int)),
            value <= u32::MAX,
        decreases name.len() - i,
    {
        let byte = name[i];
        if byte < 48 || byte > 57 {
            assert(!is_digit(name@[i as int]));
            return None;
        }
        assert(name@.take(i + 1).drop_last() =~= name@.take(i as int));
        value = value * 10 + (byte - 48) as u64;
        if value > u32::MAX as u64 {
            proof {
                if is_decimal(name@) {
                    lemma_decimal_value_grows(name@, i + 1);
                }
            }
            return None;
        }
        i += 1;
    }
    assert(name@.take(i as int) =~= name@);
    Some(value as u32)
}

/// The threads of the process, out of the listing of its directory.
///
/// They come in the order of the listing. Whatever is no thread is passed
/// over: an entry that was gone, and a name that is no thread id.
pub fn get_threads(listing: &Vec<TaskEntry>) -> (threads: Vec<Thread>)
    ensures
        threads@ == listed_threads(names_of(listing@)),
{
    let mut res: Vec<Thread> = Vec::new();
    let mut i: usize = 0;
    let ghost names = names_of(listing@);
    assert(names.take(0) =~= Seq::<Option<Seq<u8>>>::empty());
    while i < listing.len()
        invariant
            i <= listing.len(),
            names == names_of(listing@),
            res@ == listed_threads(names.take(i as int)),
        decreases listing.len() - i,
    {
        proof {
            names.lemma_filter_map_take_succ(|entry: Option<Seq<u8>>| thread_of(entry), i as int);
        }
        match &listing[i] {
            TaskEntry::Named(name) => {
                match parse_thread_id(name.as_slice()) {
                    Some(id) => {
                        res.push(Thread::new(id));
                    },
                    None => {},
                }
            },
            TaskEntry::Vanished => {},
        }
        i += 1;
    }
    assert(names.take(i as int) =~= names);
    res
}

} // verus!
