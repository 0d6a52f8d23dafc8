//! How a thread and an instant are written for a reader.

use vstd::prelude::*;
use vstd::string::StringExecFns;

use crate::clock::{has_rfc3339_text, rfc3339_text, write_rfc3339, Timestamp};
use crate::thread::Thread;

verus! {

/// The character of a decimal digit.
pub open spec fn digit_char(digit: nat) -> char
    recommends
        digit < 10,
{
    ((48 + digit) as u8) as char
}

/// A number in decimal digits, without sign and without leading zeros.
pub open spec fn decimal_text(n: nat) -> Seq<char>
    decreases n,
{
    if n < 10 {
        seq![digit_char(n)]
    } else {
        decimal_text(n / 10).push(digit_char(n % 10))
    }
}

fn digit_text(digit: u32) -> (text: &'static str)
    requires
        digit < 10,
    ensures
        text@ == seq![digit_char(digit as nat)],
{
    proof {
        reveal_strlit("0");
        reveal_strlit("1");
        reveal_strlit("2");
        reveal_strlit("3");
        reveal_strlit("4");
        reveal_strlit("5");
        reveal_strlit("6");
        reveal_strlit("7");
        reveal_strlit("8");
        reveal_strlit("9");
    }
    let text = match digit {
        0 => "0",
        1 => "1",
        2 => "2",
        3 => "3",
        4 => "4",
        5 => "5",
        6 => "6",
        7 => "7",
        8 => "8",
        _ => "9",
    };
    assert(text@ =~= seq![digit_char(digit as nat)]);
    text
}

fn write_decimal(text: &mut String, n: u32)
    ensures
        final(text)@ == old(text)@ + decimal_text(n as nat),
    decreases n,
{
    if n >= 10 {
        write_decimal(text, n / 10);
    }
    text.append(digit_text(n % 10));
    assert(final(text)@ =~= old(text)@ + decimal_text(n as nat));
}

/// A thread written as its bare id, in decimal digits.
pub fn fmt_thread(val: &Thread) -> (text: String)
    ensures
        text@ == decimal_text(val@ as nat),
{
    let mut text = String::new();
    write_decimal(&mut text, val.id());
    assert(text@ =~= decimal_text(val@ as nat));
    text
}

/// An instant written in RFC 3339 form, such as `2024-01-01T00:00:00Z`.
///
/// RFC 3339 has no text for an instant before the year 0; for such an
/// instant there is none.
pub fn fmt_offsetdatetime(val: &Timestamp) -> (text: Option<String>)
    ensures
        text.is_some() <==> has_rfc3339_text(val@),
        text matches Some(s) ==> s@ == rfc3339_text(val@),
{
    write_rfc3339(val.unix_nanos())
}

} // verus!
