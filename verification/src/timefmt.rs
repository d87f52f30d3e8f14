//! Timestamp rendering: the `chrono` crate turns a Unix timestamp into local
//! calendar fields; laying those fields out as `YYYY-MM-DD HH:MM:SS` text is
//! verified here.

use chrono::{Datelike, TimeZone, Timelike};
use vstd::prelude::*;

verus! {

/// One local calendar date and clock time, second resolution.
#[derive(Clone, Copy, PartialEq, Eq, Structural)]
pub struct DateTimeParts {
    pub year: i32,
    pub month: u8,
    pub day: u8,
    pub hour: u8,
    pub minute: u8,
    pub second: u8,
}

/// The ranges calendar fields live in.
pub open spec fn parts_valid(p: DateTimeParts) -> bool {
    &&& 1 <= p.month <= 12
    &&& 1 <= p.day <= 31
    &&& p.hour < 24
    &&& p.minute < 60
    &&& p.second < 60
}

/// The decimal digit character for a value below ten.
pub open spec fn digit_char(d: int) -> char {
    if d == 0 {
        '0'
    } else if d == 1 {
        '1'
    } else if d == 2 {
        '2'
    } else if d == 3 {
        '3'
    } else if d == 4 {
        '4'
    } else if d == 5 {
        '5'
    } else if d == 6 {
        '6'
    } else if d == 7 {
        '7'
    } else if d == 8 {
        '8'
    } else {
        '9'
    }
}

/// The decimal digits of a non-negative value, most significant first, with
/// no leading zero (a lone zero for zero itself).
pub open spec fn dec_digits(n: int) -> Seq<char>
    decreases n,
{
    if n < 10 {
        seq![digit_char(n)]
    } else {
        dec_digits(n / 10).push(digit_char(n % 10))
    }
}

/// A value below one hundred as exactly two digits, zero-padded.
pub open spec fn two_digits(n: int) -> Seq<char> {
    seq![digit_char(n / 10), digit_char(n % 10)]
}

/// A non-negative value zero-padded to at least four digits.
pub open spec fn four_digits(n: int) -> Seq<char> {
    if n < 10 {
        seq!['0', '0', '0'] + dec_digits(n)
    } else if n < 100 {
        seq!['0', '0'] + dec_digits(n)
    } else if n < 1000 {
        seq!['0'] + dec_digits(n)
    } else {
        dec_digits(n)
    }
}

/// A year as at least four digits, with a leading minus sign when negative.
pub open spec fn year_digits(y: int) -> Seq<char> {
    if y < 0 {
        seq!['-'] + four_digits(-y)
    } else {
        four_digits(y)
    }
}

/// The fixed `YYYY-MM-DD HH:MM:SS` layout of one date and time.
pub open spec fn timestamp_text(p: DateTimeParts) -> Seq<char> {
    year_digits(p.year as int) + seq!['-'] + two_digits(p.month as int) + seq!['-'] + two_digits(
        p.day as int,
    ) + seq![' '] + two_digits(p.hour as int) + seq![':'] + two_digits(p.minute as int) + seq![':']
        + two_digits(p.second as int)
}

/// A rendered timestamp field: empty where the timestamp had no local
/// representation, else the fixed layout of some valid calendar fields.
pub open spec fn timestamp_field_ok(t: Seq<char>) -> bool {
    t.len() == 0 || exists|p: DateTimeParts| parts_valid(p) && t == timestamp_text(p)
}

/// One decimal digit as a string slice.
fn digit_str(d: u64) -> (s: &'static str)
    requires
        d < 10,
    ensures
        s@ == seq![digit_char(d as int)],
{
    proof {
        reveal_strlit("0");
        reveal_strlit("1");
        reveal_strlit("2");
        reveal_strlit("3");
        reveal_strlit("4");
        reveal_strlit("5");
        reveal_strlit("6");
        reveal_strlit("7");
        reveal_strlit("8");
        reveal_strlit("9");
    }
    let s: &'static str = match d {
        0 => "0",
        1 => "1",
        2 => "2",
        3 => "3",
        4 => "4",
        5 => "5",
        6 => "6",
        7 => "7",
        8 => "8",
        _ => "9",
    };
    proof {
        assert(s@ =~= seq![digit_char(d as int)]);
    }
    s
}

/// The decimal digits of a value, most significant first.
fn dec_string(n: u64) -> (s: String)
    ensures
        s@ == dec_digits(n as int),
    decreases n,
{
    if n < 10 {
        String::from_str(digit_str(n))
    } else {
        let head = dec_string(n / 10);
        let r = head.concat(digit_str(n % 10));
        proof {
            assert(r@ =~= dec_digits(n as int));
        }
        r
    }
}

/// A value below one hundred as two zero-padded digits.
fn pad2(n: u8) -> (s: String)
    requires
        n < 100,
    ensures
        s@ == two_digits(n as int),
{
    let r = String::from_str(digit_str((n / 10) as u64)).concat(digit_str((n % 10) as u64));
    proof {
        assert(r@ =~= two_digits(n as int));
    }
    r
}

/// A value zero-padded to at least four digits.
fn pad4(n: u64) -> (s: String)
    ensures
        s@ == four_digits(n as int),
{
    let prefix: &'static str = if n < 10 {
        "000"
    } else if n < 100 {
        "00"
    } else if n < 1000 {
        "0"
    } else {
        ""
    };
    proof {
        reveal_strlit("000");
        reveal_strlit("00");
        reveal_strlit("0");
        reveal_strlit("");
    }
    let digits = dec_string(n);
    let r = String::from_str(prefix).concat(digits.as_str());
    proof {
        assert(r@ =~= four_digits(n as int));
    }
    r
}

/// A year as at least four digits, minus-signed when negative.
fn year_string(y: i32) -> (s: String)
    ensures
        s@ == year_digits(y as int),
{
    if y < 0 {
        let mag = (-(y as i64)) as u64;
        proof {
            assert(mag as int == -(y as int));
        }
        let r = String::from_str("-").concat(pad4(mag).as_str());
        proof {
            reveal_strlit("-");
            assert(r@ =~= year_digits(y as int));
        }
        r
    } else {
        pad4(y as u64)
    }
}

/// Lay one date and time out as `YYYY-MM-DD HH:MM:SS`.
pub fn format_timestamp(p: &DateTimeParts) -> (s: String)
    requires
        parts_valid(*p),
    ensures
        s@ == timestamp_text(*p),
{
    let r = year_string(p.year)
        .concat("-")
        .concat(pad2(p.month).as_str())
        .concat("-")
        .concat(pad2(p.day).as_str())
        .concat(" ")
        .concat(pad2(p.hour).as_str())
        .concat(":")
        .concat(pad2(p.minute).as_str())
        .concat(":")
        .concat(pad2(p.second).as_str());
    proof {
        reveal_strlit("-");
        reveal_strlit(" ");
        reveal_strlit(":");
        assert(r@ =~= timestamp_text(*p));
    }
    r
}

/// Relies on chrono: `Local.timestamp_opt(secs, 0)` maps a Unix timestamp to
/// the local calendar date and clock time (earliest of the two on a
/// daylight-saving fold, none where the timestamp has no local
/// representation), and the `Datelike`/`Timelike` accessors return fields in
/// their documented ranges: month 1..=12, day 1..=31, hour below 24, minute
/// and second below 60.
#[verifier::external_body]
fn local_datetime_parts(epoch_secs: i64) -> (r: Option<DateTimeParts>)
    ensures
        r matches Some(p) ==> parts_valid(p),
{
    let dt = chrono::Local.timestamp_opt(epoch_secs, 0).earliest()?;
    Some(DateTimeParts {
        year: dt.year(),
        month: dt.month() as u8,
        day: dt.day() as u8,
        hour: dt.hour() as u8,
        minute: dt.minute() as u8,
        second: dt.second() as u8,
    })
}

/// The local-time rendering of a Unix timestamp: the fixed layout of its
/// local calendar fields, or empty where the timestamp has no local
/// representation.
pub fn local_timestamp_text(epoch_secs: i64) -> (s: String)
    ensures
        timestamp_field_ok(s@),
{
    match local_datetime_parts(epoch_secs) {
        Option::Some(p) => {
            let r = format_timestamp(&p);
            proof {
                assert(parts_valid(p) && r@ == timestamp_text(p));
            }
            r
        },
        Option::None => String::new(),
    }
}

} // verus!
