//! Access times: an instant placed in the machine's time zone, and the
//! calendar fields of a local time written as `YYYY/MM/DD hh:mm`.
use chrono::{Datelike, Timelike};
use vstd::prelude::*;
use vstd::string::StringExecFns;

use crate::scan::Timestamp;
use crate::units::{decimal, digit_char, digit_str, push_decimal};

verus! {

/// A calendar date and a time of day, to the minute, in some time zone.
#[derive(Debug, Clone, Copy, PartialEq, Eq)]
pub struct LocalDateTime {
    pub year: i32,
    pub month: u32,
    pub day: u32,
    pub hour: u32,
    pub minute: u32,
}

impl LocalDateTime {
    /// Each field lies in its calendar range.
    pub open spec fn wf(self) -> bool {
        &&& 1 <= self.month <= 12
        &&& 1 <= self.day <= 31
        &&& self.hour < 24
        &&& self.minute < 60
    }
}

/// The first second of the year 1, in seconds since the Unix epoch.
pub const EARLIEST_SECS: i64 = -62135596800;

/// The last second of the year 9999, in seconds since the Unix epoch.
pub const LATEST_SECS: i64 = 253402300799;

/// Whether an access time lies in the years 1 to 9999, where it is shown.
pub open spec fn in_shown_range(t: Timestamp) -> bool {
    EARLIEST_SECS <= t.secs <= LATEST_SECS
}

/// Relies on chrono's `DateTime::from_timestamp` to place the instant, on
/// `DateTime::with_timezone(&Local)` to move it into the machine's time zone,
/// and on the `Datelike` and `Timelike` getters, whose month, day, hour and
/// minute lie in their calendar ranges.
#[verifier::external_body]
fn local_date_time(t: Timestamp) -> (r: Option<LocalDateTime>)
    requires
        in_shown_range(t),
    ensures
        r matches Some(d) ==> d.wf(),
{
    match chrono::DateTime::from_timestamp(t.secs, t.nanos) {
        Some(utc) => {
            let local = utc.with_timezone(&chrono::Local);
            Some(LocalDateTime { year: local.year(), month: local.month(), day: local.day(),
                hour: local.hour(), minute: local.minute() })
        },
        None => None,
    }
}

/// `m` with at least four digits, zero-padded on the left.
pub open spec fn four_digits(m: nat) -> Seq<char> {
    if m < 10000 {
        seq![
            digit_char(m / 1000),
            digit_char((m / 100) % 10),
            digit_char((m / 10) % 10),
            digit_char(m % 10),
        ]
    } else {
        decimal(m)
    }
}

/// A year written with four digits; one outside 0 to 9999 carries its sign.
pub open spec fn year_text(y: int) -> Seq<char> {
    if 0 <= y < 10000 {
        four_digits(y as nat)
    } else if y < 0 {
        seq!['-'] + four_digits((-y) as nat)
    } else {
        seq!['+'] + four_digits(y as nat)
    }
}

/// A number below 100 written with two digits.
pub open spec fn two_digits(n: nat) -> Seq<char> {
    seq![digit_char((n / 10) % 10), digit_char(n % 10)]
}

/// A local time written as `YYYY/MM/DD hh:mm`.
pub open spec fn stamp_text(d: LocalDateTime) -> Seq<char> {
    year_text(d.year as int) + seq!['/'] + two_digits(d.month as nat) + seq!['/'] + two_digits(
        d.day as nat,
    ) + seq![' '] + two_digits(d.hour as nat) + seq![':'] + two_digits(d.minute as nat)
}

/// `text` is what is shown for access time `time`: nothing where there is
/// none, or where it lies outside the years 1 to 9999; otherwise either
/// nothing or some local time of the machine's time zone.
pub open spec fn shows_access(text: Seq<char>, time: Option<Timestamp>) -> bool {
    match time {
        Some(t) => if in_shown_range(t) {
            text.len() == 0 || exists|d: LocalDateTime| d.wf() && text == stamp_text(d)
        } else {
            text.len() == 0
        },
        None => text.len() == 0,
    }
}

fn push_four_digits(s: &mut String, m: u64)
    ensures
        final(s)@ == old(s)@ + four_digits(m as nat),
{
    if m < 10000 {
        s.append(digit_str(m / 1000));
        s.append(digit_str((m / 100) % 10));
        s.append(digit_str((m / 10) % 10));
        s.append(digit_str(m % 10));
        assert(final(s)@ =~= old(s)@ + four_digits(m as nat));
    } else {
        push_decimal(s, m);
    }
}

fn push_two_digits(s: &mut String, n: u32)
    ensures
        final(s)@ == old(s)@ + two_digits(n as nat),
{
    s.append(digit_str(((n / 10) % 10) as u64));
    s.append(digit_str((n % 10) as u64));
    assert(final(s)@ =~= old(s)@ + two_digits(n as nat));
}

/// Writes a local time as `YYYY/MM/DD hh:mm`.
pub fn format_stamp(d: &LocalDateTime) -> (r: String)
    ensures
        r@ == stamp_text(*d),
{
    let mut r = String::new();
    let y: i64 = d.year as i64;
    if 0 <= y && y < 10000 {
        push_four_digits(&mut r, y as u64);
    } else if y < 0 {
        proof { reveal_strlit("-"); }
        r.append("-");
        push_four_digits(&mut r, (-y) as u64);
    } else {
        proof { reveal_strlit("+"); }
        r.append("+");
        push_four_digits(&mut r, y as u64);
    }
    proof {
        reveal_strlit("/");
        reveal_strlit(" ");
        reveal_strlit(":");
    }
    r.append("/");
    push_two_digits(&mut r, d.month);
    r.append("/");
    push_two_digits(&mut r, d.day);
    r.append(" ");
    push_two_digits(&mut r, d.hour);
    r.append(":");
    push_two_digits(&mut r, d.minute);
    assert(r@ =~= stamp_text(*d));
    r
}

/// The text shown for a local time: the time written out, or nothing where
/// there is none.
pub fn access_text(local: Option<LocalDateTime>) -> (r: String)
    ensures
        r@ == match local {
            Some(d) => stamp_text(d),
            None => Seq::empty(),
        },
{
    match local {
        Some(d) => format_stamp(&d),
        None => String::new(),
    }
}

/// The text shown for access time `time`, in the machine's time zone.
pub fn access_time_text(time: Option<Timestamp>) -> (r: String)
    ensures
        shows_access(r@, time),
{
    match time {
        Some(t) => if EARLIEST_SECS <= t.secs && t.secs <= LATEST_SECS {
            let local = local_date_time(t);
            access_text(local)
        } else {
            String::new()
        },
        None => String::new(),
    }
}

} // verus!
