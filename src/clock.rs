//! Unix timestamps written as UTC calendar text.

use vstd::prelude::*;
use chrono::{DateTime, Datelike, Timelike, Utc};
use crate::text::{decimal, padded, push_char, push_decimal, push_padded, push_str};

verus! {

/// The calendar fields of an instant, in UTC.
#[derive(Clone, Copy, Debug, PartialEq, Eq, Structural)]
pub struct UtcFields {
    pub year: i32,
    pub month: u32,
    pub day: u32,
    pub hour: u32,
    pub minute: u32,
    pub second: u32,
}

/// Year, month and day (proleptic Gregorian, UTC) of the instant `secs`
/// seconds after the Unix epoch, as chrono computes them, or `None` where
/// chrono cannot represent the instant.
pub uninterp spec fn civil_date_of(secs: int) -> Option<(int, int, int)>;

/// Relies on chrono's `DateTime::<Utc>::from_timestamp(secs, 0)` and the
/// calendar accessors of the result: `None` exactly when the instant is out of
/// chrono's range; otherwise the date, and the time of day taken from the
/// seconds since midnight (`secs.rem_euclid(86_400)` in chrono's source).
#[verifier::external_body]
fn utc_fields(secs: i64) -> (r: Option<UtcFields>)
    ensures
        r is None <==> civil_date_of(secs as int) is None,
        r matches Some(f) ==> {
            &&& civil_date_of(secs as int) == Some((f.year as int, f.month as int, f.day as int))
            &&& 1 <= f.month <= 12
            &&& 1 <= f.day <= 31
            &&& f.hour as int == (secs as int) % 86400 / 3600
            &&& f.minute as int == (secs as int) % 3600 / 60
            &&& f.second as int == (secs as int) % 60
        },
{
    match DateTime::<Utc>::from_timestamp(secs, 0) {
        Some(dt) => Some(UtcFields {
            year: dt.year(),
            month: dt.month(),
            day: dt.day(),
            hour: dt.hour(),
            minute: dt.minute(),
            second: dt.second(),
        }),
        None => None,
    }
}

/// A year as `%Y` writes it: four digits from 0 to 9999, otherwise a sign
/// and at least four digits.
pub open spec fn year_text(y: int) -> Seq<char> {
    if 0 <= y <= 9999 {
        padded(y as nat, 4)
    } else if y < 0 {
        seq!['-'] + padded((-y) as nat, 4)
    } else {
        seq!['+'] + padded(y as nat, 4)
    }
}

/// `YYYY-MM-DD`.
pub open spec fn date_text(y: int, m: int, d: int) -> Seq<char> {
    year_text(y) + seq!['-'] + padded(m as nat, 2) + seq!['-'] + padded(d as nat, 2)
}

/// `HH:MM:SS`.
pub open spec fn clock_text(h: int, m: int, s: int) -> Seq<char> {
    padded(h as nat, 2) + seq![':'] + padded(m as nat, 2) + seq![':'] + padded(s as nat, 2)
}

/// The instant a stored timestamp stands for: its bits read as a signed number.
pub open spec fn instant(secs: u64) -> int {
    (secs as i64) as int
}

/// What is written for a timestamp that has no calendar date.
pub open spec fn invalid_text(secs: u64) -> Seq<char> {
    "Invalid timestamp: "@ + decimal(secs as nat)
}

/// `YYYY-MM-DD HH:MM:SS UTC` for a timestamp.
pub open spec fn datetime_text(secs: u64) -> Seq<char> {
    let t = instant(secs);
    match civil_date_of(t) {
        Some((y, m, d)) => date_text(y, m, d) + seq![' '] + clock_text(
            t % 86400 / 3600,
            t % 3600 / 60,
            t % 60,
        ) + " UTC"@,
        None => invalid_text(secs),
    }
}

/// `YYYY-MM-DD` for a timestamp.
pub open spec fn day_text(secs: u64) -> Seq<char> {
    match civil_date_of(instant(secs)) {
        Some((y, m, d)) => date_text(y, m, d),
        None => invalid_text(secs),
    }
}

fn push_year(out: &mut String, y: i32)
    ensures
        final(out)@ == old(out)@ + year_text(y as int),
{
    if 0 <= y && y <= 9999 {
        push_padded(out, y as u64, 4);
    } else if y < 0 {
        push_char(out, '-');
        let a: i64 = -(y as i64);
        push_padded(out, a as u64, 4);
        assert(final(out)@ =~= old(out)@ + year_text(y as int));
    } else {
        push_char(out, '+');
        push_padded(out, y as u64, 4);
        assert(final(out)@ =~= old(out)@ + year_text(y as int));
    }
}

impl UtcFields {
    /// Appends `YYYY-MM-DD`.
    pub fn push_date(&self, out: &mut String)
        ensures
            final(out)@ == old(out)@ + date_text(
                self.year as int,
                self.month as int,
                self.day as int,
            ),
    {
        push_year(out, self.year);
        push_char(out, '-');
        push_padded(out, self.month as u64, 2);
        push_char(out, '-');
        push_padded(out, self.day as u64, 2);
        assert(final(out)@ =~= old(out)@ + date_text(
            self.year as int,
            self.month as int,
            self.day as int,
        ));
    }

    /// Appends `YYYY-MM-DD HH:MM:SS UTC`.
    pub fn push_datetime(&self, out: &mut String)
        ensures
            final(out)@ == old(out)@ + date_text(
                self.year as int,
                self.month as int,
                self.day as int,
            ) + seq![' '] + clock_text(self.hour as int, self.minute as int, self.second as int)
                + " UTC"@,
    {
        let ghost start = out@;
        self.push_date(out);
        push_char(out, ' ');
        push_padded(out, self.hour as u64, 2);
        push_char(out, ':');
        push_padded(out, self.minute as u64, 2);
        push_char(out, ':');
        push_padded(out, self.second as u64, 2);
        push_str(out, " UTC");
        assert(final(out)@ =~= start + date_text(
            self.year as int,
            self.month as int,
            self.day as int,
        ) + seq![' '] + clock_text(self.hour as int, self.minute as int, self.second as int)
            + " UTC"@);
    }
}

/// Appends `YYYY-MM-DD HH:MM:SS UTC` for a timestamp, or the invalid-timestamp
/// text where it has no calendar date.
pub fn push_datetime_of(out: &mut String, secs: u64)
    ensures
        final(out)@ == old(out)@ + datetime_text(secs),
{
    match utc_fields(secs as i64) {
        Some(f) => f.push_datetime(out),
        None => {
            push_str(out, "Invalid timestamp: ");
            push_decimal(out, secs);
            assert(final(out)@ =~= old(out)@ + datetime_text(secs));
        },
    }
}

/// Appends `YYYY-MM-DD` for a timestamp, or the invalid-timestamp text where
/// it has no calendar date.
pub fn push_day_of(out: &mut String, secs: u64)
    ensures
        final(out)@ == old(out)@ + day_text(secs),
{
    match utc_fields(secs as i64) {
        Some(f) => f.push_date(out),
        None => {
            push_str(out, "Invalid timestamp: ");
            push_decimal(out, secs);
            assert(final(out)@ =~= old(out)@ + day_text(secs));
        },
    }
}

/// `YYYY-MM-DD HH:MM:SS UTC` for a timestamp.
pub fn format_datetime_of(secs: u64) -> (r: String)
    ensures
        r@ == datetime_text(secs),
{
    let mut out = String::new();
    push_datetime_of(&mut out, secs);
    assert(out@ =~= datetime_text(secs));
    out
}

/// `YYYY-MM-DD` for a timestamp.
pub fn format_day_of(secs: u64) -> (r: String)
    ensures
        r@ == day_text(secs),
{
    let mut out = String::new();
    push_day_of(&mut out, secs);
    assert(out@ =~= day_text(secs));
    out
}

} // verus!
