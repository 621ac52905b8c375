//! The log that the window shows: a text that grows by one entry per line
//! logged. An entry names the severity, the date and time to the millisecond
//! of the moment at which it was logged, and the message.

use time::OffsetDateTime;
use vstd::prelude::*;
use vstd::string::StringExecFns;

use crate::decimal::{decimal, push_decimal};

verus! {

/// `time::OffsetDateTime`: a moment together with its offset from UTC.
/// Nothing inside it is visible here.
#[verifier::external_type_specification]
#[verifier::external_body]
pub struct ExOffsetDateTime(time::OffsetDateTime);

/// How much a record of the log matters, from the gravest down.
#[derive(Clone, Copy, Debug, PartialEq, Eq, Structural)]
pub enum Severity {
    Error,
    Warn,
    Info,
    Debug,
    Trace,
}

/// A moment by its calendar fields, to the millisecond.
#[derive(Clone, Copy, Debug, PartialEq, Eq, Structural)]
pub struct Stamp {
    pub year: i32,
    pub month: u8,
    pub day: u8,
    pub hour: u8,
    pub minute: u8,
    pub second: u8,
    pub millisecond: u16,
}

impl Stamp {
    /// Whether the fields are those of a date and a time of day.
    pub open spec fn well_formed(self) -> bool {
        &&& 1 <= self.month <= 12
        &&& 1 <= self.day <= 31
        &&& self.hour < 24
        &&& self.minute < 60
        &&& self.second < 60
        &&& self.millisecond < 1000
    }
}

/// The numeral of an integer: that of its magnitude, after a minus sign when
/// it is negative.
pub open spec fn signed_decimal(i: int) -> Seq<char> {
    if i < 0 {
        seq!['-'] + decimal((-i) as nat)
    } else {
        decimal(i as nat)
    }
}

/// The numeral of `n`, with a zero in front when it has one digit only.
pub open spec fn two_digits(n: nat) -> Seq<char> {
    if n < 10 {
        seq!['0'] + decimal(n)
    } else {
        decimal(n)
    }
}

/// The numeral of `n`, with zeros in front until it has three digits.
pub open spec fn three_digits(n: nat) -> Seq<char> {
    if n < 10 {
        seq!['0', '0'] + decimal(n)
    } else if n < 100 {
        seq!['0'] + decimal(n)
    } else {
        decimal(n)
    }
}

/// The name under which a severity is written.
pub open spec fn severity_name(severity: Severity) -> Seq<char> {
    match severity {
        Severity::Error => "ERROR"@,
        Severity::Warn => "WARN"@,
        Severity::Info => "INFO"@,
        Severity::Debug => "DEBUG"@,
        Severity::Trace => "TRACE"@,
    }
}

/// The date and time of an entry: year, month and day with hyphens between
/// them, a space, then hour, minute and second with colons between them, a
/// full stop and the millisecond.
pub open spec fn stamp_text(stamp: Stamp) -> Seq<char> {
    signed_decimal(stamp.year as int) + seq!['-'] + two_digits(stamp.month as nat) + seq!['-']
        + two_digits(stamp.day as nat) + seq![' '] + two_digits(stamp.hour as nat) + seq![':']
        + two_digits(stamp.minute as nat) + seq![':'] + two_digits(stamp.second as nat) + seq![
        '.',
    ] + three_digits(stamp.millisecond as nat)
}

/// One entry: the severity's name in square brackets, the stamp, the
/// message, and a line break of carriage return and line feed.
pub open spec fn entry_text(severity: Severity, stamp: Stamp, message: Seq<char>) -> Seq<char> {
    seq!['['] + severity_name(severity) + seq![']', ' '] + stamp_text(stamp) + seq![' ']
        + message + seq!['\r', '\n']
}

/// Appends the numeral of `i`.
fn push_signed(out: &mut String, i: i32)
    ensures
        final(out)@ == old(out)@ + signed_decimal(i as int),
{
    proof {
        reveal_strlit("-");
    }
    if i < 0 {
        out.append("-");
        push_decimal(out, (-(i as i64)) as u64);
        assert(final(out)@ =~= old(out)@ + signed_decimal(i as int));
    } else {
        push_decimal(out, i as u64);
    }
}

/// Appends `n` in at least two digits.
fn push_two_digits(out: &mut String, n: u8)
    ensures
        final(out)@ == old(out)@ + two_digits(n as nat),
{
    proof {
        reveal_strlit("0");
    }
    if n < 10 {
        out.append("0");
    }
    push_decimal(out, n as u64);
    assert(final(out)@ =~= old(out)@ + two_digits(n as nat));
}

/// Appends `n` in at least three digits.
fn push_three_digits(out: &mut String, n: u16)
    ensures
        final(out)@ == old(out)@ + three_digits(n as nat),
{
    proof {
        reveal_strlit("0");
        reveal_strlit("00");
    }
    if n < 10 {
        out.append("00");
    } else if n < 100 {
        out.append("0");
    }
    push_decimal(out, n as u64);
    assert(final(out)@ =~= old(out)@ + three_digits(n as nat));
}

/// Appends the date and time of an entry.
fn push_stamp(out: &mut String, stamp: Stamp)
    ensures
        final(out)@ == old(out)@ + stamp_text(stamp),
{
    proof {
        reveal_strlit("-");
        reveal_strlit(" ");
        reveal_strlit(":");
        reveal_strlit(".");
    }
    push_signed(out, stamp.year);
    out.append("-");
    push_two_digits(out, stamp.month);
    out.append("-");
    push_two_digits(out, stamp.day);
    out.append(" ");
    push_two_digits(out, stamp.hour);
    out.append(":");
    push_two_digits(out, stamp.minute);
    out.append(":");
    push_two_digits(out, stamp.second);
    out.append(".");
    push_three_digits(out, stamp.millisecond);
    assert(final(out)@ =~= old(out)@ + stamp_text(stamp));
}

/// The name under which a severity is written.
pub fn name_of(severity: Severity) -> (name: &'static str)
    ensures
        name@ == severity_name(severity),
{
    match severity {
        Severity::Error => "ERROR",
        Severity::Warn => "WARN",
        Severity::Info => "INFO",
        Severity::Debug => "DEBUG",
        Severity::Trace => "TRACE",
    }
}

/// The text of the log after the entry for `message` has been added to
/// `shown`, the text so far.
pub fn append_entry(shown: &str, severity: Severity, stamp: Stamp, message: &str) -> (text: String)
    ensures
        text@ == shown@ + entry_text(severity, stamp, message@),
{
    proof {
        reveal_strlit("[");
        reveal_strlit("] ");
        reveal_strlit(" ");
        reveal_strlit("\r\n");
    }
    let mut text = String::from_str(shown);
    text.append("[");
    text.append(name_of(severity));
    text.append("] ");
    push_stamp(&mut text, stamp);
    text.append(" ");
    text.append(message);
    text.append("\r\n");
    assert(text@ =~= shown@ + entry_text(severity, stamp, message@));
    text
}

/// The year that `OffsetDateTime::year` gives for a moment.
pub uninterp spec fn year_in(moment: OffsetDateTime) -> i32;

/// The number, from 1 for January, of the month that `OffsetDateTime::month`
/// gives for a moment.
pub uninterp spec fn month_in(moment: OffsetDateTime) -> u8;

/// The day of the month that `OffsetDateTime::day` gives for a moment.
pub uninterp spec fn day_in(moment: OffsetDateTime) -> u8;

/// Hour, minute, second and nanosecond that `OffsetDateTime::to_hms_nano`
/// gives for a moment.
pub uninterp spec fn clock_in(moment: OffsetDateTime) -> (u8, u8, u8, u32);

/// The calendar fields of a moment in its own offset, the nanoseconds cut
/// down to whole milliseconds.
pub open spec fn stamp_in(moment: OffsetDateTime) -> Stamp {
    Stamp {
        year: year_in(moment),
        month: month_in(moment),
        day: day_in(moment),
        hour: clock_in(moment).0,
        minute: clock_in(moment).1,
        second: clock_in(moment).2,
        millisecond: (clock_in(moment).3 / 1_000_000) as u16,
    }
}

/// `OffsetDateTime::year`: the year of the date in the moment's own offset.
/// The result is a function of the moment alone, and no more is claimed.
#[verifier::external_body]
fn year_of(moment: &OffsetDateTime) -> (year: i32)
    ensures
        year == year_in(*moment),
{
    moment.year()
}

/// `OffsetDateTime::month`: the month of the date in the moment's own
/// offset, as its number. The result is a function of the moment alone, and
/// the months are numbered from 1 for January to 12 for December.
#[verifier::external_body]
fn month_of(moment: &OffsetDateTime) -> (month: u8)
    ensures
        month == month_in(*moment),
        1 <= month <= 12,
{
    moment.month() as u8
}

/// `OffsetDateTime::day`: the day of the month in the moment's own offset.
/// The result is a function of the moment alone and always from 1 to 31.
#[verifier::external_body]
fn day_of(moment: &OffsetDateTime) -> (day: u8)
    ensures
        day == day_in(*moment),
        1 <= day <= 31,
{
    moment.day()
}

/// `OffsetDateTime::to_hms_nano`: hour, minute, second and nanosecond of the
/// time of day in the moment's own offset. The result is a function of the
/// moment alone; the hour is below 24, minute and second are below 60, and
/// the nanosecond is below a thousand million.
#[verifier::external_body]
fn clock_of(moment: &OffsetDateTime) -> (clock: (u8, u8, u8, u32))
    ensures
        clock == clock_in(*moment),
        clock.0 < 24,
        clock.1 < 60,
        clock.2 < 60,
        clock.3 < 1_000_000_000,
{
    moment.to_hms_nano()
}

/// The calendar fields of a moment, the nanoseconds cut down to milliseconds.
pub fn stamp_of(moment: &OffsetDateTime) -> (stamp: Stamp)
    ensures
        stamp == stamp_in(*moment),
        stamp.well_formed(),
{
    let (hour, minute, second, nanosecond) = clock_of(moment);
    Stamp {
        year: year_of(moment),
        month: month_of(moment),
        day: day_of(moment),
        hour,
        minute,
        second,
        millisecond: (nanosecond / 1_000_000) as u16,
    }
}

/// The text of the log after an entry for `message`, logged at `moment`,
/// has been added to `shown`.
pub fn append_entry_at(
    shown: &str,
    severity: Severity,
    moment: &OffsetDateTime,
    message: &str,
) -> (text: String)
    ensures
        text@ == shown@ + entry_text(severity, stamp_in(*moment), message@),
{
    append_entry(shown, severity, stamp_of(moment), message)
}

} // verus!
