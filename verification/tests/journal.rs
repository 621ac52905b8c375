use miniraw::journal::{append_entry, append_entry_at, name_of, stamp_of, Severity, Stamp};
use time::{OffsetDateTime, UtcOffset};

fn stamp() -> Stamp {
    Stamp { year: 2024, month: 3, day: 9, hour: 7, minute: 5, second: 1, millisecond: 42 }
}

fn moment(nanoseconds: i128) -> OffsetDateTime {
    OffsetDateTime::from_unix_timestamp_nanos(nanoseconds).unwrap()
}

#[test]
fn entry_is_appended_to_what_is_shown() {
    let text = append_entry("before\r\n", Severity::Info, stamp(), "Started listener on port 9100");
    assert_eq!(
        text,
        "before\r\n[INFO] 2024-03-09 07:05:01.042 Started listener on port 9100\r\n"
    );
}

#[test]
fn first_entry_stands_alone() {
    let text = append_entry("", Severity::Warn, stamp(), "Ignored empty file");
    assert_eq!(text, "[WARN] 2024-03-09 07:05:01.042 Ignored empty file\r\n");
}

#[test]
fn fields_are_padded_to_their_width() {
    let s = Stamp { year: 1999, month: 12, day: 31, hour: 23, minute: 59, second: 59, millisecond: 999 };
    assert_eq!(append_entry("", Severity::Error, s, "x"), "[ERROR] 1999-12-31 23:59:59.999 x\r\n");
    let s = Stamp { year: 5, month: 1, day: 1, hour: 0, minute: 0, second: 0, millisecond: 0 };
    assert_eq!(append_entry("", Severity::Info, s, ""), "[INFO] 5-01-01 00:00:00.000 \r\n");
    let s = Stamp { year: -44, month: 3, day: 15, hour: 12, minute: 0, second: 9, millisecond: 70 };
    assert_eq!(append_entry("", Severity::Info, s, "m"), "[INFO] -44-03-15 12:00:09.070 m\r\n");
}

#[test]
fn extreme_years_are_written_in_full() {
    let s = Stamp { year: i32::MIN, month: 1, day: 1, hour: 0, minute: 0, second: 0, millisecond: 0 };
    assert_eq!(append_entry("", Severity::Info, s, "m"), "[INFO] -2147483648-01-01 00:00:00.000 m\r\n");
    let s = Stamp { year: i32::MAX, month: 1, day: 1, hour: 0, minute: 0, second: 0, millisecond: 0 };
    assert_eq!(append_entry("", Severity::Info, s, "m"), "[INFO] 2147483647-01-01 00:00:00.000 m\r\n");
}

#[test]
fn severities_have_their_names() {
    assert_eq!(name_of(Severity::Error), "ERROR");
    assert_eq!(name_of(Severity::Warn), "WARN");
    assert_eq!(name_of(Severity::Info), "INFO");
    assert_eq!(name_of(Severity::Debug), "DEBUG");
    assert_eq!(name_of(Severity::Trace), "TRACE");
}

#[test]
fn every_severity_is_written_in_its_entry() {
    assert_eq!(append_entry("", Severity::Debug, stamp(), "d"), "[DEBUG] 2024-03-09 07:05:01.042 d\r\n");
    assert_eq!(append_entry("", Severity::Trace, stamp(), "t"), "[TRACE] 2024-03-09 07:05:01.042 t\r\n");
}

#[test]
fn stamp_holds_the_fields_of_the_moment() {
    assert_eq!(
        stamp_of(&moment(1_700_000_000_123_456_789)),
        Stamp { year: 2023, month: 11, day: 14, hour: 22, minute: 13, second: 20, millisecond: 123 }
    );
}

#[test]
fn stamp_of_the_epoch() {
    assert_eq!(
        stamp_of(&OffsetDateTime::UNIX_EPOCH),
        Stamp { year: 1970, month: 1, day: 1, hour: 0, minute: 0, second: 0, millisecond: 0 }
    );
}

#[test]
fn stamp_of_the_last_moment_of_a_year() {
    assert_eq!(
        stamp_of(&moment(946_684_799_999_999_999)),
        Stamp { year: 1999, month: 12, day: 31, hour: 23, minute: 59, second: 59, millisecond: 999 }
    );
}

#[test]
fn stamp_is_taken_in_the_offset_of_the_moment() {
    let east = UtcOffset::from_hms(5, 30, 0).unwrap();
    let shifted = moment(946_684_799_999_999_999).to_offset(east);
    assert_eq!(
        stamp_of(&shifted),
        Stamp { year: 2000, month: 1, day: 1, hour: 5, minute: 29, second: 59, millisecond: 999 }
    );
}

#[test]
fn stamp_of_a_leap_day() {
    assert_eq!(
        stamp_of(&moment(1_709_210_096_007_000_000)),
        Stamp { year: 2024, month: 2, day: 29, hour: 12, minute: 34, second: 56, millisecond: 7 }
    );
}

#[test]
fn entry_is_stamped_with_the_moment_given() {
    let text = append_entry_at(
        "shown\r\n",
        Severity::Info,
        &moment(1_700_000_000_123_456_789),
        "Discarded 1000 bytes",
    );
    assert_eq!(text, "shown\r\n[INFO] 2023-11-14 22:13:20.123 Discarded 1000 bytes\r\n");
}

#[test]
fn entry_at_the_epoch() {
    let text = append_entry_at("", Severity::Error, &OffsetDateTime::UNIX_EPOCH, "reset");
    assert_eq!(text, "[ERROR] 1970-01-01 00:00:00.000 reset\r\n");
}
