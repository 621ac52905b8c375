use miniraw::decimal::decimal_string;
use miniraw::destination::Destination;

#[test]
fn first_name_has_no_suffix() {
    let d = Destination::first(1700000000);
    assert_eq!(d.suffix, 0);
    assert_eq!(d.file_name(), "1700000000.spl");
}

#[test]
fn later_names_carry_the_suffix() {
    let d = Destination { timestamp: 1700000000, suffix: 12 };
    assert_eq!(d.file_name(), "1700000000-12.spl");
}

#[test]
fn suffix_one_follows_the_first_name() {
    let d = Destination::first(42).next().unwrap();
    assert_eq!(d, Destination { timestamp: 42, suffix: 1 });
    assert_eq!(d.file_name(), "42-1.spl");
}

#[test]
fn second_zero_is_written_as_zero() {
    assert_eq!(Destination::first(0).file_name(), "0.spl");
    assert_eq!(Destination { timestamp: 0, suffix: 10 }.file_name(), "0-10.spl");
}

#[test]
fn largest_values_are_written_in_full() {
    let d = Destination { timestamp: u64::MAX, suffix: u64::MAX };
    assert_eq!(d.file_name(), "18446744073709551615-18446744073709551615.spl");
}

#[test]
fn suffixes_run_out_at_the_largest() {
    let last = Destination { timestamp: 5, suffix: u64::MAX };
    assert_eq!(last.next(), None);
    let before = Destination { timestamp: 5, suffix: u64::MAX - 1 };
    assert_eq!(before.next(), Some(last));
}

#[test]
fn numerals_are_shortest() {
    assert_eq!(decimal_string(0), "0");
    assert_eq!(decimal_string(7), "7");
    assert_eq!(decimal_string(10), "10");
    assert_eq!(decimal_string(9100), "9100");
    assert_eq!(decimal_string(1000000), "1000000");
    assert_eq!(decimal_string(u64::MAX), u64::MAX.to_string());
}

#[test]
fn names_of_one_second_differ() {
    let mut seen = std::collections::HashSet::new();
    let mut d = Destination::first(1700000000);
    for _ in 0..200 {
        assert!(seen.insert(d.file_name()));
        d = d.next().unwrap();
    }
    assert_eq!(seen.len(), 200);
}

#[test]
fn a_suffix_is_never_mistaken_for_a_longer_timestamp() {
    let a = Destination { timestamp: 1, suffix: 11 };
    let b = Destination { timestamp: 11, suffix: 1 };
    let c = Destination { timestamp: 111, suffix: 0 };
    assert_eq!(a.file_name(), "1-11.spl");
    assert_eq!(b.file_name(), "11-1.spl");
    assert_eq!(c.file_name(), "111.spl");
    assert_ne!(a.file_name(), b.file_name());
    assert_ne!(b.file_name(), c.file_name());
}
