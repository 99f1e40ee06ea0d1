use header_augmenting_filter::interval::Interval;

#[test]
fn from_secs_has_no_sub_second_part() {
    assert_eq!(Interval::from_secs(360), Interval { secs: 360, nanos: 0 });
    assert!(Interval::from_secs(0).is_zero());
    assert!(!Interval::from_secs(1).is_zero());
    assert!(!Interval { secs: 0, nanos: 1 }.is_zero());
}

#[test]
fn parse_reads_humanized_durations() {
    assert_eq!(Interval::parse("360s"), Some(Interval { secs: 360, nanos: 0 }));
    assert_eq!(Interval::parse("1h 30m"), Some(Interval { secs: 5400, nanos: 0 }));
    assert_eq!(Interval::parse("1h30m"), Some(Interval { secs: 5400, nanos: 0 }));
    assert_eq!(Interval::parse("2d"), Some(Interval { secs: 172_800, nanos: 0 }));
    assert_eq!(Interval::parse("1500ms"), Some(Interval { secs: 1, nanos: 500_000_000 }));
    assert_eq!(Interval::parse("7us 3ns"), Some(Interval { secs: 0, nanos: 7_003 }));
    assert_eq!(Interval::parse(" 5s "), Some(Interval { secs: 5, nanos: 0 }));
    assert_eq!(Interval::parse("0"), Some(Interval { secs: 0, nanos: 0 }));
}

#[test]
fn parse_refuses_what_is_no_duration() {
    assert_eq!(Interval::parse(""), None);
    assert_eq!(Interval::parse("   "), None);
    assert_eq!(Interval::parse("360"), None);
    assert_eq!(Interval::parse("s"), None);
    assert_eq!(Interval::parse("3 weeks"), None);
    assert_eq!(Interval::parse("-3s"), None);
    assert_eq!(Interval::parse("99999999999999999999s"), None);
    assert_eq!(Interval::parse("18446744073709551615s"), None);
}
