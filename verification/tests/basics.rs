use carrot_cake::text::{
    is_blank, join, parse_u64, parse_upto, parse_usize, replace_all, same, same_opt, u64_text,
};
use carrot_cake::time::{UtcTime, ZonedTime};
use carrot_cake::util::SyncEvent;

#[test]
fn numbers_read_back() {
    for n in [0, 1, 9, 10, 99, 100, 4_294_967_296, u64::MAX] {
        assert_eq!(u64_text(n), n.to_string());
        assert_eq!(parse_u64(&u64_text(n)), Some(n));
    }
}

#[test]
fn numbers_are_read_as_std_reads_them() {
    for s in [
        "", "+", "-", "+0", "-0", "-1", "007", "1 ", " 1", "1_000", "0x10", "٣",
        "18446744073709551615", "18446744073709551616", "99999999999999999999999", "++1", "+1",
    ] {
        assert_eq!(parse_u64(s), s.parse::<u64>().ok(), "{s}");
        assert_eq!(parse_usize(s), s.parse::<usize>().ok(), "{s}");
    }
    assert_eq!(parse_upto("100", 99), None);
    assert_eq!(parse_upto("99", 99), Some(99));
}

#[test]
fn replacing_is_what_std_does() {
    for (s, pat, with) in [
        ("{width}x{height}", "{width}", "1080"),
        ("aaaa", "aa", "b"),
        ("aaa", "aa", "aa"),
        ("", "a", "b"),
        ("éé", "é", ""),
        ("ab", "abc", "x"),
    ] {
        assert_eq!(replace_all(s, pat, with), s.replace(pat, with));
    }
}

#[test]
fn blank_is_what_std_trims() {
    for c in (0..=0x3100u32).filter_map(char::from_u32) {
        assert_eq!(is_blank(&c.to_string()), c.is_whitespace(), "{:x}", c as u32);
    }
    assert!(is_blank(""));
    assert!(!is_blank(" x "));
}

#[test]
fn strings_are_compared_and_joined() {
    assert!(same("é", "é") && !same("a", "b") && !same("a", ""));
    assert_eq!(join("a", "é"), "aé");
    let a = Some("a".to_string());
    assert!(same_opt(&a, &a) && same_opt(&None, &None) && !same_opt(&a, &None));
}

#[test]
fn moments_are_written_and_read() {
    let t = ZonedTime::new(1_700_000_000, 5_000_000, 3600).unwrap();
    assert_eq!(t.to_rfc3339(), "2023-11-14T23:13:20.005+01:00");
    assert_eq!(t.to_rfc2822(), "Tue, 14 Nov 2023 23:13:20 +0100");
    let back = ZonedTime::parse_from_rfc3339(&t.to_rfc3339()).unwrap();
    assert_eq!((back.secs(), back.nanos(), back.offset()), (1_700_000_000, 5_000_000, 3600));
    assert_eq!(back.to_utc().secs(), 1_700_000_000);
    assert!(ZonedTime::parse_from_rfc3339("2023-11-14").is_none());
    assert!(ZonedTime::parse_from_rfc3339("").is_none());
}

#[test]
fn a_clock_off_the_minute_does_not_read_back() {
    let t = ZonedTime::new(1_700_000_000, 0, 30).unwrap();
    let back = ZonedTime::parse_from_rfc3339(&t.to_rfc3339()).unwrap();
    assert_ne!((back.secs(), back.offset()), (t.secs(), t.offset()));
}

#[test]
fn extreme_moments_read_back() {
    for (secs, nanos, offset) in [
        (-62_167_219_200, 0, 0),
        (253_402_300_799, 999_999_999, 0),
        (-62_167_219_200 + 86_340, 1, -86_340),
        (59, 1_999_999_999, 0),
        (-1, 1_000_000_000, 0),
    ] {
        let t = ZonedTime::new(secs, nanos, offset).unwrap();
        let back = ZonedTime::parse_from_rfc3339(&t.to_rfc3339()).unwrap();
        assert_eq!((back.secs(), back.nanos(), back.offset()), (secs, nanos, offset));
        t.to_rfc2822();
    }
}

#[test]
fn impossible_moments_are_refused() {
    assert!(ZonedTime::new(253_402_300_800, 0, 0).is_none());
    assert!(ZonedTime::new(253_402_300_799, 0, 1).is_none());
    assert!(ZonedTime::new(-62_167_219_201, 0, 0).is_none());
    assert!(ZonedTime::new(0, 0, 86_400).is_none());
    assert!(ZonedTime::new(0, 1_000_000_000, 0).is_none());
    assert!(UtcTime::new(0, 1_000_000_000).is_none());
    assert!(UtcTime::new(59, 1_000_000_000).is_some());
    assert!(UtcTime::new(59, 2_000_000_000).is_none());
    assert!(UtcTime::new(-8_334_601_228_800, 0).is_some());
    assert!(UtcTime::new(-8_334_601_228_801, 0).is_none());
    assert!(UtcTime::new(8_210_266_876_799, 999_999_999).is_some());
    assert!(UtcTime::new(8_210_266_876_800, 0).is_none());
}

#[test]
fn time_passes() {
    let a = UtcTime::new(100, 7).unwrap();
    let b = UtcTime::new(160, 5).unwrap();
    assert_eq!(b.nanos_since(&a), 59_999_999_998);
    assert_eq!(a.nanos_since(&b), -59_999_999_998);
    assert_eq!(a.nanos_since(&a), 0);
    assert!(b.is_after(&a) && !a.is_after(&b) && !a.is_after(&a));
    let first = UtcTime::new(-8_334_601_228_800, 0).unwrap();
    let last = UtcTime::new(8_210_266_876_799, 999_999_999).unwrap();
    assert_eq!(last.nanos_since(&first), 16_544_868_105_599_999_999_999);
}

#[test]
fn a_leap_second_counts() {
    let leap = UtcTime::new(59, 1_500_000_000).unwrap();
    let next = UtcTime::new(60, 0).unwrap();
    let before = UtcTime::new(59, 500_000_000).unwrap();
    assert_eq!(leap.nanos_since(&before), 1_000_000_000);
    assert_eq!(next.nanos_since(&leap), 500_000_000);
    assert_eq!(leap.nanos_since(&next), -500_000_000);
}

#[test]
fn a_flag_is_set_once() {
    let mut event = SyncEvent::new();
    assert!(!event.is_set());
    assert!(event.signal());
    assert!(event.is_set());
    assert!(!event.signal());
    assert!(event.is_set());
}
