use chrono::{DateTime, Utc};
use croh::text::{
    decimal_text, drop_controls, integer_text, is_control, is_shortenable, is_space, join_texts,
    parse_list, shorten, split_text, trim_text, wide_decimal_text,
};
use croh::textmap::{TextMap, TextSet};
use croh::time::{
    format_chat_time, format_chat_time_at, format_date, format_minute, format_relative_time,
    format_relative_time_at, format_time_remaining, format_timestamp, format_timestamp_or,
    local_offset, now, seconds_between, UtcTime, FIRST_SECOND, LAST_SECOND,
};

fn at(secs: i64) -> UtcTime {
    UtcTime::new(secs, 0).unwrap()
}

#[test]
fn numbers_are_written_in_decimal() {
    assert_eq!(decimal_text(0), "0");
    assert_eq!(decimal_text(10), "10");
    assert_eq!(decimal_text(u64::MAX), u64::MAX.to_string());
    assert_eq!(wide_decimal_text(u128::MAX), u128::MAX.to_string());
    assert_eq!(integer_text(-7), "-7");
    assert_eq!(integer_text(i64::MIN), i64::MIN.to_string());
}

#[test]
fn character_classes_match_std() {
    for u in 0..=0x10ffffu32 {
        if let Some(c) = char::from_u32(u) {
            assert_eq!(is_space(c), c.is_whitespace(), "{:x}", u);
            assert_eq!(is_control(c), c.is_control(), "{:x}", u);
        }
    }
}

#[test]
fn trimming_matches_std() {
    for s in ["", " ", "a", "  a b\t", "\u{3000}x\u{85}", "\u{200b}y", "no"] {
        assert_eq!(trim_text(s), s.trim());
        assert_eq!(trim_text(trim_text(s).as_str()), s.trim());
    }
    assert_eq!(drop_controls("a\u{0}b\nc\u{7f}d e\u{85}"), "abcd e");
}

#[test]
fn splitting_matches_std() {
    for s in ["", ",", "a", "a,b", ",a,,b,", "é,ü"] {
        let want: Vec<String> = s.split(',').map(|p| p.to_string()).collect();
        assert_eq!(split_text(s, ','), want);
    }
    let v = vec!["x".to_string(), "y".to_string(), "z".to_string()];
    assert_eq!(join_texts(&v, ", "), "x, y, z");
    assert_eq!(join_texts(&Vec::new(), ", "), "");
}

#[test]
fn lists_survive_being_shown() {
    let first = parse_list(" *.tmp, ,node_modules ,, .git");
    assert_eq!(first, vec!["*.tmp", "node_modules", ".git"]);
    let shown = join_texts(&first, ", ");
    assert_eq!(shown, "*.tmp, node_modules, .git");
    assert_eq!(parse_list(shown.as_str()), first);
    assert!(parse_list(" , ").is_empty());
}

#[test]
fn long_identifiers_are_shortened() {
    assert_eq!(shorten("0123456789abcdef", 16, 8), "0123456789abcdef");
    assert_eq!(shorten("0123456789abcdefX", 16, 8), "01234567...9abcdefX");
    assert!(!is_shortenable("1234567é01234567890", 16, 8));
    assert!(is_shortenable("12345é7801234567890", 16, 8));
}

#[test]
fn maps_and_sets_hold_what_was_put_in() {
    let mut m: TextMap<u32> = TextMap::new();
    m.insert("a", 1);
    m.insert("b", 2);
    m.insert("a", 3);
    assert_eq!(m.get("a"), Some(&3));
    assert_eq!(m.get("b"), Some(&2));
    assert_eq!(m.get("c"), None);
    m.remove("a");
    m.remove("a");
    assert_eq!(m.get("a"), None);
    assert!(!m.contains("a") && m.contains("b"));
    let mut s = TextSet::new();
    s.insert("x");
    s.insert("x");
    assert!(s.contains("x"));
    s.remove("x");
    assert!(!s.contains("x"));
}

#[test]
fn calendar_ends_match_chrono() {
    assert_eq!(DateTime::<Utc>::MIN_UTC.timestamp(), FIRST_SECOND);
    assert_eq!(DateTime::<Utc>::MAX_UTC.timestamp(), LAST_SECOND);
    for secs in [FIRST_SECOND, LAST_SECOND, 0, -1, 59, 1_700_000_000] {
        for nanos in [0, 999_999_999, 1_000_000_000, 1_999_999_999, 2_000_000_000] {
            let want = DateTime::from_timestamp(secs, nanos).is_some();
            assert_eq!(UtcTime::new(secs, nanos).is_some(), want, "{} {}", secs, nanos);
        }
    }
    assert!(UtcTime::new(FIRST_SECOND - 1, 0).is_none());
    assert!(UtcTime::new(LAST_SECOND + 1, 0).is_none());
    let t = UtcTime::new(59, 1_500_000_000).unwrap();
    assert_eq!((t.secs(), t.nanos()), (59, 1_500_000_000));
}

#[test]
fn dates_are_written_by_chrono() {
    let t = at(1_700_000_000);
    assert_eq!(format_minute(&t), "2023-11-14 22:13");
    assert_eq!(format_date(&t), "2023-11-14");
    assert_eq!(format_timestamp(Some(0)), "1970-01-01 00:00");
    assert_eq!(format_timestamp(None), "-");
    assert_eq!(format_timestamp_or(Some(i64::MAX), &t), "2023-11-14 22:13");
    assert!(format_timestamp(Some(i64::MAX)).starts_with("2"));
    assert_eq!(format_minute(&at(LAST_SECOND)), "+262142-12-31 23:59");
    assert_eq!(format_minute(&at(FIRST_SECOND)), "-262143-01-01 00:00");
}

/// The days from the first of January of 1970 to a date, one month and one year at a time.
fn days_to(year: i64, month: i64, day: i64) -> i64 {
    let leap = |y: i64| y % 4 == 0 && (y % 100 != 0 || y % 400 == 0);
    let length = |y: i64, m: i64| match m {
        2 => if leap(y) { 29 } else { 28 },
        4 | 6 | 9 | 11 => 30,
        _ => 31,
    };
    let mut days = day - 1;
    for m in 1..month {
        days += length(year, m);
    }
    for y in 1970..year {
        days += if leap(y) { 366 } else { 365 };
    }
    for y in year..1970 {
        days -= if leap(y) { 366 } else { 365 };
    }
    days
}

#[test]
fn each_day_has_its_date() {
    for (year, month, day, full, short) in [
        (1970, 1, 1, "1970-01-01", "Jan 01"),
        (1969, 12, 31, "1969-12-31", "Dec 31"),
        (2000, 2, 29, "2000-02-29", "Feb 29"),
        (1900, 2, 28, "1900-02-28", "Feb 28"),
        (1900, 3, 1, "1900-03-01", "Mar 01"),
        (2024, 4, 30, "2024-04-30", "Apr 30"),
        (999, 5, 9, "0999-05-09", "May 09"),
        (1, 6, 10, "0001-06-10", "Jun 10"),
        (0, 7, 11, "0000-07-11", "Jul 11"),
        (-1, 8, 12, "-0001-08-12", "Aug 12"),
        (-12345, 9, 13, "-12345-09-13", "Sep 13"),
        (9999, 10, 14, "9999-10-14", "Oct 14"),
        (10000, 11, 15, "+10000-11-15", "Nov 15"),
    ] {
        let t = at(86_400 * days_to(year, month, day) + 3_600);
        assert_eq!(format_date(&t), full);
        assert_eq!(format_minute(&t), format!("{} 01:00", full));
        let far = at(t.secs() + 9 * 86_400);
        assert_eq!(format_chat_time_at(&t, 0, &far, 0), format!("{},  1:00 AM", short));
    }
    let shown = format_chat_time_at(&at(LAST_SECOND), 3_600, &at(0), 0);
    assert_eq!(shown, "Jan 01, 12:59 AM");
    let shown = format_chat_time_at(&at(FIRST_SECOND), -3_600, &at(0), 0);
    assert_eq!(shown, "Dec 31, 11:00 PM");
}

#[test]
fn differences_match_chrono() {
    let points = [
        (0i64, 0u32),
        (59, 1_500_000_000),
        (59, 0),
        (60, 0),
        (86_399, 1_999_999_999),
        (86_400, 0),
        (86_459, 1_200_000_000),
        (-1, 999_999_999),
        (-61, 1_000_000_000),
        (FIRST_SECOND, 0),
        (LAST_SECOND, 5),
    ];
    for (a, an) in points {
        for (b, bn) in points {
            let x = DateTime::from_timestamp(a, an).unwrap();
            let y = DateTime::from_timestamp(b, bn).unwrap();
            let want = x.signed_duration_since(y).num_seconds();
            let got = seconds_between(&UtcTime::new(a, an).unwrap(), &UtcTime::new(b, bn).unwrap());
            assert_eq!(got, want, "{} {} {} {}", a, an, b, bn);
        }
    }
}

#[test]
fn differences_are_as_stated() {
    let leap = UtcTime::new(59, 1_500_000_000).unwrap();
    assert_eq!(seconds_between(&at(61), &leap), 1);
    assert_eq!(seconds_between(&leap, &at(61)), -1);
    assert_eq!(seconds_between(&UtcTime::new(1, 500_000_000).unwrap(), &at(0)), 1);
    assert_eq!(seconds_between(&at(0), &UtcTime::new(1, 500_000_000).unwrap()), -1);
}

#[test]
fn ages_read_as_documented() {
    let n = at(10_000_000);
    for (secs, want) in [
        (-5, "Just now"),
        (0, "Just now"),
        (9, "Just now"),
        (10, "10 sec ago"),
        (59, "59 sec ago"),
        (60, "1 min ago"),
        (119, "1 min ago"),
        (120, "2 min ago"),
        (3_599, "59 min ago"),
        (3_600, "1 hour ago"),
        (7_200, "2 hours ago"),
        (86_399, "23 hours ago"),
        (86_400, "1 day ago"),
        (172_800, "2 days ago"),
    ] {
        assert_eq!(format_relative_time_at(&at(10_000_000 - secs), &n), want);
    }
    assert_eq!(format_relative_time(&now()), "Just now");
    assert!(format_relative_time(&at(-100)).ends_with(" days ago"));
}

#[test]
fn remaining_times_read_as_documented() {
    for (secs, want) in [
        (Some(-1), "Expired"),
        (Some(0), "Expired"),
        (Some(59), "59s"),
        (Some(60), "1m"),
        (Some(3_599), "59m"),
        (Some(3_600), "1h 0m"),
        (Some(86_399), "23h 59m"),
        (Some(86_400), "1d 0h"),
        (Some(200_000), "2d 7h"),
        (None, ""),
    ] {
        assert_eq!(format_time_remaining(secs), want);
    }
}

#[test]
fn chat_times_follow_the_day() {
    let noon = at(1_700_000_000);
    assert_eq!(format_chat_time_at(&noon, 0, &noon, 0), "10:13 PM");
    assert_eq!(format_chat_time_at(&noon, 0, &at(1_700_000_000 + 86_400), 0), "Yesterday 10:13 PM");
    assert_eq!(format_chat_time_at(&noon, 0, &at(1_700_000_000 + 7_200), 0), "Yesterday 10:13 PM");
    assert_eq!(format_chat_time_at(&noon, 3_600 * 3, &at(1_700_000_000 + 7_200), 3_600 * 3), "1:13 AM");
    assert_eq!(format_chat_time_at(&noon, 0, &at(1_700_000_000 + 2 * 86_400), 0), "Nov 14, 10:13 PM");
    assert_eq!(format_chat_time_at(&noon, 3_600 * 3, &at(0), 0), "Nov 15,  1:13 AM");
    assert_eq!(format_chat_time_at(&at(-1), 0, &at(1), 0), "Yesterday 11:59 PM");
    assert_eq!(format_chat_time_at(&at(0), 0, &at(1), 0), "12:00 AM");
    assert_eq!(format_chat_time_at(&at(43_199), 0, &at(1), 0), "11:59 AM");
    assert_eq!(format_chat_time_at(&at(43_200), 0, &at(1), 0), "12:00 PM");
    assert_eq!(format_chat_time_at(&at(46_800), 0, &at(1), 0), "1:00 PM");
    let leap = UtcTime::new(59, 1_500_000_000).unwrap();
    assert_eq!(format_minute(&leap), "1970-01-01 00:00");
    assert_eq!(format_chat_time_at(&leap, -60, &at(1), 0), "Yesterday 11:59 PM");
}

#[test]
fn chat_times_use_the_machine_zone() {
    let t = now();
    let local = chrono::Local::now();
    let offset = local.offset().local_minus_utc();
    assert_eq!(local_offset(&t), offset);
    let shown = format_chat_time(&t);
    assert!(shown.ends_with("AM") || shown.ends_with("PM"));
    assert!(!shown.starts_with(' '));
    assert!(t.secs() > 1_600_000_000);
}
