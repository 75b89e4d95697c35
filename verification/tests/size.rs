use croh::size::{format_size, storage_percent};

fn expected(bytes: u64) -> String {
    if bytes == 0 {
        "-".to_string()
    } else if bytes >= 1_000_000_000 {
        format!("{:.1} GB", bytes as f64 / 1_000_000_000.0)
    } else if bytes >= 1_000_000 {
        format!("{:.1} MB", bytes as f64 / 1_000_000.0)
    } else if bytes >= 1_000 {
        format!("{:.1} KB", bytes as f64 / 1_000.0)
    } else {
        format!("{} B", bytes)
    }
}

#[test]
fn sizes_read_as_documented() {
    assert_eq!(format_size(0), "-");
    assert_eq!(format_size(1), "1 B");
    assert_eq!(format_size(999), "999 B");
    assert_eq!(format_size(1_000), "1.0 KB");
    assert_eq!(format_size(1_250), "1.2 KB");
    assert_eq!(format_size(1_350), "1.4 KB");
    assert_eq!(format_size(1_750), "1.8 KB");
    assert_eq!(format_size(999_949), "999.9 KB");
    assert_eq!(format_size(999_999), "1000.0 KB");
    assert_eq!(format_size(1_000_000), "1.0 MB");
    assert_eq!(format_size(1_500_000_000), "1.5 GB");
    assert_eq!(format_size(u64::MAX), "18446744073.7 GB");
}

#[test]
fn sizes_match_double_precision() {
    let mut n: u64 = 88172645463325252;
    for round in 0..20_000u64 {
        n ^= n << 13;
        n ^= n >> 7;
        n ^= n << 17;
        let b = n >> (round % 60);
        assert_eq!(format_size(b), expected(b), "{}", b);
        let tie = 1_000 + 50 * (round % 20_000);
        assert_eq!(format_size(tie), expected(tie), "{}", tie);
        let big_tie = tie * 1_000;
        assert_eq!(format_size(big_tie), expected(big_tie), "{}", big_tie);
    }
}

#[test]
fn free_share_matches_double_precision() {
    assert_eq!(storage_percent(1, 0), 0);
    assert_eq!(storage_percent(0, 7), 0);
    assert_eq!(storage_percent(50, 100), 50);
    assert_eq!(storage_percent(29, 100), 28);
    assert_eq!(storage_percent(u64::MAX, 1), i32::MAX);
    assert_eq!(storage_percent(1, u64::MAX), 0);
    let mut n: u64 = 88172645463325252;
    for round in 0..20_000u64 {
        n ^= n << 13;
        n ^= n >> 7;
        n ^= n << 17;
        let a = n >> (round % 61);
        let b = n.rotate_left(29) >> (round % 53);
        if b > 0 {
            let want = ((a as f64 / b as f64) * 100.0) as i32;
            assert_eq!(storage_percent(a, b), want, "{} {}", a, b);
        }
    }
    for total in 1..300u64 {
        for free in 0..=total {
            let want = ((free as f64 / total as f64) * 100.0) as i32;
            assert_eq!(storage_percent(free, total), want, "{} {}", free, total);
        }
    }
}

#[test]
fn larger_sizes_are_shown_as_larger() {
    let read = |bytes: u64| -> (usize, u64) {
        let shown = format_size(bytes);
        let (number, unit) = shown.split_once(' ').unwrap();
        let unit = ["B", "KB", "MB", "GB"].iter().position(|u| *u == unit).unwrap();
        let tenths = if unit == 0 { number.to_string() + "0" } else { number.replace('.', "") };
        (unit, tenths.parse().unwrap())
    };
    let mut last = (0, 0);
    for bytes in 1..200_000u64 {
        let next = read(bytes);
        assert!(last <= next, "{}", bytes);
        last = next;
    }
    let mut bytes: u64 = 1;
    let mut last = (0, 0);
    while bytes < u64::MAX / 9 * 8 {
        let next = read(bytes);
        assert!(last <= next, "{}", bytes);
        last = next;
        bytes += bytes / 999 + 1;
    }
    assert!(last <= read(u64::MAX));
}
