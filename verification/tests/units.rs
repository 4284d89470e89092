use diagnostics::units::{byte_unit, format_bytes, ByteUnit};

/// The same text computed with `f64` arithmetic and `{:.2}`.
fn with_floats(bytes: u64) -> String {
    const KB: u64 = 1024;
    const MB: u64 = KB * 1024;
    const GB: u64 = MB * 1024;
    const TB: u64 = GB * 1024;
    if bytes >= TB {
        format!("{:.2} TB", bytes as f64 / TB as f64)
    } else if bytes >= GB {
        format!("{:.2} GB", bytes as f64 / GB as f64)
    } else if bytes >= MB {
        format!("{:.2} MB", bytes as f64 / MB as f64)
    } else if bytes >= KB {
        format!("{:.2} KB", bytes as f64 / KB as f64)
    } else {
        format!("{} B", bytes)
    }
}

#[test]
fn format_bytes_small_counts() {
    assert_eq!(format_bytes(0), "0 B");
    assert_eq!(format_bytes(7), "7 B");
    assert_eq!(format_bytes(1023), "1023 B");
}

#[test]
fn format_bytes_units() {
    assert_eq!(format_bytes(1024), "1.00 KB");
    assert_eq!(format_bytes(1536), "1.50 KB");
    assert_eq!(format_bytes(1048576), "1.00 MB");
    assert_eq!(format_bytes(3 * 1073741824), "3.00 GB");
    assert_eq!(format_bytes(1099511627776), "1.00 TB");
    assert_eq!(format_bytes(1048575), "1024.00 KB");
    assert_eq!(format_bytes(u64::MAX), "16777216.00 TB");
}

#[test]
fn format_bytes_ties() {
    assert_eq!(format_bytes(1152), "1.12 KB");
    // 1152 bytes is exactly 1.125 KB.
    assert_eq!(format_bytes(1152), with_floats(1152));
    assert_eq!(format_bytes(1152 + 256), with_floats(1152 + 256));
}

#[test]
fn format_bytes_agrees_with_floats() {
    let mut b: u64 = 0;
    while b < 300_000 {
        assert_eq!(format_bytes(b), with_floats(b), "bytes = {}", b);
        b += 1;
    }
    let mut x: u64 = 1;
    let mut k = 0;
    while k < 200_000 {
        x = x.wrapping_mul(6364136223846793005).wrapping_add(1442695040888963407);
        for shift in [0u32, 8, 16, 24, 30, 34, 40, 45, 50, 53, 54, 58, 62] {
            let v = x >> shift;
            assert_eq!(format_bytes(v), with_floats(v), "bytes = {}", v);
        }
        k += 1;
    }
    for v in [u64::MAX, u64::MAX - 1, (1u64 << 53) + 1, (1u64 << 54) + 2, (1u64 << 54) + 6, (1u64 << 63) + 1024] {
        assert_eq!(format_bytes(v), with_floats(v), "bytes = {}", v);
    }
}

#[test]
fn byte_unit_thresholds() {
    assert_eq!(byte_unit(1023), ByteUnit::B);
    assert_eq!(byte_unit(1024), ByteUnit::KB);
    assert_eq!(byte_unit(1048576), ByteUnit::MB);
    assert_eq!(byte_unit(1073741823), ByteUnit::MB);
    assert_eq!(byte_unit(1073741824), ByteUnit::GB);
    assert_eq!(byte_unit(1099511627776), ByteUnit::TB);
}

/// The amount a text reads, in hundredths of a byte.
fn amount(text: &str) -> u128 {
    let (number, unit) = text.split_once(' ').unwrap();
    let scale: u128 = match unit {
        "B" => return number.parse::<u128>().unwrap() * 100,
        "KB" => 1 << 10,
        "MB" => 1 << 20,
        "GB" => 1 << 30,
        _ => 1 << 40,
    };
    let (whole, frac) = number.split_once('.').unwrap();
    (whole.parse::<u128>().unwrap() * 100 + frac.parse::<u128>().unwrap()) * scale
}

#[test]
fn larger_counts_never_read_smaller() {
    let mut last = 0;
    for b in [0u64, 1023, 1024, 1025, 1048575, 1048576, 1073741823, 1073741824, 1099511627775,
        1099511627776, 1 << 53, (1 << 53) + 1, u64::MAX - 1, u64::MAX] {
        let a = amount(&format_bytes(b));
        assert!(a >= last, "bytes = {}", b);
        last = a;
    }
}

#[test]
fn amounts_are_accurate() {
    for b in [1500u64, 1048575, 123456789, 1099511627777, u64::MAX] {
        let shown = amount(&format_bytes(b)) as i128;
        let exact = 100 * b as i128;
        assert!((shown - exact).abs() * 2 <= (1i128 << 40) + 100 * 2048, "bytes = {}", b);
    }
    assert_eq!(amount(&format_bytes(1048575)), 102400 * 1024);
}
