use upx_tools::size::{decimal_string, format_bytes, ratio_percent};

fn float_format(bytes: u64) -> String {
    let kb = 1024u64;
    let mb = kb * 1024;
    let gb = mb * 1024;
    if bytes >= gb {
        format!("{:.2} GB", bytes as f64 / gb as f64)
    } else if bytes >= mb {
        format!("{:.2} MB", bytes as f64 / mb as f64)
    } else if bytes >= kb {
        format!("{:.2} KB", bytes as f64 / kb as f64)
    } else {
        format!("{} bytes", bytes)
    }
}

#[test]
fn ratio_of_smaller_output() {
    assert_eq!(ratio_percent(1000, 400), 40);
}

#[test]
fn ratio_of_empty_input_is_hundred() {
    assert_eq!(ratio_percent(0, 0), 100);
    assert_eq!(ratio_percent(0, 400), 100);
    assert_eq!(ratio_percent(0, u64::MAX), 100);
}

#[test]
fn ratio_rounds_to_nearest() {
    assert_eq!(ratio_percent(3, 2), 67);
    assert_eq!(ratio_percent(3, 1), 33);
    assert_eq!(ratio_percent(200, 1), 1);
    assert_eq!(ratio_percent(1000, 4), 0);
    assert_eq!(ratio_percent(1000, 1000), 100);
    assert_eq!(ratio_percent(1, u64::MAX), 1844674407370955161500);
}

#[test]
fn decimal_digits() {
    assert_eq!(decimal_string(0), "0");
    assert_eq!(decimal_string(7), "7");
    assert_eq!(decimal_string(10), "10");
    assert_eq!(decimal_string(1234567890), "1234567890");
    assert_eq!(decimal_string(u128::MAX), u128::MAX.to_string());
}

#[test]
fn bytes_below_a_kilobyte() {
    assert_eq!(format_bytes(0), "0 bytes");
    assert_eq!(format_bytes(1), "1 bytes");
    assert_eq!(format_bytes(1023), "1023 bytes");
}

#[test]
fn bytes_in_units() {
    assert_eq!(format_bytes(1024), "1.00 KB");
    assert_eq!(format_bytes(1536), "1.50 KB");
    assert_eq!(format_bytes(1048575), "1024.00 KB");
    assert_eq!(format_bytes(1048576), "1.00 MB");
    assert_eq!(format_bytes(5 * 1048576 + 524288), "5.50 MB");
    assert_eq!(format_bytes(1073741824), "1.00 GB");
    assert_eq!(format_bytes(3 * 1073741824 / 2), "1.50 GB");
}

#[test]
fn bytes_round_half_to_even() {
    // 1152 / 1024 = 1.125 and 1408 / 1024 = 1.375, both exactly
    assert_eq!(format_bytes(1152), "1.12 KB");
    assert_eq!(format_bytes(1408), "1.38 KB");
    assert_eq!(format_bytes(1152), float_format(1152));
    assert_eq!(format_bytes(1408), float_format(1408));
}

#[test]
fn bytes_agree_with_floating_point() {
    let mut samples: Vec<u64> = vec![
        0,
        1,
        1023,
        1024,
        1025,
        1029,
        1030,
        2047,
        2048,
        10239,
        10240,
        1048575,
        1048576,
        1048577,
        1073741823,
        1073741824,
        1073741825,
        5368709,
        123456789,
        9876543210,
        (1 << 53) - 1,
        1 << 53,
        (1 << 53) + 1,
        (1 << 53) + 2,
        (1 << 53) + 3,
        (1 << 54) + 2,
        (1 << 54) + 6,
        (1 << 60) + 12345,
        (1 << 63) - 1,
        1 << 63,
        (1 << 63) + 1024,
        (1 << 63) + 3072,
        u64::MAX - 2048,
        u64::MAX - 1024,
        u64::MAX - 1023,
        u64::MAX - 1,
        u64::MAX,
    ];
    let mut x: u64 = 0x9e3779b97f4a7c15;
    for _ in 0..2000 {
        x ^= x << 13;
        x ^= x >> 7;
        x ^= x << 17;
        samples.push(x);
        samples.push(x >> 11);
        samples.push(x >> 24);
        samples.push(x >> 40);
        samples.push(x >> 52);
    }
    for k in 0..4096u64 {
        samples.push(1024 + k);
        samples.push(1048576 + 41 * k);
        samples.push(1073741824 + 5368709 * k / 4);
    }
    for bytes in samples {
        assert_eq!(format_bytes(bytes), float_format(bytes), "for {} bytes", bytes);
    }
}
