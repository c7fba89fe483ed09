use jellyname::numfmt::{decimal2_string, decimal_string, human_size};

fn reference_size(bytes: u64) -> String {
    let units = ["B", "KB", "MB", "GB", "TB"];
    let mut size = bytes as f64;
    for unit in units {
        if size < 1024.0 {
            return format!("{:.1}{}", size, unit);
        }
        size /= 1024.0;
    }
    format!("{:.1}{}", size, "PB")
}

#[test]
fn human_size_small_values() {
    assert_eq!(human_size(0), "0.0B");
    assert_eq!(human_size(1), "1.0B");
    assert_eq!(human_size(1023), "1023.0B");
    assert_eq!(human_size(1024), "1.0KB");
    assert_eq!(human_size(1536), "1.5KB");
    assert_eq!(human_size(1048576), "1.0MB");
}

#[test]
fn human_size_rounds_up_to_1024_of_a_unit() {
    assert_eq!(human_size(1048575), "1024.0KB");
}

#[test]
fn human_size_largest_values() {
    assert_eq!(human_size(u64::MAX), reference_size(u64::MAX));
    assert_eq!(human_size(u64::MAX), "16384.0PB");
    assert_eq!(human_size(1125899906842624), "1.0PB");
}

#[test]
fn human_size_agrees_with_float_formatting() {
    let mut samples: Vec<u64> = Vec::new();
    for i in 0..5000u64 {
        samples.push(i);
        samples.push(i * 37 + 1000);
        samples.push(i * 1024 + 512);
        samples.push(i * 104857 + 1);
    }
    for k in 0..64u32 {
        let p = 1u64 << k;
        for d in 0..40u64 {
            samples.push(p.wrapping_add(d));
            samples.push(p.wrapping_sub(d));
            samples.push(p.wrapping_add(p / 2).wrapping_add(d));
        }
    }
    let mut x: u64 = 0x9E3779B97F4A7C15;
    for _ in 0..200000 {
        x ^= x << 13;
        x ^= x >> 7;
        x ^= x << 17;
        samples.push(x);
        samples.push(x >> (x % 64));
    }
    for b in samples {
        assert_eq!(human_size(b), reference_size(b), "bytes = {}", b);
    }
}

#[test]
fn human_size_ties_at_tenths() {
    assert_eq!(human_size(1280), reference_size(1280));
    assert_eq!(human_size(1126), reference_size(1126));
    assert_eq!(human_size(9007199254740993), reference_size(9007199254740993));
}

#[test]
fn decimal_text() {
    assert_eq!(decimal_string(0), "0");
    assert_eq!(decimal_string(42), "42");
    assert_eq!(decimal_string(u64::MAX), u64::MAX.to_string());
    assert_eq!(decimal2_string(7), "07");
    assert_eq!(decimal2_string(12), "12");
    assert_eq!(decimal2_string(123), "123");
}
