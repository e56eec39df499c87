use textmode::print::u64_to_base;

fn render(num: u64, base: u8) -> String {
    let res = match u64_to_base(num, base) {
        Ok((len, buf)) => (len, buf),
        _ => ([0u8; 65], 0),
    };

    let result_slice = &res.0[65 - res.1..];

    core::str::from_utf8(result_slice).unwrap().to_string()
}

#[test]
fn test_normal_functionality_base_16_ff() {
    assert_eq!(render(255u64, 16), "FF");
}

#[test]
fn test_normal_functionality_base_16_ffff() {
    assert_eq!(render(65535u64, 16), "FFFF");
}

#[test]
fn test_normal_functionality_base_16_ffffff() {
    assert_eq!(render(16777215u64, 16), "FFFFFF");
}

#[test]
fn test_normal_functionality_base_16_ffffffff() {
    assert_eq!(render(4294967295u64, 16), "FFFFFFFF");
}

#[test]
fn decimal_and_binary() {
    assert_eq!(render(42, 10), "42");
    assert_eq!(render(5, 2), "101");
    assert_eq!(render(u64::MAX, 2).len(), 64);
    assert_eq!(render(u64::MAX, 16), "FFFFFFFFFFFFFFFF");
}

#[test]
fn zero_has_no_digits() {
    let (buf, len) = u64_to_base(0, 10).unwrap();
    assert_eq!(len, 0);
    assert!(buf.iter().all(|&b| b == 0));
}

#[test]
fn bases_outside_two_to_sixteen_fail() {
    assert!(u64_to_base(10, 1).is_err());
    assert!(u64_to_base(10, 0).is_err());
    assert!(u64_to_base(10, 17).is_err());
}
