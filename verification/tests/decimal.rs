use smart_file_duplicate_manager::decimal::decimal_string;

#[test]
fn decimal_zero() {
    assert_eq!(decimal_string(0), "0");
}

#[test]
fn decimal_single_digits() {
    for d in 0u32..10 {
        assert_eq!(decimal_string(d), d.to_string());
    }
}

#[test]
fn decimal_ten_and_hundred() {
    assert_eq!(decimal_string(10), "10");
    assert_eq!(decimal_string(100), "100");
    assert_eq!(decimal_string(909), "909");
}

#[test]
fn decimal_year() {
    assert_eq!(decimal_string(2025), "2025");
}

#[test]
fn decimal_largest() {
    assert_eq!(decimal_string(u32::MAX), "4294967295");
}

#[test]
fn decimal_reads_back() {
    for n in [1u32, 19, 20, 99, 101, 65535, 1_000_000, 123_456_789] {
        let s = decimal_string(n);
        assert_eq!(s.parse::<u32>().unwrap(), n);
        assert!(!s.starts_with('0'));
    }
}
