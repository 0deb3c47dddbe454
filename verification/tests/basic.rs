use lvm::parse::{format_size, parse_i32, parse_size, parse_u32, parse_u64};

#[test]
fn size_round_trip() {
    let s = format_size(1073741824);
    assert_eq!(s, "1073741824B");
    assert_eq!(parse_size(&s), Some(1073741824));
    assert_eq!(parse_size(&format_size(0)), Some(0));
    assert_eq!(parse_size(&format_size(u64::MAX)), Some(u64::MAX));
}

#[test]
fn number_parsing() {
    assert_eq!(parse_u64("18446744073709551615"), Some(u64::MAX));
    assert_eq!(parse_u64("18446744073709551616"), None);
    assert_eq!(parse_u32("4294967295"), Some(u32::MAX));
    assert_eq!(parse_u32("4294967296"), None);
    assert_eq!(parse_i32("-2147483648"), Some(i32::MIN));
    assert_eq!(parse_i32("2147483647"), Some(i32::MAX));
    assert_eq!(parse_i32("-12"), Some(-12));
    assert_eq!(parse_i32("0"), Some(0));
}

#[test]
fn malformed_number_rejected() {
    assert_eq!(parse_i32("abc"), None);
    assert_eq!(parse_i32(""), None);
    assert_eq!(parse_i32("-"), None);
    assert_eq!(parse_i32("1.5"), None);
    assert_eq!(parse_u32(""), None);
    assert_eq!(parse_u64("12 "), None);
    assert_eq!(parse_size("B"), None);
    assert_eq!(parse_size(""), None);
    assert_eq!(parse_size("12x"), None);
    assert_eq!(parse_u32("7"), Some(7));
    assert_eq!(parse_size("4096B"), Some(4096));
}
