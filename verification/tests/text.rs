use teebench_web::text::{i64_to_string, join_strings, parse_unsigned_bounded, str_eq, u64_to_string};

#[test]
fn text_decimal_numbers() {
    assert_eq!(u64_to_string(0), "0");
    assert_eq!(u64_to_string(2097152), "2097152");
    assert_eq!(u64_to_string(u64::MAX), u64::MAX.to_string());
    assert_eq!(i64_to_string(-42), "-42");
    assert_eq!(i64_to_string(i64::MIN), i64::MIN.to_string());
}

#[test]
fn text_parse_unsigned() {
    assert_eq!(parse_unsigned_bounded("255", 255), Some(255));
    assert_eq!(parse_unsigned_bounded("+7", 255), Some(7));
    assert_eq!(parse_unsigned_bounded("256", 255), None);
    assert_eq!(parse_unsigned_bounded("", 255), None);
    assert_eq!(parse_unsigned_bounded("1a", 255), None);
    assert_eq!(parse_unsigned_bounded("-1", 255), None);
    assert_eq!(parse_unsigned_bounded("0004294967295", u32::MAX as u64), Some(4294967295));
}

#[test]
fn text_join_and_compare() {
    let v = vec!["a".to_string(), "bc".to_string(), "d".to_string()];
    assert_eq!(join_strings(&v, ", "), "a, bc, d");
    assert_eq!(join_strings(&Vec::new(), ", "), "");
    assert!(str_eq("x", "x"));
    assert!(!str_eq("x", "xy"));
}
