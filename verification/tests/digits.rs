use sensor_dashboard::digits::format_number;

fn parse_back(bytes: &[u8]) -> u64 {
    let text = String::from_utf8(bytes.to_vec()).unwrap();
    text.parse::<u64>().unwrap()
}

#[test]
fn zero_formats_as_single_digit() {
    assert_eq!(format_number(0), vec![b'0']);
}

#[test]
fn small_numbers_format_exactly() {
    assert_eq!(format_number(7), b"7".to_vec());
    assert_eq!(format_number(10), b"10".to_vec());
    assert_eq!(format_number(255), b"255".to_vec());
    assert_eq!(format_number(1023), b"1023".to_vec());
}

#[test]
fn largest_value_formats_exactly() {
    assert_eq!(format_number(u32::MAX), b"4294967295".to_vec());
}

#[test]
fn digits_parse_back_to_the_value() {
    for &n in &[0u32, 1, 9, 10, 99, 100, 1000, 12345, 999_999, 1_000_000, u32::MAX] {
        let rendered = format_number(n);
        assert_eq!(parse_back(&rendered), u64::from(n));
    }
}

#[test]
fn no_leading_zero_except_for_zero() {
    for &n in &[1u32, 5, 10, 100, 1000, 100_000, u32::MAX] {
        let rendered = format_number(n);
        assert_ne!(rendered[0], b'0');
    }
    assert_eq!(format_number(0)[0], b'0');
}
