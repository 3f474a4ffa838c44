use sspi::{split_buffer_type_value, validate_clock_skew, ErrorKind, MAX_CLOCK_SKEW_SECONDS};

#[test]
fn five_minutes_of_skew_is_accepted_and_one_more_second_is_not() {
    assert_eq!(MAX_CLOCK_SKEW_SECONDS, 300);
    let now: i64 = 1_700_000_000;
    assert!(validate_clock_skew(now, now).is_ok());
    assert!(validate_clock_skew(now, now + 300).is_ok());
    assert!(validate_clock_skew(now, now - 300).is_ok());
    let err = validate_clock_skew(now, now + 301).unwrap_err();
    assert_eq!(err.error_type, ErrorKind::TimeSkew);
    let err = validate_clock_skew(now, now - 301).unwrap_err();
    assert_eq!(err.error_type, ErrorKind::TimeSkew);
}

#[test]
fn extreme_timestamps_do_not_wrap() {
    let err = validate_clock_skew(i64::MAX, i64::MIN).unwrap_err();
    assert_eq!(err.error_type, ErrorKind::TimeSkew);
    let err = validate_clock_skew(i64::MIN, i64::MAX).unwrap_err();
    assert_eq!(err.error_type, ErrorKind::TimeSkew);
    assert!(validate_clock_skew(i64::MAX, i64::MAX - 300).is_ok());
}

#[test]
fn buffer_type_words_split_into_kind_and_attributes() {
    // A read-only token buffer: the kind and the attribute mask are
    // orthogonal fields of the same word.
    let (kind, attributes) = split_buffer_type_value(0x8000_0002);
    assert_eq!(kind, 2);
    assert_eq!(attributes, 0x8000_0000);
    let (kind, attributes) = split_buffer_type_value(1);
    assert_eq!(kind, 1);
    assert_eq!(attributes, 0);
    let (kind, attributes) = split_buffer_type_value(0xF000_0000);
    assert_eq!(kind, 0);
    assert_eq!(attributes, 0xF000_0000);
}
