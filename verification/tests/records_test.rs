use locatorr::records::{format_i64, parse_i64, settings_from_stored, ContactDto};

#[test]
fn decimal_integers_parse_as_std_does() {
    let cases = [
        "30", "0", "-0", "+17", "-17", "007", "9223372036854775807", "-9223372036854775808",
        "9223372036854775808", "-9223372036854775809", "99999999999999999999999", "", "-", "+",
        " 30", "30 ", "3a", "--1", "+-1", "1_000", "٣",
    ];
    for case in cases {
        assert_eq!(parse_i64(case), case.parse::<i64>().ok(), "case {:?}", case);
    }
}

#[test]
fn decimal_integer_values() {
    assert_eq!(parse_i64("30"), Some(30));
    assert_eq!(parse_i64("-45"), Some(-45));
    assert_eq!(parse_i64("+0012"), Some(12));
    assert_eq!(parse_i64("-9223372036854775808"), Some(i64::MIN));
    assert_eq!(parse_i64("9223372036854775807"), Some(i64::MAX));
    assert_eq!(parse_i64("9223372036854775808"), None);
    assert_eq!(parse_i64("thirty"), None);
}

#[test]
fn settings_fall_back_to_their_defaults() {
    let s = settings_from_stored(None, None, None);
    assert_eq!(s.server_url, "");
    assert_eq!(s.poll_interval_secs, 30);
    assert_eq!(s.relay_user_id, "");

    let s = settings_from_stored(
        Some("https://relay.example".to_string()),
        Some("45".to_string()),
        Some("user-7".to_string()),
    );
    assert_eq!(s.server_url, "https://relay.example");
    assert_eq!(s.poll_interval_secs, 45);
    assert_eq!(s.relay_user_id, "user-7");

    // a stored interval that is not a number reads back as the default
    let s = settings_from_stored(None, Some("soon".to_string()), None);
    assert_eq!(s.poll_interval_secs, 30);
}

#[test]
fn contact_flags_are_set_by_any_nonzero_value() {
    let c = ContactDto::from_row("c1".into(), "Bob".into(), "u-1".into(), "ab cd".into(), 1, 0, 1700);
    assert_eq!(c.id, "c1");
    assert_eq!(c.nickname, "Bob");
    assert_eq!(c.relay_user_id, "u-1");
    assert_eq!(c.fingerprint, "ab cd");
    assert!(c.verified);
    assert!(!c.sharing);
    assert_eq!(c.created_at, 1700);
    let c = ContactDto::from_row("c2".into(), "Eve".into(), "".into(), "".into(), 0, -3, 0);
    assert!(!c.verified);
    assert!(c.sharing);
}

#[test]
fn integers_are_written_in_decimal() {
    for x in [0i64, 7, 10, 30, -1, -10, 1234567890, i64::MAX, i64::MIN, -9, 99, 100] {
        assert_eq!(format_i64(x), x.to_string());
    }
    assert_eq!(format_i64(-45), "-45");
}

#[test]
fn a_stored_interval_reads_back_as_written() {
    for x in [0i64, 30, 45, -5, 3600, i64::MAX, i64::MIN] {
        assert_eq!(parse_i64(&format_i64(x)), Some(x));
        let s = settings_from_stored(None, Some(format_i64(x)), None);
        assert_eq!(s.poll_interval_secs, x);
    }
}
