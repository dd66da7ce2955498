use fs_proxy::pidfile::format_pid;
use fs_proxy::pidfile::load_recorded;
use fs_proxy::pidfile::parse_pid;

#[test]
fn registry_round_trip_small() {
    let written = format_pid(1);
    assert_eq!(written, b"1".to_vec());
    assert_eq!(parse_pid(&written), Some(1));
}

#[test]
fn registry_round_trip_typical() {
    let written = format_pid(12345);
    assert_eq!(written, b"12345".to_vec());
    assert_eq!(parse_pid(&written), Some(12345));
}

#[test]
fn registry_round_trip_largest() {
    let written = format_pid(u64::MAX);
    assert_eq!(written, b"18446744073709551615".to_vec());
    assert_eq!(parse_pid(&written), Some(u64::MAX));
}

#[test]
fn parse_rejects_non_number() {
    assert_eq!(parse_pid(b"not-a-number"), None);
}

#[test]
fn parse_rejects_empty() {
    assert_eq!(parse_pid(b""), None);
}

#[test]
fn parse_rejects_zero() {
    assert_eq!(parse_pid(b"0"), None);
    assert_eq!(parse_pid(b"000"), None);
}

#[test]
fn parse_rejects_out_of_range() {
    // one above the largest representable identifier
    assert_eq!(parse_pid(b"18446744073709551616"), None);
    assert_eq!(parse_pid(b"99999999999999999999999"), None);
}

#[test]
fn parse_rejects_trailing_newline() {
    assert_eq!(parse_pid(b"42\n"), None);
}

#[test]
fn parse_accepts_leading_zeros() {
    assert_eq!(parse_pid(b"010"), Some(10));
}

#[test]
fn load_degrades_to_absence() {
    assert_eq!(load_recorded(&None), None);
    assert_eq!(load_recorded(&Some(b"not-a-number".to_vec())), None);
    assert_eq!(load_recorded(&Some(b"77".to_vec())), Some(77));
}
