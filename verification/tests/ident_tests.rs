use todo_service::limit_default;
use todo_service::offset_default;
use todo_service::parse_u64;
use todo_service::u64_to_dec;

#[test]
fn prints_zero() {
    assert_eq!(u64_to_dec(0), "0");
}

#[test]
fn prints_small_and_large_values() {
    assert_eq!(u64_to_dec(7), "7");
    assert_eq!(u64_to_dec(10), "10");
    assert_eq!(u64_to_dec(1234567890123456789), "1234567890123456789");
    assert_eq!(u64_to_dec(u64::MAX), "18446744073709551615");
}

#[test]
fn parse_round_trips_printed_values() {
    for n in [0u64, 1, 9, 10, 99, 100, 4096, 1234567890123456789, u64::MAX] {
        assert_eq!(parse_u64(u64_to_dec(n).as_str()), Some(n));
    }
}

#[test]
fn parse_accepts_leading_zeros() {
    assert_eq!(parse_u64("007"), Some(7));
}

#[test]
fn parse_rejects_empty_and_non_digits() {
    assert_eq!(parse_u64(""), None);
    assert_eq!(parse_u64("12a"), None);
    assert_eq!(parse_u64("-3"), None);
    assert_eq!(parse_u64(" 3"), None);
}

#[test]
fn parse_rejects_overflow() {
    assert_eq!(parse_u64("18446744073709551615"), Some(u64::MAX));
    assert_eq!(parse_u64("18446744073709551616"), None);
    assert_eq!(parse_u64("99999999999999999999999"), None);
}

#[test]
fn paging_defaults() {
    assert_eq!(limit_default(), 10);
    assert_eq!(offset_default(), 0);
}
