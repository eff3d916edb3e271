use summarizator::telegram::text::{i64_to_decimal, parse_u32, u64_to_decimal};

#[test]
fn decimal_of_small_numbers() {
    assert_eq!(i64_to_decimal(0), "0");
    assert_eq!(i64_to_decimal(7), "7");
    assert_eq!(i64_to_decimal(42), "42");
    assert_eq!(i64_to_decimal(-7), "-7");
    assert_eq!(i64_to_decimal(-463169522), "-463169522");
}

#[test]
fn decimal_of_extreme_numbers() {
    assert_eq!(i64_to_decimal(i64::MIN), "-9223372036854775808");
    assert_eq!(i64_to_decimal(i64::MAX), "9223372036854775807");
    assert_eq!(u64_to_decimal(u64::MAX), "18446744073709551615");
    assert_eq!(u64_to_decimal(10), "10");
}

#[test]
fn decimal_matches_to_string() {
    for x in [-1000000i64, -101, -10, -9, -1, 1, 9, 10, 99, 100, 1234567890, 1600000000] {
        assert_eq!(i64_to_decimal(x), x.to_string());
    }
}

#[test]
fn parse_plain_and_signed_numbers() {
    assert_eq!(parse_u32("3"), Some(3));
    assert_eq!(parse_u32("+12"), Some(12));
    assert_eq!(parse_u32("007"), Some(7));
    assert_eq!(parse_u32("0"), Some(0));
    assert_eq!(parse_u32("4294967295"), Some(4294967295));
}

#[test]
fn parse_refuses_what_std_refuses() {
    for s in ["", "+", "-1", "-0", " 1", "1 ", "1a", "++1", "4294967296", "99999999999999999999", "1_000", "٣", "/digest@summarizatorBot "] {
        assert_eq!(parse_u32(s), None, "{:?}", s);
        assert!(s.parse::<u32>().is_err());
    }
}

#[test]
fn parse_agrees_with_std() {
    for s in ["1", "+0", "000000000000004294967295", "65536", "123456789"] {
        assert_eq!(parse_u32(s), s.parse::<u32>().ok());
    }
}

#[test]
fn parse_reads_back_written_numbers() {
    for n in [0u32, 1, 9, 10, 255, 65535, 3147171, 4294967295] {
        assert_eq!(parse_u32(&u64_to_decimal(n as u64)), Some(n));
    }
}
