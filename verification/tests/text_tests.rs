use aery::text::{grouped_decimal, i64_to_decimal, parse_u16, str_eq, u64_to_decimal};

#[test]
fn decimals() {
    assert_eq!(u64_to_decimal(0), "0");
    assert_eq!(u64_to_decimal(18446744073709551615), "18446744073709551615");
    assert_eq!(i64_to_decimal(-42), "-42");
    assert_eq!(i64_to_decimal(i64::MIN), "-9223372036854775808");
}

#[test]
fn parse_u16_like_from_str() {
    assert_eq!(parse_u16("0"), Some(0));
    assert_eq!(parse_u16("65535"), Some(65535));
    assert_eq!(parse_u16("+7"), Some(7));
    assert_eq!(parse_u16("007"), Some(7));
    assert_eq!(parse_u16("65536"), None);
    assert_eq!(parse_u16(""), None);
    assert_eq!(parse_u16("+"), None);
    assert_eq!(parse_u16("-1"), None);
    assert_eq!(parse_u16("1a"), None);
    for n in [0u16, 1, 99, 266, 65535] {
        assert_eq!(parse_u16(&n.to_string()), n.to_string().parse::<u16>().ok());
    }
}

#[test]
fn str_eq_compares_characters() {
    assert!(str_eq("가나", "가나"));
    assert!(!str_eq("abc", "abd"));
    assert!(!str_eq("ab", "abc"));
}

#[test]
fn grouped_decimal_groups_by_threes() {
    assert_eq!(grouped_decimal(241768), "241,768");
    assert_eq!(grouped_decimal(0), "0");
    assert_eq!(grouped_decimal(999), "999");
    assert_eq!(grouped_decimal(1000), "1,000");
    assert_eq!(grouped_decimal(1234567), "1,234,567");
    assert_eq!(grouped_decimal(u64::MAX), "18,446,744,073,709,551,615");
    for n in [7u64, 12, 100, 1001, 65536, 100000000] {
        let digits = n.to_string();
        let chunks: Vec<&str> =
            digits.as_bytes().rchunks(3).rev().map(|c| std::str::from_utf8(c).unwrap()).collect();
        assert_eq!(grouped_decimal(n), chunks.join(","));
    }
}
