use backend::text::{parse_i64, parse_u32, parse_u64, push_decimal};

#[test]
fn parse_unsigned_like_std() {
    for s in ["0", "42", "+42", "007", "18446744073709551615", "18446744073709551616", "", "+", "-1", " 1", "1a", "-0"] {
        assert_eq!(parse_u64(s), s.parse::<u64>().ok(), "u64 {:?}", s);
    }
    for s in ["4294967295", "4294967296", "+0", "12", "x"] {
        assert_eq!(parse_u32(s), s.parse::<u32>().ok(), "u32 {:?}", s);
    }
}

#[test]
fn parse_signed_like_std() {
    for s in ["0", "-0", "+5", "-5", "9223372036854775807", "9223372036854775808", "-9223372036854775808",
        "-9223372036854775809", "-", "+", "--1", "+-1", "١"] {
        assert_eq!(parse_i64(s), s.parse::<i64>().ok(), "i64 {:?}", s);
    }
}

#[test]
fn decimal_round_trip() {
    for n in [0u64, 7, 10, 99, 100, 12345, u64::MAX] {
        let mut s = String::new();
        push_decimal(&mut s, n);
        assert_eq!(s, n.to_string());
        assert_eq!(parse_u64(&s), Some(n));
    }
}

#[test]
fn i64_text_round_trip() {
    for n in [0i64, 5, -5, 1000, -1000, i64::MAX, i64::MIN] {
        assert_eq!(parse_i64(&n.to_string()), Some(n));
    }
}
