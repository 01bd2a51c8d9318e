use int_validation_core::input::str_as_int;
use int_validation_core::Int;

fn parse(s: &str) -> Option<Int> {
    str_as_int(&s.as_bytes().to_vec())
}

#[test]
fn parses_plain_decimal() {
    assert!(matches!(parse("7"), Some(Int::Small(7))));
    assert!(matches!(parse("0"), Some(Int::Small(0))));
    assert!(matches!(parse("123456789"), Some(Int::Small(123456789))));
}

#[test]
fn parses_signs_and_whitespace() {
    assert!(matches!(parse(" 42 "), Some(Int::Small(42))));
    assert!(matches!(parse("\t+7\n"), Some(Int::Small(7))));
    assert!(matches!(parse("-13"), Some(Int::Small(-13))));
    assert!(matches!(parse("-0"), Some(Int::Small(0))));
}

#[test]
fn rejects_malformed_strings() {
    assert!(parse("").is_none());
    assert!(parse("   ").is_none());
    assert!(parse("abc").is_none());
    assert!(parse("1.5").is_none());
    assert!(parse("1e3").is_none());
    assert!(parse("+").is_none());
    assert!(parse("-").is_none());
    assert!(parse("1 2").is_none());
    assert!(parse("7a").is_none());
    assert!(parse("++7").is_none());
}

#[test]
fn parses_beyond_machine_words() {
    let v = parse("123456789012345678901234567890").unwrap();
    let expected = num_bigint::BigInt::parse_bytes(b"123456789012345678901234567890", 10).unwrap();
    assert!(v.eq_value(&Int::from_big(expected)));
    assert!(matches!(v, Int::Big(_)));

    let v = parse("-123456789012345678901234567890").unwrap();
    let expected =
        num_bigint::BigInt::parse_bytes(b"-123456789012345678901234567890", 10).unwrap();
    assert!(v.eq_value(&Int::from_big(expected)));
}

#[test]
fn long_digit_strings_downcast_to_machine_words() {
    // 25 digits, but the value fits: the carrier canonicalizes to Small.
    assert!(matches!(parse("0000000000000000000000007"), Some(Int::Small(7))));
    assert!(matches!(parse("9223372036854775807"), Some(Int::Small(i64::MAX))));
    assert!(matches!(parse("-9223372036854775808"), Some(Int::Small(i64::MIN))));
}

#[test]
fn from_big_downcasts_exactly_at_the_word_boundary() {
    let max = num_bigint::BigInt::from(i64::MAX);
    assert!(matches!(Int::from_big(max), Int::Small(v) if v == i64::MAX));
    let past_max = num_bigint::BigInt::from(i64::MAX) + 1;
    assert!(matches!(Int::from_big(past_max), Int::Big(_)));
    let min = num_bigint::BigInt::from(i64::MIN);
    assert!(matches!(Int::from_big(min), Int::Small(v) if v == i64::MIN));
    let past_min = num_bigint::BigInt::from(i64::MIN) - 1;
    assert!(matches!(Int::from_big(past_min), Int::Big(_)));
}

#[test]
fn remainder_sign_follows_dividend() {
    let r = |a: i64, b: i64| Int::from_i64(a).rem(&Int::from_i64(b));
    assert!(matches!(r(7, 3), Int::Small(1)));
    assert!(matches!(r(-7, 3), Int::Small(-1)));
    assert!(matches!(r(7, -3), Int::Small(1)));
    assert!(matches!(r(-7, -3), Int::Small(-1)));
    assert!(matches!(r(6, 3), Int::Small(0)));
}

#[test]
fn remainder_handles_word_extremes() {
    assert!(matches!(Int::from_i64(i64::MIN).rem(&Int::from_i64(-1)), Int::Small(0)));
    assert!(matches!(Int::from_i64(i64::MIN).rem(&Int::from_i64(i64::MAX)), Int::Small(-1)));
}

#[test]
fn remainder_promotes_across_variants() {
    let big = Int::from_big(num_bigint::BigInt::parse_bytes(b"100000000000000000000", 10).unwrap());
    let r = big.rem(&Int::from_i64(7));
    // 10^20 mod 7 == 2.
    assert!(r.eq_value(&Int::from_i64(2)));
    let r = Int::from_i64(5).rem(&big);
    assert!(r.eq_value(&Int::from_i64(5)));
}

#[test]
fn ordering_spans_both_variants() {
    let small = Int::from_i64(5);
    let neg_big =
        Int::from_big(num_bigint::BigInt::parse_bytes(b"-100000000000000000000", 10).unwrap());
    let pos_big =
        Int::from_big(num_bigint::BigInt::parse_bytes(b"100000000000000000000", 10).unwrap());
    assert!(small.lt(&pos_big));
    assert!(neg_big.lt(&small));
    assert!(neg_big.lt(&pos_big));
    assert!(!pos_big.lt(&neg_big));
    assert!(small.le(&small));
    assert!(small.ge(&small));
    assert!(pos_big.gt(&small));
    assert!(small.eq_value(&Int::from_i64(5)));
    assert!(!small.eq_value(&pos_big));
}

#[test]
fn dup_preserves_the_value() {
    let big = Int::from_big(num_bigint::BigInt::parse_bytes(b"100000000000000000000", 10).unwrap());
    assert!(big.dup().eq_value(&big));
    let small = Int::from_i64(-3);
    assert!(small.dup().eq_value(&small));
}

#[test]
fn is_zero_on_canonical_values() {
    assert!(Int::from_i64(0).is_zero());
    assert!(!Int::from_i64(1).is_zero());
    let big = Int::from_big(num_bigint::BigInt::parse_bytes(b"100000000000000000000", 10).unwrap());
    assert!(!big.is_zero());
}
