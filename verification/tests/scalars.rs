use noaa_isd::error::ParseError;
use noaa_isd::rational::Rational;
use noaa_isd::record_value::RecordValue;
use noaa_isd::scalar::{Quantity, Scalar};
use noaa_isd::text::{is_all_filler, same_text};
use noaa_isd::value::Value;

fn parts(q: &Rational) -> (i64, i64) {
    (q.numerator(), q.denominator())
}

#[test]
fn rational_reads_whole_numbers() {
    assert_eq!(parts(&Rational::parse("0500").unwrap()), (500, 1));
    assert_eq!(parts(&Rational::parse("+0250").unwrap()), (250, 1));
    assert_eq!(parts(&Rational::parse("-0032").unwrap()), (-32, 1));
    assert_eq!(parts(&Rational::parse("0").unwrap()), (0, 1));
}

#[test]
fn rational_reads_decimal_fractions() {
    assert_eq!(parts(&Rational::parse("32.7336").unwrap()), (327336, 10000));
    assert_eq!(parts(&Rational::parse("-117.1831").unwrap()), (-1171831, 10000));
    assert_eq!(parts(&Rational::parse("+4.60").unwrap()), (460, 100));
    assert_eq!(parts(&Rational::parse("0.05").unwrap()), (5, 100));
}

#[test]
fn rational_rejects_other_text() {
    for text in ["", "+", "-", ".", "1.", ".5", "1.2.3", "12a", " 12", "12 ", "1,2", "--1", "1e5", "٣"] {
        assert_eq!(Rational::parse(text), None, "{:?}", text);
    }
}

#[test]
fn rational_rejects_what_does_not_fit() {
    assert_eq!(parts(&Rational::parse("9223372036854775807").unwrap()), (i64::MAX, 1));
    assert_eq!(parts(&Rational::parse("-9223372036854775807").unwrap()), (-i64::MAX, 1));
    assert_eq!(Rational::parse("9223372036854775808"), None);
    assert_eq!(Rational::parse("-9223372036854775808"), None);
    assert_eq!(Rational::parse("0.0000000000000000001"), None);
    assert_eq!(parts(&Rational::parse("0.000000000000000001").unwrap()), (1, 1_000_000_000_000_000_000));
}

#[test]
fn rational_new_wants_a_positive_denominator() {
    assert_eq!(parts(&Rational::new(3, 4).unwrap()), (3, 4));
    assert_eq!(Rational::new(3, 0), None);
    assert_eq!(Rational::new(3, -4), None);
    assert_eq!(parts(&Rational::from_integer(-7)), (-7, 1));
}

#[test]
fn rational_divides_without_reducing() {
    let a = Rational::new(10132, 1).unwrap();
    let q = a.divide(&Rational::from_integer(10));
    assert_eq!(parts(&q), (10132, 10));
    let b = Rational::new(3, 4).unwrap();
    let r = b.divide(&Rational::new(-5, 7).unwrap());
    assert_eq!(parts(&r), (-21, 20));
}

#[test]
fn rational_cannot_divide_by_zero_or_past_the_range() {
    let a = Rational::from_integer(5);
    assert!(!a.can_divide(&Rational::from_integer(0)));
    assert!(a.can_divide(&Rational::from_integer(3)));
    let big = Rational::from_integer(i64::MAX);
    assert!(!big.can_divide(&Rational::new(1, 2).unwrap()));
    assert!(!a.can_divide(&Rational::from_integer(i64::MIN)));
    let fine = Rational::new(1, i64::MAX).unwrap();
    assert!(!fine.can_divide(&Rational::from_integer(2)));
    assert!(fine.can_divide(&Rational::from_integer(-1)));
}

#[test]
fn string_reads_any_text() {
    assert_eq!(String::parse("FM-15"), Some("FM-15".to_string()));
    assert_eq!(String::parse(""), Some(String::new()));
}

#[test]
fn the_sentinel_is_absent_for_every_type() {
    assert_eq!(Value::<String>::from_str("99999", "99999"), Ok(Value(None)));
    assert_eq!(Value::<Rational>::from_str("99999", "99999"), Ok(Value(None)));
    assert_eq!(Value::<Rational>::from_str("none", "none"), Ok(Value(None)));
    assert!(Value::<Rational>::from_str("none", "none").unwrap().is_absent());
}

#[test]
fn a_value_that_is_not_the_sentinel_is_parsed() {
    assert_eq!(Value::<String>::from_str("KSAN", "99999"), Ok(Value(Some("KSAN".to_string()))));
    let v = Value::<Rational>::from_str("9999", "99999").unwrap();
    assert_eq!(parts(v.0.as_ref().unwrap()), (9999, 1));
    assert!(!v.is_absent());
    assert_eq!(Value::<Rational>::from_str("KSAN", "99999"), Err(ParseError::Syntax));
}

#[test]
fn filler_of_any_length_is_missing() {
    for text in ["9", "99", "999", "9999", "99999", "999999", "9999999999999999999999"] {
        assert!(is_all_filler(text));
        assert_eq!(RecordValue::<Rational>::parse(text, "m", Rational::from_integer(1)), Ok(None));
    }
}

#[test]
fn text_without_numeric_characters_is_missing() {
    for text in ["", "N", "+", "abc", "+,-"] {
        assert!(is_all_filler(text));
        assert_eq!(RecordValue::<Rational>::parse(text, "m", Rational::from_integer(1)), Ok(None));
    }
    assert_eq!(RecordValue::<Rational>::parse("+9999", "degC", Rational::from_integer(10)), Ok(None));
}

#[test]
fn a_digit_other_than_the_filler_makes_a_value_present() {
    assert!(!is_all_filler("9998"));
    assert!(!is_all_filler("0"));
    let v = RecordValue::<Rational>::parse("9998", "m", Rational::from_integer(1)).unwrap().unwrap();
    assert_eq!(parts(v.value()), (9998, 1));
    let t = RecordValue::<Rational>::parse("-0015", "degC", Rational::from_integer(10)).unwrap().unwrap();
    assert_eq!(parts(t.value()), (-15, 10));
    assert_eq!(t.unit(), "degC");
}

#[test]
fn numeric_characters_outside_ascii_count_as_data() {
    assert!(!is_all_filler("²"));
    assert!(!is_all_filler("99٣"));
    assert_eq!(
        RecordValue::<Rational>::parse("99٣", "m", Rational::from_integer(1)),
        Err(ParseError::Syntax)
    );
    assert!(is_all_filler("九"));
}

#[test]
fn a_divisor_that_does_not_divide_is_a_division_error() {
    assert_eq!(
        RecordValue::<Rational>::parse("0500", "m/s", Rational::from_integer(0)),
        Err(ParseError::Division)
    );
    assert_eq!(RecordValue::<Rational>::parse("9999", "m/s", Rational::from_integer(0)), Ok(None));
}

#[test]
fn same_text_compares_characters() {
    assert!(same_text("", ""));
    assert!(same_text("99999", "99999"));
    assert!(!same_text("99999", "9999"));
    assert!(!same_text("9999a", "9999b"));
}

#[test]
fn whole_numbers_are_read_from_signed_digits() {
    assert_eq!(i64::parse("0500"), Some(500));
    assert_eq!(i64::parse("+0250"), Some(250));
    assert_eq!(i64::parse("-0032"), Some(-32));
    assert_eq!(i64::parse("9223372036854775807"), Some(i64::MAX));
    assert_eq!(i64::parse("-9223372036854775807"), Some(-i64::MAX));
    for text in ["", "+", "-", "1.5", "12a", " 12", "9223372036854775808", "-9223372036854775808"] {
        assert_eq!(i64::parse(text), None, "{:?}", text);
    }
}

#[test]
fn whole_numbers_divide_toward_zero() {
    assert_eq!(7i64.divide(&2), 3);
    assert_eq!((-7i64).divide(&2), -3);
    assert_eq!(7i64.divide(&-2), -3);
    assert_eq!((-7i64).divide(&-2), 3);
    assert!(!7i64.can_divide(&0));
    assert!(!i64::MIN.can_divide(&-1));
    assert!(i64::MIN.can_divide(&1));
}

#[test]
fn a_scaled_value_can_hold_a_whole_number() {
    let v = RecordValue::<i64>::new("0500", "m/s", 10).unwrap();
    assert_eq!(*v.value(), 50);
    assert_eq!(v.unit(), "m/s");
    let v = RecordValue::<i64>::new("10132", "hPa", 10).unwrap();
    assert_eq!(*v.value(), 1013);
    assert_eq!(RecordValue::<i64>::new("9999", "m/s", 10), None);
    assert_eq!(RecordValue::<i64>::parse("0500", "m/s", 0), Err(ParseError::Division));
    assert_eq!(RecordValue::<i64>::parse("05.0", "m/s", 10), Err(ParseError::Syntax));
    assert_eq!(Value::<i64>::from_str("99", "99"), Ok(Value(None)));
    assert_eq!(Value::<i64>::from_str("12", "99"), Ok(Value(Some(12))));
}
