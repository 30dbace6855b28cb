use noaa_isd::error::ParseError;
use noaa_isd::rational::Rational;
use noaa_isd::record_value::RecordValue;

fn as_float(q: &Rational) -> f64 {
    q.numerator() as f64 / q.denominator() as f64
}

#[test]
fn wind_speed_is_scaled_to_metres_per_second() {
    let v = RecordValue::<Rational>::new("0500", "m/s", Rational::from_integer(10)).unwrap();
    assert_eq!(as_float(v.value()), 50.0);
    assert_eq!(v.value().numerator(), 500);
    assert_eq!(v.value().denominator(), 10);
    assert_eq!(v.unit(), "m/s");
}

#[test]
fn wind_speed_of_filler_is_absent() {
    assert_eq!(RecordValue::<Rational>::new("9999", "m/s", Rational::from_integer(10)), None);
}

#[test]
fn sea_level_pressure_is_scaled_to_hectopascal() {
    let v = RecordValue::<Rational>::new("10132", "hPa", Rational::from_integer(10)).unwrap();
    assert_eq!(as_float(v.value()), 1013.2);
    assert_eq!(v.unit(), "hPa");
    assert_eq!(RecordValue::<Rational>::new("99999", "hPa", Rational::from_integer(10)), None);
}

#[test]
fn malformed_scaled_text_is_a_syntax_error() {
    let r = RecordValue::<Rational>::parse("12a4", "m", Rational::from_integer(1));
    assert_eq!(r, Err(ParseError::Syntax));
}
