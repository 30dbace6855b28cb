use noaa_isd::category::{Category, CATEGORY_COUNT};
use noaa_isd::columns::split_columns;
use noaa_isd::error::{GroupFault, ParseError};
use noaa_isd::group::decode_group;
use noaa_isd::layout::{decode_field, sentinel_text, Column, Field, Kind, Unit};
use noaa_isd::mandatory::{Ceiling, SeaLevelPressure, Temperature, Visibility, Wind};
use noaa_isd::names::{find, is_code_of, to_upper, Slot, Tagged};
use noaa_isd::rational::Rational;
use noaa_isd::record::Group;
use noaa_isd::value::Value;

fn as_float(q: &Rational) -> f64 {
    q.numerator() as f64 / q.denominator() as f64
}

#[test]
fn a_segment_splits_at_each_comma() {
    assert_eq!(split_columns("260,1,N,0050,1"), vec!["260", "1", "N", "0050", "1"]);
    assert_eq!(split_columns(""), vec![""]);
    assert_eq!(split_columns(","), vec!["", ""]);
    assert_eq!(split_columns("a,,b,"), vec!["a", "", "b", ""]);
    assert_eq!(split_columns("no comma"), vec!["no comma"]);
    assert_eq!(split_columns("é,٣"), vec!["é", "٣"]);
}

#[test]
fn the_sentinel_of_a_width_is_that_many_nines() {
    assert_eq!(sentinel_text(0), "");
    assert_eq!(sentinel_text(1), "9");
    assert_eq!(sentinel_text(5), "99999");
}

#[test]
fn a_field_is_decoded_by_its_kind() {
    let scaled = Kind::Scaled { divisor: 10, unit: Unit::MetrePerSecond };
    match decode_field(scaled, "0500").unwrap() {
        Field::Scaled(Some(v)) => {
            assert_eq!(as_float(v.value()), 50.0);
            assert_eq!(v.unit(), "m/s");
        }
        other => panic!("{:?}", other),
    }
    assert_eq!(decode_field(scaled, "9999"), Ok(Field::Scaled(None)));
    assert_eq!(decode_field(scaled, "05x0"), Err(ParseError::Syntax));
    assert_eq!(decode_field(Kind::Number { width: 2 }, "99"), Ok(Field::Number(Value(None))));
    assert_eq!(
        decode_field(Kind::Number { width: 2 }, "999"),
        Ok(Field::Number(Value(Some(Rational::from_integer(999)))))
    );
    assert_eq!(decode_field(Kind::Number { width: 2 }, "x"), Err(ParseError::Syntax));
    assert_eq!(decode_field(Kind::Text { width: 4 }, "9999"), Ok(Field::Text(Value(None))));
    assert_eq!(
        decode_field(Kind::Text { width: 4 }, "0112"),
        Ok(Field::Text(Value(Some("0112".to_string()))))
    );
    assert_eq!(decode_field(Kind::Code, "9"), Ok(Field::Code("9".to_string())));
}

#[test]
fn a_group_reports_its_first_bad_column() {
    let layout = vec![
        Column { name: "a", kind: Kind::Scaled { divisor: 1, unit: Unit::Metre } },
        Column { name: "b", kind: Kind::Number { width: 2 } },
        Column { name: "c", kind: Kind::Code },
    ];
    assert_eq!(
        decode_group(&layout, "1x,yy,9"),
        Err(GroupFault::Column { column: 0, cause: ParseError::Syntax })
    );
    assert_eq!(
        decode_group(&layout, "10,yy,9"),
        Err(GroupFault::Column { column: 1, cause: ParseError::Syntax })
    );
    assert_eq!(decode_group(&layout, "10,99"), Err(GroupFault::Columns { expected: 3, found: 2 }));
    assert_eq!(
        decode_group(&layout, "10,99,9,"),
        Err(GroupFault::Columns { expected: 3, found: 4 })
    );
    let fields = decode_group(&layout, "10,99,9").unwrap();
    assert_eq!(fields.len(), 3);
    assert_eq!(fields[1], Field::Number(Value(None)));
    assert_eq!(fields[2], Field::Code("9".to_string()));
}

#[test]
fn wind_is_read_in_the_order_of_its_columns() {
    let wind = Wind::decode("260,1,N,0500,1").unwrap();
    assert_eq!(as_float(wind.direction.as_ref().unwrap().value()), 260.0);
    assert_eq!(wind.direction_quality, "1");
    assert_eq!(wind.observation_type, "N");
    assert_eq!(as_float(wind.speed.as_ref().unwrap().value()), 50.0);
    assert_eq!(wind.speed.as_ref().unwrap().unit(), "m/s");
    assert_eq!(wind.speed_quality, "1");
    assert_eq!(Wind::decode("260,1,N,0500"), Err(GroupFault::Columns { expected: 5, found: 4 }));
    assert_eq!(
        Wind::decode("260,1,N,05.0.0,1"),
        Err(GroupFault::Column { column: 3, cause: ParseError::Syntax })
    );
    let calm = Wind::decode("999,9,C,9999,9").unwrap();
    assert_eq!(calm.direction, None);
    assert_eq!(calm.speed, None);
    assert_eq!(calm.observation_type, "C");
}

#[test]
fn the_other_mandatory_groups_are_read_too() {
    let ceiling = Ceiling::decode("22000,5,9,N").unwrap();
    assert_eq!(as_float(ceiling.height.as_ref().unwrap().value()), 22000.0);
    assert_eq!(ceiling.height.as_ref().unwrap().unit(), "m");
    assert_eq!((ceiling.quality.as_str(), ceiling.determination.as_str(), ceiling.cavok.as_str()), ("5", "9", "N"));
    let visibility = Visibility::decode("016093,5,N,5").unwrap();
    assert_eq!(as_float(visibility.distance.as_ref().unwrap().value()), 16093.0);
    assert_eq!(visibility.variability, "N");
    let temperature = Temperature::decode("-0032,1").unwrap();
    assert_eq!(as_float(temperature.value.as_ref().unwrap().value()), -3.2);
    assert_eq!(temperature.quality, "1");
    let pressure = SeaLevelPressure::decode("10132,1").unwrap();
    assert_eq!(as_float(pressure.value.as_ref().unwrap().value()), 1013.2);
    assert_eq!(pressure.value.as_ref().unwrap().unit(), "hPa");
    assert_eq!(SeaLevelPressure::decode("99999,9").unwrap().value, None);
}

#[test]
fn a_mandatory_group_is_encoded_member_by_member() {
    let members = Temperature::decode("+0250,1").unwrap().encode();
    let names: Vec<&str> = members.iter().map(|m| m.name.as_str()).collect();
    assert_eq!(names, vec!["value", "quality"]);
    let names: Vec<String> = Wind::layout().iter().map(|c| c.name.to_string()).collect();
    assert_eq!(names, vec!["direction", "direction_quality", "observation_type", "speed", "speed_quality"]);
}

#[test]
fn the_categories_fill_the_slots_of_the_record() {
    let mut slots = 0;
    let mut seen: Vec<String> = Vec::new();
    for ordinal in 0..CATEGORY_COUNT {
        let category = Category::at(ordinal);
        assert!(category.first() >= 1);
        assert!(category.first() + category.count() <= 10);
        assert_eq!(category.prefix().len(), 2);
        assert!(!category.layout().is_empty());
        for k in 0..category.count() {
            let name = Slot { category, occurrence: category.first() + k }.text();
            assert!(!seen.contains(&name), "{}", name);
            seen.push(name);
            slots += 1;
        }
    }
    assert_eq!(slots, 183);
    assert_eq!(Category::at(0), Category::AAX);
    assert_eq!(Category::at(CATEGORY_COUNT - 1), Category::WJ1);
    assert_eq!(Slot { category: Category::COX, occurrence: 9 }.text(), "co9");
    assert_eq!(Slot { category: Category::CN3, occurrence: 3 }.text(), "cn3");
}

#[test]
fn a_group_wants_a_slot_that_exists_and_a_field_for_each_column() {
    let slot = Slot { category: Category::AWX, occurrence: 2 };
    let fields = decode_group(&Category::AWX.layout(), "10,1").unwrap();
    let group = Group::new(slot, fields).unwrap();
    assert_eq!(group.slot(), slot);
    assert_eq!(group.fields().len(), 2);
    assert_eq!(group.encode().name, "aw2");
    assert_eq!(Group::new(slot, vec![Field::Code("1".to_string())]), None);
    let none = Slot { category: Category::AWX, occurrence: 5 };
    let fields = decode_group(&Category::AWX.layout(), "10,1").unwrap();
    assert_eq!(Group::new(none, fields), None);
    let zero = Slot { category: Category::COX, occurrence: 1 };
    let fields = decode_group(&Category::COX.layout(), "017,+0051").unwrap();
    assert_eq!(Group::new(zero, fields), None);
}

#[test]
fn input_codes_are_the_names_in_upper_case() {
    assert_eq!(to_upper('a'), 'A');
    assert_eq!(to_upper('z'), 'Z');
    assert_eq!(to_upper('A'), 'A');
    assert_eq!(to_upper('1'), '1');
    assert_eq!(to_upper('_'), '_');
    assert_eq!(to_upper('é'), 'é');
    assert!(is_code_of("REPORT_TYPE", "report_type"));
    assert!(is_code_of("AA1", "aa1"));
    assert!(!is_code_of("aa1", "aa1"));
    assert!(!is_code_of("AA", "aa1"));
    let input = vec![
        Tagged { code: "TMP".to_string(), raw: "+0250,1".to_string() },
        Tagged { code: "tmp".to_string(), raw: "lower".to_string() },
        Tagged { code: "TMP".to_string(), raw: "second".to_string() },
    ];
    assert_eq!(find(&input, "tmp"), Some("+0250,1"));
    assert_eq!(find(&input, "slp"), None);
}
