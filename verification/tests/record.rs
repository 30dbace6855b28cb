use noaa_isd::encoded::{Content, Entry, Item};
use noaa_isd::error::{DecodeError, Fault, GroupFault, ParseError};
use noaa_isd::category::Category;
use noaa_isd::names::{Attribute, Id, Slot, Tagged};
use noaa_isd::rational::Rational;
use noaa_isd::record::{Policy, Record};

fn tagged(code: &str, raw: &str) -> Tagged {
    Tagged { code: code.to_string(), raw: raw.to_string() }
}

fn base_input() -> Vec<Tagged> {
    vec![
        tagged("STATION", "72290023188"),
        tagged("DATE", "202001010053"),
        tagged("SOURCE", "7"),
        tagged("LATITUDE", "32.7336"),
        tagged("LONGITUDE", "-117.1831"),
        tagged("ELEVATION", "4.6"),
        tagged("NAME", "SAN DIEGO INTERNATIONAL AIRPORT"),
        tagged("REPORT_TYPE", "FM-15"),
        tagged("CALL_SIGN", "99999"),
        tagged("QUALITY_CONTROL", "V020"),
        tagged("WND", "260,1,N,0500,1"),
        tagged("CIG", "22000,5,9,N"),
        tagged("VIS", "016093,5,N,5"),
        tagged("TMP", "+0250,1"),
        tagged("SLP", "10132,1"),
    ]
}

fn as_float(q: &Rational) -> f64 {
    q.numerator() as f64 / q.denominator() as f64
}

fn names(entries: &Vec<Entry>) -> Vec<String> {
    entries.iter().map(|e| e.name.clone()).collect()
}

#[test]
fn decode_reads_every_attribute() {
    let record = Record::decode(&base_input()).unwrap();
    assert_eq!(record.station.0, Some("72290023188".to_string()));
    assert_eq!(record.date.year(), 2020);
    assert_eq!(record.date.month(), 1);
    assert_eq!(record.date.day(), 1);
    assert_eq!(record.date.hour(), 0);
    assert_eq!(record.date.minute(), 53);
    assert_eq!(record.source.0, Some("7".to_string()));
    assert_eq!(as_float(record.latitude.0.as_ref().unwrap()), 32.7336);
    assert_eq!(as_float(record.longitude.0.as_ref().unwrap()), -117.1831);
    assert_eq!(as_float(&record.elevation), 4.6);
    assert_eq!(record.name, "SAN DIEGO INTERNATIONAL AIRPORT");
    assert_eq!(record.report_type.0, Some("FM-15".to_string()));
    assert_eq!(record.call_sign.0, None);
    assert_eq!(record.quality_control, "V020");
    assert!(record.optional.is_empty());
}

#[test]
fn decode_scales_the_mandatory_groups() {
    let record = Record::decode(&base_input()).unwrap();
    let direction = record.wnd.direction.as_ref().unwrap();
    assert_eq!(as_float(direction.value()), 260.0);
    assert_eq!(direction.unit(), "deg");
    assert_eq!(record.wnd.direction_quality, "1");
    assert_eq!(record.wnd.observation_type, "N");
    let speed = record.wnd.speed.as_ref().unwrap();
    assert_eq!(as_float(speed.value()), 50.0);
    assert_eq!(speed.unit(), "m/s");
    assert_eq!(record.wnd.speed_quality, "1");
    assert_eq!(as_float(record.cig.height.as_ref().unwrap().value()), 22000.0);
    assert_eq!(record.cig.cavok, "N");
    assert_eq!(as_float(record.vis.distance.as_ref().unwrap().value()), 16093.0);
    let temperature = record.tmp.value.as_ref().unwrap();
    assert_eq!(as_float(temperature.value()), 25.0);
    assert_eq!(temperature.unit(), "degC");
    let pressure = record.slp.value.as_ref().unwrap();
    assert_eq!(as_float(pressure.value()), 1013.2);
    assert_eq!(pressure.unit(), "hPa");
}

#[test]
fn missing_values_of_mandatory_groups_are_absent() {
    let mut input = base_input();
    input[10] = tagged("WND", "999,9,9,9999,9");
    input[13] = tagged("TMP", "+9999,9");
    input[14] = tagged("SLP", "99999,9");
    let record = Record::decode(&input).unwrap();
    assert_eq!(record.wnd.direction, None);
    assert_eq!(record.wnd.speed, None);
    assert_eq!(record.wnd.speed_quality, "9");
    assert_eq!(record.tmp.value, None);
    assert_eq!(record.slp.value, None);
}

#[test]
fn a_missing_attribute_fails_the_record() {
    let mut input = base_input();
    input.remove(12);
    let e = Record::decode(&input).unwrap_err();
    assert_eq!(
        e,
        DecodeError {
            field: Id::Attribute(Attribute::Vis),
            raw: String::new(),
            fault: Fault::Missing
        }
    );
}

#[test]
fn a_wrong_column_count_fails_the_record() {
    let mut input = base_input();
    input[10] = tagged("WND", "260,1,N,0500");
    let e = Record::decode(&input).unwrap_err();
    assert_eq!(e.field, Id::Attribute(Attribute::Wnd));
    assert_eq!(e.raw, "260,1,N,0500");
    assert_eq!(e.fault, Fault::Group(GroupFault::Columns { expected: 5, found: 4 }));
}

#[test]
fn a_malformed_mandatory_value_fails_the_record() {
    let mut input = base_input();
    input[13] = tagged("TMP", "+02x0,1");
    let e = Record::decode(&input).unwrap_err();
    assert_eq!(e.field, Id::Attribute(Attribute::Tmp));
    assert_eq!(e.raw, "+02x0,1");
    assert_eq!(
        e.fault,
        Fault::Group(GroupFault::Column { column: 0, cause: ParseError::Syntax })
    );
}

#[test]
fn a_malformed_timestamp_fails_the_record() {
    let mut input = base_input();
    input[1] = tagged("DATE", "202002300000");
    let e = Record::decode(&input).unwrap_err();
    assert_eq!(e.field, Id::Attribute(Attribute::Date));
    assert_eq!(e.fault, Fault::Timestamp);
}

#[test]
fn a_malformed_scalar_fails_the_record() {
    let mut input = base_input();
    input[3] = tagged("LATITUDE", "north");
    let e = Record::decode(&input).unwrap_err();
    assert_eq!(e.field, Id::Attribute(Attribute::Latitude));
    assert_eq!(e.raw, "north");
    assert_eq!(e.fault, Fault::Scalar(ParseError::Syntax));
}

#[test]
fn a_malformed_optional_value_fails_the_record() {
    let mut input = base_input();
    input.push(tagged("AA1", "01,00x0,9,5"));
    let e = Record::decode(&input).unwrap_err();
    assert_eq!(e.field, Id::Slot(Slot { category: Category::AAX, occurrence: 1 }));
    assert_eq!(e.raw, "01,00x0,9,5");
    assert_eq!(
        e.fault,
        Fault::Group(GroupFault::Column { column: 1, cause: ParseError::Syntax })
    );
}

#[test]
fn input_codes_are_upper_case() {
    let mut input = base_input();
    input[0] = tagged("station", "72290023188");
    let e = Record::decode(&input).unwrap_err();
    assert_eq!(e.field, Id::Attribute(Attribute::Station));
    assert_eq!(e.fault, Fault::Missing);
}

#[test]
fn encode_names_the_attributes_in_lower_case() {
    let record = Record::decode(&base_input()).unwrap();
    let entries = record.encode();
    assert_eq!(
        names(&entries),
        vec![
            "station",
            "date",
            "source",
            "latitude",
            "longitude",
            "elevation",
            "name",
            "report_type",
            "call_sign",
            "quality_control",
            "wnd",
            "cig",
            "vis",
            "tmp",
            "slp"
        ]
    );
    assert_eq!(entries[1].content, Content::Item(Item::Text("202001010053".to_string())));
    assert_eq!(entries[8].content, Content::Item(Item::Null));
    match &entries[10].content {
        Content::Group(members) => {
            assert_eq!(members.len(), 5);
            assert_eq!(members[3].name, "speed");
            match &members[3].item {
                Item::Quantity { value, unit } => {
                    assert_eq!(as_float(value), 50.0);
                    assert_eq!(unit, "m/s");
                }
                other => panic!("speed is {:?}", other),
            }
            assert_eq!(members[4].name, "speed_quality");
            assert_eq!(members[4].item, Item::Text("1".to_string()));
        }
        other => panic!("wnd is {:?}", other),
    }
}

#[test]
fn an_absent_slot_has_no_entry() {
    let record = Record::decode(&base_input()).unwrap();
    let entries = record.encode();
    assert!(!names(&entries).contains(&"aa1".to_string()));
    assert_eq!(entries.len(), 15);
}

#[test]
fn a_filled_slot_has_an_entry_with_the_decoded_group() {
    let mut input = base_input();
    input.push(tagged("AA1", "01,0025,9,5"));
    let record = Record::decode(&input).unwrap();
    assert_eq!(record.optional.len(), 1);
    assert_eq!(record.optional[0].slot(), Slot { category: Category::AAX, occurrence: 1 });
    let entries = record.encode();
    assert_eq!(entries.len(), 16);
    assert_eq!(entries[15].name, "aa1");
    assert_eq!(entries[15].id, Id::Slot(Slot { category: Category::AAX, occurrence: 1 }));
    match &entries[15].content {
        Content::Group(members) => {
            let member_names: Vec<&str> = members.iter().map(|m| m.name.as_str()).collect();
            assert_eq!(member_names, vec!["period", "depth", "condition", "quality"]);
            match &members[0].item {
                Item::Quantity { value, unit } => {
                    assert_eq!(as_float(value), 1.0);
                    assert_eq!(unit, "h");
                }
                other => panic!("period is {:?}", other),
            }
            match &members[1].item {
                Item::Quantity { value, unit } => {
                    assert_eq!(as_float(value), 2.5);
                    assert_eq!(unit, "mm");
                }
                other => panic!("depth is {:?}", other),
            }
            assert_eq!(members[2].item, Item::Text("9".to_string()));
            assert_eq!(members[3].item, Item::Text("5".to_string()));
        }
        other => panic!("aa1 is {:?}", other),
    }
}

#[test]
fn slots_of_one_category_are_independent() {
    let mut input = base_input();
    input.push(tagged("AA3", "24,0100,9,5"));
    input.push(tagged("AA1", "01,9999,9,9"));
    let record = Record::decode(&input).unwrap();
    let entries = record.encode();
    assert_eq!(names(&entries)[15..], ["aa1".to_string(), "aa3".to_string()]);
    match &entries[15].content {
        Content::Group(members) => assert_eq!(members[1].item, Item::Null),
        other => panic!("aa1 is {:?}", other),
    }
}

#[test]
fn slots_are_encoded_in_canonical_order() {
    let mut input = base_input();
    input.push(tagged("WJ1", "999,99999,99,99,+9999,9,9"));
    input.push(tagged("CO3", "017,+0051"));
    input.push(tagged("CO1", "05,-08"));
    input.push(tagged("IA2", "240,-0015,1"));
    input.push(tagged("MW2", "10,1"));
    let record = Record::decode(&input).unwrap();
    let entries = record.encode();
    let tail: Vec<String> = names(&entries)[15..].to_vec();
    assert_eq!(tail, vec!["mw2", "co1", "co3", "ia2", "wj1"]);
}

#[test]
fn encoding_twice_gives_the_same_entries() {
    let mut input = base_input();
    input.push(tagged("GA1", "07,5,+00800,5,99,9"));
    let first = Record::decode(&input).unwrap().encode();
    let second = Record::decode(&input).unwrap().encode();
    assert_eq!(first, second);
}

#[test]
fn the_omit_policy_leaves_a_malformed_slot_out() {
    let mut input = base_input();
    input.push(tagged("AA1", "01,00x0,9,5"));
    input.push(tagged("AA2", "06,0010,9,5"));
    assert!(Record::decode_with(&input, Policy::Fail).is_err());
    let record = Record::decode_with(&input, Policy::Omit).unwrap();
    assert_eq!(record.optional.len(), 1);
    assert_eq!(record.optional[0].slot(), Slot { category: Category::AAX, occurrence: 2 });
    let tail: Vec<String> = names(&record.encode())[15..].to_vec();
    assert_eq!(tail, vec!["aa2"]);
}

#[test]
fn the_omit_policy_still_fails_on_a_malformed_mandatory_group() {
    let mut input = base_input();
    input[14] = tagged("SLP", "1013x,1");
    let e = Record::decode_with(&input, Policy::Omit).unwrap_err();
    assert_eq!(e.field, Id::Attribute(Attribute::Slp));
}

#[test]
fn the_first_segment_of_a_code_is_the_one_decoded() {
    let mut input = base_input();
    input.push(tagged("SOURCE", "4"));
    let record = Record::decode(&input).unwrap();
    assert_eq!(record.source.0, Some("7".to_string()));
}

#[test]
fn every_slot_of_every_category_decodes_when_filled_with_sentinels() {
    let mut input = base_input();
    let mut expected: Vec<String> = Vec::new();
    for ordinal in 0..noaa_isd::category::CATEGORY_COUNT {
        let category = Category::at(ordinal);
        let columns = category.layout().len();
        let raw = vec!["9"; columns].join(",");
        for k in 0..category.count() {
            let slot = Slot { category, occurrence: category.first() + k };
            let name = slot.text();
            input.push(tagged(&name.to_uppercase(), &raw));
            expected.push(name);
        }
    }
    assert_eq!(expected.len(), 183);
    let record = Record::decode(&input).unwrap();
    assert_eq!(record.optional.len(), 183);
    let tail: Vec<String> = names(&record.encode())[15..].to_vec();
    assert_eq!(tail, expected);
}
