use noaa_isd::timestamp::Timestamp;

fn fields(t: &Timestamp) -> (u16, u8, u8, u8, u8) {
    (t.year(), t.month(), t.day(), t.hour(), t.minute())
}

#[test]
fn timestamp_reads_the_fixed_pattern() {
    let t = Timestamp::parse("202001010053").unwrap();
    assert_eq!(fields(&t), (2020, 1, 1, 0, 53));
    let t = Timestamp::parse("199912312359").unwrap();
    assert_eq!(fields(&t), (1999, 12, 31, 23, 59));
    let t = Timestamp::parse("000001010000").unwrap();
    assert_eq!(fields(&t), (0, 1, 1, 0, 0));
}

#[test]
fn timestamp_rejects_other_shapes() {
    for text in ["", "20200101005", "2020010100530", "2020-01-01T00:53", "20200101 053", "+20200101005", "2020010100a3"] {
        assert_eq!(Timestamp::parse(text), None, "{:?}", text);
    }
}

#[test]
fn timestamp_rejects_what_the_calendar_lacks() {
    for text in ["202000010000", "202013010000", "202001000000", "202001320000", "202004310000", "201902290000", "190002290000", "202001012400", "202001010060"] {
        assert_eq!(Timestamp::parse(text), None, "{:?}", text);
    }
}

#[test]
fn timestamp_knows_leap_years() {
    assert!(Timestamp::parse("202002290000").is_some());
    assert!(Timestamp::parse("200002290000").is_some());
    assert!(Timestamp::parse("240002291200").is_some());
    assert!(Timestamp::parse("210002290000").is_none());
}

#[test]
fn timestamp_writes_the_fixed_pattern() {
    assert_eq!(Timestamp::parse("202001010053").unwrap().format(), "202001010053");
    assert_eq!(Timestamp::parse("000512310907").unwrap().format(), "000512310907");
}

#[test]
fn formatting_then_parsing_gives_the_same_time() {
    for text in ["202001010053", "199912312359", "000001010000", "999912312359", "202002291234"] {
        let t = Timestamp::parse(text).unwrap();
        assert_eq!(Timestamp::parse(&t.format()), Some(t));
    }
}
