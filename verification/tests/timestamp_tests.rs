use workflow_report::timestamp::{parse, Timestamp};

fn ts(
    year: u32,
    month: u32,
    day: u32,
    hour: u32,
    minute: u32,
    second: u32,
    millis: u32,
    offset_minutes: i32,
) -> Timestamp {
    Timestamp { year, month, day, hour, minute, second, millis, offset_minutes }
}

#[test]
fn parses_fractional_utc_shape() {
    let t = parse("2024-01-15T10:30:00.123Z").unwrap();
    assert_eq!(t, ts(2024, 1, 15, 10, 30, 0, 123, 0));
    assert_eq!(t.epoch_millis(), 1705314600123);
}

#[test]
fn parses_plain_utc_shape() {
    let t = parse("2024-01-15T10:30:00Z").unwrap();
    assert_eq!(t, ts(2024, 1, 15, 10, 30, 0, 0, 0));
    assert_eq!(t.epoch_millis(), 1705314600000);
}

#[test]
fn parses_fractional_offset_shape() {
    let t = parse("2024-01-15T10:30:00.123+00:00").unwrap();
    assert_eq!(t, ts(2024, 1, 15, 10, 30, 0, 123, 0));
    assert_eq!(t.epoch_millis(), 1705314600123);
}

#[test]
fn parses_plain_offset_shape() {
    let t = parse("2024-01-15T10:30:00+00:00").unwrap();
    assert_eq!(t, ts(2024, 1, 15, 10, 30, 0, 0, 0));
    assert_eq!(t.epoch_millis(), 1705314600000);
}

#[test]
fn positive_offset_shifts_instant_back() {
    let t = parse("2024-01-15T10:30:00+05:30").unwrap();
    assert_eq!(t.offset_minutes, 330);
    assert_eq!(t.epoch_millis(), 1705314600000 - 330 * 60000);
}

#[test]
fn negative_offset_shifts_instant_forward() {
    let t = parse("2024-01-15T10:30:00-05:30").unwrap();
    assert_eq!(t.offset_minutes, -330);
    assert_eq!(t.epoch_millis(), 1705314600000 + 330 * 60000);
}

#[test]
fn zulu_and_substituted_offset_agree() {
    let with_z = parse("2024-01-15T10:30:00Z").unwrap();
    let with_offset = parse("2024-01-15T10:30:00+00:00").unwrap();
    assert_eq!(with_z.epoch_millis(), with_offset.epoch_millis());

    let frac_z = parse("2024-01-15T10:30:00.456Z").unwrap();
    let frac_offset = parse("2024-01-15T10:30:00.456+00:00").unwrap();
    assert_eq!(frac_z.epoch_millis(), frac_offset.epoch_millis());
}

#[test]
fn rejects_unrecognized_text() {
    assert!(parse("").is_err());
    assert!(parse("not a timestamp").is_err());
    assert!(parse("2024-01-15 10:30:00Z").is_err());
    assert!(parse("2024-01-15T10:30:00").is_err());
    assert!(parse("2024-01-15T10:30:00.12Z").is_err());
    assert!(parse("2024-01-15T10:30:00+0000").is_err());
    assert!(parse("2024-01-15T10:30:00.123456Z").is_err());
    assert!(parse("15-01-2024T10:30:00Z").is_err());
}

#[test]
fn rejects_out_of_range_fields() {
    assert!(parse("2024-13-15T10:30:00Z").is_err());
    assert!(parse("2024-00-15T10:30:00Z").is_err());
    assert!(parse("2024-01-00T10:30:00Z").is_err());
    assert!(parse("2024-01-32T10:30:00Z").is_err());
    assert!(parse("2024-04-31T10:30:00Z").is_err());
    assert!(parse("2024-01-15T24:30:00Z").is_err());
    assert!(parse("2024-01-15T10:60:00Z").is_err());
    assert!(parse("2024-01-15T10:30:60Z").is_err());
    assert!(parse("2024-01-15T10:30:00+24:00").is_err());
    assert!(parse("2024-01-15T10:30:00+05:60").is_err());
}

#[test]
fn leap_year_rules_decide_february() {
    let t = parse("2024-02-29T00:00:00Z").unwrap();
    assert_eq!(t.epoch_millis(), 1709164800000);
    assert!(parse("2023-02-29T00:00:00Z").is_err());
    assert!(parse("2000-02-29T00:00:00Z").is_ok());
    assert!(parse("1900-02-29T00:00:00Z").is_err());
}

#[test]
fn epoch_day_boundaries() {
    let t = parse("1970-01-01T00:00:00Z").unwrap();
    assert_eq!(t.epoch_millis(), 0);
    let before = parse("1969-12-31T23:59:59Z").unwrap();
    assert_eq!(before.epoch_millis(), -1000);
}
