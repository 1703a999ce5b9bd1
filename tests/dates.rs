use eterea_core::{Error, JsonParser, LegacyCsvParser, NewCsvParser};

fn day(ts: i64) -> String {
    chrono::DateTime::from_timestamp(ts, 0).unwrap().format("%Y-%m-%d").to_string()
}

#[test]
fn test_legacy_date_parsing() {
    let parser = LegacyCsvParser::new();
    let result = parser.parse_legacy_date("02:51 PM, May 01, 2024");
    assert!(result.is_ok());
    let dt = result.unwrap();
    assert_eq!(day(dt), "2024-05-01");
}

#[test]
fn test_new_date_parsing() {
    let parser = NewCsvParser::new();
    let result = parser.parse_new_date("2025-08-25T10:52:35.000Z");
    assert!(result.is_ok());
    let dt = result.unwrap();
    assert_eq!(day(dt), "2025-08-25");
}

#[test]
fn legacy_date_both_orders_agree() {
    let parser = LegacyCsvParser::new();
    let a = parser.parse_legacy_date("02:51 PM, May 01, 2024").unwrap();
    let b = parser.parse_legacy_date("May 01, 2024 02:51 PM").unwrap();
    assert_eq!(a, b);
    assert_eq!(a, 1714575060);
}

#[test]
fn legacy_date_strips_quotes_and_whitespace() {
    let parser = LegacyCsvParser::new();
    assert_eq!(parser.parse_legacy_date("  \"02:51 PM, May 01, 2024\" ").unwrap(), 1714575060);
}

#[test]
fn legacy_date_falls_back_to_rfc3339() {
    let parser = LegacyCsvParser::new();
    assert_eq!(parser.parse_legacy_date("2024-05-01T14:51:00Z").unwrap(), 1714575060);
}

#[test]
fn new_date_bare_timestamp() {
    let parser = NewCsvParser::new();
    assert_eq!(parser.parse_new_date("2025-08-25T10:52:35").unwrap(), 1756119155);
}

#[test]
fn unparseable_date_is_an_error() {
    let parser = NewCsvParser::new();
    assert_eq!(parser.parse_new_date(" yesterday "), Err(Error::DateParse("yesterday".to_string())));
    let legacy = LegacyCsvParser::new();
    assert!(matches!(legacy.parse_legacy_date("soon"), Err(Error::DateParse(_))));
}

#[test]
fn json_dates() {
    let parser = JsonParser::new();
    assert_eq!(parser.parse_date(&Some("Wed Oct 10 20:19:24 +0000 2018".to_string())).unwrap(), 1539202764);
    assert_eq!(parser.parse_date(&Some("2018-10-10T20:19:24+00:00".to_string())).unwrap(), 1539202764);
    assert!(matches!(parser.parse_date(&None), Err(Error::Other(_))));
    assert!(matches!(parser.parse_date(&Some("nope".to_string())), Err(Error::DateParse(_))));
}
