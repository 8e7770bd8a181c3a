use speedtest_influxdb::num::{
    bool_to_string, decimal_to_string, parse_decimal, u64_to_string, Decimal,
};
use speedtest_influxdb::ping::PingOutput;
use speedtest_influxdb::point::ping_points;
use speedtest_influxdb::speedtest::FieldValue;

fn dec(mantissa: u64, scale: u32) -> Decimal {
    Decimal::new(mantissa, scale)
}

fn parse(s: &str) -> Option<Decimal> {
    let chars: Vec<char> = s.chars().collect();
    parse_decimal(&chars, 0, chars.len())
}

fn measurement(loss_percent: u64) -> PingOutput {
    PingOutput {
        packet_loss: dec(loss_percent, 2),
        rtt_min: dec(101, 1),
        rtt_avg: dec(123, 1),
        rtt_max: dec(150, 1),
    }
}

#[test]
fn two_hosts_give_two_points() {
    let results = vec![
        ("a.com".to_string(), measurement(0)),
        ("b.com".to_string(), measurement(20)),
    ];
    let points = ping_points("ping", &results);
    assert_eq!(points.len(), 2);
    assert_eq!(points[0].name, "ping");
    assert_eq!(points[0].tags, vec![("host".to_string(), "a.com".to_string())]);
    assert_eq!(points[1].tags, vec![("host".to_string(), "b.com".to_string())]);
    assert_eq!(points[0].fields.len(), 4);
    assert_eq!(
        points[0].fields[0],
        ("packet_loss".to_string(), FieldValue::Float(dec(0, 2)))
    );
    assert_eq!(
        points[1].fields[0],
        ("packet_loss".to_string(), FieldValue::Float(dec(20, 2)))
    );
    assert_eq!(
        points[1].fields[3],
        ("rtt_max".to_string(), FieldValue::Float(dec(150, 1)))
    );
}

#[test]
fn no_hosts_give_no_points() {
    let results: Vec<(String, PingOutput)> = Vec::new();
    let points = ping_points("ping", &results);
    assert!(points.is_empty());
}

#[test]
fn decimal_parsing_accepts_plain_forms() {
    assert_eq!(parse("10.1"), Some(dec(101, 1)));
    assert_eq!(parse("0.35"), Some(dec(35, 2)));
    assert_eq!(parse("007.5"), Some(dec(75, 1)));
    assert_eq!(parse("42"), Some(dec(42, 0)));
    assert_eq!(parse(".5"), Some(dec(5, 1)));
    assert_eq!(parse("5."), Some(dec(5, 0)));
}

#[test]
fn decimal_parsing_rejects_malformed_forms() {
    assert_eq!(parse(""), None);
    assert_eq!(parse("."), None);
    assert_eq!(parse("1.2.3"), None);
    assert_eq!(parse("12a"), None);
    assert_eq!(parse("99999999999999999999999"), None);
}

#[test]
fn decimal_formatting_matches_parsing() {
    assert_eq!(decimal_to_string(&dec(101, 1)), "10.1");
    assert_eq!(decimal_to_string(&dec(20, 2)), "0.20");
    assert_eq!(decimal_to_string(&dec(5, 1)), "0.5");
    assert_eq!(decimal_to_string(&dec(5, 3)), "0.005");
    assert_eq!(decimal_to_string(&dec(42, 0)), "42");
    assert_eq!(decimal_to_string(&dec(0, 0)), "0");
}

#[test]
fn integer_formatting() {
    assert_eq!(u64_to_string(0), "0");
    assert_eq!(u64_to_string(4711), "4711");
    assert_eq!(u64_to_string(u64::MAX), "18446744073709551615");
    assert_eq!(bool_to_string(true), "true");
    assert_eq!(bool_to_string(false), "false");
}
