use speedtest_influxdb::errors::ParseError;
use speedtest_influxdb::num::Decimal;
use speedtest_influxdb::ping::{build_ping_command, parse_ping_output, Platform};

fn dec(mantissa: u64, scale: u32) -> Decimal {
    Decimal::new(mantissa, scale)
}

#[test]
fn parses_linux_summary() {
    let text = "5 packets transmitted, 5 received, 0% packet loss, time 80ms\n\
                rtt min/avg/max/mdev = 10.1/12.3/15.0/1.2 ms\n";
    let out = parse_ping_output(Platform::Linux, text).expect("should parse");
    assert_eq!(out.packet_loss, dec(0, 2));
    assert_eq!(out.rtt_min, dec(101, 1));
    assert_eq!(out.rtt_avg, dec(123, 1));
    assert_eq!(out.rtt_max, dec(150, 1));
    // The stored values denote exactly 0.0, 10.1, 12.3 and 15.0.
    assert_eq!(out.packet_loss.mantissa as f64 / 100.0, 0.0);
    assert_eq!(out.rtt_min.mantissa as f64 / 10.0, 10.1);
    assert_eq!(out.rtt_avg.mantissa as f64 / 10.0, 12.3);
    assert_eq!(out.rtt_max.mantissa as f64 / 10.0, 15.0);
}

#[test]
fn loss_percentage_is_scaled_to_a_fraction() {
    let text = "10 packets transmitted, 8 received, 20% packet loss, time 100ms\n";
    let out = parse_ping_output(Platform::Linux, text).unwrap();
    // 20% is stored as exactly 20/100 = 0.20.
    assert_eq!(out.packet_loss, dec(20, 2));
    assert_eq!(out.packet_loss.mantissa, 20);
    assert_eq!(out.packet_loss.scale, 2);
}

#[test]
fn parsing_twice_gives_the_same_measurement() {
    let text = "10 packets transmitted, 8 received, 20% packet loss, time 100ms\n\
                rtt min/avg/max/mdev = 10.1/12.3/15.0/1.2 ms\n";
    let first = parse_ping_output(Platform::Linux, text);
    let second = parse_ping_output(Platform::Linux, text);
    assert_eq!(first, second);
    assert_eq!(first.unwrap().packet_loss, dec(20, 2));
}

#[test]
fn full_linux_transcript() {
    let text = "PING a.com (93.184.216.34) 56(84) bytes of data.\n\
                64 bytes from 93.184.216.34: icmp_seq=1 ttl=56 time=11.6 ms\n\
                64 bytes from 93.184.216.34: icmp_seq=2 ttl=56 time=11.2 ms\n\
                \n\
                --- a.com ping statistics ---\n\
                2 packets transmitted, 2 received, 0% packet loss, time 1001ms\n\
                rtt min/avg/max/mdev = 11.207/11.424/11.641/0.217 ms\n";
    let out = parse_ping_output(Platform::Linux, text).unwrap();
    assert_eq!(out.packet_loss, dec(0, 2));
    assert_eq!(out.rtt_min, dec(11207, 3));
    assert_eq!(out.rtt_avg, dec(11424, 3));
    assert_eq!(out.rtt_max, dec(11641, 3));
}

#[test]
fn no_matching_line_yields_zeros() {
    let text = "PING a.com (1.2.3.4) 56(84) bytes of data.\n\
                64 bytes from 1.2.3.4: icmp_seq=1 ttl=56 time=11.6 ms\n";
    let out = parse_ping_output(Platform::Linux, text).expect("empty match is a success");
    assert_eq!(out.packet_loss, dec(0, 2));
    assert_eq!(out.rtt_min, dec(0, 0));
    assert_eq!(out.rtt_avg, dec(0, 0));
    assert_eq!(out.rtt_max, dec(0, 0));
}

#[test]
fn empty_output_yields_zeros() {
    let out = parse_ping_output(Platform::Linux, "").unwrap();
    assert_eq!(out.packet_loss, dec(0, 2));
    assert_eq!(out.rtt_min, dec(0, 0));
}

#[test]
fn windows_summary_parses() {
    let text = "Packets: Sent = 4, Received = 4, Lost = 0 (0% loss),\n\
                Minimum = 10ms, Maximum = 15ms, Average = 12ms\n";
    let out = parse_ping_output(Platform::Windows, text).unwrap();
    assert_eq!(out.packet_loss, dec(0, 2));
    // The three captures land in written order: minimum, maximum, average.
    assert_eq!(out.rtt_min, dec(10, 0));
    assert_eq!(out.rtt_avg, dec(15, 0));
    assert_eq!(out.rtt_max, dec(12, 0));
}

#[test]
fn windows_loss_percentage() {
    let text = "Packets: Sent = 4, Received = 3, Lost = 1 (25% loss),\n";
    let out = parse_ping_output(Platform::Windows, text).unwrap();
    assert_eq!(out.packet_loss, dec(25, 2));
}

#[test]
fn last_matching_line_wins() {
    let text = "5 packets transmitted, 5 received, 10% packet loss, time 80ms\n\
                5 packets transmitted, 5 received, 30% packet loss, time 81ms\n";
    let out = parse_ping_output(Platform::Linux, text).unwrap();
    assert_eq!(out.packet_loss, dec(30, 2));
}

#[test]
fn carriage_returns_are_stripped() {
    let text = "5 packets transmitted, 5 received, 40% packet loss, time 80ms\r\n";
    let out = parse_ping_output(Platform::Linux, text).unwrap();
    assert_eq!(out.packet_loss, dec(40, 2));
}

#[test]
fn malformed_rtt_number_is_an_error() {
    let text = "rtt min/avg/max/mdev = 1.2.3/4.0/5.0/0.1 ms\n";
    let r = parse_ping_output(Platform::Linux, text);
    match r {
        Err(ParseError::InvalidNumber(cap)) => assert_eq!(cap, "1.2.3"),
        other => panic!("expected a number error, got {:?}", other),
    }
}

#[test]
fn oversized_loss_percentage_is_an_error() {
    let text =
        "5 packets transmitted, 5 received, 99999999999999999999% packet loss, time 80ms\n";
    let r = parse_ping_output(Platform::Linux, text);
    assert!(matches!(r, Err(ParseError::InvalidNumber(_))));
}

#[test]
fn linux_command_arguments() {
    let args = build_ping_command(Platform::Linux, "a.com", 32, 5, 2000);
    assert_eq!(
        args,
        vec![
            "-c".to_string(),
            "5".to_string(),
            "-s".to_string(),
            "32".to_string(),
            "-w".to_string(),
            "2".to_string(),
            "a.com".to_string(),
        ]
    );
}

#[test]
fn windows_command_arguments() {
    let args = build_ping_command(Platform::Windows, "b.org", 64, 3, 1500);
    assert_eq!(
        args,
        vec![
            "-n".to_string(),
            "3".to_string(),
            "-l".to_string(),
            "64".to_string(),
            "-w".to_string(),
            "1500".to_string(),
            "b.org".to_string(),
        ]
    );
}
