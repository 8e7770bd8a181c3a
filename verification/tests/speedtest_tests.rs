use speedtest_influxdb::config::PartialSpeedtestConfig;
use speedtest_influxdb::num::{parse_decimal, Decimal};
use speedtest_influxdb::speedtest::{
    build_speedtest_command, CliOutput, CliOutputInterface, CliOutputPing, CliOutputResult,
    CliOutputServer, CliOutputUpDown, CliOutputUpDownLatency, FieldValue,
};

fn dec_from_f64(v: f64) -> Decimal {
    let s = format!("{}", v);
    let chars: Vec<char> = s.chars().collect();
    parse_decimal(&chars, 0, chars.len()).expect("finite decimal")
}

fn dec(mantissa: u64, scale: u32) -> Decimal {
    Decimal::new(mantissa, scale)
}

fn sample_output() -> CliOutput {
    CliOutput {
        output_type: "result".to_string(),
        timestamp: "2023-05-01 12:00:00".to_string(),
        ping: CliOutputPing {
            jitter: dec(35, 2),
            latency: dec(101, 1),
            low: dec(98, 1),
            high: dec(112, 1),
        },
        download: CliOutputUpDown {
            bandwidth: dec(1234567, 0),
            bytes: 100000000,
            elapsed: 8000,
            latency: CliOutputUpDownLatency {
                iqm: dec(121, 1),
                low: dec(100, 1),
                high: dec(155, 1),
                jitter: dec(12, 1),
            },
        },
        upload: CliOutputUpDown {
            bandwidth: dec(765432, 0),
            bytes: 50000000,
            elapsed: 7000,
            latency: CliOutputUpDownLatency {
                iqm: dec(140, 1),
                low: dec(120, 1),
                high: dec(180, 1),
                jitter: dec(21, 1),
            },
        },
        packet_loss: dec(0, 0),
        isp: "Example ISP".to_string(),
        interface: CliOutputInterface {
            internal_ip: "192.168.1.2".to_string(),
            name: "eth0".to_string(),
            mac_addr: "aa:bb:cc:dd:ee:ff".to_string(),
            is_vpn: false,
            external_ip: "203.0.113.9".to_string(),
        },
        server: CliOutputServer {
            id: 4711,
            host: "speed.example.net".to_string(),
            port: 8080,
            name: "Example server".to_string(),
            location: "Example City".to_string(),
            country: "Example Country".to_string(),
            ip: "198.51.100.7".to_string(),
        },
        result: CliOutputResult {
            id: "abcdef".to_string(),
            url: "https://example.com/result/abcdef".to_string(),
            persisted: true,
        },
    }
}

fn config_with(fields: &[&str], tags: &[&str]) -> PartialSpeedtestConfig {
    PartialSpeedtestConfig {
        cron: Some("0 0 * * * *".to_string()),
        server: None,
        fields: Some(fields.join(",")),
        tags: Some(tags.join(",")),
    }
}

#[test]
fn point_from_json_blob_round_trip() {
    let blob = r#"{
        "type": "result",
        "timestamp": "2023-05-01T12:00:00Z",
        "ping": {"jitter": 0.35, "latency": 10.1, "low": 9.8, "high": 11.2},
        "download": {"bandwidth": 1234567.0, "bytes": 100000000, "elapsed": 8000,
                     "latency": {"iqm": 12.1, "low": 10.0, "high": 15.5, "jitter": 1.2}},
        "upload": {"bandwidth": 765432.0, "bytes": 50000000, "elapsed": 7000,
                   "latency": {"iqm": 14.0, "low": 12.0, "high": 18.0, "jitter": 2.1}},
        "packetLoss": 0.0,
        "isp": "Example ISP",
        "interface": {"internalIp": "192.168.1.2", "name": "eth0",
                      "macAddr": "aa:bb:cc:dd:ee:ff", "isVpn": false,
                      "externalIp": "203.0.113.9"},
        "server": {"id": 4711, "host": "speed.example.net", "port": 8080,
                   "name": "Example server", "location": "Example City",
                   "country": "Example Country", "ip": "198.51.100.7"},
        "result": {"id": "abcdef", "url": "https://example.com/result/abcdef",
                   "persisted": true}
    }"#;
    let v: serde_json::Value = serde_json::from_str(blob).expect("valid json");
    let bandwidth = v["download"]["bandwidth"].as_f64().unwrap();
    let isp = v["isp"].as_str().unwrap().to_string();

    let data = sample_output();
    let cfg = config_with(&["download_bandwidth"], &["isp"])
        .validate()
        .unwrap()
        .unwrap();
    let point = cfg.build_data_point("speedtest", &data);

    assert_eq!(point.name, "speedtest");
    assert_eq!(point.fields.len(), 1);
    assert_eq!(point.fields[0].0, "download_bandwidth");
    assert_eq!(point.fields[0].1, FieldValue::Float(dec_from_f64(bandwidth)));
    assert_eq!(point.tags.len(), 1);
    assert_eq!(point.tags[0].0, "isp");
    assert_eq!(point.tags[0].1, isp);
}

#[test]
fn unknown_field_name_is_skipped() {
    let data = sample_output();
    let cfg = config_with(&["download_bandwidth", "no_such_leaf"], &["isp", "also_missing"])
        .validate()
        .unwrap()
        .unwrap();
    let point = cfg.build_data_point("speedtest", &data);
    assert_eq!(point.fields.len(), 1);
    assert_eq!(point.fields[0].0, "download_bandwidth");
    assert_eq!(point.tags.len(), 1);
    assert_eq!(point.tags[0].0, "isp");
}

#[test]
fn flattened_fields_cover_every_leaf() {
    let data = sample_output();
    let fields = data.as_fields();
    assert_eq!(fields.len(), 37);
    let get = |name: &str| {
        fields
            .iter()
            .find(|(n, _)| n == name)
            .map(|(_, v)| v)
            .unwrap_or_else(|| panic!("missing field {}", name))
    };
    assert_eq!(*get("output_type"), FieldValue::Str("result".to_string()));
    assert_eq!(*get("ping_jitter"), FieldValue::Float(dec(35, 2)));
    assert_eq!(*get("download_bandwidth"), FieldValue::Float(dec(1234567, 0)));
    assert_eq!(*get("download_bytes"), FieldValue::Int(100000000));
    assert_eq!(*get("upload_latency_jitter"), FieldValue::Float(dec(21, 1)));
    assert_eq!(*get("interface_is_vpn"), FieldValue::Bool(false));
    assert_eq!(*get("server_port"), FieldValue::Int(8080));
    assert_eq!(*get("result_persisted"), FieldValue::Bool(true));
}

#[test]
fn flattened_tags_are_stringified() {
    let data = sample_output();
    let tags = data.as_tags();
    assert_eq!(tags.len(), 35);
    let get = |name: &str| {
        tags.iter()
            .find(|(n, _)| n == name)
            .map(|(_, v)| v.clone())
            .unwrap_or_else(|| panic!("missing tag {}", name))
    };
    assert_eq!(get("packet_loss"), "0");
    assert_eq!(get("isp"), "Example ISP");
    assert_eq!(get("ping_latency"), "10.1");
    assert_eq!(get("ping_jitter"), "0.35");
    assert_eq!(get("download_bytes"), "100000000");
    assert_eq!(get("interface_is_vpn"), "false");
    assert_eq!(get("server_id"), "4711");
    assert_eq!(get("result_persisted"), "true");
    // Type and timestamp never serve as tags.
    assert!(tags.iter().all(|(n, _)| n != "output_type" && n != "timestamp"));
}

#[test]
fn section_records_expose_their_leaves() {
    let data = sample_output();
    let ping_fields = data.ping.as_fields();
    assert_eq!(ping_fields.len(), 4);
    assert_eq!(ping_fields[0].0, "jitter");
    let server_tags = data.server.as_tags();
    assert_eq!(server_tags.len(), 7);
    assert_eq!(server_tags[2], ("port".to_string(), "8080".to_string()));
    let result_fields = data.result.as_fields();
    assert_eq!(result_fields.len(), 3);
    let interface_tags = data.interface.as_tags();
    assert_eq!(interface_tags[3], ("is_vpn".to_string(), "false".to_string()));
    let updown_fields = data.download.as_fields();
    assert_eq!(updown_fields.len(), 7);
    assert_eq!(updown_fields[3].0, "latency_iqm");
    let latency_tags = data.download.latency.as_tags();
    assert_eq!(latency_tags.len(), 4);
}

#[test]
fn speedtest_command_without_server() {
    assert_eq!(
        build_speedtest_command(None),
        vec![
            "--accept-license".to_string(),
            "--accept-gdpr".to_string(),
            "--format=json".to_string(),
        ]
    );
}

#[test]
fn speedtest_command_with_server() {
    assert_eq!(
        build_speedtest_command(Some(4711)),
        vec![
            "--accept-license".to_string(),
            "--accept-gdpr".to_string(),
            "--format=json".to_string(),
            "--server".to_string(),
            "4711".to_string(),
        ]
    );
}
