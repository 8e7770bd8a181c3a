use speedtest_influxdb::config::{
    Config, LogLevel, PartialConfig, PartialPingConfig, PartialSpeedtestConfig,
};
use speedtest_influxdb::config::parse_http_url;
use speedtest_influxdb::errors::{ConfigError, ConfigField};
use speedtest_influxdb::text::parse_comma_list;

fn raw_ping(cron: Option<&str>, hosts: Option<&str>) -> PartialPingConfig {
    PartialPingConfig {
        cron: cron.map(|s| s.to_string()),
        hosts: hosts.map(|s| s.to_string()),
        timeout: None,
        bytes: None,
        count: None,
    }
}

fn raw_speedtest(
    cron: Option<&str>,
    server: Option<u64>,
    fields: Option<&str>,
    tags: Option<&str>,
) -> PartialSpeedtestConfig {
    PartialSpeedtestConfig {
        cron: cron.map(|s| s.to_string()),
        server,
        fields: fields.map(|s| s.to_string()),
        tags: tags.map(|s| s.to_string()),
    }
}

#[test]
fn ping_both_unset_disables() {
    let r = raw_ping(None, None).validate();
    assert!(matches!(r, Ok(None)));
}

#[test]
fn ping_only_cron_fails() {
    let r = raw_ping(Some("0 * * * * *"), None).validate();
    match r {
        Err(ConfigError::MissingRequiredField(ConfigField::PingHosts)) => {}
        other => panic!("expected missing hosts, got {:?}", other),
    }
    let e = r.unwrap_err();
    assert_eq!(e.message(), "PING_HOSTS is required for \"PING_\" parameters");
}

#[test]
fn ping_only_hosts_fails() {
    let r = raw_ping(None, Some("a.com")).validate();
    match r {
        Err(ConfigError::MissingRequiredField(ConfigField::PingCron)) => {}
        other => panic!("expected missing cron, got {:?}", other),
    }
    let e = r.unwrap_err();
    assert_eq!(e.message(), "PING_CRON is required for \"PING_\" parameters");
}

#[test]
fn ping_both_set_valid() {
    let r = raw_ping(Some("0 * * * * *"), Some("a.com,b.com")).validate();
    let cfg = r.expect("should validate").expect("should be enabled");
    assert_eq!(cfg.cron, "0 * * * * *");
    assert_eq!(cfg.hosts, vec!["a.com".to_string(), "b.com".to_string()]);
    assert_eq!(cfg.timeout_ms, 1000);
    assert_eq!(cfg.bytes, 32);
    assert_eq!(cfg.count, 5);
}

#[test]
fn ping_explicit_parameters_kept() {
    let mut raw = raw_ping(Some("* * * * * *"), Some("127.0.0.1"));
    raw.timeout = Some(2500);
    raw.bytes = Some(64);
    raw.count = Some(3);
    let cfg = raw.validate().unwrap().unwrap();
    assert_eq!(cfg.timeout_ms, 2500);
    assert_eq!(cfg.bytes, 64);
    assert_eq!(cfg.count, 3);
}

#[test]
fn ping_invalid_host_fails() {
    let r = raw_ping(Some("0 * * * * *"), Some("a.com,[bad")).validate();
    match r {
        Err(ConfigError::InvalidHost(_)) => {}
        other => panic!("expected invalid host, got {:?}", other),
    }
}

#[test]
fn speedtest_server_alone_fails() {
    let r = raw_speedtest(None, Some(1234), None, None).validate();
    match r {
        Err(ConfigError::DependentField) => {}
        other => panic!("expected dependent-field error, got {:?}", other),
    }
    let e = r.unwrap_err();
    assert_eq!(
        e.message(),
        "SPEEDTEST_SERVER requires other \"SPEEDTEST_\" parameters"
    );
}

#[test]
fn speedtest_all_unset_disables() {
    let r = raw_speedtest(None, None, None, None).validate();
    assert!(matches!(r, Ok(None)));
}

#[test]
fn speedtest_full_configuration() {
    let r = raw_speedtest(
        Some("0 0 * * * *"),
        Some(7),
        Some("download_bandwidth,upload_bandwidth"),
        Some("isp"),
    )
    .validate();
    let cfg = r.unwrap().unwrap();
    assert_eq!(cfg.cron, "0 0 * * * *");
    assert_eq!(cfg.server, Some(7));
    assert_eq!(
        cfg.fields,
        vec!["download_bandwidth".to_string(), "upload_bandwidth".to_string()]
    );
    assert_eq!(cfg.tags, vec!["isp".to_string()]);
}

#[test]
fn speedtest_partial_fails() {
    let r = raw_speedtest(Some("0 * * * * *"), None, None, Some("isp")).validate();
    match r {
        Err(ConfigError::MissingRequiredField(ConfigField::SpeedtestFields)) => {}
        other => panic!("expected missing fields, got {:?}", other),
    }
    let r = raw_speedtest(Some("0 * * * * *"), None, Some("isp"), None).validate();
    match r {
        Err(ConfigError::MissingRequiredField(ConfigField::SpeedtestTags)) => {}
        other => panic!("expected missing tags, got {:?}", other),
    }
    let r = raw_speedtest(None, None, Some("isp"), Some("isp")).validate();
    match r {
        Err(ConfigError::MissingRequiredField(ConfigField::SpeedtestCron)) => {}
        other => panic!("expected missing cron, got {:?}", other),
    }
}

#[test]
fn url_http_and_https_accepted() {
    assert_eq!(
        parse_http_url("http://localhost:8086").unwrap(),
        "http://localhost:8086"
    );
    assert_eq!(
        parse_http_url("https://influx.example.com/").unwrap(),
        "https://influx.example.com/"
    );
}

#[test]
fn url_other_scheme_rejected() {
    let r = parse_http_url("ftp://example.com");
    match r {
        Err(ConfigError::InvalidUrlScheme) => {}
        other => panic!("expected scheme error, got {:?}", other),
    }
    assert_eq!(
        r.unwrap_err().message(),
        "URL scheme must be http or https"
    );
}

#[test]
fn url_garbage_rejected() {
    let r = parse_http_url("not a url");
    assert!(matches!(r, Err(ConfigError::InvalidUrl(_))));
}

#[test]
fn whole_config_validates() {
    let raw = PartialConfig {
        influxdb_url: "http://localhost:8086".to_string(),
        influxdb_token: "SECRET-REDACTED".to_string(),
        influxdb_org: "org".to_string(),
        influxdb_bucket: "speedtest".to_string(),
        log_level: LogLevel::Info,
        speedtest: raw_speedtest(Some("0 0 * * * *"), None, Some("download_bandwidth"), Some("isp")),
        ping: raw_ping(Some("0 * * * * *"), Some("a.com")),
    };
    let cfg: Config = raw.validate().expect("should validate");
    assert_eq!(cfg.influxdb_url, "http://localhost:8086");
    assert_eq!(cfg.influxdb_bucket, "speedtest");
    assert_eq!(cfg.log_level, LogLevel::Info);
    assert!(cfg.speedtest.is_some());
    assert!(cfg.ping.is_some());
}

#[test]
fn whole_config_rejects_bad_url() {
    let raw = PartialConfig {
        influxdb_url: "gopher://old.example.com".to_string(),
        influxdb_token: String::new(),
        influxdb_org: "org".to_string(),
        influxdb_bucket: "speedtest".to_string(),
        log_level: LogLevel::Debug,
        speedtest: raw_speedtest(None, None, None, None),
        ping: raw_ping(None, None),
    };
    assert!(matches!(raw.validate(), Err(ConfigError::InvalidUrlScheme)));
}

#[test]
fn comma_list_keeps_every_segment() {
    assert_eq!(
        parse_comma_list("a,b,,c"),
        vec!["a".to_string(), "b".to_string(), "".to_string(), "c".to_string()]
    );
    assert_eq!(parse_comma_list(""), vec!["".to_string()]);
    assert_eq!(parse_comma_list("single"), vec!["single".to_string()]);
}
