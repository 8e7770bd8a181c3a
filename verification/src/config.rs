//! Configuration validation.
//!
//! Raw configuration arrives as optional strings and numbers. Validation
//! turns it into one fully populated configuration per enabled service
//! kind, or rejects it: a kind is either fully present or fully absent,
//! never partial.

use vstd::prelude::*;

use crate::errors::ConfigError;
use crate::errors::ConfigField;
use crate::text::parse_comma_list;
use crate::text::split_on;

verus! {

/// Milliseconds the ping command waits before giving up, when unset.
pub const DEFAULT_PING_TIMEOUT_MS: u64 = 1000;

/// Payload bytes of each ping probe, when unset.
pub const DEFAULT_PING_BYTES: usize = 32;

/// Probes sent to each host per run, when unset.
pub const DEFAULT_PING_COUNT: usize = 5;

/// Whether a string is a valid hostname or IP literal, as the URL host
/// grammar defines it.
pub uninterp spec fn host_syntax_ok(s: Seq<char>) -> bool;

/// Relies on url::Host::parse: whether a string parses as a hostname or
/// IP literal is a function of its characters alone. The error text is
/// the parser's description.
#[verifier::external_body]
fn check_host(s: &str) -> (r: Result<(), String>)
    ensures
        r is Ok <==> host_syntax_ok(s@),
{
    match url::Host::parse(s) {
        Ok(_) => Ok(()),
        Err(e) => Err(e.to_string()),
    }
}

/// The scheme of the URL a string parses as, or nothing when it does not
/// parse as an absolute URL.
pub uninterp spec fn url_scheme_of(s: Seq<char>) -> Option<Seq<char>>;

/// Relies on url::Url::parse and url::Url::scheme: whether a string
/// parses as an absolute URL, and the scheme of the result, are functions
/// of its characters alone. The error text is the parser's description.
#[verifier::external_body]
fn parse_url_scheme(s: &str) -> (r: Result<String, String>)
    ensures
        r is Ok <==> url_scheme_of(s@) is Some,
        r matches Ok(sch) ==> url_scheme_of(s@) == Some(sch@),
{
    match url::Url::parse(s) {
        Ok(u) => Ok(u.scheme().to_string()),
        Err(e) => Err(e.to_string()),
    }
}

/// Raw ping configuration, one field per external input.
#[derive(Clone, Debug)]
pub struct PartialPingConfig {
    pub cron: Option<String>,
    pub hosts: Option<String>,
    pub timeout: Option<u64>,
    pub bytes: Option<usize>,
    pub count: Option<usize>,
}

/// Validated ping configuration: a cron expression, at least the split
/// host list, and the probe parameters with defaults applied.
#[derive(Clone, Debug)]
pub struct PingConfig {
    pub cron: String,
    pub hosts: Vec<String>,
    pub timeout_ms: u64,
    pub bytes: usize,
    pub count: usize,
}

/// Whether every comma-separated segment of a host list is a valid host.
pub open spec fn hosts_all_valid(hosts: Seq<char>) -> bool {
    forall|i: int|
        0 <= i < split_on(hosts, ',').len() ==> host_syntax_ok(#[trigger] split_on(hosts, ',')[i])
}

/// Whether raw ping configuration is accepted: both of cron and hosts
/// absent (the kind stays disabled), or both present with every host
/// segment valid.
pub open spec fn ping_accepts(c: PartialPingConfig) -> bool {
    ||| (c.cron is None && c.hosts is None)
    ||| (c.cron is Some && c.hosts is Some && hosts_all_valid(c.hosts.unwrap()@))
}

/// How an accepted ping configuration relates to its raw form.
pub open spec fn ping_outcome(c: PartialPingConfig, o: Option<PingConfig>) -> bool {
    match o {
        None => c.cron is None && c.hosts is None,
        Some(pc) => {
            &&& c.cron is Some
            &&& c.hosts is Some
            &&& pc.cron == c.cron.unwrap()
            &&& pc.hosts.deep_view() == split_on(c.hosts.unwrap()@, ',')
            &&& pc.timeout_ms == (if c.timeout is Some {
                c.timeout.unwrap()
            } else {
                DEFAULT_PING_TIMEOUT_MS
            })
            &&& pc.bytes == (if c.bytes is Some {
                c.bytes.unwrap()
            } else {
                DEFAULT_PING_BYTES
            })
            &&& pc.count == (if c.count is Some {
                c.count.unwrap()
            } else {
                DEFAULT_PING_COUNT
            })
        },
    }
}

/// Which error a rejected raw ping configuration earns.
pub open spec fn ping_error(c: PartialPingConfig, e: ConfigError) -> bool {
    if c.cron is None && c.hosts is Some {
        e == ConfigError::MissingRequiredField(ConfigField::PingCron)
    } else if c.cron is Some && c.hosts is None {
        e == ConfigError::MissingRequiredField(ConfigField::PingHosts)
    } else {
        e matches ConfigError::InvalidHost(_)
    }
}

impl PartialPingConfig {
    /// Validates the raw ping configuration: disabled when cron and hosts
    /// are both absent, rejected when exactly one is set or a host
    /// segment is invalid, and fully populated otherwise.
    pub fn validate(&self) -> (r: Result<Option<PingConfig>, ConfigError>)
        ensures
            r is Ok <==> ping_accepts(*self),
            r matches Ok(o) ==> ping_outcome(*self, o),
            r matches Err(e) ==> ping_error(*self, e),
    {
        match (&self.cron, &self.hosts) {
            (None, None) => Ok(None),
            (None, Some(_)) => Err(ConfigError::MissingRequiredField(ConfigField::PingCron)),
            (Some(_), None) => Err(ConfigError::MissingRequiredField(ConfigField::PingHosts)),
            (Some(cron), Some(hosts)) => {
                let segs = parse_comma_list(hosts.as_str());
                let ghost seg_views = split_on(hosts@, ',');
                let mut i: usize = 0;
                while i < segs.len()
                    invariant
                        i <= segs.len(),
                        self.cron is Some,
                        self.hosts is Some,
                        seg_views == split_on(self.hosts.unwrap()@, ','),
                        segs.deep_view() == seg_views,
                        forall|j: int| 0 <= j < i ==> host_syntax_ok(#[trigger] seg_views[j]),
                    decreases segs.len() - i,
                {
                    match check_host(segs[i].as_str()) {
                        Ok(_) => {
                        },
                        Err(m) => {
                            proof {
                                assert(!host_syntax_ok(seg_views[i as int]));
                            }
                            return Err(ConfigError::InvalidHost(m));
                        },
                    }
                    i = i + 1;
                }
                let timeout_ms: u64 = match self.timeout {
                    Some(t) => t,
                    None => DEFAULT_PING_TIMEOUT_MS,
                };
                let bytes: usize = match self.bytes {
                    Some(b) => b,
                    None => DEFAULT_PING_BYTES,
                };
                let count: usize = match self.count {
                    Some(n) => n,
                    None => DEFAULT_PING_COUNT,
                };
                Ok(
                    Some(
                        PingConfig {
                            cron: cron.clone(),
                            hosts: segs,
                            timeout_ms,
                            bytes,
                            count,
                        },
                    ),
                )
            },
        }
    }
}

/// Raw speedtest configuration, one field per external input.
#[derive(Clone, Debug)]
pub struct PartialSpeedtestConfig {
    pub cron: Option<String>,
    pub server: Option<u64>,
    pub fields: Option<String>,
    pub tags: Option<String>,
}

/// Validated speedtest configuration: a cron expression, an optional
/// server id, and the requested field and tag names.
#[derive(Clone, Debug)]
pub struct SpeedtestConfig {
    pub cron: String,
    pub server: Option<u64>,
    pub fields: Vec<String>,
    pub tags: Vec<String>,
}

/// Whether raw speedtest configuration is accepted: everything absent
/// (the kind stays disabled; a lone server id is not allowed), or cron,
/// fields and tags jointly present.
pub open spec fn speedtest_accepts(c: PartialSpeedtestConfig) -> bool {
    ||| (c.cron is None && c.fields is None && c.tags is None && c.server is None)
    ||| (c.cron is Some && c.fields is Some && c.tags is Some)
}

/// How an accepted speedtest configuration relates to its raw form.
pub open spec fn speedtest_outcome(c: PartialSpeedtestConfig, o: Option<SpeedtestConfig>) -> bool {
    match o {
        None => c.cron is None && c.fields is None && c.tags is None,
        Some(sc) => {
            &&& c.cron is Some
            &&& c.fields is Some
            &&& c.tags is Some
            &&& sc.cron == c.cron.unwrap()
            &&& sc.server == c.server
            &&& sc.fields.deep_view() == split_on(c.fields.unwrap()@, ',')
            &&& sc.tags.deep_view() == split_on(c.tags.unwrap()@, ',')
        },
    }
}

/// Which error a rejected raw speedtest configuration earns.
pub open spec fn speedtest_error(c: PartialSpeedtestConfig, e: ConfigError) -> bool {
    if c.cron is None && c.fields is None && c.tags is None {
        e == ConfigError::DependentField
    } else if c.cron is None {
        e == ConfigError::MissingRequiredField(ConfigField::SpeedtestCron)
    } else if c.fields is None {
        e == ConfigError::MissingRequiredField(ConfigField::SpeedtestFields)
    } else {
        e == ConfigError::MissingRequiredField(ConfigField::SpeedtestTags)
    }
}

impl PartialSpeedtestConfig {
    /// Validates the raw speedtest configuration: disabled when cron,
    /// fields and tags are all absent and no server id is given; a lone
    /// server id is rejected, as is any partial combination.
    pub fn validate(&self) -> (r: Result<Option<SpeedtestConfig>, ConfigError>)
        ensures
            r is Ok <==> speedtest_accepts(*self),
            r matches Ok(o) ==> speedtest_outcome(*self, o),
            r matches Err(e) ==> speedtest_error(*self, e),
    {
        if self.cron.is_none() && self.fields.is_none() && self.tags.is_none() {
            if self.server.is_some() {
                return Err(ConfigError::DependentField);
            }
            return Ok(None);
        }
        match (&self.cron, &self.fields, &self.tags) {
            (None, _, _) => Err(ConfigError::MissingRequiredField(ConfigField::SpeedtestCron)),
            (_, None, _) => Err(ConfigError::MissingRequiredField(ConfigField::SpeedtestFields)),
            (_, _, None) => Err(ConfigError::MissingRequiredField(ConfigField::SpeedtestTags)),
            (Some(cron), Some(fields), Some(tags)) => Ok(
                Some(
                    SpeedtestConfig {
                        cron: cron.clone(),
                        server: self.server,
                        fields: parse_comma_list(fields.as_str()),
                        tags: parse_comma_list(tags.as_str()),
                    },
                ),
            ),
        }
    }
}

/// Whether a sink URL is accepted: it parses, with an http or https
/// scheme.
pub open spec fn url_accepts(s: Seq<char>) -> bool {
    url_scheme_of(s) matches Some(sch) && (sch == "http"@ || sch == "https"@)
}

/// Validates the sink URL: it must parse as an absolute URL whose scheme
/// is http or https, and is returned as given.
pub fn parse_http_url(text: &str) -> (r: Result<String, ConfigError>)
    ensures
        r is Ok <==> url_accepts(text@),
        r matches Ok(u) ==> u@ == text@,
        r matches Err(e) ==> (if url_scheme_of(text@) is None {
            e matches ConfigError::InvalidUrl(_)
        } else {
            e == ConfigError::InvalidUrlScheme
        }),
{
    match parse_url_scheme(text) {
        Err(m) => Err(ConfigError::InvalidUrl(m)),
        Ok(sch) => {
            let http: String = "http".to_owned();
            let https: String = "https".to_owned();
            if sch == http || sch == https {
                Ok(text.to_owned())
            } else {
                Err(ConfigError::InvalidUrlScheme)
            }
        },
    }
}

/// The process log level, as raw configuration names it.
#[derive(Clone, Copy, Debug, PartialEq, Eq, Structural)]
pub enum LogLevel {
    Error,
    Warn,
    Info,
    Debug,
}

/// The whole raw configuration, as the external inputs hand it over.
#[derive(Clone, Debug)]
pub struct PartialConfig {
    pub influxdb_url: String,
    pub influxdb_token: String,
    pub influxdb_org: String,
    pub influxdb_bucket: String,
    pub log_level: LogLevel,
    pub speedtest: PartialSpeedtestConfig,
    pub ping: PartialPingConfig,
}

/// The whole validated configuration: sink parameters and one optional
/// configuration per service kind.
#[derive(Clone, Debug)]
pub struct Config {
    pub influxdb_url: String,
    pub influxdb_token: String,
    pub influxdb_org: String,
    pub influxdb_bucket: String,
    pub log_level: LogLevel,
    pub speedtest: Option<SpeedtestConfig>,
    pub ping: Option<PingConfig>,
}

impl PartialConfig {
    /// Validates the whole raw configuration. The URL is checked first,
    /// then the speedtest kind, then the ping kind; the first rejection
    /// is returned.
    pub fn validate(&self) -> (r: Result<Config, ConfigError>)
        ensures
            r is Ok <==> url_accepts(self.influxdb_url@) && speedtest_accepts(self.speedtest)
                && ping_accepts(self.ping),
            r matches Ok(c) ==> ({
                &&& c.influxdb_url@ == self.influxdb_url@
                &&& c.influxdb_token == self.influxdb_token
                &&& c.influxdb_org == self.influxdb_org
                &&& c.influxdb_bucket == self.influxdb_bucket
                &&& c.log_level == self.log_level
                &&& speedtest_outcome(self.speedtest, c.speedtest)
                &&& ping_outcome(self.ping, c.ping)
            }),
    {
        let influxdb_url = match parse_http_url(self.influxdb_url.as_str()) {
            Ok(u) => u,
            Err(e) => {
                return Err(e);
            },
        };
        let speedtest = match self.speedtest.validate() {
            Ok(o) => o,
            Err(e) => {
                return Err(e);
            },
        };
        let ping = match self.ping.validate() {
            Ok(o) => o,
            Err(e) => {
                return Err(e);
            },
        };
        Ok(
            Config {
                influxdb_url,
                influxdb_token: self.influxdb_token.clone(),
                influxdb_org: self.influxdb_org.clone(),
                influxdb_bucket: self.influxdb_bucket.clone(),
                log_level: self.log_level,
                speedtest,
                ping,
            },
        )
    }
}

} // verus!
