//! Errors of configuration validation and of output parsing.

use vstd::prelude::*;
use vstd::string::StringExecFns;

verus! {

/// A configuration input that a validation error can point at.
#[derive(Clone, Copy, Debug, PartialEq, Eq, Structural)]
pub enum ConfigField {
    PingCron,
    PingHosts,
    SpeedtestCron,
    SpeedtestFields,
    SpeedtestTags,
}

/// Why a raw configuration was rejected. Validation errors are fatal at
/// startup; none occurs once a configuration has been accepted.
#[derive(Clone, Debug, PartialEq, Eq)]
pub enum ConfigError {
    /// A field of a partially enabled service kind is absent.
    MissingRequiredField(ConfigField),
    /// A host list segment is not a valid hostname or IP literal; carries
    /// the parser's description.
    InvalidHost(String),
    /// A server id was given without the fields that enable the service.
    DependentField,
    /// The sink URL does not parse; carries the parser's description.
    InvalidUrl(String),
    /// The sink URL parses but its scheme is neither http nor https.
    InvalidUrlScheme,
}

impl ConfigError {
    /// A human-readable description, shown once at startup when the
    /// process refuses its configuration.
    pub fn message(&self) -> (r: String)
        ensures
            match self {
                ConfigError::MissingRequiredField(ConfigField::PingCron) => r@
                    == "PING_CRON is required for \"PING_\" parameters"@,
                ConfigError::MissingRequiredField(ConfigField::PingHosts) => r@
                    == "PING_HOSTS is required for \"PING_\" parameters"@,
                ConfigError::MissingRequiredField(ConfigField::SpeedtestCron) => r@
                    == "SPEEDTEST_CRON is required for \"SPEEDTEST_\" parameters"@,
                ConfigError::MissingRequiredField(ConfigField::SpeedtestFields) => r@
                    == "SPEEDTEST_FIELDS is required for \"SPEEDTEST_\" parameters"@,
                ConfigError::MissingRequiredField(ConfigField::SpeedtestTags) => r@
                    == "SPEEDTEST_TAGS is required for \"SPEEDTEST_\" parameters"@,
                ConfigError::InvalidHost(m) => r@ == m@,
                ConfigError::DependentField => r@
                    == "SPEEDTEST_SERVER requires other \"SPEEDTEST_\" parameters"@,
                ConfigError::InvalidUrl(m) => r@ == m@,
                ConfigError::InvalidUrlScheme => r@ == "URL scheme must be http or https"@,
            },
    {
        match self {
            ConfigError::MissingRequiredField(ConfigField::PingCron) => "PING_CRON is required for \"PING_\" parameters".to_owned(),
            ConfigError::MissingRequiredField(ConfigField::PingHosts) => "PING_HOSTS is required for \"PING_\" parameters".to_owned(),
            ConfigError::MissingRequiredField(ConfigField::SpeedtestCron) => "SPEEDTEST_CRON is required for \"SPEEDTEST_\" parameters".to_owned(),
            ConfigError::MissingRequiredField(ConfigField::SpeedtestFields) => "SPEEDTEST_FIELDS is required for \"SPEEDTEST_\" parameters".to_owned(),
            ConfigError::MissingRequiredField(ConfigField::SpeedtestTags) => "SPEEDTEST_TAGS is required for \"SPEEDTEST_\" parameters".to_owned(),
            ConfigError::InvalidHost(m) => m.clone(),
            ConfigError::DependentField => "SPEEDTEST_SERVER requires other \"SPEEDTEST_\" parameters".to_owned(),
            ConfigError::InvalidUrl(m) => m.clone(),
            ConfigError::InvalidUrlScheme => "URL scheme must be http or https".to_owned(),
        }
    }
}

/// Why a captured number in ping output could not be read: the capture is
/// carried for diagnosis.
#[derive(Clone, Debug, PartialEq, Eq)]
pub enum ParseError {
    InvalidNumber(String),
}

impl ParseError {
    /// A human-readable description, logged when a scheduled run aborts.
    pub fn message(&self) -> (r: String)
        ensures
            match self {
                ParseError::InvalidNumber(m) => r@ == "invalid number: "@ + m@,
            },
    {
        match self {
            ParseError::InvalidNumber(m) => {
                let mut s = "invalid number: ".to_owned();
                s.append(m.as_str());
                s
            },
        }
    }
}

} // verus!
