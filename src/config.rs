use crate::address::{find_last, last_index_of, text_equals};
use vstd::prelude::*;

verus! {

/// Which HTTP client backend performs the probes.
#[derive(Copy, Clone, Debug, PartialEq, Eq, Structural)]
pub enum HttpPinger {
    /// Hand-built HTTP/1.1 request over a fresh TCP/TLS connection.
    Hyper,
    /// Reusable, non-pooling client without redirects.
    Reqwest,
}

/// One HTTP endpoint to poll.
#[derive(Clone, Debug)]
pub struct HttpPingerEntry {
    pub url: String,
    pub method: String,
}

/// HTTP probing settings shared by every HTTP entry.
#[derive(Clone, Debug)]
pub struct HttpPingerConfig {
    pub pinger: HttpPinger,
    pub retries: u8,
    pub timeout_millis: u64,
    pub interval_millis: u64,
    pub entries: Vec<HttpPingerEntry>,
}

/// One TCP endpoint to poll.
#[derive(Clone, Debug)]
pub struct TcpPingerEntry {
    pub host: String,
    pub port: u16,
}

/// TCP probing settings shared by every TCP entry.
#[derive(Clone, Debug)]
pub struct TcpPingerConfig {
    pub retries: u8,
    pub timeout_millis: u64,
    pub interval_millis: u64,
    pub entries: Vec<TcpPingerEntry>,
}

/// The whole prober configuration.
#[derive(Clone, Debug)]
pub struct PingerConfig {
    pub http: HttpPingerConfig,
    pub tcp: TcpPingerConfig,
    pub dns_timeout_millis: u64,
    /// Time every DNS resolution (this disables the resolver cache and makes
    /// TCP targets named by host re-resolve on every probe).
    pub measure_dns_stats: bool,
}

/// Command line arguments of the prober.
#[derive(Clone, Debug)]
pub struct Args {
    /// Configuration file path.
    pub config: String,
    /// Enable debug logging.
    pub debug: bool,
    /// Metrics server bind address.
    pub bind: String,
    /// Metrics server port.
    pub port: u16,
}

/// A configuration that cannot be scheduled.
#[derive(Copy, Clone, Debug, PartialEq, Eq, Structural)]
pub enum ConfigError {
    /// HTTP targets would be probed more often than they can time out.
    HttpIntervalBelowTimeout,
    /// TCP targets would be probed more often than they can time out.
    TcpIntervalBelowTimeout,
}

/// A protocol class can be scheduled when it has no targets, or when its
/// interval is at least its timeout.
pub open spec fn class_schedulable(n_entries: nat, timeout_millis: u64, interval_millis: u64) -> bool {
    n_entries == 0 || interval_millis >= timeout_millis
}

impl HttpPingerConfig {
    pub open spec fn schedulable(&self) -> bool {
        class_schedulable(self.entries@.len(), self.timeout_millis, self.interval_millis)
    }
}

impl TcpPingerConfig {
    pub open spec fn schedulable(&self) -> bool {
        class_schedulable(self.entries@.len(), self.timeout_millis, self.interval_millis)
    }
}

impl PingerConfig {
    /// Checks the schedule of both protocol classes before any task starts.
    /// The HTTP class is checked first.
    pub fn validate(&self) -> (r: Result<(), ConfigError>)
        ensures
            r is Ok <==> self.http.schedulable() && self.tcp.schedulable(),
            r == Err::<(), ConfigError>(ConfigError::HttpIntervalBelowTimeout)
                <==> !self.http.schedulable(),
            r == Err::<(), ConfigError>(ConfigError::TcpIntervalBelowTimeout)
                <==> self.http.schedulable() && !self.tcp.schedulable(),
    {
        if self.http.entries.len() > 0 && self.http.interval_millis < self.http.timeout_millis {
            return Err(ConfigError::HttpIntervalBelowTimeout);
        }
        if self.tcp.entries.len() > 0 && self.tcp.interval_millis < self.tcp.timeout_millis {
            return Err(ConfigError::TcpIntervalBelowTimeout);
        }
        Ok(())
    }
}

/// The format a configuration file is written in.
#[derive(Copy, Clone, Debug, PartialEq, Eq, Structural)]
pub enum ConfigFormat {
    Json,
    Yaml,
    Toml,
}

/// What follows the last `.` of a file name; the whole name when it has none.
pub open spec fn extension_of(name: Seq<char>) -> Seq<char> {
    name.skip(last_index_of(name, '.') + 1)
}

/// The format a configuration file name announces by its extension:
/// `json`, `yaml` or `toml`; `None` for any other.
pub fn config_format(file_name: &str) -> (r: Option<ConfigFormat>)
    ensures
        r == Some(ConfigFormat::Json) <==> extension_of(file_name@) == seq!['j', 's', 'o', 'n'],
        r == Some(ConfigFormat::Yaml) <==> extension_of(file_name@) == seq!['y', 'a', 'm', 'l'],
        r == Some(ConfigFormat::Toml) <==> extension_of(file_name@) == seq!['t', 'o', 'm', 'l'],
{
    let n = file_name.unicode_len();
    proof {
        crate::address::lemma_last_index_bounds(file_name@, '.');
    }
    let start = match find_last(file_name, '.') {
        Some(k) => k + 1,
        None => 0,
    };
    let ext = file_name.substring_char(start, n);
    proof {
        assert(ext@ =~= extension_of(file_name@));
        reveal_strlit("json");
        reveal_strlit("yaml");
        reveal_strlit("toml");
        assert("json"@ =~= seq!['j', 's', 'o', 'n']);
        assert("yaml"@ =~= seq!['y', 'a', 'm', 'l']);
        assert("toml"@ =~= seq!['t', 'o', 'm', 'l']);
    }
    if text_equals(ext, "json") {
        Some(ConfigFormat::Json)
    } else if text_equals(ext, "yaml") {
        Some(ConfigFormat::Yaml)
    } else if text_equals(ext, "toml") {
        Some(ConfigFormat::Toml)
    } else {
        None
    }
}

} // verus!
