use pinger::config::{
    config_format, ConfigError, ConfigFormat, HttpPinger, HttpPingerConfig, HttpPingerEntry, PingerConfig, TcpPingerConfig,
    TcpPingerEntry,
};
use pinger::resolver::resolver_settings;

fn config(http: (u64, u64, usize), tcp: (u64, u64, usize), measure: bool) -> PingerConfig {
    PingerConfig {
        http: HttpPingerConfig {
            pinger: HttpPinger::Hyper,
            retries: 3,
            timeout_millis: http.0,
            interval_millis: http.1,
            entries: (0..http.2)
                .map(|_| HttpPingerEntry { url: "http://example.test/".to_string(), method: "GET".to_string() })
                .collect(),
        },
        tcp: TcpPingerConfig {
            retries: 2,
            timeout_millis: tcp.0,
            interval_millis: tcp.1,
            entries: (0..tcp.2).map(|_| TcpPingerEntry { host: "127.0.0.1".to_string(), port: 22 }).collect(),
        },
        dns_timeout_millis: 750,
        measure_dns_stats: measure,
    }
}

#[test]
fn interval_below_timeout_is_rejected() {
    assert_eq!(config((1000, 999, 1), (10, 20, 1), false).validate(), Err(ConfigError::HttpIntervalBelowTimeout));
    assert_eq!(config((1000, 1000, 1), (30, 20, 1), false).validate(), Err(ConfigError::TcpIntervalBelowTimeout));
    assert_eq!(config((1000, 999, 1), (30, 20, 1), false).validate(), Err(ConfigError::HttpIntervalBelowTimeout));
}

#[test]
fn valid_schedules_pass() {
    assert_eq!(config((1000, 1000, 2), (10, 20, 1), false).validate(), Ok(()));
    assert_eq!(config((1000, 5, 0), (30, 20, 0), false).validate(), Ok(()));
}

#[test]
fn resolver_follows_dns_timing() {
    let timed = resolver_settings(&config((1, 1, 0), (1, 1, 0), true));
    assert_eq!(timed.cache_size, 0);
    assert!(timed.timed);
    assert_eq!(timed.timeout_millis, 750);
    assert_eq!(timed.num_concurrent_reqs, 10);
    let cached = resolver_settings(&config((1, 1, 0), (1, 1, 0), false));
    assert_eq!(cached.cache_size, 10);
    assert!(!cached.timed);
}

#[test]
fn config_format_by_extension() {
    assert_eq!(config_format("pinger.json"), Some(ConfigFormat::Json));
    assert_eq!(config_format("pinger.prod.yaml"), Some(ConfigFormat::Yaml));
    assert_eq!(config_format("pinger.toml"), Some(ConfigFormat::Toml));
    assert_eq!(config_format("pinger.yml"), None);
    assert_eq!(config_format("json"), Some(ConfigFormat::Json));
    assert_eq!(config_format("pinger"), None);
    assert_eq!(config_format("pinger.JSON"), None);
    assert_eq!(config_format(""), None);
}
