use pinger::config::HttpPingerEntry;
use pinger::address::trim;
use pinger::http_pinger::{HttpPingTarget, HttpTargetError, HttpVersion, ParsedUrl, PingResult};
use pinger::metric::{record_http_ping, HttpPingLabel, PingStatus};

fn target(url: &str, method: &str) -> Result<HttpPingTarget, HttpTargetError> {
    HttpPingTarget::new(HttpPingerEntry { url: url.to_string(), method: method.to_string() }, 1000)
}

#[test]
fn plain_http_target() {
    let t = target("http://example.test/", "GET").unwrap();
    assert_eq!(t.url(), "http://example.test/");
    assert_eq!(t.host(), "example.test");
    assert_eq!(t.port(), 80);
    assert!(!t.is_https());
    assert_eq!(t.authority(), "example.test");
    assert_eq!(t.method(), "GET");
    assert_eq!(t.timeout_millis(), 1000);
}

#[test]
fn https_target_trimmed_with_port() {
    let t = target("  https://example.test:8443/health?x=1 \n", "HEAD").unwrap();
    assert_eq!(t.url(), "https://example.test:8443/health?x=1");
    assert!(t.is_https());
    assert_eq!(t.port(), 8443);
    assert_eq!(t.authority(), "example.test:8443");
    let d = target("https://example.test", "GET").unwrap();
    assert_eq!(d.port(), 443);
    assert_eq!(d.url(), "https://example.test/");
}

#[test]
fn target_errors() {
    assert_eq!(target("http://example.test/", "").err(), Some(HttpTargetError::InvalidMethod));
    assert_eq!(target("http://example.test/", "GE T").err(), Some(HttpTargetError::InvalidMethod));
    assert_eq!(target("not a url", "GET").err(), Some(HttpTargetError::InvalidUrl));
    assert_eq!(target("mailto:someone@example.test", "GET").err(), Some(HttpTargetError::MissingHost));
    assert_eq!(target("foo://example.test/", "GET").err(), Some(HttpTargetError::UnsupportedScheme));
}

#[test]
fn extension_method_is_kept() {
    let t = target("http://example.test/", "PURGE").unwrap();
    assert_eq!(t.method(), "PURGE");
}

#[test]
fn reset_connections_count_one_failure_each() {
    let t = target("http://example.test/", "GET").unwrap();
    let mut failures = 0u64;
    for _ in 0..3 {
        let r = t.wrap_soft_err("connection reset by peer".to_string());
        assert!(matches!(r.result, PingResult::Failure(_)));
        let u = record_http_ping(&r);
        assert_eq!(u.latency_us, None);
        assert_eq!(
            u.label,
            HttpPingLabel {
                url: "http://example.test/".to_string(),
                method: "GET".to_string(),
                status: PingStatus::Failure,
                status_code: None,
            }
        );
        failures += 1;
    }
    assert_eq!(failures, 3);
}

#[test]
fn slow_response_is_a_timeout() {
    let t = target("http://example.test/", "GET").unwrap();
    let r = t.settle(None);
    assert!(matches!(r.result, PingResult::Timeout));
    assert_eq!(r.ip, None);
    let u = record_http_ping(&r);
    assert_eq!(u.latency_us, None);
    assert_eq!(u.label.status, PingStatus::Timeout);
    assert_eq!(u.label.status_code, None);
}

#[test]
fn success_is_observed() {
    let t = target("http://example.test/", "GET").unwrap();
    let r = t.success(Some("192.0.2.1".to_string()), 204, 1234, HttpVersion::Http11);
    let kept = t.settle(Some(r));
    assert_eq!(kept.ip.as_deref(), Some("192.0.2.1"));
    let u = record_http_ping(&kept);
    assert_eq!(u.latency_us, Some(1234));
    assert_eq!(u.label.status, PingStatus::Success);
    assert_eq!(u.label.status_code, Some(204));
}

#[test]
fn unicode_whitespace_is_trimmed() {
    let t = target("\u{3000}http://example.test/\u{2003}", "GET").unwrap();
    assert_eq!(t.url(), "http://example.test/");
}

#[test]
fn any_scheme_with_a_port_is_accepted() {
    let f = target("ftp://example.test/", "GET").unwrap();
    assert_eq!(f.port(), 21);
    assert!(!f.is_https());
    let c = target("foo://example.test:8080/", "GET").unwrap();
    assert_eq!(c.port(), 8080);
    assert!(!c.is_https());
}

#[test]
fn from_parsed_fields() {
    let u = ParsedUrl {
        text: "https://h.test:9/".to_string(),
        scheme: "https".to_string(),
        host: Some("h.test".to_string()),
        port: Some(9),
        authority: "h.test:9".to_string(),
    };
    let t = HttpPingTarget::from_parsed(u.clone(), "GET".to_string(), 5).unwrap();
    assert!(t.is_https());
    assert_eq!(t.port(), 9);
    assert_eq!(t.host(), "h.test");
    assert_eq!(t.authority(), "h.test:9");
    let no_port = ParsedUrl { port: None, ..u.clone() };
    assert_eq!(HttpPingTarget::from_parsed(no_port, "GET".to_string(), 5).err(), Some(HttpTargetError::UnsupportedScheme));
    let no_host = ParsedUrl { host: None, ..u };
    assert_eq!(HttpPingTarget::from_parsed(no_host, "GET".to_string(), 5).err(), Some(HttpTargetError::MissingHost));
}

#[test]
fn timeout_drops_the_peer() {
    let t = target("http://example.test/", "GET").unwrap();
    let r = t.settle(None);
    assert_eq!(r.ip, None);
    assert_eq!(r.url, "http://example.test/");
    assert_eq!(r.method, "GET");
}

#[test]
fn trims_white_space() {
    assert_eq!(trim("  a b \t\n"), "a b");
    assert_eq!(trim("\u{3000}x\u{2003}"), "x");
    assert_eq!(trim(" \t "), "");
    assert_eq!(trim(""), "");
    assert_eq!(trim("\u{200b}x"), "\u{200b}x");
}
