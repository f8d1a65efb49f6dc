use pinger::address::{AddressError, HostName, IpAddress};
use pinger::config::TcpPingerEntry;
use pinger::tcp_pinger::{
    initial_policy, ResolvePolicy, TcpAttempt, TcpPinger, TcpPingerError, TcpPingResponse, TcpSetup, TcpStep,
};

fn entry(host: &str, port: u16) -> TcpPingerEntry {
    TcpPingerEntry { host: host.to_string(), port }
}

fn ready(s: Result<TcpSetup, TcpPingerError>) -> TcpPinger {
    match s {
        Ok(TcpSetup::Ready(p)) => p,
        _ => panic!("expected a ready pinger"),
    }
}

#[test]
fn literal_ip_is_never_resolved() {
    for always in [false, true] {
        let p = ready(TcpPinger::new(entry("127.0.0.1", 65000), 1000, always));
        assert_eq!(p.policy(), ResolvePolicy::Resolved(IpAddress::V4(0x7F00_0001)));
        match p.start() {
            TcpStep::Connect(a) => {
                assert_eq!(a, TcpAttempt { ip: IpAddress::V4(0x7F00_0001), port: 65000, resolve_time_us: None })
            }
            _ => panic!("a literal address must not be resolved"),
        }
    }
}

#[test]
fn refused_connection_is_a_failure() {
    let p = ready(TcpPinger::new(entry("127.0.0.1", 65000), 1000, false));
    let a = match p.start() {
        TcpStep::Connect(a) => a,
        _ => panic!("expected a connection"),
    };
    let r = p.finish(a, Err("Connection refused (os error 111)".to_string()), 150);
    assert_eq!(r.host, "127.0.0.1");
    assert_eq!(r.port, 65000);
    assert_eq!(r.resolved_ip, IpAddress::V4(0));
    match r.response {
        TcpPingResponse::Failure(m) => assert_eq!(m, "Connection refused (os error 111)"),
        _ => panic!("expected a failure"),
    }
}

#[test]
fn always_resolve_times_each_success() {
    let p = ready(TcpPinger::new(entry("example.test", 443), 1000, true));
    assert_eq!(p.policy(), ResolvePolicy::Always);
    for round in 0..3u64 {
        match p.start() {
            TcpStep::Resolve(n) => assert_eq!(n, "example.test"),
            _ => panic!("every attempt must resolve"),
        }
        let ip = IpAddress::V4(0xC000_0201);
        let a = match p.after_resolve(Ok(ip), 40 + round) {
            TcpStep::Connect(a) => a,
            _ => panic!("expected a connection"),
        };
        let r = p.finish(a, Ok(()), 900);
        assert_eq!(r.resolved_ip, ip);
        match r.response {
            TcpPingResponse::Success { endpoint_ip, endpoint_port, resolve_time_us, established_time_us } => {
                assert_eq!(endpoint_ip, ip);
                assert_eq!(endpoint_port, 443);
                assert_eq!(resolve_time_us, Some(40 + round));
                assert_eq!(established_time_us, 900);
            }
            _ => panic!("expected a success"),
        }
    }
}

#[test]
fn failed_resolution_is_a_failure() {
    let p = ready(TcpPinger::new(entry("example.test", 443), 1000, true));
    match p.after_resolve(Err("no record".to_string()), 5) {
        TcpStep::Done(r) => match r.response {
            TcpPingResponse::Failure(m) => assert_eq!(m, "no record"),
            _ => panic!("expected a failure"),
        },
        _ => panic!("the attempt must end"),
    }
}

#[test]
fn resolve_once_fixes_the_address() {
    let build = || match TcpPinger::new(entry("example.test", 80), 500, false) {
        Ok(TcpSetup::Pending(q)) => {
            assert_eq!(q.name(), "example.test");
            match q.complete(Ok(IpAddress::V4(0xC633_6401))) {
                Ok(p) => p,
                Err(_) => panic!("expected a pinger"),
            }
        }
        _ => panic!("expected a pending pinger"),
    };
    let a = build();
    let b = build();
    assert_eq!(a.policy(), ResolvePolicy::Resolved(IpAddress::V4(0xC633_6401)));
    assert_eq!(a.policy(), b.policy());
    assert_eq!(a.port(), b.port());
    assert_eq!(a.host(), b.host());
    match a.start() {
        TcpStep::Connect(t) => assert_eq!(t.resolve_time_us, None),
        _ => panic!("a fixed address is not resolved again"),
    }
    let r = a.finish(TcpAttempt { ip: IpAddress::V4(0xC633_6401), port: 80, resolve_time_us: None }, Ok(()), 10);
    match r.response {
        TcpPingResponse::Success { resolve_time_us, .. } => assert_eq!(resolve_time_us, None),
        _ => panic!("expected a success"),
    }
}

#[test]
fn resolve_once_failure_fails_construction() {
    match TcpPinger::new(entry("example.test", 80), 500, false) {
        Ok(TcpSetup::Pending(q)) => match q.complete(Err("timed out".to_string())) {
            Err(TcpPingerError::Resolution(m)) => assert_eq!(m, "timed out"),
            _ => panic!("expected a resolution error"),
        },
        _ => panic!("expected a pending pinger"),
    }
}

#[test]
fn invalid_hosts_are_refused() {
    match TcpPinger::new(entry("http://host", 80), 500, false) {
        Err(TcpPingerError::Address(e)) => assert_eq!(e, AddressError::InvalidHost),
        _ => panic!("expected an address error"),
    }
    match TcpPinger::new(entry("bad!name", 80), 500, false) {
        Err(TcpPingerError::Address(e)) => assert_eq!(e, AddressError::InvalidName),
        _ => panic!("expected an address error"),
    }
}

#[test]
fn timer_first_is_a_timeout() {
    let p = ready(TcpPinger::new(entry("127.0.0.1", 9), 100, false));
    let r = p.settle(None);
    assert!(matches!(r.response, TcpPingResponse::Timeout));
    assert_eq!(r.host, "127.0.0.1");
    let done = p.failure("socket".to_string());
    let kept = p.settle(Some(done));
    assert!(matches!(kept.response, TcpPingResponse::Failure(_)));
    assert_eq!(p.timeout_millis(), 100);
}

#[test]
fn policy_from_host_kind() {
    let ip = IpAddress::V6(1);
    assert_eq!(initial_policy(&HostName::Ip(ip), true), Some(ResolvePolicy::Resolved(ip)));
    assert_eq!(initial_policy(&HostName::Ip(ip), false), Some(ResolvePolicy::Resolved(ip)));
    assert_eq!(initial_policy(&HostName::Dns("a.test".to_string()), true), Some(ResolvePolicy::Always));
    assert_eq!(initial_policy(&HostName::Dns("a.test".to_string()), false), None);
}
