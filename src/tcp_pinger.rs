use crate::address::{
    bracketed_host, dns_name_valid, host_accepted, host_text, ip_literal_of, parse_host,
    plain_host, AddressError, HostName, IpAddress,
};
use crate::config::TcpPingerEntry;
use vstd::prelude::*;

verus! {

/// How a TCP target's address is obtained on each probe.
#[derive(Copy, Clone, Debug, PartialEq, Eq, Structural)]
pub enum ResolvePolicy {
    /// Resolve the name again on every probe, timing the resolution.
    Always,
    /// Connect to this address; fixed at construction. For a name this is a
    /// deliberate trade of staleness for lower steady-state cost.
    Resolved(IpAddress),
}

/// Probes one TCP endpoint by completing a TCP handshake.
#[derive(Clone, Debug)]
pub struct TcpPinger {
    host: String,
    literal: Option<IpAddress>,
    port: u16,
    timeout_millis: u64,
    policy: ResolvePolicy,
}

/// The model of a [`TcpPinger`].
pub struct TcpPingerView {
    /// The configured host, as written.
    pub host: Seq<char>,
    /// The address, when the host is a literal IP address.
    pub literal: Option<IpAddress>,
    pub port: u16,
    pub timeout_millis: u64,
    pub policy: ResolvePolicy,
}

impl View for TcpPinger {
    type V = TcpPingerView;

    closed spec fn view(&self) -> TcpPingerView {
        TcpPingerView {
            host: self.host@,
            literal: self.literal,
            port: self.port,
            timeout_millis: self.timeout_millis,
            policy: self.policy,
        }
    }
}

/// A TCP target named by host whose address is resolved once, at
/// construction: the caller resolves [`PendingTcpPinger::name`] and hands the
/// outcome to [`PendingTcpPinger::complete`].
#[derive(Clone, Debug)]
pub struct PendingTcpPinger {
    host: String,
    port: u16,
    timeout_millis: u64,
}

impl View for PendingTcpPinger {
    /// The configured host, its port and the probe timeout.
    type V = (Seq<char>, u16, u64);

    closed spec fn view(&self) -> (Seq<char>, u16, u64) {
        (self.host@, self.port, self.timeout_millis)
    }
}

/// What construction yields: a pinger, or one waiting for its address.
#[derive(Clone, Debug)]
pub enum TcpSetup {
    Ready(TcpPinger),
    Pending(PendingTcpPinger),
}

/// Why a TCP pinger could not be built.
#[derive(Clone, Debug)]
pub enum TcpPingerError {
    Address(AddressError),
    Resolution(String),
}

/// The address and resolution time that one attempt connects with.
#[derive(Copy, Clone, Debug, PartialEq, Eq, Structural)]
pub struct TcpAttempt {
    pub ip: IpAddress,
    pub port: u16,
    pub resolve_time_us: Option<u64>,
}

/// The next thing an attempt needs done.
#[derive(Clone, Debug)]
pub enum TcpStep {
    /// Resolve this name, then call [`TcpPinger::after_resolve`].
    Resolve(String),
    /// Connect, then call [`TcpPinger::finish`].
    Connect(TcpAttempt),
    /// The attempt is over.
    Done(TcpPingResult),
}

/// The outcome of one TCP probe attempt.
#[derive(Clone, Debug)]
pub enum TcpPingResponse {
    Success {
        endpoint_ip: IpAddress,
        endpoint_port: u16,
        /// Present only when the name was resolved during this attempt.
        resolve_time_us: Option<u64>,
        /// From just before connect to handshake completion.
        established_time_us: u64,
    },
    Failure(String),
    Timeout,
}

/// One TCP probe attempt: the target and its outcome.
#[derive(Clone, Debug)]
pub struct TcpPingResult {
    /// The configured host.
    pub host: String,
    pub port: u16,
    pub resolved_ip: IpAddress,
    pub response: TcpPingResponse,
}

/// The address reported when no address was reached: `0.0.0.0`.
pub open spec fn unspecified_ip() -> IpAddress {
    IpAddress::V4(0)
}

/// The literal address of a host, when it is one rather than a DNS name.
pub open spec fn literal_of(h: Seq<char>) -> Option<IpAddress> {
    if dns_name_valid(host_text(h)) {
        None
    } else {
        ip_literal_of(host_text(h))
    }
}

/// The policy a host gets: a literal address is used as is; a name is
/// resolved on every probe when `always` is set, else once (`lookup`).
pub open spec fn expected_policy(h: Seq<char>, always: bool, lookup: Option<IpAddress>) -> Option<
    ResolvePolicy,
> {
    match literal_of(h) {
        Some(ip) => Some(ResolvePolicy::Resolved(ip)),
        None => if always {
            Some(ResolvePolicy::Always)
        } else {
            match lookup {
                Some(ip) => Some(ResolvePolicy::Resolved(ip)),
                None => None,
            }
        },
    }
}

/// The pinger that construction yields from these inputs.
pub open spec fn made_from(
    v: TcpPingerView,
    h: Seq<char>,
    port: u16,
    timeout_millis: u64,
    always: bool,
    lookup: Option<IpAddress>,
) -> bool {
    &&& v.host == h
    &&& v.literal == literal_of(h)
    &&& v.port == port
    &&& v.timeout_millis == timeout_millis
    &&& expected_policy(h, always, lookup) == Some(v.policy)
}

/// How an attempt starts: with the fixed address, or (`None`) by resolving.
pub open spec fn start_spec(v: TcpPingerView) -> Option<TcpAttempt> {
    match v.policy {
        ResolvePolicy::Always => None,
        ResolvePolicy::Resolved(ip) => Some(TcpAttempt { ip, port: v.port, resolve_time_us: None }),
    }
}

/// The connection an attempt makes after resolving `ip` in `t` microseconds.
pub open spec fn resolved_attempt(v: TcpPingerView, ip: IpAddress, t: u64) -> TcpAttempt {
    TcpAttempt { ip, port: v.port, resolve_time_us: Some(t) }
}

/// The outcome of an attempt whose handshake completed after `e` microseconds.
pub open spec fn success_response(a: TcpAttempt, e: u64) -> TcpPingResponse {
    TcpPingResponse::Success {
        endpoint_ip: a.ip,
        endpoint_port: a.port,
        resolve_time_us: a.resolve_time_us,
        established_time_us: e,
    }
}

/// The policy a classified host gets before any resolution: a literal
/// address is used as is, a name resolved on every probe is `Always`, and a
/// name resolved once (`None`) waits for that resolution.
pub fn initial_policy(host: &HostName, always_resolve: bool) -> (r: Option<ResolvePolicy>)
    ensures
        host matches HostName::Ip(ip) ==> r == Some(ResolvePolicy::Resolved(*ip)),
        host is Dns ==> r == (if always_resolve {
            Some(ResolvePolicy::Always)
        } else {
            None::<ResolvePolicy>
        }),
{
    match host {
        HostName::Ip(ip) => Some(ResolvePolicy::Resolved(*ip)),
        HostName::Dns(_) => if always_resolve {
            Some(ResolvePolicy::Always)
        } else {
            None
        },
    }
}

impl TcpPinger {
    /// A literal address is never resolved; a name resolved on every probe is
    /// not a literal address.
    pub closed spec fn wf(&self) -> bool {
        &&& plain_host(self.host@) || bracketed_host(self.host@)
        &&& self.literal matches Some(ip) ==> self.policy == ResolvePolicy::Resolved(ip)
        &&& self.policy is Always ==> self.literal is None
    }

    /// Builds a pinger for a TCP entry. A literal IP address is used as is; a
    /// name is resolved on every probe when `always_resolve` is set, else once,
    /// now: the result is then [`TcpSetup::Pending`].
    pub fn new(entry: TcpPingerEntry, timeout_millis: u64, always_resolve: bool) -> (r: Result<
        TcpSetup,
        TcpPingerError,
    >)
        ensures
            r is Ok <==> (plain_host(entry.host@) || bracketed_host(entry.host@)) && host_accepted(
                host_text(entry.host@),
            ),
            r matches Err(e) ==> e == TcpPingerError::Address(
                if plain_host(entry.host@) || bracketed_host(entry.host@) {
                    AddressError::InvalidName
                } else {
                    AddressError::InvalidHost
                },
            ),
            r matches Ok(TcpSetup::Ready(p)) ==> p.wf() && made_from(
                p@,
                entry.host@,
                entry.port,
                timeout_millis,
                always_resolve,
                None,
            ),
            r matches Ok(TcpSetup::Pending(q)) ==> expected_policy(entry.host@, always_resolve, None)
                is None && q@ == (entry.host@, entry.port, timeout_millis),
    {
        let name = match parse_host(entry.host.as_str()) {
            Ok(n) => n,
            Err(e) => return Err(TcpPingerError::Address(e)),
        };
        let literal = match name {
            HostName::Ip(ip) => Some(ip),
            HostName::Dns(_) => None,
        };
        match initial_policy(&name, always_resolve) {
            Some(policy) => Ok(
                TcpSetup::Ready(TcpPinger { host: entry.host, literal, port: entry.port, timeout_millis, policy }),
            ),
            None => Ok(TcpSetup::Pending(PendingTcpPinger { host: entry.host, port: entry.port, timeout_millis })),
        }
    }

    pub fn host(&self) -> (r: &String)
        ensures
            r@ == self@.host,
    {
        &self.host
    }

    pub fn port(&self) -> (r: u16)
        ensures
            r == self@.port,
    {
        self.port
    }

    pub fn timeout_millis(&self) -> (r: u64)
        ensures
            r == self@.timeout_millis,
    {
        self.timeout_millis
    }

    pub fn policy(&self) -> (r: ResolvePolicy)
        ensures
            r == self@.policy,
    {
        self.policy
    }

    /// The first step of an attempt: resolve the name when the policy says so,
    /// else connect to the fixed address.
    pub fn start(&self) -> (r: TcpStep)
        requires
            self.wf(),
        ensures
            match start_spec(self@) {
                None => r matches TcpStep::Resolve(n) && n@ == host_text(self@.host),
                Some(a) => r == TcpStep::Connect(a),
            },
    {
        match self.policy {
            ResolvePolicy::Always => {
                let n = self.host.unicode_len();
                if n > 2 && self.host.get_char(0) == '[' && self.host.get_char(n - 1) == ']' {
                    proof {
                        assert(!plain_host(self.host@));
                    }
                    TcpStep::Resolve(self.host.substring_char(1, n - 1).to_string())
                } else {
                    TcpStep::Resolve(self.host.clone())
                }
            },
            ResolvePolicy::Resolved(ip) => TcpStep::Connect(
                TcpAttempt { ip, port: self.port, resolve_time_us: None },
            ),
        }
    }

    /// After a resolution: connect to the address found, carrying the time the
    /// resolution took; a failed resolution ends the attempt as a Failure.
    pub fn after_resolve(&self, lookup: Result<IpAddress, String>, resolve_time_us: u64) -> (r: TcpStep)
        ensures
            lookup matches Ok(ip) ==> r == TcpStep::Connect(resolved_attempt(self@, ip, resolve_time_us)),
            lookup matches Err(e) ==> (r matches TcpStep::Done(res) && res.host@ == self@.host
                && res.port == self@.port && res.resolved_ip == unspecified_ip()
                && res.response == TcpPingResponse::Failure(e)),
    {
        match lookup {
            Ok(ip) => TcpStep::Connect(
                TcpAttempt { ip, port: self.port, resolve_time_us: Some(resolve_time_us) },
            ),
            Err(e) => TcpStep::Done(self.failure(e)),
        }
    }

    /// The outcome of a connection: Success when the handshake completed,
    /// else a Failure carrying the error's text.
    pub fn finish(&self, attempt: TcpAttempt, connect: Result<(), String>, established_time_us: u64) -> (r:
        TcpPingResult)
        ensures
            r.host@ == self@.host,
            r.port == self@.port,
            connect is Ok ==> r.resolved_ip == attempt.ip && r.response == success_response(
                attempt,
                established_time_us,
            ),
            connect matches Err(e) ==> r.resolved_ip == unspecified_ip() && r.response
                == TcpPingResponse::Failure(e),
    {
        match connect {
            Ok(()) => TcpPingResult {
                host: self.host.clone(),
                port: self.port,
                resolved_ip: attempt.ip,
                response: TcpPingResponse::Success {
                    endpoint_ip: attempt.ip,
                    endpoint_port: attempt.port,
                    resolve_time_us: attempt.resolve_time_us,
                    established_time_us,
                },
            },
            Err(e) => self.failure(e),
        }
    }

    /// A soft error of this attempt (resolution, connection, or a local
    /// socket that could not be had): a Failure carrying its text.
    pub fn failure(&self, reason: String) -> (r: TcpPingResult)
        ensures
            r.host@ == self@.host,
            r.port == self@.port,
            r.resolved_ip == unspecified_ip(),
            r.response == TcpPingResponse::Failure(reason),
    {
        TcpPingResult {
            host: self.host.clone(),
            port: self.port,
            resolved_ip: IpAddress::V4(0),
            response: TcpPingResponse::Failure(reason),
        }
    }

    /// The outcome of an attempt that did not complete within the timeout.
    pub fn timed_out(&self) -> (r: TcpPingResult)
        ensures
            r.host@ == self@.host,
            r.port == self@.port,
            r.resolved_ip == unspecified_ip(),
            r.response == TcpPingResponse::Timeout,
    {
        TcpPingResult {
            host: self.host.clone(),
            port: self.port,
            resolved_ip: IpAddress::V4(0),
            response: TcpPingResponse::Timeout,
        }
    }

    /// Settles an attempt raced against the timeout: `None` when the timer
    /// fired first, which is a Timeout whatever the attempt was doing.
    pub fn settle(&self, raced: Option<TcpPingResult>) -> (r: TcpPingResult)
        ensures
            raced is None ==> r.response == TcpPingResponse::Timeout && r.host@ == self@.host
                && r.port == self@.port,
            raced matches Some(x) ==> r == x,
    {
        match raced {
            Some(x) => x,
            None => self.timed_out(),
        }
    }
}

impl PendingTcpPinger {
    /// The name to resolve once.
    pub fn name(&self) -> (r: &String)
        ensures
            r@ == self@.0,
    {
        &self.host
    }

    /// Fixes the policy to the address that the one resolution found.
    pub fn complete(self, lookup: Result<IpAddress, String>) -> (r: Result<TcpPinger, TcpPingerError>)
        requires
            expected_policy(self@.0, false, None) is None,
            plain_host(self@.0) || bracketed_host(self@.0),
        ensures
            lookup matches Ok(ip) ==> (r matches Ok(p) && p.wf() && made_from(
                p@,
                self@.0,
                self@.1,
                self@.2,
                false,
                Some(ip),
            )),
            lookup matches Err(e) ==> (r matches Err(TcpPingerError::Resolution(m)) && m == e),
    {
        match lookup {
            Ok(ip) => Ok(
                TcpPinger {
                    host: self.host,
                    literal: None,
                    port: self.port,
                    timeout_millis: self.timeout_millis,
                    policy: ResolvePolicy::Resolved(ip),
                },
            ),
            Err(e) => Err(TcpPingerError::Resolution(e)),
        }
    }
}

/// Constructing a pinger twice from the same entry, timeout, flag and (for a
/// name resolved once) the same resolution gives the same pinger: the same
/// effective address and policy.
pub proof fn lemma_construction_deterministic(
    a: TcpPingerView,
    b: TcpPingerView,
    h: Seq<char>,
    port: u16,
    timeout_millis: u64,
    always: bool,
    lookup: Option<IpAddress>,
)
    requires
        made_from(a, h, port, timeout_millis, always, lookup),
        made_from(b, h, port, timeout_millis, always, lookup),
    ensures
        a == b,
{
}

/// A target given as a literal IP address is never resolved: every attempt
/// starts by connecting to that address.
pub proof fn lemma_literal_ip_never_resolves(p: TcpPinger)
    requires
        p.wf(),
        p@.literal is Some,
    ensures
        start_spec(p@) == Some(TcpAttempt { ip: p@.literal->0, port: p@.port, resolve_time_us: None }),
{
}

/// When every probe resolves, each successful outcome carries the time of
/// this attempt's resolution; when the address is fixed, none does.
pub proof fn lemma_resolution_time_reported(v: TcpPingerView, ip: IpAddress, t: u64, e: u64)
    ensures
        v.policy is Always ==> start_spec(v) is None && success_response(resolved_attempt(v, ip, t), e)
            == (TcpPingResponse::Success {
            endpoint_ip: ip,
            endpoint_port: v.port,
            resolve_time_us: Some(t),
            established_time_us: e,
        }),
        v.policy is Resolved ==> (start_spec(v) matches Some(a) && success_response(a, e)
            matches TcpPingResponse::Success { resolve_time_us: None, .. }),
{
}

} // verus!
