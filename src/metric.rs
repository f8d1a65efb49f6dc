use crate::http_pinger::{PingResponse, PingResult};
use crate::scheduler::{drive, failures, lemma_failing_tick, TaskEvent, TaskState};
use crate::tcp_pinger::{TcpPingResponse, TcpPingResult};
use vstd::prelude::*;

verus! {

/// The class of a probe outcome.
#[derive(Copy, Clone, Debug, PartialEq, Eq, Hash, Structural)]
pub enum PingStatus {
    Success,
    Timeout,
    Failure,
}

/// A finer classification of failures.
#[derive(Copy, Clone, Debug, PartialEq, Eq, Hash, Structural)]
pub enum FailureType {
    Dns,
    Other,
}

/// Series key of the HTTP metrics.
#[derive(Clone, Debug, PartialEq, Eq, Hash)]
pub struct HttpPingLabel {
    pub url: String,
    pub method: String,
    pub status: PingStatus,
    pub status_code: Option<u32>,
}

/// Series key of classified HTTP failures.
#[derive(Clone, Debug, PartialEq, Eq, Hash)]
pub struct HttpPingFailureLabel {
    pub url: String,
    pub method: String,
    pub failure_type: FailureType,
}

/// Series key of the TCP metrics.
#[derive(Clone, Debug, PartialEq, Eq, Hash)]
pub struct TcpPingLabel {
    pub host: String,
    pub port: u32,
    pub response: PingStatus,
}

/// Series key of classified TCP failures.
#[derive(Clone, Debug, PartialEq, Eq, Hash)]
pub struct TcpPingFailureLabel {
    pub host: String,
    pub port: u32,
    pub failure_type: FailureType,
}

/// Series key of the DNS timing metrics.
#[derive(Clone, Debug, PartialEq, Eq, Hash)]
pub struct ResolveLabel {
    pub host: String,
}

/// Series key of the DNS failure counter.
#[derive(Clone, Debug, PartialEq, Eq, Hash)]
pub struct ResolveErrorLabel {
    pub host: String,
    pub error_type: ResolveErrorType,
}

/// The class of a DNS resolution failure.
#[derive(Copy, Clone, Debug, PartialEq, Eq, Hash, Structural)]
pub enum ResolveErrorType {
    NoRecordsFound,
    NoResolverAvailable,
    Timeout,
    Other,
}

/// What the latest-latency gauge shows after a failed or timed-out probe:
/// ten seconds, in microseconds.
pub const TIMEOUT_VALUE_US: u64 = 10_000_000;

/// The shape of a DNS resolution error, as the resolver reports it.
#[derive(Copy, Clone, Debug, PartialEq, Eq, Structural)]
pub enum ResolveFailureKind {
    /// A protocol error: the name has no records.
    NoRecordsFound,
    /// A protocol error: the query timed out.
    Timeout,
    /// A protocol error: no name server connection was available.
    NoConnections,
    /// Another protocol error.
    OtherProto,
    /// A resolver error that is not a protocol error.
    OtherResolve,
    /// An error that does not come from the resolver.
    Foreign,
}

pub struct HttpLabelView {
    pub url: Seq<char>,
    pub method: Seq<char>,
    pub status: PingStatus,
    pub status_code: Option<u32>,
}

impl View for HttpPingLabel {
    type V = HttpLabelView;

    open spec fn view(&self) -> HttpLabelView {
        HttpLabelView { url: self.url@, method: self.method@, status: self.status, status_code: self.status_code }
    }
}

pub struct TcpLabelView {
    pub host: Seq<char>,
    pub port: u32,
    pub response: PingStatus,
}

impl View for TcpPingLabel {
    type V = TcpLabelView;

    open spec fn view(&self) -> TcpLabelView {
        TcpLabelView { host: self.host@, port: self.port, response: self.response }
    }
}

/// The class of an HTTP outcome.
pub open spec fn http_status_of(r: PingResult) -> PingStatus {
    match r {
        PingResult::Success { .. } => PingStatus::Success,
        PingResult::Failure(_) => PingStatus::Failure,
        PingResult::Timeout => PingStatus::Timeout,
    }
}

/// The latency of an HTTP outcome, present on Success only.
pub open spec fn http_latency_of(r: PingResult) -> Option<u64> {
    match r {
        PingResult::Success { response_time_us, .. } => Some(response_time_us),
        _ => None,
    }
}

/// The series of an HTTP outcome: its target, class and status code.
pub open spec fn http_label_of(r: PingResponse) -> HttpLabelView {
    HttpLabelView {
        url: r.url@,
        method: r.method@,
        status: http_status_of(r.result),
        status_code: match r.result {
            PingResult::Success { http_status, .. } => Some(http_status as u32),
            _ => None,
        },
    }
}

/// The class of a TCP outcome.
pub open spec fn tcp_status_of(r: TcpPingResponse) -> PingStatus {
    match r {
        TcpPingResponse::Success { .. } => PingStatus::Success,
        TcpPingResponse::Failure(_) => PingStatus::Failure,
        TcpPingResponse::Timeout => PingStatus::Timeout,
    }
}

/// The latency of a TCP outcome, present on Success only.
pub open spec fn tcp_latency_of(r: TcpPingResponse) -> Option<u64> {
    match r {
        TcpPingResponse::Success { established_time_us, .. } => Some(established_time_us),
        _ => None,
    }
}

/// How one outcome changes the metrics of its series. With a latency it is
/// observed into the latency histogram and shown by the latest-latency gauge;
/// without one the failure counter goes up by one and the gauge shows
/// [`TIMEOUT_VALUE_US`].
#[derive(Clone, Debug)]
pub struct HttpUpdate {
    pub label: HttpPingLabel,
    pub latency_us: Option<u64>,
}

/// As [`HttpUpdate`], for a TCP outcome.
#[derive(Clone, Debug)]
pub struct TcpUpdate {
    pub label: TcpPingLabel,
    pub latency_us: Option<u64>,
}

/// How one timed resolution changes the DNS metrics.
#[derive(Clone, Debug)]
pub enum ResolveUpdate {
    /// Observe the time into the histogram and show it on the gauge.
    Resolved { label: ResolveLabel, time_us: u64 },
    /// Show [`TIMEOUT_VALUE_US`] on the gauge and count the error.
    Failed { label: ResolveLabel, error: ResolveErrorLabel },
}

/// The class of a resolution error.
pub open spec fn resolve_error_type_of(k: ResolveFailureKind) -> ResolveErrorType {
    match k {
        ResolveFailureKind::NoRecordsFound => ResolveErrorType::NoRecordsFound,
        ResolveFailureKind::Timeout => ResolveErrorType::Timeout,
        ResolveFailureKind::NoConnections => ResolveErrorType::NoResolverAvailable,
        _ => ResolveErrorType::Other,
    }
}

impl ResolveErrorType {
    /// Classifies a resolution error: the three protocol errors that say why
    /// no answer came have a class of their own, anything else is Other.
    pub fn new(kind: ResolveFailureKind) -> (r: ResolveErrorType)
        ensures
            r == resolve_error_type_of(kind),
    {
        match kind {
            ResolveFailureKind::NoRecordsFound => ResolveErrorType::NoRecordsFound,
            ResolveFailureKind::Timeout => ResolveErrorType::Timeout,
            ResolveFailureKind::NoConnections => ResolveErrorType::NoResolverAvailable,
            _ => ResolveErrorType::Other,
        }
    }
}

impl ResolveErrorLabel {
    /// The failure series of a host for an error of this kind.
    pub fn new(label: ResolveLabel, kind: ResolveFailureKind) -> (r: ResolveErrorLabel)
        ensures
            r.host == label.host,
            r.error_type == resolve_error_type_of(kind),
    {
        ResolveErrorLabel { host: label.host, error_type: ResolveErrorType::new(kind) }
    }
}

impl HttpPingLabel {
    /// The series an HTTP outcome belongs to.
    pub fn from_response(response: &PingResponse) -> (r: HttpPingLabel)
        ensures
            r@ == http_label_of(*response),
    {
        let (status, status_code) = match &response.result {
            PingResult::Success { http_status, .. } => (PingStatus::Success, Some(*http_status as u32)),
            PingResult::Failure(_) => (PingStatus::Failure, None),
            PingResult::Timeout => (PingStatus::Timeout, None),
        };
        HttpPingLabel { url: response.url.clone(), method: response.method.clone(), status, status_code }
    }
}

impl TcpPingLabel {
    /// The series a TCP outcome belongs to.
    pub fn from_result(result: &TcpPingResult) -> (r: TcpPingLabel)
        ensures
            r.host@ == result.host@,
            r.port == result.port as u32,
            r.response == tcp_status_of(result.response),
    {
        let response = match &result.response {
            TcpPingResponse::Success { .. } => PingStatus::Success,
            TcpPingResponse::Failure(_) => PingStatus::Failure,
            TcpPingResponse::Timeout => PingStatus::Timeout,
        };
        TcpPingLabel { host: result.host.clone(), port: result.port as u32, response }
    }
}

/// How an HTTP outcome changes its series: the latency of a Success, else a
/// failure to count.
pub fn record_http_ping(response: &PingResponse) -> (u: HttpUpdate)
    ensures
        u.label@ == http_label_of(*response),
        u.latency_us == http_latency_of(response.result),
{
    let label = HttpPingLabel::from_response(response);
    let latency_us = match &response.result {
        PingResult::Success { response_time_us, .. } => Some(*response_time_us),
        _ => None,
    };
    HttpUpdate { label, latency_us }
}

/// How a TCP outcome changes its series: the established time of a Success,
/// else a failure to count.
pub fn record_tcp_ping(result: &TcpPingResult) -> (u: TcpUpdate)
    ensures
        u.label.host@ == result.host@,
        u.label.port == result.port as u32,
        u.label.response == tcp_status_of(result.response),
        u.latency_us == tcp_latency_of(result.response),
{
    let label = TcpPingLabel::from_result(result);
    let latency_us = match &result.response {
        TcpPingResponse::Success { established_time_us, .. } => Some(*established_time_us),
        _ => None,
    };
    TcpUpdate { label, latency_us }
}

/// How one timed resolution of `host` changes the DNS metrics.
pub fn report_time(host: String, time_us: u64, error: Option<ResolveFailureKind>) -> (u: ResolveUpdate)
    ensures
        error is None ==> (u matches ResolveUpdate::Resolved { label, time_us: t } && label.host == host
            && t == time_us),
        error matches Some(k) ==> (u matches ResolveUpdate::Failed { label, error: e } && label.host
            == host && e.host == host && e.error_type == resolve_error_type_of(k)),
{
    match error {
        None => ResolveUpdate::Resolved { label: ResolveLabel { host }, time_us },
        Some(k) => {
            let error = ResolveErrorLabel::new(ResolveLabel { host: host.clone() }, k);
            ResolveUpdate::Failed { label: ResolveLabel { host }, error }
        },
    }
}

/// The value of a counter series; an absent series counts zero.
pub open spec fn count_of<K>(m: Map<K, nat>, k: K) -> nat {
    if m.contains_key(k) {
        m[k]
    } else {
        0
    }
}

/// The failure counters after recording one HTTP outcome.
pub open spec fn apply_http(m: Map<HttpLabelView, nat>, r: PingResponse) -> Map<HttpLabelView, nat> {
    if http_latency_of(r.result) is None {
        m.insert(http_label_of(r), count_of(m, http_label_of(r)) + 1)
    } else {
        m
    }
}

/// The failure counters after recording each outcome in turn.
pub open spec fn record_all(m: Map<HttpLabelView, nat>, rs: Seq<PingResponse>) -> Map<HttpLabelView, nat>
    decreases rs.len(),
{
    if rs.len() == 0 {
        m
    } else {
        record_all(apply_http(m, rs[0]), rs.drop_first())
    }
}

/// Successive failed probes of one HTTP target raise its failure counter by
/// exactly one per attempt.
pub proof fn lemma_failures_counted_once_each(
    m: Map<HttpLabelView, nat>,
    rs: Seq<PingResponse>,
    url: Seq<char>,
    method: Seq<char>,
)
    requires
        forall|i: int|
            0 <= i < rs.len() ==> (#[trigger] rs[i]).url@ == url && rs[i].method@ == method
                && rs[i].result is Failure,
    ensures
        ({
            let k = HttpLabelView { url, method, status: PingStatus::Failure, status_code: None };
            count_of(record_all(m, rs), k) == count_of(m, k) + rs.len()
        }),
    decreases rs.len(),
{
    let k = HttpLabelView { url, method, status: PingStatus::Failure, status_code: None };
    if rs.len() > 0 {
        assert(rs[0].url@ == url);
        assert(http_label_of(rs[0]) == k);
        let m1 = apply_http(m, rs[0]);
        assert(count_of(m1, k) == count_of(m, k) + 1);
        assert forall|i: int| 0 <= i < rs.drop_first().len() implies (#[trigger] rs.drop_first()[i]).url@
            == url && rs.drop_first()[i].method@ == method && rs.drop_first()[i].result is Failure by {
            assert(rs.drop_first()[i] == rs[i + 1]);
        }
        lemma_failures_counted_once_each(m1, rs.drop_first(), url, method);
    }
}

/// A timed-out HTTP probe records neither a Success nor a Failure: it counts
/// in its own Timeout series and observes no latency.
pub proof fn lemma_timeout_recorded_as_timeout(m: Map<HttpLabelView, nat>, r: PingResponse)
    requires
        r.result is Timeout,
    ensures
        http_latency_of(r.result) is None,
        http_label_of(r).status == PingStatus::Timeout,
        forall|k: HttpLabelView| k.status != PingStatus::Timeout ==> count_of(apply_http(m, r), k)
            == count_of(m, k),
{
}

/// In a tick where every attempt against one HTTP target fails, the task
/// starts `retries` attempts and, once each outcome is recorded, that
/// target's failure counter has risen by exactly `retries`: one per attempt.
pub proof fn lemma_failing_tick_counted(
    retries: u8,
    m: Map<HttpLabelView, nat>,
    rs: Seq<PingResponse>,
    url: Seq<char>,
    method: Seq<char>,
)
    requires
        retries >= 1,
        rs.len() == retries,
        forall|i: int|
            0 <= i < rs.len() ==> (#[trigger] rs[i]).url@ == url && rs[i].method@ == method
                && rs[i].result is Failure,
    ensures
        drive(retries, TaskState::Idle, seq![TaskEvent::TickFired] + failures(retries as nat)).1 == rs.len(),
        ({
            let k = HttpLabelView { url, method, status: PingStatus::Failure, status_code: None };
            count_of(record_all(m, rs), k) == count_of(m, k) + retries
        }),
{
    lemma_failing_tick(retries);
    lemma_failures_counted_once_each(m, rs, url, method);
}

} // verus!
