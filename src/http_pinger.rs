use crate::address::{text_equals, trim, trimmed};
use crate::config::HttpPingerEntry;
use std::str::FromStr;
use vstd::prelude::*;

verus! {

/// The HTTP version a response came with.
#[derive(Copy, Clone, Debug, PartialEq, Eq, Structural)]
pub enum HttpVersion {
    Http09,
    Http10,
    Http11,
    Http2,
    Http3,
}

/// The outcome of one HTTP probe attempt.
#[derive(Clone, Debug)]
pub enum PingResult {
    Success { http_status: u16, response_time_us: u64, version: HttpVersion },
    /// A soft error: the text of what went wrong.
    Failure(String),
    Timeout,
}

/// One HTTP probe attempt: the target and its outcome.
#[derive(Clone, Debug)]
pub struct PingResponse {
    pub url: String,
    /// The peer's address, when one was reached and could be read.
    pub ip: Option<String>,
    pub method: String,
    pub result: PingResult,
}

/// Why an HTTP entry cannot be probed.
#[derive(Copy, Clone, Debug, PartialEq, Eq, Structural)]
pub enum HttpTargetError {
    /// The method is not an HTTP token.
    InvalidMethod,
    /// The URL does not parse.
    InvalidUrl,
    /// The URL has no host.
    MissingHost,
    /// The scheme has no known default port and none is written.
    UnsupportedScheme,
}

/// Whether `url::Url::parse` accepts the text.
pub uninterp spec fn url_parses(s: Seq<char>) -> bool;

/// `Url::as_str` of the parsed text: its serialization.
pub uninterp spec fn url_text_of(s: Seq<char>) -> Seq<char>;

/// `Url::scheme` of the parsed text.
pub uninterp spec fn url_scheme_of(s: Seq<char>) -> Seq<char>;

/// `Url::host_str` of the parsed text.
pub uninterp spec fn url_host_of(s: Seq<char>) -> Option<Seq<char>>;

/// `Url::port_or_known_default` of the parsed text.
pub uninterp spec fn url_port_of(s: Seq<char>) -> Option<u16>;

/// `Url::authority` of the parsed text.
pub uninterp spec fn url_authority_of(s: Seq<char>) -> Seq<char>;

pub open spec fn https_scheme() -> Seq<char> {
    seq!['h', 't', 't', 'p', 's']
}

/// An RFC 9110 `tchar`.
pub open spec fn is_method_char(c: char) -> bool {
    ||| 'a' <= c && c <= 'z'
    ||| 'A' <= c && c <= 'Z'
    ||| '0' <= c && c <= '9'
    ||| c == '!' || c == '#' || c == '$' || c == '%' || c == '&' || c == '\'' || c == '*'
    ||| c == '+' || c == '-' || c == '.' || c == '^' || c == '_' || c == '`' || c == '|' || c == '~'
}

/// An HTTP method is a non-empty token.
pub open spec fn method_valid(m: Seq<char>) -> bool {
    m.len() > 0 && forall|i: int| 0 <= i < m.len() ==> is_method_char(#[trigger] m[i])
}

/// What the probe reads from a parsed URL.
#[derive(Clone, Debug)]
pub struct ParsedUrl {
    /// The URL's serialization.
    pub text: String,
    pub scheme: String,
    pub host: Option<String>,
    /// The explicit port, or the scheme's known default.
    pub port: Option<u16>,
    pub authority: String,
}

/// Relies on `url::Url::parse` and the accessors read from its result;
/// `port_or_known_default` knows the default port of `http` and `https`.
#[verifier::external_body]
fn parse_url(s: &str) -> (r: Option<ParsedUrl>)
    ensures
        r is Some <==> url_parses(s@),
        r matches Some(u) ==> u.text@ == url_text_of(s@) && u.scheme@ == url_scheme_of(s@)
            && u.authority@ == url_authority_of(s@),
        r matches Some(u) ==> (u.host is Some <==> url_host_of(s@) is Some),
        r matches Some(u) ==> (u.host matches Some(h) ==> url_host_of(s@) == Some(h@)),
        r matches Some(u) ==> u.port == url_port_of(s@),
{
    let u = url::Url::parse(s).ok()?;
    Some(ParsedUrl {
        text: u.as_str().to_string(),
        scheme: u.scheme().to_string(),
        host: u.host_str().map(|h| h.to_string()),
        port: u.port_or_known_default(),
        authority: u.authority().to_string(),
    })
}

/// Relies on `http::Method::from_str` (as `hyper::Method`): it accepts exactly
/// the non-empty tokens and keeps their text.
#[verifier::external_body]
fn parse_method(s: &str) -> (r: Option<String>)
    ensures
        r is Some <==> method_valid(s@),
        r matches Some(m) ==> m@ == s@,
{
    hyper::Method::from_str(s).ok().map(|m| m.as_str().to_string())
}

/// A validated HTTP target: what both backends probe.
#[derive(Clone, Debug)]
pub struct HttpPingTarget {
    url: String,
    https: bool,
    host: String,
    port: u16,
    authority: String,
    method: String,
    timeout_millis: u64,
}

/// The model of an [`HttpPingTarget`].
pub struct HttpPingTargetView {
    /// The URL's serialization.
    pub url: Seq<char>,
    /// Whether the exchange runs over TLS.
    pub https: bool,
    pub host: Seq<char>,
    pub port: u16,
    /// What the `Host` header carries.
    pub authority: Seq<char>,
    pub method: Seq<char>,
    pub timeout_millis: u64,
}

impl View for HttpPingTarget {
    type V = HttpPingTargetView;

    closed spec fn view(&self) -> HttpPingTargetView {
        HttpPingTargetView {
            url: self.url@,
            https: self.https,
            host: self.host@,
            port: self.port,
            authority: self.authority@,
            method: self.method@,
            timeout_millis: self.timeout_millis,
        }
    }
}

/// The URL of an entry parses, holds a host, and has an explicit port or
/// a scheme whose default port is known.
pub open spec fn url_supported(t: Seq<char>) -> bool {
    &&& url_parses(t)
    &&& url_host_of(t) is Some
    &&& url_port_of(t) is Some
}

impl HttpPingTarget {
    /// Validates an HTTP entry: the method, then the URL (after trimming),
    /// its host and its port, explicit or the scheme's default. The exchange
    /// runs over TLS for `https` and in clear text otherwise.
    pub fn new(entry: HttpPingerEntry, timeout_millis: u64) -> (r: Result<HttpPingTarget, HttpTargetError>)
        ensures
            r is Ok <==> method_valid(entry.method@) && url_supported(trimmed(entry.url@)),
            r == Err::<HttpPingTarget, HttpTargetError>(HttpTargetError::InvalidMethod)
                <==> !method_valid(entry.method@),
            r == Err::<HttpPingTarget, HttpTargetError>(HttpTargetError::InvalidUrl)
                <==> method_valid(entry.method@) && !url_parses(trimmed(entry.url@)),
            r == Err::<HttpPingTarget, HttpTargetError>(HttpTargetError::MissingHost)
                <==> method_valid(entry.method@) && url_parses(trimmed(entry.url@))
                && url_host_of(trimmed(entry.url@)) is None,
            r == Err::<HttpPingTarget, HttpTargetError>(HttpTargetError::UnsupportedScheme)
                <==> method_valid(entry.method@) && url_parses(trimmed(entry.url@))
                && url_host_of(trimmed(entry.url@)) is Some && url_port_of(trimmed(entry.url@)) is None,
            r matches Ok(p) ==> {
                let t = trimmed(entry.url@);
                &&& p@.url == url_text_of(t)
                &&& p@.https == (url_scheme_of(t) == https_scheme())
                &&& Some(p@.host) == url_host_of(t)
                &&& Some(p@.port) == url_port_of(t)
                &&& p@.authority == url_authority_of(t)
                &&& p@.method == entry.method@
                &&& p@.timeout_millis == timeout_millis
            },
    {
        let method = match parse_method(entry.method.as_str()) {
            Some(m) => m,
            None => return Err(HttpTargetError::InvalidMethod),
        };
        let u = match parse_url(trim(entry.url.as_str())) {
            Some(u) => u,
            None => return Err(HttpTargetError::InvalidUrl),
        };
        HttpPingTarget::from_parsed(u, method, timeout_millis)
    }

    /// Builds a target from a parsed URL and a valid method: the URL must
    /// hold a host and a port, explicit or the scheme's default.
    pub fn from_parsed(u: ParsedUrl, method: String, timeout_millis: u64) -> (r: Result<
        HttpPingTarget,
        HttpTargetError,
    >)
        ensures
            r is Ok <==> u.host is Some && u.port is Some,
            r == Err::<HttpPingTarget, HttpTargetError>(HttpTargetError::MissingHost) <==> u.host is None,
            r == Err::<HttpPingTarget, HttpTargetError>(HttpTargetError::UnsupportedScheme)
                <==> u.host is Some && u.port is None,
            r matches Ok(p) ==> {
                &&& p@.url == u.text@
                &&& p@.https == (u.scheme@ == https_scheme())
                &&& u.host matches Some(h) && p@.host == h@
                &&& Some(p@.port) == u.port
                &&& p@.authority == u.authority@
                &&& p@.method == method@
                &&& p@.timeout_millis == timeout_millis
            },
    {
        let host = match u.host {
            Some(h) => h,
            None => return Err(HttpTargetError::MissingHost),
        };
        let port = match u.port {
            Some(p) => p,
            None => return Err(HttpTargetError::UnsupportedScheme),
        };
        proof {
            reveal_strlit("https");
            assert("https"@ =~= https_scheme());
        }
        let https = text_equals(u.scheme.as_str(), "https");
        Ok(HttpPingTarget { url: u.text, https, host, port, authority: u.authority, method, timeout_millis })
    }

    pub fn url(&self) -> (r: &String)
        ensures
            r@ == self@.url,
    {
        &self.url
    }

    pub fn is_https(&self) -> (r: bool)
        ensures
            r == self@.https,
    {
        self.https
    }

    pub fn host(&self) -> (r: &String)
        ensures
            r@ == self@.host,
    {
        &self.host
    }

    pub fn port(&self) -> (r: u16)
        ensures
            r == self@.port,
    {
        self.port
    }

    /// The value of the `Host` header.
    pub fn authority(&self) -> (r: &String)
        ensures
            r@ == self@.authority,
    {
        &self.authority
    }

    pub fn method(&self) -> (r: &String)
        ensures
            r@ == self@.method,
    {
        &self.method
    }

    pub fn timeout_millis(&self) -> (r: u64)
        ensures
            r == self@.timeout_millis,
    {
        self.timeout_millis
    }

    /// A soft error of this attempt (resolution, connection, handshake,
    /// request, or the connection driver): a Failure carrying its text.
    pub fn wrap_soft_err(&self, reason: String) -> (r: PingResponse)
        ensures
            r.url@ == self@.url,
            r.method@ == self@.method,
            r.ip is None,
            r.result == PingResult::Failure(reason),
    {
        PingResponse { url: self.url.clone(), ip: None, method: self.method.clone(), result: PingResult::Failure(reason) }
    }

    /// A response that arrived: its status, version and the time it took.
    pub fn success(&self, ip: Option<String>, http_status: u16, response_time_us: u64, version: HttpVersion) -> (r:
        PingResponse)
        ensures
            r.url@ == self@.url,
            r.method@ == self@.method,
            r.ip == ip,
            r.result == (PingResult::Success { http_status, response_time_us, version }),
    {
        PingResponse {
            url: self.url.clone(),
            ip,
            method: self.method.clone(),
            result: PingResult::Success { http_status, response_time_us, version },
        }
    }

    /// The outcome of an attempt that did not complete within the timeout.
    pub fn timed_out(&self) -> (r: PingResponse)
        ensures
            r.url@ == self@.url,
            r.method@ == self@.method,
            r.ip is None,
            r.result == PingResult::Timeout,
    {
        PingResponse { url: self.url.clone(), ip: None, method: self.method.clone(), result: PingResult::Timeout }
    }

    /// Settles an attempt raced against the timeout: `None` when the timer
    /// fired first, which is a Timeout whatever the attempt was doing.
    pub fn settle(&self, raced: Option<PingResponse>) -> (r: PingResponse)
        ensures
            raced is None ==> r.result == PingResult::Timeout && r.ip is None && r.url@ == self@.url
                && r.method@ == self@.method,
            raced matches Some(x) ==> r == x,
    {
        match raced {
            Some(x) => x,
            None => self.timed_out(),
        }
    }
}

} // verus!
