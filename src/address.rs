use tokio_rustls::rustls::pki_types::{IpAddr as PkiIpAddr, ServerName};
use vstd::prelude::*;

verus! {

/// An IP address as a plain number: its octets read as one big-endian integer.
#[derive(Copy, Clone, Debug, PartialEq, Eq, Structural)]
pub enum IpAddress {
    V4(u32),
    V6(u128),
}

/// A target host: a literal IP address, or a DNS name that must be resolved.
#[derive(Clone, Debug)]
pub enum HostName {
    Ip(IpAddress),
    Dns(String),
}

/// A normalized TCP target.
#[derive(Clone, Debug)]
pub struct TcpAddress {
    pub host: HostName,
    pub port: u16,
}

/// Why an address is not a bare `host:port`.
#[derive(Copy, Clone, Debug, PartialEq, Eq, Structural)]
pub enum AddressError {
    /// No `:` separates a port.
    MissingPort,
    /// What follows the last `:` is not a decimal number up to 65535.
    InvalidPort,
    /// The host part is empty, or holds a scheme, path, query, fragment,
    /// credentials or stray brackets.
    InvalidHost,
    /// The host is neither a valid DNS name nor a literal IP address.
    InvalidName,
}

/// Whether `ServerName::try_from` accepts the text as a DNS name.
pub uninterp spec fn dns_name_valid(s: Seq<char>) -> bool;

/// The address `ServerName::try_from` reads from the text when it is not a
/// DNS name.
pub uninterp spec fn ip_literal_of(s: Seq<char>) -> Option<IpAddress>;

/// Characters that separate the parts of a URL, or that no bare host holds.
pub open spec fn is_delimiter(c: char) -> bool {
    c == ':' || c == '/' || c == '?' || c == '#' || c == '@' || c == '[' || c == ']' || c == ' '
}

/// A host written without brackets: non-empty, no delimiter.
pub open spec fn plain_host(h: Seq<char>) -> bool {
    h.len() > 0 && forall|i: int| 0 <= i < h.len() ==> !is_delimiter(#[trigger] h[i])
}

/// An IPv6 literal in brackets: `[`, then colons and non-delimiters, then `]`.
pub open spec fn bracketed_host(h: Seq<char>) -> bool {
    &&& h.len() > 2
    &&& h[0] == '['
    &&& h[h.len() - 1] == ']'
    &&& forall|i: int| 1 <= i < h.len() - 1 ==> (#[trigger] h[i] == ':' || !is_delimiter(h[i]))
}

/// The host text that is classified: brackets removed.
pub open spec fn host_text(h: Seq<char>) -> Seq<char> {
    if bracketed_host(h) {
        h.subrange(1, h.len() - 1)
    } else {
        h
    }
}

/// Whether `ServerName::try_from` accepts the text.
pub open spec fn host_accepted(t: Seq<char>) -> bool {
    dns_name_valid(t) || ip_literal_of(t) is Some
}

/// What `ServerName::try_from` makes of the text.
pub open spec fn host_named(h: HostName, t: Seq<char>) -> bool {
    match h {
        HostName::Dns(n) => dns_name_valid(t) && n@ == t,
        HostName::Ip(ip) => !dns_name_valid(t) && ip_literal_of(t) == Some(ip),
    }
}

pub open spec fn is_digit(c: char) -> bool {
    '0' <= c && c <= '9'
}

/// Decimal value of a string of digits.
pub open spec fn decimal_value(d: Seq<char>) -> nat
    decreases d.len(),
{
    if d.len() == 0 {
        0
    } else {
        decimal_value(d.drop_last()) * 10 + (d.last() as nat - '0' as nat) as nat
    }
}

/// One to five digits, of value at most 65535.
pub open spec fn valid_port(d: Seq<char>) -> bool {
    &&& 1 <= d.len() <= 5
    &&& forall|i: int| 0 <= i < d.len() ==> is_digit(#[trigger] d[i])
    &&& decimal_value(d) <= 65535
}

/// Index of the last `c`, or -1.
pub open spec fn last_index_of(s: Seq<char>, c: char) -> int
    decreases s.len(),
{
    if s.len() == 0 {
        -1
    } else if s.last() == c {
        s.len() - 1
    } else {
        last_index_of(s.drop_last(), c)
    }
}

/// Index of the last `:`, or -1.
pub open spec fn last_colon(s: Seq<char>) -> int {
    last_index_of(s, ':')
}

pub open spec fn host_part(s: Seq<char>) -> Seq<char> {
    s.take(last_colon(s))
}

pub open spec fn port_part(s: Seq<char>) -> Seq<char> {
    s.skip(last_colon(s) + 1)
}

pub proof fn lemma_last_index_bounds(s: Seq<char>, c: char)
    ensures
        -1 <= last_index_of(s, c) < s.len(),
        last_index_of(s, c) >= 0 ==> s[last_index_of(s, c)] == c,
        forall|j: int| last_index_of(s, c) < j < s.len() ==> s[j] != c,
    decreases s.len(),
{
    if s.len() > 0 && s.last() != c {
        let t = s.drop_last();
        lemma_last_index_bounds(t, c);
        assert forall|j: int| last_index_of(s, c) < j < s.len() implies s[j] != c by {
            if j < t.len() {
                assert(t[j] == s[j]);
            }
        }
    }
}

proof fn lemma_last_index_prefix(s: Seq<char>, c: char, i: int)
    requires
        0 <= i <= s.len(),
        forall|j: int| i <= j < s.len() ==> s[j] != c,
    ensures
        last_index_of(s, c) == last_index_of(s.take(i), c),
    decreases s.len() - i,
{
    if i == s.len() {
        assert(s.take(i) =~= s);
    } else {
        assert(s.drop_last().take(i) =~= s.take(i));
        lemma_last_index_prefix(s.drop_last(), c, i);
    }
}

/// Relies on rustls-pki-types' `ServerName::try_from(&str)`: the text is kept
/// as a DNS name when valid, else read as an IP address, else refused.
#[verifier::external_body]
fn server_name(s: &str) -> (r: Option<HostName>)
    ensures
        r is Some <==> dns_name_valid(s@) || ip_literal_of(s@) is Some,
        r matches Some(HostName::Dns(n)) ==> dns_name_valid(s@) && n@ == s@,
        r matches Some(HostName::Ip(ip)) ==> !dns_name_valid(s@) && ip_literal_of(s@) == Some(ip),
{
    match ServerName::try_from(s) {
        Ok(ServerName::DnsName(n)) => Some(HostName::Dns(n.as_ref().to_string())),
        Ok(ServerName::IpAddress(PkiIpAddr::V4(a))) => Some(HostName::Ip(IpAddress::V4(u32::from_be_bytes(*a.as_ref())))),
        Ok(ServerName::IpAddress(PkiIpAddr::V6(a))) => Some(HostName::Ip(IpAddress::V6(u128::from_be_bytes(*a.as_ref())))),
        _ => None,
    }
}

/// Checks a host part of an address and classifies it as a literal IP
/// address or a DNS name. An IPv6 literal may stand in brackets.
pub fn parse_host(h: &str) -> (r: Result<HostName, AddressError>)
    ensures
        r is Ok <==> (plain_host(h@) || bracketed_host(h@)) && host_accepted(host_text(h@)),
        r == Err::<HostName, AddressError>(AddressError::InvalidHost)
            <==> !(plain_host(h@) || bracketed_host(h@)),
        r == Err::<HostName, AddressError>(AddressError::InvalidName)
            <==> (plain_host(h@) || bracketed_host(h@)) && !host_accepted(host_text(h@)),
        r matches Ok(n) ==> host_named(n, host_text(h@)),
{
    let n = h.unicode_len();
    if n == 0 {
        return Err(AddressError::InvalidHost);
    }
    let bracketed = n > 2 && h.get_char(0) == '[' && h.get_char(n - 1) == ']';
    let (lo, hi) = if bracketed { (1, n - 1) } else { (0, n) };
    let mut i: usize = lo;
    while i < hi
        invariant
            lo <= i <= hi <= n,
            n == h@.len(),
            bracketed ==> lo == 1 && hi == n - 1 && h@[0] == '[' && h@[n - 1] == ']' && n > 2,
            !bracketed ==> lo == 0 && hi == n && !(n > 2 && h@[0] == '[' && h@[n - 1] == ']'),
            forall|j: int| lo <= j < i ==> (bracketed && #[trigger] h@[j] == ':') || !is_delimiter(h@[j]),
        decreases hi - i,
    {
        let c = h.get_char(i);
        if is_delimiter_char(c) && !(bracketed && c == ':') {
            proof {
                assert(!bracketed_host(h@));
                assert(!plain_host(h@));
            }
            return Err(AddressError::InvalidHost);
        }
        i += 1;
    }
    proof {
        if bracketed {
            assert(bracketed_host(h@));
        } else {
            assert(plain_host(h@));
        }
    }
    let text = h.substring_char(lo, hi);
    proof {
        assert(text@ =~= host_text(h@));
    }
    match server_name(text) {
        Some(name) => Ok(name),
        None => Err(AddressError::InvalidName),
    }
}

/// A bare `host:port`: the part after the last `:` is a port, the part
/// before it a host, written plainly or as a bracketed IPv6 literal, that
/// names a DNS name or an IP address.
pub open spec fn address_valid(s: Seq<char>) -> bool {
    &&& last_colon(s) >= 0
    &&& valid_port(port_part(s))
    &&& plain_host(host_part(s)) || bracketed_host(host_part(s))
    &&& host_accepted(host_text(host_part(s)))
}

/// Largest value of `i` decimal digits.
spec fn digits_bound(i: int) -> int {
    if i <= 0 { 0 } else if i == 1 { 9 } else if i == 2 { 99 } else if i == 3 { 999 } else if i == 4 { 9999 } else { 99999 }
}

/// Reads one to five decimal digits.
fn parse_port(p: &str) -> (r: Option<u16>)
    ensures
        r is Some <==> valid_port(p@),
        r matches Some(v) ==> v as nat == decimal_value(p@),
{
    let n = p.unicode_len();
    if n == 0 || n > 5 {
        return None;
    }
    let mut v: u32 = 0;
    let mut i: usize = 0;
    while i < n
        invariant
            n == p@.len(),
            1 <= n <= 5,
            i <= n,
            v as nat == decimal_value(p@.take(i as int)),
            v as int <= digits_bound(i as int),
            forall|j: int| 0 <= j < i ==> is_digit(#[trigger] p@[j]),
        decreases n - i,
    {
        let c = p.get_char(i);
        if !('0' <= c && c <= '9') {
            return None;
        }
        proof {
            assert(p@.take(i + 1).drop_last() =~= p@.take(i as int));
            assert(p@.take(i + 1).last() == c);
        }
        v = v * 10 + (c as u32 - '0' as u32);
        i += 1;
    }
    proof {
        assert(p@.take(n as int) =~= p@);
    }
    if v > 65535 {
        return None;
    }
    Some(v as u16)
}

/// Finds the last occurrence of `c`.
pub fn find_last(s: &str, c: char) -> (r: Option<usize>)
    ensures
        last_index_of(s@, c) < 0 ==> r is None,
        last_index_of(s@, c) >= 0 ==> r == Some(last_index_of(s@, c) as usize),
{
    let n = s.unicode_len();
    let mut i: usize = n;
    while i > 0
        invariant
            n == s@.len(),
            i <= n,
            forall|j: int| i <= j < n ==> s@[j] != c,
        ensures
            i == 0 || s@[i - 1] == c,
            forall|j: int| i <= j < n ==> s@[j] != c,
        decreases i,
    {
        if s.get_char(i - 1) == c {
            break;
        }
        i -= 1;
    }
    proof {
        lemma_last_index_bounds(s@, c);
        lemma_last_index_prefix(s@, c, i as int);
    }
    if i == 0 {
        return None;
    }
    proof {
        assert(s@.take(i as int).last() == c);
    }
    Some(i - 1)
}

/// Normalizes a TCP target written as `host:port`, rejecting anything more
/// than a bare host and port: no scheme, path, query, fragment or credentials.
pub fn normalize_address(s: &str) -> (r: Result<TcpAddress, AddressError>)
    ensures
        r is Ok <==> address_valid(s@),
        r == Err::<TcpAddress, AddressError>(AddressError::MissingPort) <==> last_colon(s@) < 0,
        r == Err::<TcpAddress, AddressError>(AddressError::InvalidPort)
            <==> last_colon(s@) >= 0 && !valid_port(port_part(s@)),
        r == Err::<TcpAddress, AddressError>(AddressError::InvalidHost)
            <==> last_colon(s@) >= 0 && valid_port(port_part(s@))
                && !(plain_host(host_part(s@)) || bracketed_host(host_part(s@))),
        r == Err::<TcpAddress, AddressError>(AddressError::InvalidName)
            <==> last_colon(s@) >= 0 && valid_port(port_part(s@))
                && (plain_host(host_part(s@)) || bracketed_host(host_part(s@)))
                && !host_accepted(host_text(host_part(s@))),
        r matches Ok(a) ==> a.port as nat == decimal_value(port_part(s@))
            && host_named(a.host, host_text(host_part(s@))),
{
    let n = s.unicode_len();
    let found = find_last(s, ':');
    if found.is_none() {
        return Err(AddressError::MissingPort);
    }
    let k = found.unwrap();
    proof {
        lemma_last_index_bounds(s@, ':');
    }
    let port_text = s.substring_char(k + 1, n);
    let host_text = s.substring_char(0, k);
    proof {
        assert(port_text@ =~= port_part(s@));
        assert(host_text@ =~= host_part(s@));
    }
    let port = match parse_port(port_text) {
        Some(p) => p,
        None => return Err(AddressError::InvalidPort),
    };
    match parse_host(host_text) {
        Ok(host) => Ok(TcpAddress { host, port }),
        Err(e) => Err(e),
    }
}

/// Whether two texts are equal, character by character.
pub fn text_equals(a: &str, b: &str) -> (r: bool)
    ensures
        r == (a@ == b@),
{
    let n = a.unicode_len();
    if n != b.unicode_len() {
        return false;
    }
    let mut i: usize = 0;
    while i < n
        invariant
            n == a@.len() == b@.len(),
            i <= n,
            a@.take(i as int) == b@.take(i as int),
        decreases n - i,
    {
        if a.get_char(i) != b.get_char(i) {
            assert(a@.take(i + 1)[i as int] != b@.take(i + 1)[i as int]);
            return false;
        }
        assert(a@.take(i + 1) =~= a@.take(i as int).push(a@[i as int]));
        assert(b@.take(i + 1) =~= b@.take(i as int).push(b@[i as int]));
        i += 1;
    }
    assert(a@ =~= a@.take(n as int));
    assert(b@ =~= b@.take(n as int));
    true
}

/// A character of Unicode's `White_Space` property.
pub open spec fn is_white_space(c: char) -> bool {
    ||| '\u{9}' <= c && c <= '\u{d}'
    ||| c == ' ' || c == '\u{85}' || c == '\u{a0}' || c == '\u{1680}'
    ||| '\u{2000}' <= c && c <= '\u{200a}'
    ||| c == '\u{2028}' || c == '\u{2029}' || c == '\u{202f}' || c == '\u{205f}' || c == '\u{3000}'
}

/// How many white-space characters the text starts with.
pub open spec fn leading_ws(s: Seq<char>) -> nat
    decreases s.len(),
{
    if s.len() > 0 && is_white_space(s[0]) {
        1 + leading_ws(s.drop_first())
    } else {
        0
    }
}

/// How many white-space characters the text ends with.
pub open spec fn trailing_ws(s: Seq<char>) -> nat
    decreases s.len(),
{
    if s.len() > 0 && is_white_space(s.last()) {
        1 + trailing_ws(s.drop_last())
    } else {
        0
    }
}

/// The text without its leading and trailing white space.
pub open spec fn trimmed(s: Seq<char>) -> Seq<char> {
    let t = s.skip(leading_ws(s) as int);
    t.take(t.len() - trailing_ws(t))
}

fn is_white_space_char(c: char) -> (r: bool)
    ensures
        r == is_white_space(c),
{
    ('\u{9}' <= c && c <= '\u{d}') || c == ' ' || c == '\u{85}' || c == '\u{a0}' || c == '\u{1680}'
        || ('\u{2000}' <= c && c <= '\u{200a}') || c == '\u{2028}' || c == '\u{2029}' || c == '\u{202f}'
        || c == '\u{205f}' || c == '\u{3000}'
}

/// Removes leading and trailing white space, as `str::trim` does.
pub fn trim(s: &str) -> (r: &str)
    ensures
        r@ == trimmed(s@),
{
    let n = s.unicode_len();
    let mut i: usize = 0;
    proof {
        assert(s@.skip(0) =~= s@);
    }
    while i < n && is_white_space_char(s.get_char(i))
        invariant
            n == s@.len(),
            i <= n,
            leading_ws(s@) == i + leading_ws(s@.skip(i as int)),
        decreases n - i,
    {
        proof {
            assert(s@.skip(i as int).drop_first() =~= s@.skip(i + 1));
        }
        i += 1;
    }
    proof {
        if i < n {
            assert(s@.skip(i as int)[0] == s@[i as int]);
        }
        assert(leading_ws(s@) == i);
    }
    let t = s.substring_char(i, n);
    proof {
        assert(t@ =~= s@.skip(i as int));
        assert(t@.take(t@.len() as int) =~= t@);
    }
    let mut j: usize = n - i;
    while j > 0 && is_white_space_char(t.get_char(j - 1))
        invariant
            t@.len() == n - i,
            j <= n - i,
            trailing_ws(t@) == (n - i - j) + trailing_ws(t@.take(j as int)),
        decreases j,
    {
        proof {
            assert(t@.take(j as int).drop_last() =~= t@.take(j - 1));
            assert(t@.take(j as int).last() == t@[j - 1]);
        }
        j -= 1;
    }
    proof {
        if j > 0 {
            assert(t@.take(j as int).last() == t@[j - 1]);
        }
        assert(trailing_ws(t@) == n - i - j);
    }
    t.substring_char(0, j)
}

fn is_delimiter_char(c: char) -> (r: bool)
    ensures
        r == is_delimiter(c),
{
    c == ':' || c == '/' || c == '?' || c == '#' || c == '@' || c == '[' || c == ']' || c == ' '
}

} // verus!
