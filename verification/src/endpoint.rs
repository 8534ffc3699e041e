//! Where the intercom server is: host names, the URLs derived from them, and
//! the endpoint fields that an operator may override.

use vstd::prelude::*;
use vstd::string::StrSliceExecFns;
use vstd::string::StringExecFns;
use crate::net::{ipv6_text, is_ipv6_text, SocketAddress};
use crate::text::{
    blank, chars_of, concat2, concat3, contains_char, contains_part, find_from, find_last, has_part,
    has_prefix, index_from, is_blank, is_space, char_is_space, last_index, owned, parse_u16,
    parse_unsigned, same, starts_with, string_of, strip_prefix, trim, trimmed,
};

verus! {

pub const DEFAULT_ADMIN_PORT: u16 = 40002;

pub const DEFAULT_AUDIO_PORT: u16 = 40000;

pub const DEFAULT_CONTROL_PORT: u16 = 40001;

pub const DEFAULT_SERVER_HOST: &'static str = "127.0.0.1";

/// What can be wrong with a host name or a URL.
#[derive(Debug, Clone, PartialEq, Eq)]
pub enum EndpointError {
    HostEmpty,
    HostScheme,
    HostPath,
    HostWhitespace,
    HostBrackets,
    HostBracketedNotIpv6,
    HostPort,
    HostNotIpv6,
    /// Looking up that host failed.
    LookupFailed(String),
    /// That host has no address.
    Unresolved(String),
    ControlEmpty,
    ControlScheme,
    UrlEmpty,
    UrlScheme,
    AdminNotDerivable,
}

impl EndpointError {
    /// The message shown to the operator.
    pub fn message(&self) -> (r: String)
        ensures
            r@ == self.text(),
    {
        match self {
            EndpointError::HostEmpty => owned("server host cannot be empty"),
            EndpointError::HostScheme => owned("server host must not include a scheme"),
            EndpointError::HostPath => owned(
                "server host must not include a path, query, fragment, or userinfo",
            ),
            EndpointError::HostWhitespace => owned("server host must not contain whitespace"),
            EndpointError::HostBrackets => owned("IPv6 server host brackets are not balanced"),
            EndpointError::HostBracketedNotIpv6 => owned(
                "bracketed server host must be an IPv6 address",
            ),
            EndpointError::HostPort => owned(
                "server host must not include a port; use Advanced endpoints",
            ),
            EndpointError::HostNotIpv6 => owned(
                "server host contains ':' but is not a valid IPv6 address",
            ),
            EndpointError::LookupFailed(host) => concat3(
                "resolve server host `",
                host.as_str(),
                "`",
            ),
            EndpointError::Unresolved(host) => concat3(
                "server host `",
                host.as_str(),
                "` did not resolve",
            ),
            EndpointError::ControlEmpty => owned("control URL cannot be empty"),
            EndpointError::ControlScheme => owned("control URL must start with ws:// or wss://"),
            EndpointError::UrlEmpty => owned("URL cannot be empty"),
            EndpointError::UrlScheme => owned("URL must start with http:// or https://"),
            EndpointError::AdminNotDerivable => owned(
                "admin URL is empty and control URL is not derivable",
            ),
        }
    }

    pub open spec fn text(self) -> Seq<char> {
        match self {
            EndpointError::HostEmpty => "server host cannot be empty"@,
            EndpointError::HostScheme => "server host must not include a scheme"@,
            EndpointError::HostPath =>
                "server host must not include a path, query, fragment, or userinfo"@,
            EndpointError::HostWhitespace => "server host must not contain whitespace"@,
            EndpointError::HostBrackets => "IPv6 server host brackets are not balanced"@,
            EndpointError::HostBracketedNotIpv6 => "bracketed server host must be an IPv6 address"@,
            EndpointError::HostPort =>
                "server host must not include a port; use Advanced endpoints"@,
            EndpointError::HostNotIpv6 =>
                "server host contains ':' but is not a valid IPv6 address"@,
            EndpointError::LookupFailed(host) => "resolve server host `"@ + host@ + "`"@,
            EndpointError::Unresolved(host) => "server host `"@ + host@ + "` did not resolve"@,
            EndpointError::ControlEmpty => "control URL cannot be empty"@,
            EndpointError::ControlScheme => "control URL must start with ws:// or wss://"@,
            EndpointError::UrlEmpty => "URL cannot be empty"@,
            EndpointError::UrlScheme => "URL must start with http:// or https://"@,
            EndpointError::AdminNotDerivable =>
                "admin URL is empty and control URL is not derivable"@,
        }
    }
}

// ---------------------------------------------------------------------------
// Host names
// ---------------------------------------------------------------------------

/// Some character of `s` is white space.
pub open spec fn has_space(s: Seq<char>) -> bool {
    exists|i: int| 0 <= i < s.len() && is_space(#[trigger] s[i])
}

/// `h` reads as a name and a port.
pub open spec fn names_port(h: Seq<char>) -> bool {
    let k = last_index(h, ':', h.len() as int);
    k > 0 && !h.take(k).contains(':') && parse_unsigned(h.skip(k + 1), u16::MAX as nat) is Some
}

/// The host that `raw` names, or what is wrong with it.
pub open spec fn checked_host(raw: Seq<char>) -> Result<Seq<char>, EndpointError> {
    let h = trim(raw);
    if h.len() == 0 {
        Err(EndpointError::HostEmpty)
    } else if has_part(h, "://"@) {
        Err(EndpointError::HostScheme)
    } else if h.contains('/') || h.contains('?') || h.contains('#') || h.contains('@') {
        Err(EndpointError::HostPath)
    } else if has_space(h) {
        Err(EndpointError::HostWhitespace)
    } else if h[0] == '[' && h.last() == ']' {
        if ipv6_text(h.subrange(1, h.len() - 1)) {
            Ok(h.subrange(1, h.len() - 1))
        } else {
            Err(EndpointError::HostBracketedNotIpv6)
        }
    } else if h[0] == '[' || h.last() == ']' {
        Err(EndpointError::HostBrackets)
    } else if names_port(h) {
        Err(EndpointError::HostPort)
    } else if h.contains(':') && !ipv6_text(h) {
        Err(EndpointError::HostNotIpv6)
    } else {
        Ok(h)
    }
}

fn any_space(v: &Vec<char>) -> (r: bool)
    ensures
        r == has_space(v@),
{
    let mut i: usize = 0;
    while i < v.len()
        invariant
            0 <= i <= v@.len(),
            forall|j: int| 0 <= j < i ==> !is_space(#[trigger] v@[j]),
        decreases v@.len() - i,
    {
        if char_is_space(v[i]) {
            return true;
        }
        i = i + 1;
    }
    false
}

fn reads_as_name_and_port(v: &Vec<char>) -> (r: bool)
    ensures
        r == names_port(v@),
{
    let n = v.len();
    match find_last(v, ':') {
        Some(k) => {
            let name = string_of(v, 0, k);
            let port = string_of(v, k + 1, n);
            proof {
                assert(v@.subrange(0, k as int) =~= v@.take(k as int));
                assert(v@.subrange(k + 1, v@.len() as int) =~= v@.skip(k + 1));
            }
            k > 0 && !contains_char(name.as_str(), ':') && parse_u16(port.as_str()).is_some()
        },
        None => false,
    }
}

/// Checks a host name that an operator typed: it is trimmed, it holds neither a
/// scheme, a path nor a port, and an IPv6 address loses its brackets.
pub fn validate_server_host(host: &str) -> (r: Result<String, EndpointError>)
    ensures
        match r {
            Ok(h) => checked_host(host@) == Ok::<Seq<char>, EndpointError>(h@),
            Err(e) => checked_host(host@) == Err::<Seq<char>, EndpointError>(e),
        },
{
    let h = trimmed(host);
    let v = chars_of(h.as_str());
    let n = v.len();
    if n == 0 {
        return Err(EndpointError::HostEmpty);
    }
    if contains_part(h.as_str(), "://") {
        return Err(EndpointError::HostScheme);
    }
    if contains_char(h.as_str(), '/') || contains_char(h.as_str(), '?') || contains_char(
        h.as_str(),
        '#',
    ) || contains_char(h.as_str(), '@') {
        return Err(EndpointError::HostPath);
    }
    if any_space(&v) {
        return Err(EndpointError::HostWhitespace);
    }
    let opens = v[0] == '[';
    let closes = v[n - 1] == ']';
    if opens && closes {
        let inner = string_of(&v, 1, n - 1);
        if is_ipv6_text(inner.as_str()) {
            return Ok(inner);
        }
        return Err(EndpointError::HostBracketedNotIpv6);
    }
    if opens || closes {
        return Err(EndpointError::HostBrackets);
    }
    if reads_as_name_and_port(&v) {
        return Err(EndpointError::HostPort);
    }
    if contains_char(h.as_str(), ':') && !is_ipv6_text(h.as_str()) {
        return Err(EndpointError::HostNotIpv6);
    }
    Ok(h)
}

/// `s` without the leading characters `c`.
pub open spec fn strip_leading(s: Seq<char>, c: char) -> Seq<char>
    decreases s.len(),
{
    if s.len() > 0 && s[0] == c {
        strip_leading(s.drop_first(), c)
    } else {
        s
    }
}

/// `s` without the trailing characters `c`.
pub open spec fn strip_trailing(s: Seq<char>, c: char) -> Seq<char>
    decreases s.len(),
{
    if s.len() > 0 && s.last() == c {
        strip_trailing(s.drop_last(), c)
    } else {
        s
    }
}

/// The host as it stands in a URL: an IPv6 address in brackets.
pub open spec fn url_host(host: Seq<char>) -> Seq<char> {
    let h = strip_trailing(strip_leading(trim(host), '['), ']');
    if h.contains(':') {
        "["@ + h + "]"@
    } else {
        h
    }
}

/// The host as it stands in a URL.
pub fn host_for_url(host: &str) -> (r: String)
    ensures
        r@ == url_host(host@),
{
    let h = trimmed(host);
    let v = chars_of(h.as_str());
    let n = v.len();
    let mut i: usize = 0;
    proof {
        assert(v@.skip(0) =~= v@);
    }
    while i < n && v[i] == '['
        invariant
            0 <= i <= n,
            n == v@.len(),
            strip_leading(v@, '[') == strip_leading(v@.skip(i as int), '['),
        decreases n - i,
    {
        proof {
            assert(v@.skip(i as int).drop_first() =~= v@.skip(i + 1));
        }
        i = i + 1;
    }
    let mut j: usize = n;
    proof {
        assert(v@.subrange(i as int, n as int) =~= v@.skip(i as int));
        assert(strip_leading(v@, '[') == v@.skip(i as int));
    }
    while j > i && v[j - 1] == ']'
        invariant
            0 <= i <= j <= n,
            n == v@.len(),
            strip_trailing(strip_leading(v@, '['), ']') == strip_trailing(
                v@.subrange(i as int, j as int),
                ']',
            ),
        decreases j,
    {
        proof {
            assert(v@.subrange(i as int, j as int).drop_last() =~= v@.subrange(i as int, j - 1));
        }
        j = j - 1;
    }
    let bare = string_of(&v, i, j);
    if contains_char(bare.as_str(), ':') {
        concat3("[", bare.as_str(), "]")
    } else {
        bare
    }
}

/// The host as it stands in a socket address.
pub fn host_for_socket(host: &str) -> (r: String)
    ensures
        r@ == url_host(host@),
{
    host_for_url(host)
}

// ---------------------------------------------------------------------------
// The server's endpoints on their default ports
// ---------------------------------------------------------------------------

/// The socket address of the audio port on `host`.
pub open spec fn audio_addr_of(host: Seq<char>) -> Seq<char> {
    url_host(host) + ":40000"@
}

/// The URL of the control connection on `host`.
pub open spec fn control_url_of(host: Seq<char>) -> Seq<char> {
    "ws://"@ + url_host(host) + ":40001"@
}

/// The URL of the admin interface on `host`.
pub open spec fn admin_url_of(host: Seq<char>) -> Seq<char> {
    "http://"@ + url_host(host) + ":40002"@
}

/// The address that audio goes to when nothing is configured.
pub fn default_audio_addr() -> (r: SocketAddress)
    ensures
        r.parts() == (DEFAULT_SERVER_HOST@, DEFAULT_AUDIO_PORT),
{
    SocketAddress { ip: owned(DEFAULT_SERVER_HOST), port: DEFAULT_AUDIO_PORT }
}

/// A server, known by its host name.
#[derive(Debug, Clone, PartialEq, Eq)]
pub struct ClientServerEndpoint {
    pub host: String,
}

impl Default for ClientServerEndpoint {
    fn default() -> (r: Self)
        ensures
            r.host@ == DEFAULT_SERVER_HOST@,
    {
        ClientServerEndpoint { host: owned(DEFAULT_SERVER_HOST) }
    }
}

impl ClientServerEndpoint {
    /// The server that `host` names.
    pub fn new(host: &str) -> (r: Result<Self, EndpointError>)
        ensures
            match r {
                Ok(e) => checked_host(host@) == Ok::<Seq<char>, EndpointError>(e.host@),
                Err(e) => checked_host(host@) == Err::<Seq<char>, EndpointError>(e),
            },
    {
        match validate_server_host(host) {
            Ok(host) => Ok(ClientServerEndpoint { host }),
            Err(e) => Err(e),
        }
    }

    pub fn audio_addr_string(&self) -> (r: String)
        ensures
            r@ == audio_addr_of(self.host@),
    {
        concat2(host_for_socket(self.host.as_str()).as_str(), ":40000")
    }

    /// The audio address of this server, from what looking up its host found.
    pub fn resolve_audio_addr(&self, found: HostLookup) -> (r: Result<
        SocketAddress,
        EndpointError,
    >)
        ensures
            resolved_addr(r, self.host@, found),
    {
        resolve_server_audio_addr(self.host.as_str(), found)
    }

    pub fn control_url(&self) -> (r: String)
        ensures
            r@ == control_url_of(self.host@),
    {
        concat3("ws://", host_for_url(self.host.as_str()).as_str(), ":40001")
    }

    pub fn admin_url(&self) -> (r: String)
        ensures
            r@ == admin_url_of(self.host@),
    {
        concat3("http://", host_for_url(self.host.as_str()).as_str(), ":40002")
    }
}

/// What came of looking up a host.
#[derive(Debug)]
pub enum HostLookup {
    /// The lookup failed.
    Failed,
    /// The host has no address.
    Empty,
    /// The first address of the host.
    Found(SocketAddress),
}

/// The address that a lookup of `host` gave, or the error that names the host.
pub open spec fn lookup_gives(
    r: Result<SocketAddress, EndpointError>,
    host: Seq<char>,
    found: HostLookup,
) -> bool {
    match found {
        HostLookup::Failed => r matches Err(EndpointError::LookupFailed(h)) && h@ == host,
        HostLookup::Empty => r matches Err(EndpointError::Unresolved(h)) && h@ == host,
        HostLookup::Found(addr) => r == Ok::<SocketAddress, EndpointError>(addr),
    }
}

/// The first address found for a host, where the host is in order.
pub open spec fn resolved_addr(
    r: Result<SocketAddress, EndpointError>,
    host: Seq<char>,
    found: HostLookup,
) -> bool {
    match checked_host(host) {
        Err(e) => r == Err::<SocketAddress, EndpointError>(e),
        Ok(h) => lookup_gives(r, h, found),
    }
}

/// What is said of a lookup of `host` that gave no address.
pub open spec fn lookup_text(host: Seq<char>, found: HostLookup) -> Option<Seq<char>> {
    match found {
        HostLookup::Failed => Some("resolve server host `"@ + host + "`"@),
        HostLookup::Empty => Some("server host `"@ + host + "` did not resolve"@),
        HostLookup::Found(_) => None,
    }
}

impl HostLookup {
    /// The address that the lookup gave, if any.
    pub open spec fn parts(self) -> Option<(Seq<char>, u16)> {
        match self {
            HostLookup::Found(addr) => Some(addr.parts()),
            _ => None,
        }
    }

    /// The address that the lookup gave, if any.
    pub fn found(self) -> (r: Option<SocketAddress>)
        ensures
            opt_parts(r) == self.parts(),
    {
        match self {
            HostLookup::Found(addr) => Some(addr),
            _ => None,
        }
    }

    /// The address that the lookup of `host` gave.
    pub fn address(self, host: String) -> (r: Result<SocketAddress, EndpointError>)
        ensures
            lookup_gives(r, host@, self),
    {
        match self {
            HostLookup::Failed => Err(EndpointError::LookupFailed(host)),
            HostLookup::Empty => Err(EndpointError::Unresolved(host)),
            HostLookup::Found(addr) => Ok(addr),
        }
    }
}

/// The host and port that are to be looked up for the server's audio address.
pub fn audio_lookup(host: &str) -> (r: Result<(String, u16), EndpointError>)
    ensures
        match r {
            Ok((h, port)) => checked_host(host@) == Ok::<Seq<char>, EndpointError>(h@) && port
                == DEFAULT_AUDIO_PORT,
            Err(e) => checked_host(host@) == Err::<Seq<char>, EndpointError>(e),
        },
{
    match validate_server_host(host) {
        Ok(h) => Ok((h, DEFAULT_AUDIO_PORT)),
        Err(e) => Err(e),
    }
}

/// The server's audio address: the first of those that looking up the host found.
pub fn resolve_server_audio_addr(host: &str, found: HostLookup) -> (r: Result<
    SocketAddress,
    EndpointError,
>)
    ensures
        resolved_addr(r, host@, found),
{
    match validate_server_host(host) {
        Err(e) => Err(e),
        Ok(h) => found.address(h),
    }
}

// ---------------------------------------------------------------------------
// URLs
// ---------------------------------------------------------------------------

/// What is wrong with a control URL, if anything.
pub open spec fn control_url_error(control: Seq<char>) -> Option<EndpointError> {
    let c = trim(control);
    if c.len() == 0 {
        Some(EndpointError::ControlEmpty)
    } else if !has_prefix(c, "ws://"@) && !has_prefix(c, "wss://"@) {
        Some(EndpointError::ControlScheme)
    } else {
        None
    }
}

/// What is wrong with an HTTP URL, if anything.
pub open spec fn http_url_error(url: Seq<char>) -> Option<EndpointError> {
    let u = trim(url);
    if u.len() == 0 {
        Some(EndpointError::UrlEmpty)
    } else if !has_prefix(u, "http://"@) && !has_prefix(u, "https://"@) {
        Some(EndpointError::UrlScheme)
    } else {
        None
    }
}

/// Checks the scheme of a control URL.
pub fn validate_control_url(control: &str) -> (r: Result<(), EndpointError>)
    ensures
        r == match control_url_error(control@) {
            Some(e) => Err::<(), EndpointError>(e),
            None => Ok(()),
        },
{
    let c = trimmed(control);
    if c.as_str().is_empty() {
        return Err(EndpointError::ControlEmpty);
    }
    if !(starts_with(c.as_str(), "ws://") || starts_with(c.as_str(), "wss://")) {
        return Err(EndpointError::ControlScheme);
    }
    Ok(())
}

/// Checks the scheme of an HTTP URL.
pub fn validate_http_url(url: &str) -> (r: Result<(), EndpointError>)
    ensures
        r == match http_url_error(url@) {
            Some(e) => Err::<(), EndpointError>(e),
            None => Ok(()),
        },
{
    let u = trimmed(url);
    if u.as_str().is_empty() {
        return Err(EndpointError::UrlEmpty);
    }
    if !(starts_with(u.as_str(), "http://") || starts_with(u.as_str(), "https://")) {
        return Err(EndpointError::UrlScheme);
    }
    Ok(())
}

/// A character that ends the authority of a URL.
pub open spec fn ends_authority(c: char) -> bool {
    c == '/' || c == '?' || c == '#'
}

/// The first position at or after `i` that ends the authority, or the length.
pub open spec fn authority_end(s: Seq<char>, i: int) -> int
    decreases s.len() - i,
{
    if i >= s.len() {
        s.len() as int
    } else if ends_authority(s[i]) {
        i
    } else {
        authority_end(s, i + 1)
    }
}

/// What follows the scheme of a URL, in its plain or its secure form.
pub open spec fn after_scheme(url: Seq<char>, scheme: Seq<char>) -> Option<Seq<char>> {
    let u = trim(url);
    let plain = scheme + "://"@;
    let secure = scheme + "s://"@;
    if has_prefix(u, plain) {
        Some(u.skip(plain.len() as int))
    } else if has_prefix(u, secure) {
        Some(u.skip(secure.len() as int))
    } else {
        None
    }
}

/// The port of a URL that names none.
pub open spec fn scheme_port(scheme: Seq<char>) -> u16 {
    if scheme == "ws"@ {
        DEFAULT_CONTROL_PORT
    } else {
        DEFAULT_ADMIN_PORT
    }
}

/// The number that a port is written as, or else `default`.
pub open spec fn port_or(s: Seq<char>, default: u16) -> u16 {
    match parse_unsigned(s, u16::MAX as nat) {
        Some(p) => p as u16,
        None => default,
    }
}

/// The host and port that an authority names.
pub open spec fn authority_host_port(a: Seq<char>, scheme: Seq<char>) -> Option<(Seq<char>, u16)> {
    if a.len() == 0 {
        None
    } else if a[0] == '[' {
        let end = index_from(a, ']', 0);
        if end >= a.len() {
            None
        } else {
            let suffix = a.skip(end + 1);
            Some(
                (
                    a.subrange(1, end),
                    if suffix.len() > 0 && suffix[0] == ':' {
                        port_or(suffix.skip(1), scheme_port(scheme))
                    } else {
                        scheme_port(scheme)
                    },
                ),
            )
        }
    } else {
        let k = last_index(a, ':', a.len() as int);
        if k < 0 {
            Some((a, scheme_port(scheme)))
        } else if k == 0 || port_or(a.skip(k + 1), 0) == 0 {
            None
        } else {
            Some((a.take(k), port_or(a.skip(k + 1), 0)))
        }
    }
}

/// The host and port of a URL with the given scheme.
pub open spec fn url_host_port(url: Seq<char>, scheme: Seq<char>) -> Option<(Seq<char>, u16)> {
    match after_scheme(url, scheme) {
        Some(rest) => authority_host_port(rest.take(authority_end(rest, 0)), scheme),
        None => None,
    }
}

fn find_authority_end(v: &Vec<char>) -> (r: usize)
    ensures
        r == authority_end(v@, 0),
        r <= v@.len(),
{
    let mut i: usize = 0;
    while i < v.len()
        invariant
            0 <= i <= v@.len(),
            authority_end(v@, 0) == authority_end(v@, i as int),
        decreases v@.len() - i,
    {
        if v[i] == '/' || v[i] == '?' || v[i] == '#' {
            return i;
        }
        i = i + 1;
    }
    i
}

fn default_port_of(scheme: &str) -> (r: u16)
    ensures
        r == scheme_port(scheme@),
{
    if same(scheme, "ws") {
        DEFAULT_CONTROL_PORT
    } else {
        DEFAULT_ADMIN_PORT
    }
}

fn read_port_or(s: &str, default: u16) -> (r: u16)
    ensures
        r == port_or(s@, default),
{
    match parse_u16(s) {
        Some(p) => p,
        None => default,
    }
}

fn split_authority(a: &str, scheme: &str) -> (r: Option<(String, u16)>)
    ensures
        match r {
            Some((h, p)) => authority_host_port(a@, scheme@) == Some((h@, p)),
            None => authority_host_port(a@, scheme@) is None,
        },
{
    let v = chars_of(a);
    let n = v.len();
    if n == 0 {
        return None;
    }
    let default = default_port_of(scheme);
    if v[0] == '[' {
        let end = find_from(&v, ']', 0);
        if end >= n {
            return None;
        }
        proof {
            assert(v@[end as int] == ']');
        }
        let host = string_of(&v, 1, end);
        let ghost suffix = v@.skip(end + 1);
        if end + 1 < n && v[end + 1] == ':' {
            let digits = string_of(&v, end + 2, n);
            proof {
                assert(suffix[0] == ':');
                assert(v@.subrange(end + 2, n as int) =~= suffix.skip(1));
            }
            return Some((host, read_port_or(digits.as_str(), default)));
        }
        proof {
            if suffix.len() > 0 {
                assert(suffix[0] == v@[end + 1]);
            }
        }
        return Some((host, default));
    }
    match find_last(&v, ':') {
        None => Some((owned(a), default)),
        Some(k) => {
            let digits = string_of(&v, k + 1, n);
            proof {
                assert(v@.subrange(k + 1, n as int) =~= v@.skip(k + 1));
                assert(v@.subrange(0, k as int) =~= v@.take(k as int));
            }
            let port = read_port_or(digits.as_str(), 0);
            if k == 0 || port == 0 {
                None
            } else {
                Some((string_of(&v, 0, k), port))
            }
        },
    }
}

/// The host and port of a URL whose scheme is `scheme_prefix`, or that with an `s`.
pub fn parse_url_host_port(url: &str, scheme_prefix: &str) -> (r: Option<(String, u16)>)
    ensures
        match r {
            Some((h, p)) => url_host_port(url@, scheme_prefix@) == Some((h@, p)),
            None => url_host_port(url@, scheme_prefix@) is None,
        },
{
    let u = trimmed(url);
    let plain = concat2(scheme_prefix, "://");
    let rest = match strip_prefix(u.as_str(), plain.as_str()) {
        Some(rest) => rest,
        None => {
            let secure = concat2(scheme_prefix, "s://");
            match strip_prefix(u.as_str(), secure.as_str()) {
                Some(rest) => rest,
                None => {
                    return None;
                },
            }
        },
    };
    let v = chars_of(rest.as_str());
    let end = find_authority_end(&v);
    let authority = string_of(&v, 0, end);
    proof {
        assert(v@.subrange(0, end as int) =~= v@.take(end as int));
    }
    split_authority(authority.as_str(), scheme_prefix)
}

/// The admin URL on the host of a control URL.
pub open spec fn admin_from_control(control: Seq<char>) -> Option<Seq<char>> {
    match url_host_port(control, "ws"@) {
        Some((host, _)) => Some(admin_url_of(host)),
        None => None,
    }
}

/// The admin URL on the host of a control URL.
pub fn derive_admin_url_from_control(control: &str) -> (r: Option<String>)
    ensures
        match r {
            Some(url) => admin_from_control(control@) == Some(url@),
            None => admin_from_control(control@) is None,
        },
{
    match parse_url_host_port(control, "ws") {
        Some((host, _)) => Some(
            concat3("http://", host_for_url(host.as_str()).as_str(), ":40002"),
        ),
        None => None,
    }
}

// ---------------------------------------------------------------------------
// Endpoint overrides
// ---------------------------------------------------------------------------

/// The text of an optional string.
pub open spec fn opt_text(o: Option<String>) -> Option<Seq<char>> {
    match o {
        Some(s) => Some(s@),
        None => None,
    }
}

/// The text of an optional string slice.
pub open spec fn opt_str(o: Option<&str>) -> Option<Seq<char>> {
    match o {
        Some(s) => Some(s@),
        None => None,
    }
}

/// An optional text, trimmed, where something is left of it.
pub open spec fn filled(o: Option<Seq<char>>) -> Option<Seq<char>> {
    match o {
        Some(s) => if is_blank(s) {
            None
        } else {
            Some(trim(s))
        },
        None => None,
    }
}

/// An optional text, trimmed, where something is left of it.
pub fn filled_text(o: &Option<String>) -> (r: Option<String>)
    ensures
        opt_text(r) == filled(opt_text(*o)),
{
    match o {
        Some(s) => {
            let t = trimmed(s.as_str());
            if t.as_str().is_empty() {
                None
            } else {
                Some(t)
            }
        },
        None => None,
    }
}

/// A URL names the given host and port, or cannot be read.
pub open spec fn url_agrees(url: Option<Seq<char>>, scheme: Seq<char>, host: Seq<char>, port: u16) -> bool {
    match url {
        Some(u) => match url_host_port(u, scheme) {
            Some((h, p)) => h == host && p == port,
            None => true,
        },
        None => true,
    }
}

/// The host that a server address and two URLs agree on, where all of them use
/// the default ports.
pub open spec fn agreed_host(
    server: (Seq<char>, u16),
    control: Option<Seq<char>>,
    admin: Option<Seq<char>>,
) -> Option<Seq<char>> {
    if server.1 == DEFAULT_AUDIO_PORT && url_agrees(control, "ws"@, server.0, DEFAULT_CONTROL_PORT)
        && url_agrees(admin, "http"@, server.0, DEFAULT_ADMIN_PORT) {
        Some(server.0)
    } else {
        None
    }
}

fn check_url_agrees(url: Option<&str>, scheme: &str, host: &str, port: u16) -> (r: bool)
    ensures
        r == url_agrees(opt_str(url), scheme@, host@, port),
{
    match url {
        Some(u) => match parse_url_host_port(u, scheme) {
            Some((h, p)) => same(h.as_str(), host) && p == port,
            None => true,
        },
        None => true,
    }
}

/// The host that a server address and two URLs agree on, where all of them use
/// the default ports.
pub fn derive_server_host(
    server: &SocketAddress,
    control: Option<&str>,
    admin: Option<&str>,
) -> (r: Option<String>)
    ensures
        opt_text(r) == agreed_host(server.parts(), opt_str(control), opt_str(admin)),
{
    let host = server.ip.clone();
    if server.port == DEFAULT_AUDIO_PORT && check_url_agrees(
        control,
        "ws",
        host.as_str(),
        DEFAULT_CONTROL_PORT,
    ) && check_url_agrees(admin, "http", host.as_str(), DEFAULT_ADMIN_PORT) {
        Some(host)
    } else {
        None
    }
}

/// The server address and the control URL are those that `server_host` gives.
pub open spec fn fields_default(
    server_host: Seq<char>,
    server: (Seq<char>, u16),
    control: Seq<char>,
) -> bool {
    match checked_host(server_host) {
        Ok(host) => server == (host, DEFAULT_AUDIO_PORT) && trim(control) == control_url_of(host),
        Err(_) => false,
    }
}

/// Tells whether the server address and the control URL are those that
/// `server_host` gives.
pub fn endpoint_fields_are_default(server_host: &str, server: &SocketAddress, control: &str) -> (r:
    bool)
    ensures
        r == fields_default(server_host@, server.parts(), control@),
{
    match ClientServerEndpoint::new(server_host) {
        Err(_) => false,
        Ok(endpoint) => {
            server.port == DEFAULT_AUDIO_PORT && same(server.ip.as_str(), endpoint.host.as_str())
                && same(trimmed(control).as_str(), endpoint.control_url().as_str())
        },
    }
}

/// The endpoint fields that a client is configured with. They count as they
/// stand where `advanced_endpoints` is set, else the host gives all of them.
#[derive(Debug, Clone, PartialEq, Eq)]
pub struct ClientEndpointOverrides {
    pub server_host: String,
    pub server: SocketAddress,
    pub control: String,
    pub admin: Option<String>,
    pub advanced_endpoints: bool,
}

/// The endpoint fields as mathematical values.
pub struct EndpointFields {
    pub server_host: Seq<char>,
    pub server: (Seq<char>, u16),
    pub control: Seq<char>,
    pub admin: Option<Seq<char>>,
    pub advanced: bool,
}

/// Which address a client sends its audio to.
#[derive(Debug, Clone)]
pub enum ServerTarget {
    /// This address.
    Address(SocketAddress),
    /// What looking up the host and port gives.
    Lookup(String, u16),
}

impl View for ServerTarget {
    type V = (bool, (Seq<char>, u16));

    open spec fn view(&self) -> (bool, (Seq<char>, u16)) {
        match self {
            ServerTarget::Address(a) => (true, a.parts()),
            ServerTarget::Lookup(h, p) => (false, (h@, *p)),
        }
    }
}

/// The fields that normalizing gives, but for the server address that a lookup
/// finds, and the host to look up where there is one.
///
/// An empty host is taken from the other fields, where they agree on one. Fields
/// that differ from what the host gives make the endpoints advanced. Endpoints
/// that are not advanced follow the host.
pub open spec fn normal_fields(f: EndpointFields) -> (EndpointFields, Option<Seq<char>>) {
    let was_empty = is_blank(f.server_host);
    let control = trim(f.control);
    let admin = filled(f.admin);
    let agreed = agreed_host(f.server, Some(control), admin);
    let named = if !was_empty {
        f.server_host
    } else {
        match agreed {
            Some(h) => h,
            None => DEFAULT_SERVER_HOST@,
        }
    };
    let host = match checked_host(named) {
        Ok(h) => h,
        Err(_) => named,
    };
    let everything_default = f.server == (DEFAULT_SERVER_HOST@, DEFAULT_AUDIO_PORT) && control
        == "ws://127.0.0.1:40001"@;
    let migrates = !f.advanced && agreed is Some && (was_empty || (host == DEFAULT_SERVER_HOST@
        && !everything_default));
    let final_host = if migrates {
        agreed.unwrap()
    } else {
        host
    };
    let advanced = f.advanced || (!migrates && !everything_default && !fields_default(
        host,
        f.server,
        control,
    ));
    let kept = EndpointFields { server_host: final_host, server: f.server, control, admin, advanced };
    match checked_host(final_host) {
        Ok(h) => if advanced {
            (kept, None)
        } else {
            (EndpointFields { control: control_url_of(h), admin: None, ..kept }, Some(h))
        },
        Err(_) => (kept, None),
    }
}

impl View for ClientEndpointOverrides {
    type V = EndpointFields;

    open spec fn view(&self) -> EndpointFields {
        EndpointFields {
            server_host: self.server_host@,
            server: self.server.parts(),
            control: self.control@,
            admin: opt_text(self.admin),
            advanced: self.advanced_endpoints,
        }
    }
}

impl Default for ClientEndpointOverrides {
    fn default() -> (r: Self)
        ensures
            r@ == (EndpointFields {
                server_host: DEFAULT_SERVER_HOST@,
                server: (DEFAULT_SERVER_HOST@, DEFAULT_AUDIO_PORT),
                control: control_url_of(DEFAULT_SERVER_HOST@),
                admin: None,
                advanced: false,
            }),
    {
        let endpoint = ClientServerEndpoint::default();
        let control = endpoint.control_url();
        ClientEndpointOverrides {
            server_host: endpoint.host,
            server: default_audio_addr(),
            control,
            admin: None,
            advanced_endpoints: false,
        }
    }
}

/// The URL of the control connection that the fields give.
pub open spec fn fields_control(f: EndpointFields) -> Result<Seq<char>, EndpointError> {
    if f.advanced {
        match control_url_error(f.control) {
            Some(e) => Err(e),
            None => Ok(f.control),
        }
    } else {
        match checked_host(f.server_host) {
            Ok(h) => Ok(control_url_of(h)),
            Err(e) => Err(e),
        }
    }
}

/// The URL of the admin interface that the fields give.
pub open spec fn fields_admin(f: EndpointFields) -> Result<Seq<char>, EndpointError> {
    if f.advanced {
        match filled(f.admin) {
            Some(admin) => Ok(admin),
            None => match admin_from_control(f.control) {
                Some(url) => Ok(url),
                None => Err(EndpointError::AdminNotDerivable),
            },
        }
    } else {
        match checked_host(f.server_host) {
            Ok(h) => Ok(admin_url_of(h)),
            Err(e) => Err(e),
        }
    }
}

/// What is wrong with the fields, if anything.
pub open spec fn fields_fault(f: EndpointFields) -> Option<EndpointError> {
    match checked_host(f.server_host) {
        Err(e) => Some(e),
        Ok(_) => if !f.advanced {
            None
        } else if control_url_error(f.control) is Some {
            control_url_error(f.control)
        } else {
            match f.admin {
                Some(admin) => if is_blank(admin) {
                    None
                } else {
                    http_url_error(admin)
                },
                None => None,
            }
        },
    }
}

/// Fields as they are taken for bringing them in order.
pub open spec fn given_fields(f: EndpointFields) -> EndpointFields {
    EndpointFields {
        server_host: trim(f.server_host),
        server: f.server,
        control: trim(f.control),
        admin: filled(f.admin),
        advanced: f.advanced,
    }
}

/// Fields in order.
pub open spec fn settled_fields(f: EndpointFields) -> EndpointFields {
    normal_fields(given_fields(f)).0
}

/// The host to look up for the server address of the fields, where there is one.
pub open spec fn host_to_look_up(f: EndpointFields) -> Option<Seq<char>> {
    normal_fields(given_fields(f)).1
}

/// The fields after the words of a command line about the server.
pub open spec fn fields_from_args(
    f: EndpointFields,
    server_host: Option<Seq<char>>,
    server: Option<(Seq<char>, u16)>,
    control: Option<Seq<char>>,
    admin: Option<Seq<char>>,
) -> EndpointFields {
    EndpointFields {
        server_host: if server_host is Some {
            server_host->Some_0
        } else {
            f.server_host
        },
        server: if server is Some {
            server->Some_0
        } else {
            f.server
        },
        control: if control is Some {
            control->Some_0
        } else {
            f.control
        },
        admin: if admin is Some {
            admin
        } else {
            f.admin
        },
        advanced: server is Some || control is Some || admin is Some || (server_host is None
            && f.advanced),
    }
}

/// An optional address.
pub open spec fn opt_parts(o: Option<SocketAddress>) -> Option<(Seq<char>, u16)> {
    match o {
        Some(a) => Some(a.parts()),
        None => None,
    }
}

/// The address of the server in effect, where `found` is what the lookup of the
/// host gave.
pub open spec fn server_in_effect(f: EndpointFields, found: Option<(Seq<char>, u16)>) -> (
    Seq<char>,
    u16,
) {
    let settled = settled_fields(f);
    if settled.advanced {
        settled.server
    } else if checked_host(settled.server_host) is Ok && found is Some {
        found->Some_0
    } else {
        f.server
    }
}

/// The control URL in effect.
pub open spec fn control_in_effect(f: EndpointFields) -> Seq<char> {
    match fields_control(settled_fields(f)) {
        Ok(url) => url,
        Err(_) => f.control,
    }
}

/// Brings the endpoint fields in order. The result names the host that is to be
/// looked up for the server address, where there is one: the caller hands what
/// it finds to `set_resolved_server`.
pub fn normalize_endpoint_overrides(config: &mut ClientEndpointOverrides) -> (lookup: Option<
    ClientServerEndpoint,
>)
    ensures
        final(config)@ == normal_fields(old(config)@).0,
        match lookup {
            Some(e) => normal_fields(old(config)@).1 == Some(e.host@),
            None => normal_fields(old(config)@).1 is None,
        },
{
    let was_empty = blank(config.server_host.as_str());
    config.control = trimmed(config.control.as_str());
    config.admin = filled_text(&config.admin);
    let admin_ref: Option<&str> = match &config.admin {
        Some(a) => Some(a.as_str()),
        None => None,
    };
    let agreed = derive_server_host(&config.server, Some(config.control.as_str()), admin_ref);
    proof {
        assert(opt_str(admin_ref) == filled(old(config)@.admin));
    }
    if was_empty {
        config.server_host = match &agreed {
            Some(h) => h.clone(),
            None => owned(DEFAULT_SERVER_HOST),
        };
    }
    match validate_server_host(config.server_host.as_str()) {
        Ok(host) => {
            config.server_host = host;
        },
        Err(_) => {},
    }
    let matches_default_ports = endpoint_fields_are_default(
        config.server_host.as_str(),
        &config.server,
        config.control.as_str(),
    );
    let everything_default = config.server.port == DEFAULT_AUDIO_PORT && same(
        config.server.ip.as_str(),
        DEFAULT_SERVER_HOST,
    ) && same(config.control.as_str(), "ws://127.0.0.1:40001");
    if !config.advanced_endpoints {
        let may_migrate = was_empty || (same(config.server_host.as_str(), DEFAULT_SERVER_HOST)
            && !everything_default);
        match (may_migrate, agreed) {
            (true, Some(host)) => {
                config.server_host = host;
            },
            _ => {
                if !matches_default_ports && !everything_default {
                    config.advanced_endpoints = true;
                }
            },
        }
    }
    if !config.advanced_endpoints {
        match ClientServerEndpoint::new(config.server_host.as_str()) {
            Ok(endpoint) => {
                config.control = endpoint.control_url();
                config.admin = None;
                return Some(endpoint);
            },
            Err(_) => {},
        }
    }
    None
}

impl ClientEndpointOverrides {
    /// Takes over the server address that a lookup found, if it found one.
    pub fn set_resolved_server(&mut self, found: Option<SocketAddress>)
        ensures
            final(self)@ == (match found {
                Some(a) => (EndpointFields { server: a.parts(), ..old(self)@ }),
                None => old(self)@,
            }),
    {
        match found {
            Some(addr) => {
                self.server = addr;
            },
            None => {},
        }
    }

    /// The fields in order, and the host to look up for the server address.
    pub fn normalized(
        server_host: &str,
        server: SocketAddress,
        control: &str,
        admin: Option<String>,
        advanced_endpoints: bool,
    ) -> (r: (Self, Option<ClientServerEndpoint>))
        ensures
            ({
                let given = EndpointFields {
                    server_host: trim(server_host@),
                    server: server.parts(),
                    control: trim(control@),
                    admin: filled(opt_text(admin)),
                    advanced: advanced_endpoints,
                };
                &&& r.0@ == normal_fields(given).0
                &&& match r.1 {
                    Some(e) => normal_fields(given).1 == Some(e.host@),
                    None => normal_fields(given).1 is None,
                }
            }),
    {
        let mut config = ClientEndpointOverrides {
            server_host: trimmed(server_host),
            server,
            control: trimmed(control),
            admin: filled_text(&admin),
            advanced_endpoints,
        };
        let lookup = normalize_endpoint_overrides(&mut config);
        (config, lookup)
    }

    /// The server that the host names.
    pub fn endpoint(&self) -> (r: Result<ClientServerEndpoint, EndpointError>)
        ensures
            match r {
                Ok(e) => checked_host(self.server_host@) == Ok::<Seq<char>, EndpointError>(e.host@),
                Err(e) => checked_host(self.server_host@) == Err::<Seq<char>, EndpointError>(e),
            },
    {
        ClientServerEndpoint::new(self.server_host.as_str())
    }

    /// The address that audio goes to, or the host to look up for it.
    pub fn effective_server(&self) -> (r: Result<ServerTarget, EndpointError>)
        ensures
            self.advanced_endpoints ==> r is Ok && r->Ok_0@ == (true, self.server.parts()),
            !self.advanced_endpoints ==> match checked_host(self.server_host@) {
                Ok(h) => r is Ok && r->Ok_0@ == (false, (h, DEFAULT_AUDIO_PORT)),
                Err(e) => r == Err::<ServerTarget, EndpointError>(e),
            },
    {
        if self.advanced_endpoints {
            Ok(ServerTarget::Address(self.server.copy()))
        } else {
            match self.endpoint() {
                Ok(e) => Ok(ServerTarget::Lookup(e.host, DEFAULT_AUDIO_PORT)),
                Err(e) => Err(e),
            }
        }
    }

    /// The URL of the control connection in effect.
    pub fn effective_control(&self) -> (r: Result<String, EndpointError>)
        ensures
            match r {
                Ok(u) => fields_control(self@) == Ok::<Seq<char>, EndpointError>(u@),
                Err(e) => fields_control(self@) == Err::<Seq<char>, EndpointError>(e),
            },
    {
        if self.advanced_endpoints {
            match validate_control_url(self.control.as_str()) {
                Ok(_) => Ok(self.control.clone()),
                Err(e) => Err(e),
            }
        } else {
            match self.endpoint() {
                Ok(e) => Ok(e.control_url()),
                Err(e) => Err(e),
            }
        }
    }

    /// The URL of the admin interface in effect.
    pub fn effective_admin(&self) -> (r: Result<String, EndpointError>)
        ensures
            match r {
                Ok(u) => fields_admin(self@) == Ok::<Seq<char>, EndpointError>(u@),
                Err(e) => fields_admin(self@) == Err::<Seq<char>, EndpointError>(e),
            },
    {
        if self.advanced_endpoints {
            match filled_text(&self.admin) {
                Some(admin) => Ok(admin),
                None => match derive_admin_url_from_control(self.control.as_str()) {
                    Some(url) => Ok(url),
                    None => Err(EndpointError::AdminNotDerivable),
                },
            }
        } else {
            match self.endpoint() {
                Ok(e) => Ok(e.admin_url()),
                Err(e) => Err(e),
            }
        }
    }

    /// Checks the fields.
    pub fn validate(&self) -> (r: Result<(), EndpointError>)
        ensures
            r == match fields_fault(self@) {
                Some(e) => Err::<(), EndpointError>(e),
                None => Ok(()),
            },
    {
        match self.endpoint() {
            Err(e) => {
                return Err(e);
            },
            Ok(_) => {},
        }
        if self.advanced_endpoints {
            match validate_control_url(self.control.as_str()) {
                Err(e) => {
                    return Err(e);
                },
                Ok(_) => {},
            }
            match &self.admin {
                Some(admin) => {
                    if !blank(admin.as_str()) {
                        return validate_http_url(admin.as_str());
                    }
                },
                None => {},
            }
        }
        Ok(())
    }

    /// Sets the address and the control URL to those that the host gives, from
    /// what looking up the host found.
    pub fn sync_default_endpoints(&mut self, found: HostLookup) -> (r: Result<
        (),
        EndpointError,
    >)
        ensures
            match r {
                Err(e) => resolved_addr(
                    Err::<SocketAddress, EndpointError>(e),
                    old(self).server_host@,
                    found,
                ) && final(self)@ == old(self)@,
                Ok(_) => checked_host(old(self).server_host@) is Ok && (
                found matches HostLookup::Found(addr) && final(self)@ == (EndpointFields {
                    server: addr.parts(),
                    control: control_url_of(checked_host(old(self).server_host@)->Ok_0),
                    admin: if old(self).advanced_endpoints {
                        old(self)@.admin
                    } else {
                        None
                    },
                    ..old(self)@
                })),
            },
    {
        let endpoint = match self.endpoint() {
            Ok(e) => e,
            Err(e) => {
                return Err(e);
            },
        };
        match found.address(endpoint.host.clone()) {
            Err(e) => Err(e),
            Ok(addr) => {
                self.server = addr;
                self.control = endpoint.control_url();
                if !self.advanced_endpoints {
                    self.admin = None;
                }
                Ok(())
            },
        }
    }
}

} // verus!
