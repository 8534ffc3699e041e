//! Talking to web servers and browsers: URLs, requests and responses, and the
//! escapes of paths and pages.

use vstd::prelude::*;
use vstd::utf8::*;

use crate::endpoint::port_or;
use crate::net::SocketAddress;
use crate::text::{
    chars_of, concat2, concat3, concat4, contains_char, decimal, ends_with, find_from, find_last,
    has_prefix, has_suffix, index_from, last_index, matches_at, occurs_at, owned,
    parse_u16, parse_unsigned, same, starts_with, string_of, strip_prefix, trim, trimmed, u64_text,
};

verus! {

// ---------------------------------------------------------------------------
// Escaping

/// The digit for a value below sixteen, in capitals.
pub open spec fn upper_hex_digit(n: int) -> char {
    if n < 10 {
        (48 + n) as char
    } else {
        (55 + n) as char
    }
}

/// A byte that may stand in a path segment as it is.
pub open spec fn is_unreserved(b: u8) -> bool {
    ||| 48 <= b <= 57
    ||| 65 <= b <= 90
    ||| 97 <= b <= 122
    ||| b == 45
    ||| b == 95
    ||| b == 46
    ||| b == 126
}

/// A byte as it is written in a path segment.
pub open spec fn escaped_byte(b: u8) -> Seq<char> {
    if is_unreserved(b) {
        seq![b as char]
    } else {
        seq!['%', upper_hex_digit(b as int / 16), upper_hex_digit(b as int % 16)]
    }
}

/// Bytes as they are written in a path segment.
pub open spec fn escaped_bytes(s: Seq<u8>) -> Seq<char>
    decreases s.len(),
{
    if s.len() == 0 {
        Seq::empty()
    } else {
        escaped_bytes(s.drop_last()) + escaped_byte(s.last())
    }
}

/// A text as a segment of a URL's path.
pub open spec fn path_segment(s: Seq<char>) -> Seq<char> {
    escaped_bytes(encode_utf8(s))
}

fn hex_char(n: u8) -> (r: char)
    requires
        n < 16,
    ensures
        r == upper_hex_digit(n as int),
{
    if n < 10 {
        (48 + n) as char
    } else {
        (55 + n) as char
    }
}

/// Writes a text as a segment of a URL's path.
pub fn encode_path_segment(value: &str) -> (r: String)
    ensures
        r@ == path_segment(value@),
{
    let bytes = value.as_bytes();
    let ghost all = bytes@;
    let mut out = String::new();
    let mut i: usize = 0;
    while i < bytes.len()
        invariant
            0 <= i <= bytes@.len(),
            bytes@ == all,
            out@ == escaped_bytes(all.take(i as int)),
        decreases bytes@.len() - i,
    {
        let b = bytes[i];
        proof {
            assert(all.take(i + 1).drop_last() =~= all.take(i as int));
            assert(all.take(i + 1).last() == b);
        }
        if (b >= 48 && b <= 57) || (b >= 65 && b <= 90) || (b >= 97 && b <= 122) || b == 45 || b
            == 95 || b == 46 || b == 126 {
            out.push(b as char);
            proof {
                assert(out@ =~= escaped_bytes(all.take(i as int)) + escaped_byte(b));
            }
        } else {
            out.push('%');
            out.push(hex_char(b / 16));
            out.push(hex_char(b % 16));
            proof {
                assert(out@ =~= escaped_bytes(all.take(i as int)) + escaped_byte(b));
            }
        }
        i = i + 1;
    }
    proof {
        assert(all.take(all.len() as int) =~= all);
    }
    out
}

/// A character that a path segment is written with.
pub open spec fn is_segment_char(c: char) -> bool {
    c == '%' || (c as int) < 128 && is_unreserved(c as u8)
}

proof fn lemma_escaped_bytes(s: Seq<u8>, i: int)
    requires
        0 <= i < escaped_bytes(s).len(),
    ensures
        is_segment_char(escaped_bytes(s)[i]),
    decreases s.len(),
{
    let rest = escaped_bytes(s.drop_last());
    let b = s.last();
    if i < rest.len() {
        lemma_escaped_bytes(s.drop_last(), i);
        assert(escaped_bytes(s)[i] == rest[i]);
    } else {
        assert(escaped_bytes(s)[i] == escaped_byte(b)[i - rest.len()]);
        assert((b as char) as u8 == b);
    }
}

/// Whatever the text, its path segment holds only letters, digits, `-`, `_`,
/// `.`, `~` and the `%` of an escape.
pub proof fn path_segments_are_plain(s: Seq<char>, i: int)
    requires
        0 <= i < path_segment(s).len(),
    ensures
        is_segment_char(path_segment(s)[i]),
{
    lemma_escaped_bytes(encode_utf8(s), i);
}

/// The value of a hexadecimal digit in capitals.
pub open spec fn hex_value(c: char) -> int {
    if (c as int) < 65 {
        c as int - 48
    } else {
        c as int - 55
    }
}

/// The bytes that a path segment is read as.
pub open spec fn unescaped_bytes(t: Seq<char>) -> Seq<u8>
    decreases t.len(),
{
    if t.len() == 0 {
        Seq::empty()
    } else if t[0] == '%' && t.len() >= 3 {
        seq![(16 * hex_value(t[1]) + hex_value(t[2])) as u8] + unescaped_bytes(t.skip(3))
    } else {
        seq![t[0] as u8] + unescaped_bytes(t.skip(1))
    }
}

proof fn lemma_escaped_first(b: u8, rest: Seq<u8>)
    ensures
        escaped_bytes(seq![b] + rest) == escaped_byte(b) + escaped_bytes(rest),
    decreases rest.len(),
{
    let all = seq![b] + rest;
    if rest.len() == 0 {
        assert(all.drop_last() =~= rest);
        assert(escaped_bytes(rest) =~= Seq::<char>::empty());
        assert(all.last() == b);
        assert(escaped_bytes(all) =~= escaped_byte(b) + escaped_bytes(rest));
    } else {
        lemma_escaped_first(b, rest.drop_last());
        assert(all.drop_last() =~= seq![b] + rest.drop_last());
        assert(all.last() == rest.last());
        assert(escaped_bytes(all) =~= escaped_byte(b) + escaped_bytes(rest));
    }
}

proof fn lemma_unescaped_first(b: u8, rest: Seq<char>)
    ensures
        unescaped_bytes(escaped_byte(b) + rest) == seq![b] + unescaped_bytes(rest),
{
    let all = escaped_byte(b) + rest;
    if is_unreserved(b) {
        assert(all[0] == b as char);
        assert((b as char) as u8 == b);
        assert(all.skip(1) =~= rest);
    } else {
        let high = b as int / 16;
        let low = b as int % 16;
        assert(hex_value(upper_hex_digit(high)) == high);
        assert(hex_value(upper_hex_digit(low)) == low);
        assert(all.skip(3) =~= rest);
        assert(16 * high + low == b as int);
    }
}

proof fn lemma_bytes_read_back(s: Seq<u8>)
    ensures
        unescaped_bytes(escaped_bytes(s)) == s,
    decreases s.len(),
{
    if s.len() > 0 {
        let rest = s.skip(1);
        assert(s =~= seq![s[0]] + rest);
        lemma_escaped_first(s[0], rest);
        lemma_unescaped_first(s[0], escaped_bytes(rest));
        lemma_bytes_read_back(rest);
    }
}

/// The text is read back from its path segment, so that different texts have
/// different ones.
pub proof fn path_segments_are_read_back(s: Seq<char>)
    ensures
        decode_utf8(unescaped_bytes(path_segment(s))) == s,
{
    lemma_bytes_read_back(encode_utf8(s));
    encode_utf8_decode_utf8(s);
}

/// A character as it is written in HTML text and attributes.
pub open spec fn html_char(c: char) -> Seq<char> {
    if c == '&' {
        "&amp;"@
    } else if c == '<' {
        "&lt;"@
    } else if c == '>' {
        "&gt;"@
    } else if c == '"' {
        "&quot;"@
    } else if c == '\'' {
        "&#39;"@
    } else {
        seq![c]
    }
}

/// A text as it is written in HTML text and attributes.
pub open spec fn html_text(s: Seq<char>) -> Seq<char>
    decreases s.len(),
{
    if s.len() == 0 {
        Seq::empty()
    } else {
        html_text(s.drop_last()) + html_char(s.last())
    }
}

/// Escapes a text for HTML text and attributes.
pub fn html_escape(value: &str) -> (r: String)
    ensures
        r@ == html_text(value@),
{
    let v = chars_of(value);
    let mut out = String::new();
    let mut i: usize = 0;
    while i < v.len()
        invariant
            0 <= i <= v@.len(),
            out@ == html_text(v@.take(i as int)),
        decreases v@.len() - i,
    {
        let c = v[i];
        proof {
            assert(v@.take(i + 1).drop_last() =~= v@.take(i as int));
            assert(v@.take(i + 1).last() == c);
        }
        if c == '&' {
            out = concat2(out.as_str(), "&amp;");
        } else if c == '<' {
            out = concat2(out.as_str(), "&lt;");
        } else if c == '>' {
            out = concat2(out.as_str(), "&gt;");
        } else if c == '"' {
            out = concat2(out.as_str(), "&quot;");
        } else if c == '\'' {
            out = concat2(out.as_str(), "&#39;");
        } else {
            out.push(c);
            proof {
                assert(out@ =~= html_text(v@.take(i as int)) + seq![c]);
            }
        }
        i = i + 1;
    }
    proof {
        assert(v@.take(v@.len() as int) =~= v@);
    }
    out
}

/// Whatever the text, its HTML form holds no angle bracket and no quote.
pub proof fn html_text_has_no_markup(s: Seq<char>, i: int)
    requires
        0 <= i < html_text(s).len(),
    ensures
        html_text(s)[i] != '<',
        html_text(s)[i] != '>',
        html_text(s)[i] != '"',
        html_text(s)[i] != '\'',
    decreases s.len(),
{
    let rest = html_text(s.drop_last());
    if i < rest.len() {
        html_text_has_no_markup(s.drop_last(), i);
        assert(html_text(s)[i] == rest[i]);
    } else {
        reveal_strlit("&amp;");
        reveal_strlit("&lt;");
        reveal_strlit("&gt;");
        reveal_strlit("&quot;");
        reveal_strlit("&#39;");
        assert(html_text(s)[i] == html_char(s.last())[i - rest.len()]);
    }
}

/// The length of the escape that a text in HTML starts with, and what it stands for;
/// a character that is not escaped stands for itself.
pub open spec fn html_first(t: Seq<char>) -> (int, char) {
    if occurs_at(t, "&amp;"@, 0) {
        (5, '&')
    } else if occurs_at(t, "&lt;"@, 0) {
        (4, '<')
    } else if occurs_at(t, "&gt;"@, 0) {
        (4, '>')
    } else if occurs_at(t, "&quot;"@, 0) {
        (6, '"')
    } else if occurs_at(t, "&#39;"@, 0) {
        (5, '\'')
    } else {
        (1, t[0])
    }
}

/// The text that a browser reads.
pub open spec fn html_read(t: Seq<char>) -> Seq<char>
    decreases t.len(),
{
    let (len, c) = html_first(t);
    if t.len() == 0 || len > t.len() {
        Seq::empty()
    } else {
        seq![c] + html_read(t.skip(len))
    }
}

proof fn lemma_starts(t: Seq<char>, p: Seq<char>)
    requires
        p.len() > 1,
    ensures
        occurs_at(t, p, 0) ==> t[0] == p[0] && t[1] == p[1],
{
    if occurs_at(t, p, 0) {
        let head = t.subrange(0, p.len() as int);
        assert(head[0] == t[0] && head[1] == t[1]);
    }
}

proof fn lemma_html_first(c: char, rest: Seq<char>)
    ensures
        html_first(html_char(c) + rest) == (html_char(c).len() as int, c),
{
    reveal_strlit("&amp;");
    reveal_strlit("&lt;");
    reveal_strlit("&gt;");
    reveal_strlit("&quot;");
    reveal_strlit("&#39;");
    let t = html_char(c) + rest;
    lemma_starts(t, "&amp;"@);
    lemma_starts(t, "&lt;"@);
    lemma_starts(t, "&gt;"@);
    lemma_starts(t, "&quot;"@);
    lemma_starts(t, "&#39;"@);
    assert(t[0] == html_char(c)[0]);
    if html_char(c).len() > 1 {
        assert(t[1] == html_char(c)[1]);
        assert(t.subrange(0, html_char(c).len() as int) =~= html_char(c));
    }
}

proof fn lemma_html_text_first(c: char, rest: Seq<char>)
    ensures
        html_text(seq![c] + rest) == html_char(c) + html_text(rest),
    decreases rest.len(),
{
    let all = seq![c] + rest;
    if rest.len() == 0 {
        assert(all.drop_last() =~= rest);
        assert(html_text(rest) =~= Seq::<char>::empty());
        assert(all.last() == c);
    } else {
        lemma_html_text_first(c, rest.drop_last());
        assert(all.drop_last() =~= seq![c] + rest.drop_last());
        assert(all.last() == rest.last());
    }
    assert(html_text(all) =~= html_char(c) + html_text(rest));
}

/// A browser reads the text that was escaped.
pub proof fn html_text_is_read_back(s: Seq<char>)
    ensures
        html_read(html_text(s)) == s,
    decreases s.len(),
{
    if s.len() > 0 {
        let c = s[0];
        let rest = s.skip(1);
        assert(s =~= seq![c] + rest);
        lemma_html_text_first(c, rest);
        lemma_html_first(c, html_text(rest));
        let t = html_char(c) + html_text(rest);
        assert(html_char(c).len() > 0) by {
            reveal_strlit("&amp;");
            reveal_strlit("&lt;");
            reveal_strlit("&gt;");
            reveal_strlit("&quot;");
            reveal_strlit("&#39;");
        }
        assert(t.skip(html_char(c).len() as int) =~= html_text(rest));
        html_text_is_read_back(rest);
        assert(html_read(t) =~= seq![c] + rest);
    }
}

// ---------------------------------------------------------------------------
// URLs

/// The host and port that an authority names, where a port that cannot be read
/// is taken for a part of the host.
pub open spec fn host_port(a: Seq<char>, default_port: u16) -> Option<(Seq<char>, u16)> {
    if a.len() == 0 {
        None
    } else if a[0] == '[' {
        let end = index_from(a, ']', 1);
        if end >= a.len() {
            None
        } else {
            let suffix = a.skip(end + 1);
            Some(
                (
                    a.subrange(1, end),
                    if suffix.len() > 0 && suffix[0] == ':' {
                        port_or(suffix.skip(1), default_port)
                    } else {
                        default_port
                    },
                ),
            )
        }
    } else {
        let k = last_index(a, ':', a.len() as int);
        if k >= 0 && parse_unsigned(a.skip(k + 1), u16::MAX as nat) is Some {
            Some((a.take(k), port_or(a.skip(k + 1), default_port)))
        } else {
            Some((a, default_port))
        }
    }
}

/// The host and port that an authority names.
pub fn split_host_port(authority: &str, default_port: u16) -> (r: Option<(String, u16)>)
    ensures
        match r {
            Some((h, p)) => host_port(authority@, default_port) == Some((h@, p)),
            None => host_port(authority@, default_port) is None,
        },
{
    let v = chars_of(authority);
    let n = v.len();
    if n == 0 {
        return None;
    }
    if v[0] == '[' {
        let end = find_from(&v, ']', 1);
        if end >= n {
            return None;
        }
        let host = string_of(&v, 1, end);
        let ghost suffix = v@.skip(end + 1);
        if end + 1 < n && v[end + 1] == ':' {
            let digits = string_of(&v, end + 2, n);
            proof {
                assert(suffix[0] == ':');
                assert(v@.subrange(end + 2, n as int) =~= suffix.skip(1));
            }
            return match parse_u16(digits.as_str()) {
                Some(port) => Some((host, port)),
                None => Some((host, default_port)),
            };
        }
        proof {
            if suffix.len() > 0 {
                assert(suffix[0] == v@[end + 1]);
            }
        }
        return Some((host, default_port));
    }
    if let Some(k) = find_last(&v, ':') {
        let digits = string_of(&v, k + 1, n);
        proof {
            assert(v@.subrange(k + 1, n as int) =~= v@.skip(k + 1));
            assert(v@.subrange(0, k as int) =~= v@.take(k as int));
        }
        if let Some(port) = parse_u16(digits.as_str()) {
            return Some((string_of(&v, 0, k), port));
        }
    }
    Some((owned(authority), default_port))
}

/// Where a plain HTTP request goes.
#[derive(Debug, Clone, PartialEq, Eq)]
pub struct ParsedHttpUrl {
    pub host: String,
    pub host_header: String,
    pub port: u16,
    pub path: String,
}

/// The authority and the path of what follows the scheme of a URL.
pub open spec fn authority_path(rest: Seq<char>) -> (Seq<char>, Seq<char>) {
    let k = index_from(rest, '/', 0);
    if k < rest.len() {
        (rest.take(k), rest.skip(k))
    } else {
        (rest, "/"@)
    }
}

/// Splits what follows the scheme of a URL into the authority and the path.
pub fn split_authority_path(rest: &str) -> (r: (String, String))
    ensures
        (r.0@, r.1@) == authority_path(rest@),
{
    let v = chars_of(rest);
    let n = v.len();
    let k = find_from(&v, '/', 0);
    if k < n {
        proof {
            assert(v@.subrange(0, k as int) =~= v@.take(k as int));
            assert(v@.subrange(k as int, n as int) =~= v@.skip(k as int));
        }
        (string_of(&v, 0, k), string_of(&v, k, n))
    } else {
        (owned(rest), owned("/"))
    }
}

/// The target of a plain HTTP URL: host, authority, port and path.
pub open spec fn http_target(url: Seq<char>) -> Option<(Seq<char>, Seq<char>, u16, Seq<char>)> {
    if !has_prefix(url, "http://"@) {
        None
    } else {
        let (authority, path) = authority_path(url.skip("http://"@.len() as int));
        match host_port(authority, 80) {
            Some((host, port)) => Some((host, authority, port, path)),
            None => None,
        }
    }
}

/// Reads a plain HTTP URL.
pub fn parse_http_url(url: &str) -> (r: Option<ParsedHttpUrl>)
    ensures
        match r {
            Some(t) => http_target(url@) == Some((t.host@, t.host_header@, t.port, t.path@)),
            None => http_target(url@) is None,
        },
{
    match strip_prefix(url, "http://") {
        None => None,
        Some(rest) => {
            let (authority, path) = split_authority_path(rest.as_str());
            match split_host_port(authority.as_str(), 80) {
                Some((host, port)) => Some(
                    ParsedHttpUrl { host, host_header: authority, port, path },
                ),
                None => None,
            }
        },
    }
}

/// An address as it is written: an IPv6 address stands in brackets.
pub open spec fn address_text(ip: Seq<char>, port: u16) -> Seq<char> {
    if ip.contains(':') {
        "["@ + ip + "]:"@ + decimal(port as nat)
    } else {
        ip + ":"@ + decimal(port as nat)
    }
}

impl SocketAddress {
    /// The address as it is written.
    pub fn to_text(&self) -> (r: String)
        ensures
            r@ == address_text(self.ip@, self.port),
    {
        let port = u64_text(self.port as u64);
        if contains_char(self.ip.as_str(), ':') {
            concat4("[", self.ip.as_str(), "]:", port.as_str())
        } else {
            concat3(self.ip.as_str(), ":", port.as_str())
        }
    }
}

/// A text without the given character at its end.
pub open spec fn without_trailing(s: Seq<char>, c: char) -> Seq<char>
    decreases s.len(),
{
    if s.len() > 0 && s.last() == c {
        without_trailing(s.drop_last(), c)
    } else {
        s
    }
}

/// Takes the given character off the end of a text.
pub fn trim_end_char(s: &str, c: char) -> (r: String)
    ensures
        r@ == without_trailing(s@, c),
{
    let v = chars_of(s);
    let mut n: usize = v.len();
    proof {
        assert(v@.take(v@.len() as int) =~= v@);
    }
    while n > 0 && v[n - 1] == c
        invariant
            n <= v@.len(),
            without_trailing(v@, c) == without_trailing(v@.take(n as int), c),
        decreases n,
    {
        proof {
            assert(v@.take(n as int).drop_last() =~= v@.take(n - 1));
        }
        n = n - 1;
    }
    proof {
        assert(v@.subrange(0, n as int) =~= v@.take(n as int));
    }
    string_of(&v, 0, n)
}

/// The URL of the admin state on an admin base URL.
pub open spec fn admin_state_of(admin_base: Seq<char>) -> Seq<char> {
    let base = without_trailing(trim(admin_base), '/');
    if has_suffix(base, "/admin/api/state"@) {
        base
    } else if has_suffix(base, "/admin"@) {
        base + "/api/state"@
    } else {
        base + "/admin/api/state"@
    }
}

/// The URL of the admin state on an admin base URL.
pub fn admin_state_url(admin_base: &str) -> (r: String)
    ensures
        r@ == admin_state_of(admin_base@),
{
    let base = trim_end_char(trimmed(admin_base).as_str(), '/');
    if ends_with(base.as_str(), "/admin/api/state") {
        base
    } else if ends_with(base.as_str(), "/admin") {
        concat2(base.as_str(), "/api/state")
    } else {
        concat2(base.as_str(), "/admin/api/state")
    }
}

/// The admin base URL on the host of a plain control URL.
pub open spec fn admin_base_of(control: Seq<char>) -> Option<Seq<char>> {
    if !has_prefix(control, "ws://"@) {
        None
    } else {
        match host_port(authority_path(control.skip("ws://"@.len() as int)).0, 40001) {
            None => None,
            Some((host, _)) => if host.len() == 0 {
                None
            } else if host.contains(':') && host[0] != '[' {
                Some("http://["@ + host + "]:40002"@)
            } else {
                Some("http://"@ + host + ":40002"@)
            },
        }
    }
}

/// The admin base URL on the host of a plain control URL.
pub fn derive_admin_base_from_control(control: &str) -> (r: Option<String>)
    ensures
        match r {
            Some(url) => admin_base_of(control@) == Some(url@),
            None => admin_base_of(control@) is None,
        },
{
    match strip_prefix(control, "ws://") {
        None => None,
        Some(rest) => {
            let (authority, _) = split_authority_path(rest.as_str());
            match split_host_port(authority.as_str(), 40001) {
                None => None,
                Some((host, _)) => {
                    if host.as_str().is_empty() {
                        return None;
                    }
                    let v = chars_of(host.as_str());
                    if contains_char(host.as_str(), ':') && v[0] != '[' {
                        Some(concat3("http://[", host.as_str(), "]:40002"))
                    } else {
                        Some(concat3("http://", host.as_str(), ":40002"))
                    }
                },
            }
        },
    }
}

/// Writes the request for a JSON document.
pub fn get_request(path: &str, host_header: &str) -> (r: String)
    ensures
        r@ == "GET "@ + path@ + " HTTP/1.1\r\nHost: "@ + host_header@
            + "\r\nAccept: application/json\r\nConnection: close\r\n\r\n"@,
{
    let head = concat4("GET ", path, " HTTP/1.1\r\nHost: ", host_header);
    concat2(head.as_str(), "\r\nAccept: application/json\r\nConnection: close\r\n\r\n")
}

// ---------------------------------------------------------------------------
// HTTP responses

/// The first place at or after `i` where `p` stands in `s`, or `s.len()`.
pub open spec fn part_from(s: Seq<char>, p: Seq<char>, i: int) -> int
    decreases s.len() - i,
{
    if i < 0 || i >= s.len() {
        s.len() as int
    } else if occurs_at(s, p, i) {
        i
    } else {
        part_from(s, p, i + 1)
    }
}

/// The blank line between the headers of a response and its body.
pub const HEADER_END: &'static str = "\r\n\r\n";

/// The headers and the body of a response.
pub open spec fn header_body(s: Seq<char>) -> Option<(Seq<char>, Seq<char>)> {
    let k = part_from(s, HEADER_END@, 0);
    if k < s.len() {
        Some((s.take(k), s.skip(k + HEADER_END@.len())))
    } else {
        None
    }
}

/// Splits a response into headers and body.
pub fn split_response(response: &str) -> (r: Option<(String, String)>)
    ensures
        match r {
            Some((h, b)) => header_body(response@) == Some((h@, b@)),
            None => header_body(response@) is None,
        },
{
    let v = chars_of(response);
    let p = chars_of(HEADER_END);
    let n = v.len();
    let mut i: usize = 0;
    while i < n
        invariant
            n == v@.len(),
            p@ == HEADER_END@,
            0 <= i <= n,
            part_from(v@, HEADER_END@, 0) == part_from(v@, HEADER_END@, i as int),
            v@ == response@,
        decreases n - i,
    {
        if matches_at(&v, &p, i) {
            let m = p.len();
            proof {
                assert(v@.subrange(0, i as int) =~= v@.take(i as int));
                assert(v@.subrange(i + m, n as int) =~= v@.skip(i + m));
            }
            return Some((string_of(&v, 0, i), string_of(&v, i + m, n)));
        }
        i = i + 1;
    }
    None
}

/// The first line of a text, without its line end.
pub open spec fn first_line(s: Seq<char>) -> Seq<char> {
    let k = index_from(s, '\n', 0);
    if k < s.len() {
        let line = s.take(k);
        if line.len() > 0 && line.last() == '\r' {
            line.drop_last()
        } else {
            line
        }
    } else {
        s
    }
}

/// The first line of a text, without its line end.
pub fn read_first_line(s: &str) -> (r: String)
    ensures
        r@ == first_line(s@),
{
    let v = chars_of(s);
    let n = v.len();
    let k = find_from(&v, '\n', 0);
    if k >= n {
        return owned(s);
    }
    proof {
        assert(v@.subrange(0, k as int) =~= v@.take(k as int));
    }
    if k > 0 && v[k - 1] == '\r' {
        proof {
            assert(v@.subrange(0, k - 1) =~= v@.take(k as int).drop_last());
        }
        return string_of(&v, 0, k - 1);
    }
    string_of(&v, 0, k)
}

/// Whether the headers tell of success.
pub open spec fn is_success(headers: Seq<char>) -> bool {
    has_prefix(headers, "HTTP/1.1 200"@) || has_prefix(headers, "HTTP/1.0 200"@)
}

/// Whether the headers tell of success.
pub fn headers_ok(headers: &str) -> (r: bool)
    ensures
        r == is_success(headers@),
{
    starts_with(headers, "HTTP/1.1 200") || starts_with(headers, "HTTP/1.0 200")
}

// ---------------------------------------------------------------------------
// Stopping a launcher

/// The address to reach a launcher at that listens on `bind`.
pub open spec fn reach(bind: (Seq<char>, u16)) -> (Seq<char>, u16) {
    if bind.0 == "0.0.0.0"@ || bind.0 == "::"@ {
        ("127.0.0.1"@, bind.1)
    } else {
        bind
    }
}

/// The address to reach a launcher at: one that listens everywhere is reached on
/// this machine.
pub fn shutdown_target(bind: &SocketAddress) -> (r: SocketAddress)
    ensures
        r.parts() == reach(bind.parts()),
{
    if same(bind.ip.as_str(), "0.0.0.0") || same(bind.ip.as_str(), "::") {
        SocketAddress { ip: owned("127.0.0.1"), port: bind.port }
    } else {
        bind.copy()
    }
}

/// Writes the request that stops all routes of a launcher.
pub fn stop_all_request(target: &SocketAddress) -> (r: String)
    ensures
        r@ == "POST /api/routes/stop-all HTTP/1.1\r\nHost: "@ + address_text(
            target.ip@,
            target.port,
        ) + "\r\nContent-Length: 0\r\nConnection: close\r\n\r\n"@,
{
    concat3(
        "POST /api/routes/stop-all HTTP/1.1\r\nHost: ",
        target.to_text().as_str(),
        "\r\nContent-Length: 0\r\nConnection: close\r\n\r\n",
    )
}

} // verus!
