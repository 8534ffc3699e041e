//! URLs, requests, responses and pages.

use vstd::prelude::*;
use vstd::utf8::decode_utf8;

use crate::net::SocketAddress;
use crate::text::{
    decimal, decimal_round_trip, has_suffix, index_from, is_digit, last_index, lemma_index_from,
    lemma_last_index, lemma_trim_keeps, occurs_at,
};
use crate::web::{
    admin_state_url, derive_admin_base_from_control, encode_path_segment, get_request, headers_ok,
    html_escape, html_text_has_no_markup, html_text_is_read_back, parse_http_url,
    part_from, path_segments_are_plain, path_segments_are_read_back, read_first_line,
    shutdown_target, split_authority_path, split_host_port, split_response, stop_all_request,
    trim_end_char, unescaped_bytes, without_trailing, ParsedHttpUrl, HEADER_END,
};

verus! {

/// A text is read back from its segment of a path, so that no two texts have one
/// segment.
pub proof fn segments_tell_texts_apart(a: &str, b: &str, ra: String, rb: String)
    requires
        call_ensures(encode_path_segment, (a,), ra),
        call_ensures(encode_path_segment, (b,), rb),
    ensures
        decode_utf8(unescaped_bytes(ra@)) == a@,
        ra@ == rb@ ==> a@ == b@,
        !ra@.contains('/') && !ra@.contains('?') && !ra@.contains('#') && !ra@.contains(' '),
{
    path_segments_are_read_back(a@);
    path_segments_are_read_back(b@);
    assert forall|c: char| (c == '/' || c == '?' || c == '#' || c == ' ') implies !ra@.contains(
        c,
    ) by {
        if ra@.contains(c) {
            let k = choose|k: int| 0 <= k < ra@.len() && ra@[k] == c;
            path_segments_are_plain(a@, k);
            assert(crate::web::is_segment_char(ra@[k]));
        }
    }
}

/// Text that is put on a page holds no markup, and reads as the text.
pub proof fn pages_show_text_as_it_is(value: &str, r: String, longer: &str, s: String, c: char)
    requires
        call_ensures(html_escape, (value,), r),
        longer@ == value@.push(c),
        call_ensures(html_escape, (longer,), s),
    ensures
        !r@.contains('<') && !r@.contains('>') && !r@.contains('"') && !r@.contains('\''),
        crate::web::html_read(r@) == value@,
        c != '&' && c != '<' && c != '>' && c != '"' && c != '\'' ==> s@ == r@.push(c),
        c == '<' ==> s@ == r@ + "&lt;"@,
        c == '>' ==> s@ == r@ + "&gt;"@,
        c == '&' ==> s@ == r@ + "&amp;"@,
        c == '"' ==> s@ == r@ + "&quot;"@,
        c == '\'' ==> s@ == r@ + "&#39;"@,
{
    html_text_is_read_back(value@);
    assert forall|d: char| (d == '<' || d == '>' || d == '"' || d == '\'') implies !r@.contains(
        d,
    ) by {
        if r@.contains(d) {
            let k = choose|k: int| 0 <= k < r@.len() && r@[k] == d;
            html_text_has_no_markup(value@, k);
        }
    }
    assert(longer@.drop_last() =~= value@);
    if c != '&' && c != '<' && c != '>' && c != '"' && c != '\'' {
        assert(r@ + seq![c] =~= r@.push(c));
    }
}

/// An address is written with its port, and an IPv6 address in brackets.
pub proof fn addresses_are_written(a: SocketAddress, r: String)
    requires
        call_ensures(SocketAddress::to_text, (&a,), r),
    ensures
        !a.ip@.contains(':') ==> r@ == a.ip@ + ":"@ + decimal(a.port as nat),
        a.ip@.contains(':') ==> r@ == "["@ + a.ip@ + "]:"@ + decimal(a.port as nat),
{
}

/// An address that is written is read as its host and port.
pub proof fn addresses_are_read_as_written(
    a: SocketAddress,
    text: String,
    authority: &str,
    default_port: u16,
    r: Option<(String, u16)>,
)
    requires
        call_ensures(SocketAddress::to_text, (&a,), text),
        authority@ == text@,
        call_ensures(split_host_port, (authority, default_port), r),
        a.ip@.len() > 0,
        !a.ip@.contains('[') && !a.ip@.contains(']'),
    ensures
        r is Some,
        r->Some_0.0@ == a.ip@,
        r->Some_0.1 == a.port,
{
    let s = authority@;
    let d = decimal(a.port as nat);
    decimal_round_trip(a.port as nat, u16::MAX as nat);
    reveal_strlit("[");
    reveal_strlit("]:");
    reveal_strlit(":");
    let n = a.ip@.len() as int;
    if a.ip@.contains(':') {
        assert(s[0] == '[');
        lemma_index_from(s, ']', 1);
        let k = index_from(s, ']', 1);
        assert(s[n + 1] == ']');
        if k < n + 1 {
            assert(s[k] == a.ip@[k - 1]);
        }
        assert(k == n + 1);
        assert(s.subrange(1, k) =~= a.ip@);
        assert(s.skip(k + 1) =~= ":"@ + d);
        assert(s.skip(k + 1).skip(1) =~= d);
    } else {
        assert(s[0] == a.ip@[0]);
        lemma_last_index(s, ':', s.len() as int);
        let k = last_index(s, ':', s.len() as int);
        assert(s[n] == ':');
        if k > n {
            assert(s[k] == d[k - n - 1]);
            assert(is_digit(d[k - n - 1]));
        }
        assert(k == n);
        assert(s.take(k) =~= a.ip@);
        assert(s.skip(k + 1) =~= d);
    }
}

/// A host without a port has the one that is usual.
pub proof fn hosts_without_a_port_have_the_usual_one(
    authority: &str,
    default_port: u16,
    r: Option<(String, u16)>,
)
    requires
        call_ensures(split_host_port, (authority, default_port), r),
        !authority@.contains(':') && !authority@.contains('['),
    ensures
        r is None <==> authority@.len() == 0,
        r is Some ==> r->Some_0.0@ == authority@ && r->Some_0.1 == default_port,
{
    lemma_last_index(authority@, ':', authority@.len() as int);
    if authority@.len() > 0 {
        let x = authority@[0];
        assert(authority@.contains(x));
    }
}

/// An address in brackets without a port has the one that is usual.
pub proof fn bracketed_hosts_without_a_port_have_the_usual_one(
    authority: &str,
    default_port: u16,
    r: Option<(String, u16)>,
    ip: Seq<char>,
)
    requires
        call_ensures(split_host_port, (authority, default_port), r),
        ip.len() > 0,
        !ip.contains(']'),
        authority@ == seq!['['] + ip + seq![']'],
    ensures
        r is Some,
        r->Some_0.0@ == ip,
        r->Some_0.1 == default_port,
{
    let s = authority@;
    let n = ip.len() as int;
    assert(s[0] == '[' && s[n + 1] == ']');
    lemma_index_from(s, ']', 1);
    let k = index_from(s, ']', 1);
    if k < n + 1 {
        assert(s[k] == ip[k - 1]);
    }
    assert(k == n + 1);
    assert(s.subrange(1, k) =~= ip);
    assert(s.skip(k + 1).len() == 0);
}

/// A URL is parted at its first slash into where and what.
pub proof fn urls_are_parted_at_the_slash(rest: &str, r: (String, String))
    requires
        call_ensures(split_authority_path, (rest,), r),
    ensures
        !r.0@.contains('/'),
        rest@.contains('/') ==> r.0@ + r.1@ == rest@,
        !rest@.contains('/') ==> r.0@ == rest@ && r.1@ == "/"@,
        r.1@.len() > 0 && r.1@[0] == '/',
{
    reveal_strlit("/");
    lemma_index_from(rest@, '/', 0);
    let k = index_from(rest@, '/', 0);
    if k < rest@.len() {
        assert(rest@[k] == '/');
        assert(rest@.take(k) + rest@.skip(k) =~= rest@);
        assert(rest@.contains('/'));
    }
}

/// A URL of HTTP names a host, a port, which is 80 where none is given, and a path.
pub proof fn http_urls_are_read(
    url: &str,
    r: Option<ParsedHttpUrl>,
    rest: &str,
    parts: (String, String),
    authority: &str,
    host: Option<(String, u16)>,
)
    requires
        call_ensures(parse_http_url, (url,), r),
        url@ == "http://"@ + rest@,
        call_ensures(split_authority_path, (rest,), parts),
        authority@ == parts.0@,
        call_ensures(split_host_port, (authority, 80u16), host),
    ensures
        r is Some <==> host is Some,
        r is Some ==> r->Some_0.host@ == host->Some_0.0@ && r->Some_0.port == host->Some_0.1
            && r->Some_0.path@ == parts.1@ && r->Some_0.host_header@ == parts.0@,
{
    reveal_strlit("http://");
    assert(url@.take(7) =~= "http://"@);
    assert(url@.skip(7) =~= rest@);
}

/// A URL of another kind is not read.
pub proof fn other_urls_are_not_read(url: &str, r: Option<ParsedHttpUrl>)
    requires
        call_ensures(parse_http_url, (url,), r),
        r is Some,
    ensures
        url@.len() >= 7 && url@.take(7) == "http://"@,
{
    reveal_strlit("http://");
}

/// A character is taken off the end as often as it stands there.
pub proof fn ends_are_taken_off(s: &str, c: char, r: String)
    requires
        call_ensures(trim_end_char, (s, c), r),
    ensures
        r@.len() > 0 ==> r@.last() != c,
        r@.len() <= s@.len(),
        s@.take(r@.len() as int) == r@,
        forall|i: int| r@.len() <= i < s@.len() ==> #[trigger] s@[i] == c,
{
    lemma_without_trailing(s@, c);
}

pub proof fn lemma_without_trailing(s: Seq<char>, c: char)
    ensures
        without_trailing(s, c).len() <= s.len(),
        without_trailing(s, c).len() > 0 ==> without_trailing(s, c).last() != c,
        s.take(without_trailing(s, c).len() as int) == without_trailing(s, c),
        forall|i: int| without_trailing(s, c).len() <= i < s.len() ==> #[trigger] s[i] == c,
    decreases s.len(),
{
    if s.len() > 0 && s.last() == c {
        let t = s.drop_last();
        lemma_without_trailing(t, c);
        let n = without_trailing(t, c).len() as int;
        assert(t.take(n) =~= s.take(n));
        assert forall|i: int| n <= i < s.len() implies #[trigger] s[i] == c by {
            if i < t.len() {
                assert(t[i] == s[i]);
            }
        }
    } else {
        assert(s.take(s.len() as int) =~= s);
    }
}

/// The state of the server is found below the base of its administration, whether that
/// is given with or without its own path.
pub proof fn the_state_is_found_below_the_base(base: &str, r: String, plain: Seq<char>)
    requires
        call_ensures(admin_state_url, (base,), r),
        plain.len() > 0 && !crate::text::is_space(plain[0]) && !crate::text::is_space(plain.last())
            && plain.last() != '/',
        !has_suffix(plain, "/admin/api/state"@) && !has_suffix(plain, "/admin"@),
    ensures
        base@ == plain || base@ == plain.push('/') || base@ == plain + "/admin"@ || base@ == plain
            + "/admin/api/state"@ ==> r@ == plain + "/admin/api/state"@,
{
    reveal_strlit("/admin/api/state");
    reveal_strlit("/admin");
    reveal_strlit("/api/state");
    let full = plain + "/admin/api/state"@;
    let half = plain + "/admin"@;
    lemma_trim_keeps(plain);
    lemma_trim_keeps(plain.push('/'));
    lemma_trim_keeps(half);
    lemma_trim_keeps(full);
    assert(plain.push('/').drop_last() =~= plain);
    assert(without_trailing(plain, '/') == plain);
    assert(half.last() == 'n' && full.last() == 'e');
    assert(full.skip(full.len() - "/admin/api/state"@.len()) =~= "/admin/api/state"@);
    assert(half.skip(half.len() - "/admin"@.len()) =~= "/admin"@);
    assert(half + "/api/state"@ =~= full);
    if base@ == half && has_suffix(half, "/admin/api/state"@) {
        let t = half.skip(half.len() - "/admin/api/state"@.len());
        assert(t.last() == half.last());
        assert("/admin/api/state"@.last() == 'e');
    }
}

/// The administration of a server is on its control host, at port 40002.
pub proof fn administration_is_on_the_control_host(
    control: &str,
    r: Option<String>,
    host: Seq<char>,
    port: u16,
)
    requires
        call_ensures(derive_admin_base_from_control, (control,), r),
        host.len() > 0,
        !host.contains(':') && !host.contains('/') && !host.contains('['),
        control@ == "ws://"@ + (host + ":"@ + decimal(port as nat)),
    ensures
        r is Some,
        r->Some_0@ == "http://"@ + host + ":40002"@,
{
    reveal_strlit("ws://");
    reveal_strlit(":");
    let d = decimal(port as nat);
    let a = host + ":"@ + d;
    decimal_round_trip(port as nat, u16::MAX as nat);
    assert(control@.take(5) =~= "ws://"@);
    assert(control@.skip(5) =~= a);
    assert(!a.contains('/')) by {
        if a.contains('/') {
            let k = choose|k: int| 0 <= k < a.len() && a[k] == '/';
            if k < host.len() {
                assert(host[k] == '/');
            } else if k > host.len() {
                assert(is_digit(d[k - host.len() - 1]));
            }
        }
    }
    lemma_index_from(a, '/', 0);
    if index_from(a, '/', 0) < a.len() {
        assert(a.contains('/'));
    }
    let n = host.len() as int;
    assert(a[n] == ':');
    assert(a[0] == host[0]);
    assert(host.contains(host[0]));
    lemma_last_index(a, ':', a.len() as int);
    let k = last_index(a, ':', a.len() as int);
    if k > n {
        assert(a[k] == d[k - n - 1]);
        assert(is_digit(d[k - n - 1]));
    }
    assert(k == n);
    assert(a.take(k) =~= host);
    assert(a.skip(k + 1) =~= d);
}

/// The administration of a server with an IPv6 address is at that address, in brackets.
pub proof fn administration_is_on_the_bracketed_address(
    control: &str,
    r: Option<String>,
    ip: Seq<char>,
    port: u16,
)
    requires
        call_ensures(derive_admin_base_from_control, (control,), r),
        ip.contains(':') && !ip.contains('/') && !ip.contains('[') && !ip.contains(']'),
        control@ == "ws://"@ + ("["@ + ip + "]:"@ + decimal(port as nat)),
    ensures
        r is Some,
        r->Some_0@ == "http://["@ + ip + "]:40002"@,
{
    reveal_strlit("ws://");
    reveal_strlit("[");
    reveal_strlit("]:");
    let d = decimal(port as nat);
    let a = "["@ + ip + "]:"@ + d;
    let n = ip.len() as int;
    decimal_round_trip(port as nat, u16::MAX as nat);
    assert(control@.take(5) =~= "ws://"@);
    assert(control@.skip(5) =~= a);
    if a.contains('/') {
        let k = choose|k: int| 0 <= k < a.len() && a[k] == '/';
        if 1 <= k <= n {
            assert(ip[k - 1] == '/');
        } else if k > n + 2 {
            assert(is_digit(d[k - n - 3]));
        }
    }
    lemma_index_from(a, '/', 0);
    if index_from(a, '/', 0) < a.len() {
        assert(a.contains('/'));
    }
    assert(a[0] == '[');
    lemma_index_from(a, ']', 1);
    let k = index_from(a, ']', 1);
    assert(a[n + 1] == ']');
    if k < n + 1 {
        assert(a[k] == ip[k - 1]);
    }
    assert(k == n + 1);
    assert(a.subrange(1, k) =~= ip);
    assert(a.skip(k + 1).skip(1) =~= d);
    let m = choose|m: int| 0 <= m < ip.len() && ip[m] == ':';
    assert(ip.contains(ip[0]));
}

/// A control URL of another kind tells nothing of the administration.
pub proof fn other_control_urls_tell_nothing(control: &str, r: Option<String>)
    requires
        call_ensures(derive_admin_base_from_control, (control,), r),
        r is Some,
    ensures
        control@.len() >= 5 && control@.take(5) == "ws://"@,
{
    reveal_strlit("ws://");
}

// ---------------------------------------------------------------------------
// Requests and responses
// ---------------------------------------------------------------------------

pub proof fn lemma_part_from(s: Seq<char>, p: Seq<char>, i: int)
    requires
        0 <= i <= s.len(),
    ensures
        i <= part_from(s, p, i) <= s.len(),
        part_from(s, p, i) < s.len() ==> occurs_at(s, p, part_from(s, p, i)),
        forall|j: int| i <= j < part_from(s, p, i) ==> !#[trigger] occurs_at(s, p, j),
    decreases s.len() - i,
{
    if i < s.len() && !occurs_at(s, p, i) {
        lemma_part_from(s, p, i + 1);
    }
}

/// A response is parted at the first empty line into its headers and its body.
pub proof fn responses_are_parted_at_the_empty_line(
    response: &str,
    r: Option<(String, String)>,
    k: int,
)
    requires
        call_ensures(split_response, (response,), r),
    ensures
        r is Some ==> response@ == r->Some_0.0@ + "\r\n\r\n"@ + r->Some_0.1@,
        r is Some && 0 <= k < r->Some_0.0@.len() ==> !occurs_at(response@, "\r\n\r\n"@, k),
        r is None && 0 <= k < response@.len() ==> !occurs_at(response@, "\r\n\r\n"@, k),
{
    reveal_strlit("\r\n\r\n");
    lemma_part_from(response@, HEADER_END@, 0);
    let n = part_from(response@, HEADER_END@, 0);
    if r is Some {
        assert(response@.subrange(n, n + 4) == "\r\n\r\n"@);
        assert(response@ =~= response@.take(n) + "\r\n\r\n"@ + response@.skip(n + 4)) by {
            assert forall|i: int| n <= i < n + 4 implies response@[i] == "\r\n\r\n"@[i - n] by {
                assert(response@.subrange(n, n + 4)[i - n] == response@[i]);
            }
        }
    }
}

/// The first line of a text is what stands before its first line end.
pub proof fn first_lines_end_at_the_line_end(s: &str, r: String, line: Seq<char>, rest: Seq<char>)
    requires
        call_ensures(read_first_line, (s,), r),
        !line.contains('\n'),
    ensures
        s@ == line ==> r@ == line,
        s@ == line + seq!['\n'] + rest && (line.len() == 0 || line.last() != '\r') ==> r@ == line,
        s@ == line + seq!['\r', '\n'] + rest ==> r@ == line,
{
    lemma_index_from(s@, '\n', 0);
    let k = index_from(s@, '\n', 0);
    if s@ == line && k < s@.len() {
        assert(line.contains('\n'));
    }
    if s@ == line + seq!['\n'] + rest {
        let n = line.len() as int;
        assert(s@[n] == '\n');
        if k < n {
            assert(line[k] == s@[k]);
        }
        assert(s@.take(n) =~= line);
    }
    if s@ == line + seq!['\r', '\n'] + rest {
        let n = line.len() as int;
        assert(s@[n] == '\r' && s@[n + 1] == '\n');
        if k < n {
            assert(line[k] == s@[k]);
        }
        assert(k == n + 1);
        assert(s@.take(k).drop_last() =~= line);
        assert(s@.take(k).last() == '\r');
    }
}

/// Headers tell of success exactly with status 200.
pub proof fn headers_tell_of_success(headers: &str, r: bool, status: Seq<char>, rest: Seq<char>)
    requires
        call_ensures(headers_ok, (headers,), r),
        status.len() == 3,
        headers@ == "HTTP/1.1 "@ + status + rest || headers@ == "HTTP/1.0 "@ + status + rest,
    ensures
        r <==> status == "200"@,
{
    reveal_strlit("HTTP/1.1 ");
    reveal_strlit("HTTP/1.0 ");
    reveal_strlit("HTTP/1.1 200");
    reveal_strlit("HTTP/1.0 200");
    reveal_strlit("200");
    let t = headers@.take(12);
    assert(t.skip(9) =~= status);
    assert("HTTP/1.1 200"@.skip(9) =~= "200"@);
    assert("HTTP/1.0 200"@.skip(9) =~= "200"@);
    if status == "200"@ {
        if headers@ == "HTTP/1.1 "@ + status + rest {
            assert(t =~= "HTTP/1.1 200"@);
        } else {
            assert(t =~= "HTTP/1.0 200"@);
        }
    }
}

/// A request names what it asks for, and where, and ends with an empty line.
pub proof fn requests_are_whole(
    path: &str,
    host: &str,
    r: String,
    target: SocketAddress,
    stop: String,
    text: String,
)
    requires
        call_ensures(get_request, (path, host), r),
        call_ensures(stop_all_request, (&target,), stop),
        call_ensures(SocketAddress::to_text, (&target,), text),
    ensures
        r@ == "GET "@ + path@ + " HTTP/1.1\r\nHost: "@ + host@
            + "\r\nAccept: application/json\r\nConnection: close\r\n\r\n"@,
        stop@ == "POST /api/routes/stop-all HTTP/1.1\r\nHost: "@ + text@
            + "\r\nContent-Length: 0\r\nConnection: close\r\n\r\n"@,
{
}

/// A program that listens everywhere is reached at home; any other where it listens.
pub proof fn programs_are_reached_where_they_listen(bind: SocketAddress, r: SocketAddress)
    requires
        call_ensures(shutdown_target, (&bind,), r),
    ensures
        r.port == bind.port,
        bind.ip@ == "0.0.0.0"@ || bind.ip@ == "::"@ ==> r.ip@ == "127.0.0.1"@,
        bind.ip@ != "0.0.0.0"@ && bind.ip@ != "::"@ ==> r.ip@ == bind.ip@,
{
}

} // verus!
