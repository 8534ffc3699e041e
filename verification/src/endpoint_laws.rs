//! Laws of the endpoints of a server.

use vstd::prelude::*;

use crate::endpoint::{
    admin_from_control, admin_url_of, agreed_host, authority_end, authority_host_port, checked_host,
    control_url_of, ends_authority, filled, has_space, names_port, normal_fields, strip_leading,
    strip_trailing, url_agrees, url_host, url_host_port, EndpointError, EndpointFields,
    DEFAULT_AUDIO_PORT, DEFAULT_CONTROL_PORT, DEFAULT_SERVER_HOST,
};
use crate::net::{
    double_colon_from, ip_text, ipv4_octet, ipv4_text, ipv6_group, ipv6_run, ipv6_text, is_hex_digit,
};
use crate::text::{
    all_digits, decimal, decimal_round_trip, digits_value, has_part, has_prefix, index_from,
    is_blank, is_digit, is_space, last_index, lemma_last_index, lemma_trim_keeps,
    lemma_trim_nonblank, occurs_at, parse_unsigned, split, trim, trim_end, trim_is_idempotent,
};

verus! {

// ---------------------------------------------------------------------------
// What an IPv6 address is written with

/// A character that an IPv6 address is written with.
spec fn ipv6_char(c: char) -> bool {
    is_hex_digit(c) || c == ':' || c == '.'
}

proof fn lemma_split_chars(s: Seq<char>, sep: char, j: int)
    requires
        0 <= j < s.len(),
        s[j] != sep,
    ensures
        split(s, sep).len() > 0,
        exists|i: int| 0 <= i < split(s, sep).len() && (#[trigger] split(s, sep)[i]).contains(s[j]),
    decreases s.len(),
{
    let t = s.drop_last();
    lemma_split_nonempty(t, sep);
    let head = split(t, sep);
    let p = split(s, sep);
    if j < s.len() - 1 {
        lemma_split_chars(t, sep, j);
        let i = choose|i: int| 0 <= i < head.len() && (#[trigger] head[i]).contains(t[j]);
        if s.last() == sep {
            assert(p[i] == head[i]);
        } else if i < head.len() - 1 {
            assert(p[i] == head[i]);
        } else {
            let x = head.last();
            let k = choose|k: int| 0 <= k < x.len() && x[k] == t[j];
            assert(p[i] == x.push(s.last()));
            assert(p[i][k] == s[j]);
        }
    } else {
        let last = p[p.len() - 1];
        assert(last == head.last().push(s.last()));
        assert(last[last.len() - 1] == s[j]);
    }
}

proof fn lemma_split_nonempty(s: Seq<char>, sep: char)
    ensures
        split(s, sep).len() > 0,
    decreases s.len(),
{
    if s.len() > 0 {
        lemma_split_nonempty(s.drop_last(), sep);
    }
}

proof fn lemma_split_count(s: Seq<char>, sep: char)
    ensures
        split(s, sep).len() >= 2 ==> exists|i: int| 0 <= i < s.len() && #[trigger] s[i] == sep,
        split(s, sep).len() >= 3 ==> exists|i: int, j: int|
            0 <= i < j < s.len() && #[trigger] s[i] == sep && #[trigger] s[j] == sep,
    decreases s.len(),
{
    if s.len() > 0 {
        let t = s.drop_last();
        lemma_split_nonempty(t, sep);
        lemma_split_count(t, sep);
        let n = split(t, sep).len();
        if s.last() == sep {
            assert(s[s.len() - 1] == sep);
            if n >= 2 {
                let i = choose|i: int| 0 <= i < t.len() && #[trigger] t[i] == sep;
                assert(s[i] == sep);
            }
        } else {
            if n >= 2 {
                let i = choose|i: int| 0 <= i < t.len() && #[trigger] t[i] == sep;
                assert(s[i] == sep);
            }
            if n >= 3 {
                let (i, j) = choose|i: int, j: int|
                    0 <= i < j < t.len() && #[trigger] t[i] == sep && #[trigger] t[j] == sep;
                assert(s[i] == sep && s[j] == sep);
            }
        }
    }
}

proof fn lemma_ipv4_chars(s: Seq<char>, j: int)
    requires
        ipv4_text(s),
        0 <= j < s.len(),
    ensures
        ipv6_char(s[j]),
        s[j] != ':',
{
    if s[j] != '.' {
        lemma_split_chars(s, '.', j);
        let p = split(s, '.');
        let i = choose|i: int| 0 <= i < p.len() && (#[trigger] p[i]).contains(s[j]);
        assert(ipv4_octet(p[i]));
        let k = choose|k: int| 0 <= k < p[i].len() && p[i][k] == s[j];
        assert(is_digit(p[i][k]));
    }
}

proof fn lemma_run_chars(s: Seq<char>, dotted_end: bool, j: int)
    requires
        ipv6_run(s, dotted_end) is Some,
        0 <= j < s.len(),
    ensures
        ipv6_char(s[j]),
{
    if s[j] != ':' {
        lemma_split_chars(s, ':', j);
        let p = split(s, ':');
        let i = choose|i: int| 0 <= i < p.len() && (#[trigger] p[i]).contains(s[j]);
        let k = choose|k: int| 0 <= k < p[i].len() && p[i][k] == s[j];
        if ipv6_group(p[i]) {
            assert(is_hex_digit(p[i][k]));
        } else {
            lemma_ipv4_chars(p[i], k);
        }
    }
}

proof fn lemma_double_colon(s: Seq<char>, i: int)
    requires
        0 <= i,
    ensures
        double_colon_from(s, i) < s.len() ==> i <= double_colon_from(s, i) && double_colon_from(
            s,
            i,
        ) + 1 < s.len() && s[double_colon_from(s, i)] == ':' && s[double_colon_from(s, i) + 1]
            == ':',
    decreases s.len() - i,
{
    if i + 1 < s.len() && !(s[i] == ':' && s[i + 1] == ':') {
        lemma_double_colon(s, i + 1);
    }
}

/// An IPv6 address is written with hexadecimal digits, colons and dots, and has
/// two colons or more.
proof fn lemma_ipv6_shape(s: Seq<char>)
    requires
        ipv6_text(s),
    ensures
        forall|j: int| 0 <= j < s.len() ==> ipv6_char(#[trigger] s[j]),
        exists|i: int, j: int| 0 <= i < j < s.len() && #[trigger] s[i] == ':' && #[trigger] s[j] == ':',
{
    let k = double_colon_from(s, 0);
    lemma_double_colon(s, 0);
    if k < s.len() {
        assert forall|j: int| 0 <= j < s.len() implies ipv6_char(#[trigger] s[j]) by {
            if j < k {
                lemma_run_chars(s.take(k), false, j);
                assert(s.take(k)[j] == s[j]);
            } else if j >= k + 2 {
                lemma_run_chars(s.skip(k + 2), true, j - k - 2);
                assert(s.skip(k + 2)[j - k - 2] == s[j]);
            }
        }
        assert(s[k] == ':' && s[k + 1] == ':');
    } else {
        assert forall|j: int| 0 <= j < s.len() implies ipv6_char(#[trigger] s[j]) by {
            lemma_run_chars(s, true, j);
        }
        lemma_split_count(s, ':');
    }
}

proof fn lemma_two_colons(s: Seq<char>, i: int, j: int)
    requires
        0 <= i < j < s.len(),
        s[i] == ':',
        s[j] == ':',
    ensures
        !names_port(s),
{
    let k = last_index(s, ':', s.len() as int);
    lemma_last_index(s, ':', s.len() as int);
    assert(k >= j);
    assert(s.take(k)[i] == ':');
}

// ---------------------------------------------------------------------------
// Hosts

/// The text of an address is a host in order as it stands.
pub proof fn addresses_are_hosts(s: Seq<char>)
    requires
        ip_text(s),
    ensures
        checked_host(s) == Ok::<Seq<char>, EndpointError>(s),
{
    if ipv6_text(s) {
        lemma_ipv6_shape(s);
        let (i, j) = choose|i: int, j: int|
            0 <= i < j < s.len() && #[trigger] s[i] == ':' && #[trigger] s[j] == ':';
        lemma_two_colons(s, i, j);
    } else {
        assert forall|m: int| 0 <= m < s.len() implies ipv6_char(#[trigger] s[m]) && s[m]
            != ':' by {
            lemma_ipv4_chars(s, m);
        }
        assert(s.len() > 0) by {
            if s.len() == 0 {
                assert(split(s, '.').len() == 1);
            }
        }
        lemma_last_index(s, ':', s.len() as int);
        assert(!s.contains(':'));
    }
    assert forall|m: int| 0 <= m < s.len() implies !is_space(#[trigger] s[m]) by {
        assert(ipv6_char(s[m]));
    }
    lemma_trim_keeps(s);
    assert(!has_part(s, "://"@)) by {
        reveal_strlit("://");
        if has_part(s, "://"@) {
            let m = choose|m: int| #[trigger] occurs_at(s, "://"@, m);
            assert(s.subrange(m, m + 3)[1] == '/');
            assert(s[m + 1] == '/');
            assert(ipv6_char(s[m + 1]));
        }
    }
    assert(ipv6_char(s[0]));
    assert(ipv6_char(s[s.len() - 1]));
    if s.contains('/') || s.contains('?') || s.contains('#') || s.contains('@') {
        let m = choose|m: int|
            0 <= m < s.len() && (#[trigger] s[m] == '/' || s[m] == '?' || s[m] == '#' || s[m]
                == '@');
        assert(ipv6_char(s[m]));
    }
    assert(!has_space(s));
}

/// A host that is in order stays as it is when it is checked once more.
pub proof fn checked_hosts_are_stable(raw: Seq<char>)
    requires
        checked_host(raw) is Ok,
    ensures
        checked_host(checked_host(raw)->Ok_0) == checked_host(raw),
{
    let h = trim(raw);
    trim_is_idempotent(raw);
    if h[0] == '[' && h.last() == ']' {
        addresses_are_hosts(h.subrange(1, h.len() - 1));
    }
}

proof fn lemma_port_value()
    ensures
        parse_unsigned("40001"@, u16::MAX as nat) == Some(40001nat),
{
    reveal_strlit("40001");
    let s = "40001"@;
    assert(all_digits(s));
    reveal_with_fuel(digits_value, 6);
    assert(s.drop_last() =~= seq!['4', '0', '0', '0']);
    assert(s.drop_last().drop_last() =~= seq!['4', '0', '0']);
    assert(s.drop_last().drop_last().drop_last() =~= seq!['4', '0']);
    assert(s.drop_last().drop_last().drop_last().drop_last() =~= seq!['4']);
    assert(s.drop_last().drop_last().drop_last().drop_last().drop_last() =~= Seq::<char>::empty());
    assert(digits_value(s) == 40001);
}

proof fn lemma_authority_whole(s: Seq<char>, i: int)
    requires
        0 <= i <= s.len(),
        forall|j: int| i <= j < s.len() ==> !ends_authority(#[trigger] s[j]),
    ensures
        authority_end(s, i) == s.len(),
    decreases s.len() - i,
{
    if i < s.len() {
        lemma_authority_whole(s, i + 1);
    }
}

proof fn lemma_index_is(s: Seq<char>, c: char, i: int, k: int)
    requires
        0 <= i <= k < s.len(),
        s[k] == c,
        forall|j: int| i <= j < k ==> #[trigger] s[j] != c,
    ensures
        index_from(s, c, i) == k,
    decreases k - i,
{
    if i < k {
        lemma_index_is(s, c, i + 1, k);
    }
}

proof fn lemma_last_is(s: Seq<char>, c: char, n: int, k: int)
    requires
        0 <= k < n <= s.len(),
        s[k] == c,
        forall|j: int| k < j < n ==> #[trigger] s[j] != c,
    ensures
        last_index(s, c, n) == k,
    decreases n,
{
    if k < n - 1 {
        assert(s[n - 1] != c);
        lemma_last_is(s, c, n - 1, k);
    }
}

/// A host in order neither begins nor ends with a bracket or white space.
proof fn lemma_host_ends(h: Seq<char>)
    requires
        checked_host(h) == Ok::<Seq<char>, EndpointError>(h),
    ensures
        h.len() > 0,
        trim(h) == h,
        !is_space(h[0]),
        h[0] != '[',
        h.last() != ']',
        strip_trailing(strip_leading(h, '['), ']') == h,
        !h.contains('/'),
        !h.contains('?'),
        !h.contains('#'),
        h.contains(':') ==> ipv6_text(h),
{
    let t = trim(h);
    trim_is_idempotent(h);
    if t[0] == '[' && t.last() == ']' {
        let inner = t.subrange(1, t.len() - 1);
        assert(inner == h);
        assert(t.len() == h.len() + 2);
        lemma_trim_shorter(h);
    }
}

proof fn lemma_trim_shorter(s: Seq<char>)
    ensures
        trim(s).len() <= s.len(),
{
    lemma_trim_start_shorter(s);
    lemma_trim_end_shorter(crate::text::trim_start(s));
}

proof fn lemma_trim_start_shorter(s: Seq<char>)
    ensures
        crate::text::trim_start(s).len() <= s.len(),
    decreases s.len(),
{
    if s.len() > 0 && is_space(s[0]) {
        lemma_trim_start_shorter(s.drop_first());
    }
}

proof fn lemma_trim_end_shorter(s: Seq<char>)
    ensures
        crate::text::trim_end(s).len() <= s.len(),
    decreases s.len(),
{
    if s.len() > 0 && is_space(s.last()) {
        lemma_trim_end_shorter(s.drop_last());
    }
}

/// The authority of an IPv6 address and the control port.
proof fn lemma_authority_of_address(h: Seq<char>)
    requires
        ipv6_text(h),
    ensures
        authority_host_port("["@ + h + "]"@ + ":40001"@, "ws"@) == Some((h, DEFAULT_CONTROL_PORT)),
{
    reveal_strlit("[");
    reveal_strlit("]");
    reveal_strlit(":40001");
    reveal_strlit("40001");
    lemma_port_value();
    lemma_ipv6_shape(h);
    let a = "["@ + h + "]"@ + ":40001"@;
    let end = h.len() as int + 1;
    assert(a[0] == '[');
    assert(a[end] == ']');
    assert forall|j: int| 0 <= j < end implies #[trigger] a[j] != ']' by {
        if j > 0 {
            assert(a[j] == h[j - 1]);
            assert(ipv6_char(h[j - 1]));
        }
    }
    lemma_index_is(a, ']', 0, end);
    assert(a.subrange(1, end) =~= h);
    let suffix = a.skip(end + 1);
    assert(suffix =~= ":40001"@);
    assert(suffix.skip(1) =~= "40001"@);
}

/// The authority of a name and the control port.
proof fn lemma_authority_of_name(h: Seq<char>)
    requires
        h.len() > 0,
        h[0] != '[',
    ensures
        authority_host_port(h + ":40001"@, "ws"@) == Some((h, DEFAULT_CONTROL_PORT)),
{
    reveal_strlit(":40001");
    reveal_strlit("40001");
    lemma_port_value();
    let a = h + ":40001"@;
    let k = h.len() as int;
    assert(a[0] == h[0]);
    assert(a[k] == ':');
    assert forall|j: int| k < j < a.len() implies #[trigger] a[j] != ':' by {
        assert(a[j] == ":40001"@[j - k]);
    }
    lemma_last_is(a, ':', a.len() as int, k);
    assert(a.skip(k + 1) =~= "40001"@);
    assert(a.take(k) =~= h);
}

proof fn lemma_authority_is_whole(h: Seq<char>)
    requires
        checked_host(h) == Ok::<Seq<char>, EndpointError>(h),
    ensures
        authority_end(url_host(h) + ":40001"@, 0) == (url_host(h) + ":40001"@).len(),
{
    lemma_host_ends(h);
    reveal_strlit("[");
    reveal_strlit("]");
    reveal_strlit(":40001");
    let u = url_host(h);
    let a = u + ":40001"@;
    assert forall|j: int| 0 <= j < a.len() implies !ends_authority(#[trigger] a[j]) by {
        if j < u.len() {
            assert(a[j] == u[j]);
            if h.contains(':') {
                if 0 < j < u.len() - 1 {
                    assert(u[j] == h[j - 1]);
                    assert(h.contains(h[j - 1]));
                }
            } else {
                assert(u[j] == h[j]);
                assert(h.contains(h[j]));
            }
        } else {
            assert(a[j] == ":40001"@[j - u.len()]);
        }
    }
    lemma_authority_whole(a, 0);
}

/// The control URL of a host names the host and the control port.
pub proof fn control_urls_name_their_host(h: Seq<char>)
    requires
        checked_host(h) == Ok::<Seq<char>, EndpointError>(h),
    ensures
        trim(control_url_of(h)) == control_url_of(h),
        url_host_port(control_url_of(h), "ws"@) == Some((h, DEFAULT_CONTROL_PORT)),
{
    lemma_host_ends(h);
    let url = control_url_of(h);
    let a = url_host(h) + ":40001"@;
    assert(url =~= "ws://"@ + a);
    assert(url[0] == 'w' && url.last() == '1' && url.len() >= 5) by {
        reveal_strlit("ws://");
        reveal_strlit(":40001");
    }
    lemma_trim_keeps(url);
    assert("ws"@ + "://"@ =~= "ws://"@ && "ws://"@.len() == 5) by {
        reveal_strlit("ws");
        reveal_strlit("://");
        reveal_strlit("ws://");
    }
    assert(url.take(5) =~= "ws://"@);
    assert(url.skip(5) =~= a);
    lemma_authority_is_whole(h);
    assert(a.take(a.len() as int) =~= a);
    if h.contains(':') {
        lemma_authority_of_address(h);
    } else {
        lemma_authority_of_name(h);
    }
}

/// The admin URL that a control URL leads to is that of the same host.
pub proof fn admin_urls_follow_control_urls(h: Seq<char>)
    requires
        checked_host(h) == Ok::<Seq<char>, EndpointError>(h),
    ensures
        admin_from_control(control_url_of(h)) == Some(admin_url_of(h)),
{
    control_urls_name_their_host(h);
}

// ---------------------------------------------------------------------------
// Bringing fields in order

/// A control URL of a host: in its plain or its secure form, with a port or without
/// one, and with what may follow.
pub open spec fn control_url_with(
    h: Seq<char>,
    secure: bool,
    port: Option<u16>,
    rest: Seq<char>,
) -> Seq<char> {
    (if secure {
        "wss://"@
    } else {
        "ws://"@
    }) + (url_host(h) + port_suffix(port)) + rest
}

/// A port behind a host.
pub open spec fn port_suffix(port: Option<u16>) -> Seq<char> {
    match port {
        Some(p) => ":"@ + decimal(p as nat),
        None => Seq::empty(),
    }
}

proof fn lemma_trim_end_behind(a: Seq<char>, p: Seq<char>)
    requires
        a.len() > 0,
        !is_space(a.last()),
    ensures
        trim_end(a + p) == a + trim_end(p),
        trim_end(p).len() <= p.len(),
        trim_end(p) == p.take(trim_end(p).len() as int),
    decreases p.len(),
{
    if p.len() > 0 {
        assert((a + p).last() == p.last());
        if is_space(p.last()) {
            assert((a + p).drop_last() =~= a + p.drop_last());
            lemma_trim_end_behind(a, p.drop_last());
            let n = trim_end(p).len() as int;
            assert(p.drop_last().take(n) =~= p.take(n));
        } else {
            assert(p.take(p.len() as int) =~= p);
        }
    } else {
        assert(a + p =~= a);
        assert(p.take(0) =~= p);
    }
}

proof fn lemma_authority_stops(a: Seq<char>, rest: Seq<char>, i: int)
    requires
        0 <= i <= a.len(),
        forall|j: int| i <= j < a.len() ==> !ends_authority(#[trigger] a[j]),
        rest.len() == 0 || ends_authority(rest[0]),
    ensures
        authority_end(a + rest, i) == a.len(),
    decreases a.len() - i,
{
    if i < a.len() {
        assert((a + rest)[i] == a[i]);
        lemma_authority_stops(a, rest, i + 1);
    } else if rest.len() > 0 {
        assert((a + rest)[i] == rest[0]);
    }
}

/// The authority that is a host in a URL and a port names that host and port.
proof fn lemma_authority_names(h: Seq<char>, port: Option<u16>)
    requires
        checked_host(h) == Ok::<Seq<char>, EndpointError>(h),
        port != Some(0u16) || h.contains(':'),
    ensures
        ({
            let a = url_host(h) + port_suffix(port);
            &&& a.len() > 0
            &&& !is_space(a.last())
            &&& forall|j: int| 0 <= j < a.len() ==> !ends_authority(#[trigger] a[j])
            &&& authority_host_port(a, "ws"@) == Some(
                (
                    h,
                    match port {
                        Some(p) => p,
                        None => DEFAULT_CONTROL_PORT,
                    },
                ),
            )
        }),
{
    lemma_host_ends(h);
    reveal_strlit("[");
    reveal_strlit("]");
    reveal_strlit(":");
    let u = url_host(h);
    let t = port_suffix(port);
    let a = u + t;
    let digits = match port {
        Some(p) => decimal(p as nat),
        None => Seq::empty(),
    };
    if let Some(p) = port {
        decimal_round_trip(p as nat, u16::MAX as nat);
        assert(t[0] == ':' && t.skip(1) =~= digits);
        assert forall|j: int| 1 <= j < t.len() implies is_digit(#[trigger] t[j]) by {
            assert(t[j] == digits[j - 1]);
        }
        assert(a.last() == t[t.len() - 1]);
    } else {
        assert(a =~= u);
    }
    assert forall|j: int| 0 <= j < a.len() implies !ends_authority(#[trigger] a[j]) by {
        if j < u.len() {
            if h.contains(':') {
                if 0 < j < u.len() - 1 {
                    assert(u[j] == h[j - 1]);
                    assert(h.contains(h[j - 1]));
                }
            } else {
                assert(h.contains(h[j]));
            }
        } else {
            assert(a[j] == t[j - u.len()]);
        }
    }
    if h.contains(':') {
        lemma_ipv6_shape(h);
        let end = h.len() as int + 1;
        assert(a[0] == '[' && a[end] == ']');
        assert forall|j: int| 0 <= j < end implies #[trigger] a[j] != ']' by {
            if j > 0 {
                assert(a[j] == h[j - 1]);
                assert(ipv6_char(h[j - 1]));
            }
        }
        lemma_index_is(a, ']', 0, end);
        assert(a.subrange(1, end) =~= h);
        assert(a.skip(end + 1) =~= t);
    } else {
        let k = h.len() as int;
        assert(a[0] == h[0]);
        if port is Some {
            assert(a[k] == ':');
            assert forall|j: int| k < j < a.len() implies #[trigger] a[j] != ':' by {
                assert(a[j] == t[j - k]);
                assert(is_digit(t[j - k]));
            }
            lemma_last_is(a, ':', a.len() as int, k);
            assert(a.skip(k + 1) =~= digits);
            assert(a.take(k) =~= h);
        } else {
            lemma_last_index(a, ':', a.len() as int);
            let m = last_index(a, ':', a.len() as int);
            if m >= 0 {
                assert(h.contains(h[m]));
            }
            lemma_trim_last(h);
        }
    }
}

/// What stays of a trimmed text does not end in white space.
proof fn lemma_trim_last(h: Seq<char>)
    requires
        trim(h) == h,
        h.len() > 0,
    ensures
        !is_space(h.last()),
{
    lemma_trim_end_last(crate::text::trim_start(h));
}

proof fn lemma_trim_end_last(s: Seq<char>)
    ensures
        trim_end(s).len() > 0 ==> !is_space(trim_end(s).last()),
    decreases s.len(),
{
    if s.len() > 0 && is_space(s.last()) {
        lemma_trim_end_last(s.drop_last());
    }
}

/// A control URL names its host, be it plain or secure, with a port or without one, and
/// whatever path, query or fragment follows; port zero does only behind an IPv6 address.
/// The admin URL that is derived from it is that of the host.
pub proof fn admin_urls_follow_all_control_urls(
    h: Seq<char>,
    secure: bool,
    port: Option<u16>,
    rest: Seq<char>,
)
    requires
        checked_host(h) == Ok::<Seq<char>, EndpointError>(h),
        port != Some(0u16) || h.contains(':'),
        rest.len() == 0 || ends_authority(rest[0]),
    ensures
        url_host_port(control_url_with(h, secure, port, rest), "ws"@) == Some(
            (
                h,
                match port {
                    Some(p) => p,
                    None => DEFAULT_CONTROL_PORT,
                },
            ),
        ),
        admin_from_control(control_url_with(h, secure, port, rest)) == Some(admin_url_of(h)),
{
    let a = url_host(h) + port_suffix(port);
    lemma_authority_names(h, port);
    let scheme = if secure {
        "wss://"@
    } else {
        "ws://"@
    };
    let url = control_url_with(h, secure, port, rest);
    let front = scheme + a;
    reveal_strlit("ws");
    reveal_strlit("://");
    reveal_strlit("s://");
    reveal_strlit("ws://");
    reveal_strlit("wss://");
    assert("ws"@ + "://"@ =~= "ws://"@);
    assert("ws"@ + "s://"@ =~= "wss://"@);
    assert(front.last() == a.last());
    assert(url =~= front + rest);
    assert(url[0] == 'w');
    lemma_trim_end_behind(front, rest);
    let kept = trim_end(rest);
    let u = trim(url);
    assert(u == front + kept);
    if rest.len() > 0 {
        assert(rest[0] == '/' || rest[0] == '?' || rest[0] == '#');
        lemma_trim_end_nonblank(rest);
        assert(kept[0] == rest[0]);
    }
    if secure {
        assert(u.take(6) =~= "wss://"@);
        assert(u[2] == 's');
        assert("ws://"@[2] == ':');
        assert(!has_prefix(u, "ws://"@)) by {
            if has_prefix(u, "ws://"@) {
                assert(u.take(5)[2] == "ws://"@[2]);
            }
        }
        assert(u.skip(6) =~= a + kept);
    } else {
        assert(u.take(5) =~= "ws://"@);
        assert(u.skip(5) =~= a + kept);
    }
    lemma_authority_stops(a, kept, 0);
    assert((a + kept).take(a.len() as int) =~= a);
}

proof fn lemma_trim_end_nonblank(s: Seq<char>)
    requires
        s.len() > 0,
        !is_space(s[0]),
    ensures
        trim_end(s).len() > 0,
        trim_end(s)[0] == s[0],
    decreases s.len(),
{
    if is_space(s.last()) {
        lemma_trim_end_nonblank(s.drop_last());
    }
}

/// A host without the brackets around it.
pub open spec fn bare_host(host: Seq<char>) -> Seq<char> {
    strip_trailing(strip_leading(trim(host), '['), ']')
}

proof fn lemma_stripped(s: Seq<char>)
    ensures
        ({
            let l = strip_leading(s, '[');
            let r = strip_trailing(l, ']');
            &&& r.len() > 0 ==> r[0] != '[' && r.last() != ']'
            &&& strip_leading(r, '[') == r
            &&& strip_trailing(r, ']') == r
        }),
{
    lemma_strip_leading(s);
    lemma_strip_trailing(strip_leading(s, '['));
}

proof fn lemma_strip_leading(s: Seq<char>)
    ensures
        strip_leading(s, '[').len() > 0 ==> strip_leading(s, '[')[0] != '[',
    decreases s.len(),
{
    if s.len() > 0 && s[0] == '[' {
        lemma_strip_leading(s.drop_first());
    }
}

proof fn lemma_strip_trailing(s: Seq<char>)
    ensures
        ({
            let r = strip_trailing(s, ']');
            &&& r.len() <= s.len()
            &&& r.len() > 0 ==> r.last() != ']' && r[0] == s[0]
        }),
    decreases s.len(),
{
    if s.len() > 0 && s.last() == ']' {
        lemma_strip_trailing(s.drop_last());
    }
}

/// Bringing a host into the form that it has in a URL once more changes nothing, unless
/// it holds no colon and stood in brackets with white space next to them.
pub proof fn url_hosts_are_stable(host: Seq<char>)
    requires
        bare_host(host).contains(':') || trim(bare_host(host)) == bare_host(host),
    ensures
        url_host(url_host(host)) == url_host(host),
{
    let h = bare_host(host);
    lemma_stripped(trim(host));
    if h.contains(':') {
        reveal_strlit("[");
        reveal_strlit("]");
        let u = "["@ + h + "]"@;
        assert(u[0] == '[' && u.last() == ']');
        lemma_trim_keeps(u);
        let open = h + "]"@;
        assert(u.drop_first() =~= open);
        assert(open[0] == h[0]);
        assert(strip_leading(open, '[') == open);
        assert(strip_leading(u, '[') == open);
        assert(open.drop_last() =~= h);
        assert(open.last() == ']');
        assert(strip_trailing(open, ']') == strip_trailing(h, ']'));
    }
}

/// Fields with the address that was found for their host.
pub open spec fn with_found_server(
    f: EndpointFields,
    lookup: Option<Seq<char>>,
    found: Option<(Seq<char>, u16)>,
) -> EndpointFields {
    if lookup is Some && found is Some {
        EndpointFields { server: found->Some_0, ..f }
    } else {
        f
    }
}

/// What is found for a host that is itself an address: that address.
pub open spec fn own_address(lookup: Option<Seq<char>>) -> Option<(Seq<char>, u16)> {
    match lookup {
        Some(h) => Some((h, DEFAULT_AUDIO_PORT)),
        None => None,
    }
}

/// Fields with a server address that are in order stay as they are when they are
/// brought in order once more, where the host that is looked up is itself an address.
pub proof fn settled_fields_are_stable(f: EndpointFields)
    requires
        ip_text(f.server.0),
    ensures
        ({
            let (g, lookup) = normal_fields(f);
            let settled = with_found_server(g, lookup, own_address(lookup));
            normal_fields(settled) == (settled, lookup)
        }),
{
    let (g, lookup) = normal_fields(f);
    addresses_are_hosts(f.server.0);
    lemma_named_host(f);
    trim_is_idempotent(f.control);
    if f.admin is Some {
        trim_is_idempotent(f.admin->Some_0);
    }
    match lookup {
        Some(h) => {
            checked_hosts_are_stable(g.server_host);
            assert(checked_host(h) == Ok::<Seq<char>, EndpointError>(h));
            assert(g.server_host == h) by {
                lemma_final_host(f);
            }
            control_urls_name_their_host(h);
            lemma_host_ends(h);
            lemma_trim_nonblank(h);
            let s = EndpointFields { server: (h, DEFAULT_AUDIO_PORT), ..g };
            assert(url_agrees(Some(s.control), "ws"@, h, DEFAULT_CONTROL_PORT));
            assert(agreed_host(s.server, Some(trim(s.control)), filled(s.admin)) == Some(h));
        },
        None => {
            lemma_final_host(f);
        },
    }
}

/// Bringing fields in order a second time changes nothing, where the endpoints are
/// advanced or the host is an IPv4 address: what is looked up is an address itself, and
/// is found at that address. Advanced endpoints stay advanced, their server address is
/// left alone, and their URLs are only trimmed, a blank admin URL being none.
pub proof fn normalizing_again_changes_nothing(f: EndpointFields)
    requires
        ip_text(f.server.0),
        f.advanced || ipv4_text(trim(f.server_host)),
    ensures
        ({
            let (g, lookup) = normal_fields(f);
            let once = with_found_server(g, lookup, own_address(lookup));
            let (again, lookup_again) = normal_fields(once);
            &&& lookup matches Some(h) ==> ip_text(h)
            &&& lookup_again == lookup
            &&& with_found_server(again, lookup_again, own_address(lookup_again)) == once
        }),
        f.advanced ==> normal_fields(f).1 is None && normal_fields(f).0.advanced && normal_fields(
            f,
        ).0.server == f.server && normal_fields(f).0.control == trim(f.control) && normal_fields(
            f,
        ).0.admin == filled(f.admin),
{
    settled_fields_are_stable(f);
    if !f.advanced {
        let h = trim(f.server_host);
        addresses_are_hosts(h);
        addresses_are_hosts(f.server.0);
        trim_is_idempotent(f.server_host);
        assert(checked_host(f.server_host) == Ok::<Seq<char>, EndpointError>(h));
        lemma_host_ends(h);
    }
}

/// What the fields name as host, or what is taken in its place, is not blank.
proof fn lemma_named_host(f: EndpointFields)
    requires
        checked_host(f.server.0) == Ok::<Seq<char>, EndpointError>(f.server.0),
    ensures
        !is_blank(normal_fields(f).0.server_host),
{
    lemma_default_host();
    lemma_host_ends(f.server.0);
    lemma_trim_nonblank(f.server.0);
    let named = if !is_blank(f.server_host) {
        f.server_host
    } else {
        match agreed_host(f.server, Some(trim(f.control)), filled(f.admin)) {
            Some(h) => h,
            None => DEFAULT_SERVER_HOST@,
        }
    };
    if checked_host(named) is Ok {
        checked_hosts_are_stable(named);
        let h = checked_host(named)->Ok_0;
        lemma_host_ends(h);
        lemma_trim_nonblank(h);
    }
}

/// The host in order is what checking it gives, where it passes.
proof fn lemma_final_host(f: EndpointFields)
    requires
        checked_host(f.server.0) == Ok::<Seq<char>, EndpointError>(f.server.0),
    ensures
        match checked_host(normal_fields(f).0.server_host) {
            Ok(h) => h == normal_fields(f).0.server_host,
            Err(_) => true,
        },
{
    let named = if !is_blank(f.server_host) {
        f.server_host
    } else {
        match agreed_host(f.server, Some(trim(f.control)), filled(f.admin)) {
            Some(h) => h,
            None => DEFAULT_SERVER_HOST@,
        }
    };
    if checked_host(named) is Ok {
        checked_hosts_are_stable(named);
    }
}

proof fn lemma_default_host()
    ensures
        !is_blank(DEFAULT_SERVER_HOST@),
{
    reveal_strlit("127.0.0.1");
    lemma_trim_nonblank(DEFAULT_SERVER_HOST@);
}

} // verus!
