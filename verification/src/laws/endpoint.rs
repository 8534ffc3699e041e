//! Servers, and how they are reached.

use vstd::prelude::*;

use crate::endpoint::{
    derive_admin_url_from_control, derive_server_host, endpoint_fields_are_default, filled_text,
    host_for_socket, host_for_url, normalize_endpoint_overrides, parse_url_host_port,
    resolve_server_audio_addr, validate_control_url, validate_http_url, validate_server_host,
    ClientEndpointOverrides, ClientServerEndpoint, EndpointError, HostLookup, ServerTarget,
};
use crate::laws::text::{all_space, lemma_blank};
use crate::net::SocketAddress;
use crate::text::{
    decimal, decimal_round_trip, has_prefix, index_from, is_digit, is_space, last_index,
    lemma_index_from, lemma_last_index, lemma_trim_keeps, trim,
};

verus! {

// ---------------------------------------------------------------------------
// Hosts
// ---------------------------------------------------------------------------

/// A host name: one character at least, and none of those that have a meaning in a URL.
pub open spec fn plain_host(h: Seq<char>) -> bool {
    &&& h.len() > 0
    &&& forall|i: int|
        0 <= i < h.len() ==> !is_space(#[trigger] h[i]) && h[i] != '/' && h[i] != '?' && h[i] != '#'
            && h[i] != '@' && h[i] != ':' && h[i] != '[' && h[i] != ']'
}

pub proof fn lemma_plain_host(h: Seq<char>)
    requires
        plain_host(h),
    ensures
        trim(h) == h,
        crate::endpoint::checked_host(h) == Ok::<Seq<char>, EndpointError>(h),
        crate::endpoint::url_host(h) == h,
        !h.contains(':') && !h.contains('/') && !h.contains('[') && !h.contains(']'),
{
    lemma_trim_keeps(h);
    reveal_strlit("://");
    if crate::text::has_part(h, "://"@) {
        let k = choose|k: int| crate::text::occurs_at(h, "://"@, k);
        assert(h.subrange(k, k + 3)[0] == h[k]);
        assert(h[k] == ':');
    }
    lemma_last_index(h, ':', h.len() as int);
    assert(h[0] != '[' && h[h.len() - 1] != ']');
}

/// A host name is accepted as it is, without the white space around it.
pub proof fn plain_hosts_are_accepted(host: &str, r: Result<String, EndpointError>)
    requires
        call_ensures(validate_server_host, (host,), r),
        plain_host(trim(host@)),
    ensures
        r is Ok,
        r->Ok_0@ == trim(host@),
{
    lemma_plain_host(trim(host@));
}

/// A blank host, one with a path, with white space inside or with a port is refused,
/// each for its own reason.
pub proof fn other_hosts_are_refused(
    host: &str,
    r: Result<String, EndpointError>,
    k: int,
    name: Seq<char>,
    port: u16,
)
    requires
        call_ensures(validate_server_host, (host,), r),
    ensures
        all_space(host@) ==> r == Err::<String, EndpointError>(EndpointError::HostEmpty),
        0 <= k < trim(host@).len() && (trim(host@)[k] == '/' || trim(host@)[k] == '?' || trim(
            host@,
        )[k] == '#' || trim(host@)[k] == '@' || is_space(trim(host@)[k])) ==> r is Err,
        plain_host(name) && trim(host@) == name + ":"@ + decimal(port as nat) ==> r == Err::<
            String,
            EndpointError,
        >(EndpointError::HostPort),
{
    lemma_blank(host@);
    let h = trim(host@);
    if plain_host(name) && h == name + ":"@ + decimal(port as nat) {
        reveal_strlit(":");
        reveal_strlit("://");
        let d = decimal(port as nat);
        let n = name.len() as int;
        decimal_round_trip(port as nat, u16::MAX as nat);
        assert forall|i: int| 0 <= i < h.len() && i != n implies !is_space(#[trigger] h[i]) && h[i]
            != '/' && h[i] != '?' && h[i] != '#' && h[i] != '@' && h[i] != ':' && h[i] != '['
            && h[i] != ']' by {
            if i < n {
                assert(h[i] == name[i]);
            } else {
                assert(h[i] == d[i - n - 1]);
                assert(is_digit(d[i - n - 1]));
            }
        }
        assert(h[n] == ':');
        if crate::text::has_part(h, "://"@) {
            let j = choose|j: int| crate::text::occurs_at(h, "://"@, j);
            assert(h.subrange(j, j + 3)[1] == h[j + 1]);
            assert(h[j + 1] == '/');
        }
        assert(h[0] != '[' && h[h.len() - 1] != ']');
        lemma_last_index(h, ':', h.len() as int);
        assert(last_index(h, ':', h.len() as int) == n);
        assert(h.take(n) =~= name);
        assert(h.skip(n + 1) =~= d);
        lemma_plain_host(name);
    }
}

/// An accepted host holds nothing of a path and no white space.
pub proof fn accepted_hosts_are_hosts(host: &str, r: Result<String, EndpointError>, i: int)
    requires
        call_ensures(validate_server_host, (host,), r),
        r is Ok,
        0 <= i < r->Ok_0@.len(),
    ensures
        !is_space(r->Ok_0@[i]),
        r->Ok_0@[i] != '/' && r->Ok_0@[i] != '?' && r->Ok_0@[i] != '#' && r->Ok_0@[i] != '@',
        !all_space(host@),
{
    lemma_blank(host@);
    let h = trim(host@);
    if h[0] == '[' && h.last() == ']' {
        assert(r->Ok_0@[i] == h[i + 1]);
    }
}

/// In a URL a host name stands as it is, and a host with colons in brackets, which are
/// not doubled.
pub proof fn hosts_stand_in_urls(host: &str, r: String, s: String, six: Seq<char>)
    requires
        call_ensures(host_for_url, (host,), r),
        call_ensures(host_for_socket, (host,), s),
    ensures
        s@ == r@,
        plain_host(trim(host@)) ==> r@ == trim(host@),
        six.contains(':') && !six.contains('[') && !six.contains(']') && (trim(host@) == six
            || trim(host@) == "["@ + six + "]"@) ==> r@ == "["@ + six + "]"@,
{
    let t = trim(host@);
    reveal_strlit("[");
    reveal_strlit("]");
    if plain_host(t) {
        lemma_plain_host(t);
    }
    if six.contains(':') && !six.contains('[') && !six.contains(']') {
        if six[0] == '[' || six.last() == ']' {
            let k = choose|k: int| 0 <= k < six.len() && six[k] == ':';
            assert(six.contains(six[0]));
            assert(six.contains(six[six.len() - 1]));
        }
        assert(crate::endpoint::strip_leading(six, '[') == six);
        assert(crate::endpoint::strip_trailing(six, ']') == six);
        if t == "["@ + six + "]"@ {
            let u = six + "]"@;
            assert(t.drop_first() =~= u);
            assert(u[0] == six[0]);
            assert(crate::endpoint::strip_leading(u, '[') == u);
            assert(u.drop_last() =~= six);
            assert(crate::endpoint::strip_trailing(u, ']') == six);
        }
    }
}

/// Audio, control and administration of a server are at its host, each at its port.
pub proof fn servers_are_reached_at_their_ports(
    e: ClientServerEndpoint,
    audio: String,
    control: String,
    admin: String,
    host: &str,
    shown: String,
)
    requires
        call_ensures(ClientServerEndpoint::audio_addr_string, (&e,), audio),
        call_ensures(ClientServerEndpoint::control_url, (&e,), control),
        call_ensures(ClientServerEndpoint::admin_url, (&e,), admin),
        host@ == e.host@,
        call_ensures(host_for_url, (host,), shown),
    ensures
        audio@ == shown@ + ":40000"@,
        control@ == "ws://"@ + shown@ + ":40001"@,
        admin@ == "http://"@ + shown@ + ":40002"@,
{
}

/// A server is made of a host that is accepted, and of no other.
pub proof fn servers_have_accepted_hosts(
    host: &str,
    r: Result<ClientServerEndpoint, EndpointError>,
    v: Result<String, EndpointError>,
)
    requires
        call_ensures(ClientServerEndpoint::new, (host,), r),
        call_ensures(validate_server_host, (host,), v),
    ensures
        r is Ok <==> v is Ok,
        r is Ok ==> r->Ok_0.host@ == v->Ok_0@,
        r is Err ==> r->Err_0 == v->Err_0,
{
}

/// The address that a lookup finds is taken; a lookup that fails or finds nothing is
/// told with the host.
pub proof fn lookups_decide_the_address(
    host: &str,
    found: HostLookup,
    r: Result<SocketAddress, EndpointError>,
    e: ClientServerEndpoint,
    s: Result<SocketAddress, EndpointError>,
)
    requires
        call_ensures(resolve_server_audio_addr, (host, found), r),
        call_ensures(ClientServerEndpoint::resolve_audio_addr, (&e, found), s),
        e.host@ == host@,
        plain_host(host@),
    ensures
        s is Ok <==> r is Ok,
        found matches HostLookup::Found(addr) ==> r == Ok::<SocketAddress, EndpointError>(addr)
            && s == Ok::<SocketAddress, EndpointError>(addr),
        found is Failed ==> (r matches Err(EndpointError::LookupFailed(h)) && h@ == host@),
        found is Empty ==> (r matches Err(EndpointError::Unresolved(h)) && h@ == host@),
{
    lemma_plain_host(host@);
}

/// A refused host has no address, whatever a lookup finds.
pub proof fn refused_hosts_have_no_address(
    host: &str,
    found: HostLookup,
    r: Result<SocketAddress, EndpointError>,
    v: Result<String, EndpointError>,
)
    requires
        call_ensures(resolve_server_audio_addr, (host, found), r),
        call_ensures(validate_server_host, (host,), v),
        v is Err,
    ensures
        r is Err && r->Err_0 == v->Err_0,
{
}

// ---------------------------------------------------------------------------
// URLs
// ---------------------------------------------------------------------------

/// A control URL starts with one of the two schemes of WebSocket, and a page with one
/// of those of HTTP.
pub proof fn urls_start_with_their_scheme(
    url: &str,
    r: Result<(), EndpointError>,
    s: Result<(), EndpointError>,
)
    requires
        call_ensures(validate_control_url, (url,), r),
        call_ensures(validate_http_url, (url,), s),
    ensures
        r is Ok <==> has_prefix(trim(url@), "ws://"@) || has_prefix(trim(url@), "wss://"@),
        s is Ok <==> has_prefix(trim(url@), "http://"@) || has_prefix(trim(url@), "https://"@),
        all_space(url@) ==> r == Err::<(), EndpointError>(EndpointError::ControlEmpty) && s == Err::<
            (),
            EndpointError,
        >(EndpointError::UrlEmpty),
        r is Err && !all_space(url@) ==> r->Err_0 == EndpointError::ControlScheme,
        s is Err && !all_space(url@) ==> s->Err_0 == EndpointError::UrlScheme,
{
    reveal_strlit("ws://");
    reveal_strlit("wss://");
    reveal_strlit("http://");
    reveal_strlit("https://");
    lemma_blank(url@);
}

/// The rest of a URL: nothing, or something that begins a path, a query or a fragment.
pub open spec fn url_rest(t: Seq<char>) -> bool {
    t.len() == 0 || t[0] == '/' || t[0] == '?' || t[0] == '#'
}

proof fn lemma_authority_end(s: Seq<char>, i: int, n: int)
    requires
        0 <= i <= n <= s.len(),
        forall|k: int| i <= k < n ==> !crate::endpoint::ends_authority(#[trigger] s[k]),
        n < s.len() ==> crate::endpoint::ends_authority(s[n]),
    ensures
        crate::endpoint::authority_end(s, i) == n,
    decreases n - i,
{
    if i < n {
        lemma_authority_end(s, i + 1, n);
    }
}

/// The host and the port of a URL are read from behind the scheme, whatever follows
/// them.
pub proof fn hosts_and_ports_are_read_from_urls(
    url: &str,
    scheme: &str,
    r: Option<(String, u16)>,
    head: Seq<char>,
    host: Seq<char>,
    port: u16,
    rest: Seq<char>,
)
    requires
        call_ensures(parse_url_host_port, (url, scheme), r),
        head == scheme@ + "://"@ || head == scheme@ + "s://"@,
        scheme@ == "ws"@ || scheme@ == "http"@,
        plain_host(host),
        port > 0,
        url_rest(rest),
        trim(url@) == head + (host + ":"@ + decimal(port as nat) + rest),
    ensures
        r is Some,
        r->Some_0.0@ == host,
        r->Some_0.1 == port,
{
    let d = decimal(port as nat);
    let a = host + ":"@ + d;
    lemma_heads(scheme@, head, trim(url@), a + rest);
    lemma_authority(a, host, port, rest, scheme@);
}

proof fn lemma_authority(a: Seq<char>, host: Seq<char>, port: u16, rest: Seq<char>, scheme: Seq<char>)
    requires
        plain_host(host),
        port > 0,
        url_rest(rest),
        a == host + ":"@ + decimal(port as nat),
    ensures
        (a + rest).take(crate::endpoint::authority_end(a + rest, 0)) == a,
        crate::endpoint::authority_host_port(a, scheme) == Some((host, port)),
{
    let d = decimal(port as nat);
    reveal_strlit(":");
    decimal_round_trip(port as nat, u16::MAX as nat);
    let n = a.len() as int;
    let m = host.len() as int;
    assert forall|k: int| 0 <= k < n && k != m implies !crate::endpoint::ends_authority(
        #[trigger] (a + rest)[k],
    ) && a[k] != ':' by {
        if k < m {
            assert((a + rest)[k] == host[k]);
        } else {
            assert((a + rest)[k] == d[k - m - 1]);
            assert(is_digit(d[k - m - 1]));
        }
    }
    assert((a + rest)[m] == ':');
    if rest.len() > 0 {
        assert((a + rest)[n] == rest[0]);
    }
    lemma_authority_end(a + rest, 0, n);
    assert((a + rest).take(n) =~= a);
    assert(a[0] == host[0]);
    assert(a[m] == ':');
    lemma_last_index(a, ':', a.len() as int);
    let k = last_index(a, ':', a.len() as int);
    if k > m {
        assert((a + rest)[k] == a[k]);
    }
    assert(k == m);
    assert(a.take(k) =~= host);
    assert(a.skip(k + 1) =~= d);
}

proof fn lemma_heads(scheme: Seq<char>, head: Seq<char>, u: Seq<char>, rest: Seq<char>)
    requires
        scheme == "ws"@ || scheme == "http"@,
        head == scheme + "://"@ || head == scheme + "s://"@,
        u == head + rest,
    ensures
        has_prefix(u, head),
        head == scheme + "s://"@ ==> !has_prefix(u, scheme + "://"@),
        u.skip(head.len() as int) == rest,
{
    reveal_strlit("ws");
    reveal_strlit("http");
    reveal_strlit("://");
    reveal_strlit("s://");
    assert(u.take(head.len() as int) =~= head);
    assert(u.skip(head.len() as int) =~= rest);
    let n = scheme.len() as int;
    if head == scheme + "s://"@ && has_prefix(u, scheme + "://"@) {
        assert(u[n] == 's');
        assert(u.take(n + 3)[n] == (scheme + "://"@)[n]);
    }
}

/// A URL without a port has the usual one of its scheme.
pub proof fn urls_without_a_port_have_the_usual_one(
    url: &str,
    scheme: &str,
    r: Option<(String, u16)>,
    head: Seq<char>,
    host: Seq<char>,
    rest: Seq<char>,
)
    requires
        call_ensures(parse_url_host_port, (url, scheme), r),
        head == scheme@ + "://"@ || head == scheme@ + "s://"@,
        scheme@ == "ws"@ || scheme@ == "http"@,
        plain_host(host),
        url_rest(rest),
        trim(url@) == head + (host + rest),
    ensures
        r is Some,
        r->Some_0.0@ == host,
        scheme@ == "ws"@ ==> r->Some_0.1 == 40001,
        scheme@ == "http"@ ==> r->Some_0.1 == 40002,
{
    let u = trim(url@);
    reveal_strlit("ws");
    reveal_strlit("http");
    assert("ws"@.len() == 2 && "http"@.len() == 4);
    lemma_plain_host(host);
    lemma_heads(scheme@, head, u, host + rest);
    let n = host.len() as int;
    assert forall|k: int| 0 <= k < n implies !crate::endpoint::ends_authority(
        #[trigger] (host + rest)[k],
    ) by {
        assert((host + rest)[k] == host[k]);
    }
    if rest.len() > 0 {
        assert((host + rest)[n] == rest[0]);
    }
    lemma_authority_end(host + rest, 0, n);
    assert((host + rest).take(n) =~= host);
    lemma_last_index(host, ':', host.len() as int);
    assert(host[0] != '[');
}

/// An IPv6 address in a URL stands in brackets; its port is what follows them, or the
/// usual one.
pub proof fn bracketed_addresses_are_read_from_urls(
    url: &str,
    scheme: &str,
    r: Option<(String, u16)>,
    head: Seq<char>,
    ip: Seq<char>,
    port: u16,
    with_port: bool,
)
    requires
        call_ensures(parse_url_host_port, (url, scheme), r),
        head == scheme@ + "://"@ || head == scheme@ + "s://"@,
        scheme@ == "ws"@ || scheme@ == "http"@,
        forall|i: int|
            0 <= i < ip.len() ==> #[trigger] ip[i] != '/' && ip[i] != '?' && ip[i] != '#' && ip[i]
                != ']',
        with_port ==> trim(url@) == head + (seq!['['] + ip + seq![']', ':'] + decimal(
            port as nat,
        )),
        !with_port ==> trim(url@) == head + (seq!['['] + ip + seq![']']),
    ensures
        r is Some,
        r->Some_0.0@ == ip,
        with_port ==> r->Some_0.1 == port,
        !with_port && scheme@ == "ws"@ ==> r->Some_0.1 == 40001,
        !with_port && scheme@ == "http"@ ==> r->Some_0.1 == 40002,
{
    let d = decimal(port as nat);
    let n = ip.len() as int;
    let a = if with_port {
        seq!['['] + ip + seq![']', ':'] + d
    } else {
        seq!['['] + ip + seq![']']
    };
    reveal_strlit("ws");
    reveal_strlit("http");
    assert("ws"@.len() == 2 && "http"@.len() == 4);
    decimal_round_trip(port as nat, u16::MAX as nat);
    lemma_heads(scheme@, head, trim(url@), a);
    assert forall|k: int| 0 <= k < a.len() implies !crate::endpoint::ends_authority(
        #[trigger] a[k],
    ) by {
        if 1 <= k <= n {
            assert(a[k] == ip[k - 1]);
        } else if k > n + 2 {
            assert(a[k] == d[k - n - 3]);
            assert(is_digit(d[k - n - 3]));
        }
    }
    lemma_authority_end(a, 0, a.len() as int);
    assert(a.take(a.len() as int) =~= a);
    assert(a[0] == '[');
    lemma_index_from(a, ']', 0);
    let k = index_from(a, ']', 0);
    assert(a[n + 1] == ']');
    if 0 < k < n + 1 {
        assert(a[k] == ip[k - 1]);
    }
    assert(k == n + 1);
    assert(a.subrange(1, k) =~= ip);
    if with_port {
        assert(a.skip(k + 1).skip(1) =~= d);
        assert(a.skip(k + 1)[0] == ':');
    } else {
        assert(a.skip(k + 1).len() == 0);
    }
}

/// The administration is derived from a control URL that names a host, and is at that
/// host.
pub proof fn administration_is_derived_from_control(
    control: &str,
    r: Option<String>,
    scheme: &str,
    read: Option<(String, u16)>,
    host: &str,
    shown: String,
)
    requires
        call_ensures(derive_admin_url_from_control, (control,), r),
        scheme@ == "ws"@,
        call_ensures(parse_url_host_port, (control, scheme), read),
        read is Some ==> host@ == read->Some_0.0@,
        call_ensures(host_for_url, (host,), shown),
    ensures
        r is Some <==> read is Some,
        r is Some ==> r->Some_0@ == "http://"@ + shown@ + ":40002"@,
{
}

/// A server's host is derived where its audio port is the usual one and neither URL
/// names another host or port.
pub proof fn hosts_are_derived_where_all_agree(
    server: SocketAddress,
    control: &str,
    admin: &str,
    r: Option<String>,
    ws: &str,
    http: &str,
    c: Option<(String, u16)>,
    a: Option<(String, u16)>,
    bare: Option<String>,
)
    requires
        call_ensures(derive_server_host, (&server, Some(control), Some(admin)), r),
        call_ensures(derive_server_host, (&server, None::<&str>, None::<&str>), bare),
        ws@ == "ws"@ && http@ == "http"@,
        call_ensures(parse_url_host_port, (control, ws), c),
        call_ensures(parse_url_host_port, (admin, http), a),
    ensures
        r is Some ==> r->Some_0@ == server.ip@,
        r is Some <==> server.port == 40000 && (c is Some ==> c->Some_0.0@ == server.ip@
            && c->Some_0.1 == 40001) && (a is Some ==> a->Some_0.0@ == server.ip@ && a->Some_0.1
            == 40002),
        bare is Some <==> server.port == 40000,
        bare is Some ==> bare->Some_0@ == server.ip@,
{
}

/// A given text counts where it is more than white space, without the white space
/// around it.
pub proof fn blank_texts_do_not_count(o: Option<String>, r: Option<String>)
    requires
        call_ensures(filled_text, (&o,), r),
    ensures
        r is Some <==> o is Some && !all_space(o->Some_0@),
        r is Some ==> r->Some_0@ == trim(o->Some_0@),
{
    if o is Some {
        lemma_blank(o->Some_0@);
    }
}

/// Fields are the default ones where server and control are those of the host.
pub proof fn default_fields_are_those_of_the_host(
    server_host: &str,
    server: SocketAddress,
    control: &str,
    r: bool,
    made: Result<ClientServerEndpoint, EndpointError>,
    url: String,
)
    requires
        call_ensures(endpoint_fields_are_default, (server_host, &server, control), r),
        call_ensures(ClientServerEndpoint::new, (server_host,), made),
        made is Ok ==> call_ensures(ClientServerEndpoint::control_url, (&made->Ok_0,), url),
    ensures
        r <==> made is Ok && server.ip@ == made->Ok_0.host@ && server.port == 40000 && trim(
            control@,
        ) == url@,
{
}

// ---------------------------------------------------------------------------
// Fields that are kept
// ---------------------------------------------------------------------------

/// Advanced fields stay advanced and keep what they say, without white space around it;
/// nothing is looked up for them.
pub proof fn advanced_fields_keep_what_they_say(
    config: &mut ClientEndpointOverrides,
    lookup: Option<ClientServerEndpoint>,
)
    requires
        call_ensures(normalize_endpoint_overrides, (config,), lookup),
    ensures
        old(config).advanced_endpoints ==> {
            &&& final(config).advanced_endpoints
            &&& lookup is None
            &&& final(config).server.ip@ == old(config).server.ip@ && final(config).server.port
                == old(config).server.port
            &&& final(config).control@ == trim(old(config).control@)
            &&& final(config).admin is Some <==> old(config).admin is Some && !all_space(
                old(config).admin->Some_0@,
            )
            &&& final(config).admin is Some ==> final(config).admin->Some_0@ == trim(
                old(config).admin->Some_0@,
            )
            &&& plain_host(trim(old(config).server_host@)) ==> final(config).server_host@ == trim(
                old(config).server_host@,
            )
        },
{
    if old(config).admin is Some {
        lemma_blank(old(config).admin->Some_0@);
    }
    let h = trim(old(config).server_host@);
    lemma_blank(old(config).server_host@);
    if plain_host(h) {
        lemma_plain_host(h);
    }
    assert(final(config)@.server.0 == final(config).server.ip@);
    assert(final(config)@.server.1 == final(config).server.port);
    assert(crate::endpoint::opt_text(final(config).admin) == final(config)@.admin);
}

/// Fields that are not advanced afterwards follow from their host, which is looked up.
pub proof fn simple_fields_follow_from_the_host(
    config: &mut ClientEndpointOverrides,
    lookup: Option<ClientServerEndpoint>,
    made: Result<ClientServerEndpoint, EndpointError>,
    host: &str,
    url: String,
)
    requires
        call_ensures(normalize_endpoint_overrides, (config,), lookup),
        host@ == final(config).server_host@,
        call_ensures(ClientServerEndpoint::new, (host,), made),
        made is Ok ==> call_ensures(ClientServerEndpoint::control_url, (&made->Ok_0,), url),
    ensures
        !final(config).advanced_endpoints && made is Ok ==> {
            &&& final(config).control@ == url@
            &&& final(config).admin is None
            &&& lookup is Some && lookup->Some_0.host@ == made->Ok_0.host@
        },
        final(config).advanced_endpoints || made is Err ==> lookup is None,
{
    assert(final(config)@.server_host == host@);
}

/// A host that is named, and is not the local one, stays.
pub proof fn named_hosts_stay(
    config: &mut ClientEndpointOverrides,
    lookup: Option<ClientServerEndpoint>,
)
    requires
        call_ensures(normalize_endpoint_overrides, (config,), lookup),
        plain_host(trim(old(config).server_host@)),
        trim(old(config).server_host@) != "127.0.0.1"@,
    ensures
        final(config).server_host@ == trim(old(config).server_host@),
{
    lemma_plain_host(trim(old(config).server_host@));
    lemma_blank(old(config).server_host@);
    assert(final(config)@.server_host == final(config).server_host@);
}

/// Where no host is named, it is the one on which server, control and administration
/// agree, and else the local one.
pub proof fn unnamed_hosts_are_derived(
    config: &mut ClientEndpointOverrides,
    lookup: Option<ClientServerEndpoint>,
    control: &str,
    agreed: Option<String>,
)
    requires
        call_ensures(normalize_endpoint_overrides, (config,), lookup),
        all_space(old(config).server_host@),
        old(config).admin is None,
        control@ == trim(old(config).control@),
        call_ensures(derive_server_host, (&old(config).server, Some(control), None::<&str>), agreed),
    ensures
        agreed is Some && plain_host(agreed->Some_0@) ==> final(config).server_host@
            == agreed->Some_0@,
        agreed is None ==> final(config).server_host@ == "127.0.0.1"@,
{
    lemma_blank(old(config).server_host@);
    assert(final(config)@.server_host == final(config).server_host@);
    if agreed is Some && plain_host(agreed->Some_0@) {
        lemma_plain_host(agreed->Some_0@);
    }
    if agreed is None {
        lemma_local();
    }
}

proof fn lemma_local()
    ensures
        plain_host("127.0.0.1"@),
        crate::endpoint::checked_host("127.0.0.1"@) == Ok::<Seq<char>, EndpointError>(
            "127.0.0.1"@,
        ),
{
    reveal_strlit("127.0.0.1");
    let h = "127.0.0.1"@;
    assert forall|i: int| 0 <= i < h.len() implies !is_space(#[trigger] h[i]) && h[i] != '/' && h[i]
        != '?' && h[i] != '#' && h[i] != '@' && h[i] != ':' && h[i] != '[' && h[i] != ']' by {}
    lemma_plain_host(h);
}

/// Server, control and administration in effect are those of the fields where these are
/// advanced, and those of the host where they are not.
pub proof fn fields_decide_what_is_in_effect(
    f: ClientEndpointOverrides,
    server: Result<ServerTarget, EndpointError>,
    control: Result<String, EndpointError>,
    admin: Result<String, EndpointError>,
    host: &str,
    made: Result<ClientServerEndpoint, EndpointError>,
    control_url: String,
    admin_url: String,
    given: &str,
    checked: Result<(), EndpointError>,
    derived: Option<String>,
)
    requires
        call_ensures(ClientEndpointOverrides::effective_server, (&f,), server),
        call_ensures(ClientEndpointOverrides::effective_control, (&f,), control),
        call_ensures(ClientEndpointOverrides::effective_admin, (&f,), admin),
        host@ == f.server_host@,
        call_ensures(ClientServerEndpoint::new, (host,), made),
        made is Ok ==> call_ensures(ClientServerEndpoint::control_url, (&made->Ok_0,), control_url),
        made is Ok ==> call_ensures(ClientServerEndpoint::admin_url, (&made->Ok_0,), admin_url),
        given@ == f.control@,
        call_ensures(validate_control_url, (given,), checked),
        call_ensures(derive_admin_url_from_control, (given,), derived),
    ensures
        f.advanced_endpoints ==> {
            &&& server matches Ok(ServerTarget::Address(a)) && a.ip@ == f.server.ip@ && a.port
                == f.server.port
            &&& control is Ok <==> checked is Ok
            &&& control is Ok ==> control->Ok_0@ == f.control@
            &&& f.admin is Some && !all_space(f.admin->Some_0@) ==> admin is Ok && admin->Ok_0@
                == trim(f.admin->Some_0@)
            &&& f.admin is None || all_space(f.admin->Some_0@) ==> (admin is Ok <==> derived is Some)
                && (admin is Ok ==> admin->Ok_0@ == derived->Some_0@)
        },
        !f.advanced_endpoints && made is Ok ==> {
            &&& server matches Ok(ServerTarget::Lookup(h, p)) && h@ == made->Ok_0.host@ && p == 40000
            &&& control is Ok && control->Ok_0@ == control_url@
            &&& admin is Ok && admin->Ok_0@ == admin_url@
        },
        !f.advanced_endpoints && made is Err ==> server is Err && control is Err && admin is Err,
{
    if f.admin is Some {
        lemma_blank(f.admin->Some_0@);
    }
}

/// Fields are valid where their host is and, for advanced ones, the URLs are.
pub proof fn valid_fields_have_valid_parts(
    f: ClientEndpointOverrides,
    r: Result<(), EndpointError>,
    host: &str,
    h: Result<String, EndpointError>,
    control: &str,
    c: Result<(), EndpointError>,
    admin: &str,
    a: Result<(), EndpointError>,
)
    requires
        call_ensures(ClientEndpointOverrides::validate, (&f,), r),
        host@ == f.server_host@ && control@ == f.control@,
        f.admin is Some ==> admin@ == f.admin->Some_0@,
        call_ensures(validate_server_host, (host,), h),
        call_ensures(validate_control_url, (control,), c),
        call_ensures(validate_http_url, (admin,), a),
    ensures
        r is Ok <==> h is Ok && (f.advanced_endpoints ==> c is Ok && (f.admin is Some && !all_space(
            admin@,
        ) ==> a is Ok)),
{
    lemma_blank(admin@);
}

/// An address that was found takes the place of the server, and nothing else changes.
pub proof fn found_servers_are_taken(
    f: &mut ClientEndpointOverrides,
    found: Option<SocketAddress>,
)
    requires
        call_ensures(ClientEndpointOverrides::set_resolved_server, (f, found), ()),
    ensures
        found is Some ==> final(f).server.ip@ == found->Some_0.ip@ && final(f).server.port
            == found->Some_0.port,
        found is None ==> final(f).server.ip@ == old(f).server.ip@ && final(f).server.port
            == old(f).server.port,
        final(f).server_host@ == old(f).server_host@ && final(f).control@ == old(f).control@
            && final(f).advanced_endpoints == old(f).advanced_endpoints,
{
    assert(final(f)@.server.0 == final(f).server.ip@ && final(f)@.server.1 == final(f).server.port);
    assert(final(f)@.server_host == final(f).server_host@);
    assert(final(f)@.control == final(f).control@);
    assert(final(f)@.advanced == final(f).advanced_endpoints);
}

/// The default endpoints of a host are its address that was found and its control URL;
/// an administration that is not advanced is dropped. Where there is no such address
/// nothing changes.
pub proof fn default_endpoints_follow_the_host(
    f: &mut ClientEndpointOverrides,
    found: HostLookup,
    r: Result<(), EndpointError>,
    host: &str,
    made: Result<ClientServerEndpoint, EndpointError>,
    url: String,
)
    requires
        call_ensures(ClientEndpointOverrides::sync_default_endpoints, (f, found), r),
        host@ == old(f).server_host@,
        call_ensures(ClientServerEndpoint::new, (host,), made),
        made is Ok ==> call_ensures(ClientServerEndpoint::control_url, (&made->Ok_0,), url),
    ensures
        r is Ok <==> made is Ok && found is Found,
        r is Ok ==> (found matches HostLookup::Found(at) && final(f).server.ip@ == at.ip@ && final(f).server.port == at.port) && final(f).control@ == url@ && final(f).server_host@
            == old(f).server_host@ && final(f).advanced_endpoints == old(f).advanced_endpoints,
        r is Ok && !old(f).advanced_endpoints ==> final(f).admin is None,
        r is Ok && old(f).advanced_endpoints ==> final(f)@.admin == old(f)@.admin,
        r is Err ==> final(f)@ == old(f)@,
        made is Err ==> r is Err && r->Err_0 == made->Err_0,
{
    assert(final(f)@.server.0 == final(f).server.ip@ && final(f)@.server.1 == final(f).server.port);
    assert(final(f)@.server_host == final(f).server_host@);
    assert(final(f)@.control == final(f).control@);
    assert(final(f)@.advanced == final(f).advanced_endpoints);
    assert(final(f)@.admin == crate::endpoint::opt_text(final(f).admin));
}

/// A host is looked up at the audio port; what a lookup gives is its address.
pub proof fn hosts_are_looked_up_at_the_audio_port(
    host: &str,
    r: Result<(String, u16), EndpointError>,
    v: Result<String, EndpointError>,
    found: HostLookup,
    at: Option<SocketAddress>,
    name: String,
    address: Result<SocketAddress, EndpointError>,
)
    requires
        call_ensures(crate::endpoint::audio_lookup, (host,), r),
        call_ensures(validate_server_host, (host,), v),
        call_ensures(HostLookup::found, (found,), at),
        call_ensures(HostLookup::address, (found, name), address),
    ensures
        r is Ok <==> v is Ok,
        r is Ok ==> r->Ok_0.0@ == v->Ok_0@ && r->Ok_0.1 == 40000,
        r is Err ==> r->Err_0 == v->Err_0,
        at is Some <==> found is Found,
        found matches HostLookup::Found(a) ==> at->Some_0.ip@ == a.ip@ && at->Some_0.port == a.port
            && address == Ok::<SocketAddress, EndpointError>(a),
        found is Failed ==> (address matches Err(EndpointError::LookupFailed(h)) && h@ == name@),
        found is Empty ==> (address matches Err(EndpointError::Unresolved(h)) && h@ == name@),
{
    if at is Some {
        assert(at->Some_0.parts().0 == at->Some_0.ip@);
        assert(at->Some_0.parts().1 == at->Some_0.port);
    }
}

/// What is wrong with an endpoint is said, with the host where it is about one.
pub proof fn faults_of_endpoints_are_said(e: EndpointError, r: String)
    requires
        call_ensures(EndpointError::message, (&e,), r),
    ensures
        e is HostEmpty ==> r@ == "server host cannot be empty"@,
        e is HostScheme ==> r@ == "server host must not include a scheme"@,
        e is HostPort ==> r@ == "server host must not include a port; use Advanced endpoints"@,
        e is HostWhitespace ==> r@ == "server host must not contain whitespace"@,
        e matches EndpointError::LookupFailed(h) ==> r@ == "resolve server host `"@ + h@ + "`"@,
        e matches EndpointError::Unresolved(h) ==> r@ == "server host `"@ + h@
            + "` did not resolve"@,
        e is ControlEmpty ==> r@ == "control URL cannot be empty"@,
        e is ControlScheme ==> r@ == "control URL must start with ws:// or wss://"@,
        e is UrlEmpty ==> r@ == "URL cannot be empty"@,
        e is UrlScheme ==> r@ == "URL must start with http:// or https://"@,
        e is AdminNotDerivable ==> r@ == "admin URL is empty and control URL is not derivable"@,
{
}

} // verus!
