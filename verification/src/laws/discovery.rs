//! Finding servers on the network.

use vstd::prelude::*;

use crate::discovery::{
    announced_names, browse_instance_names, decode_dns_sd_txt, first_ipv4, first_reached, lines,
    parse_resolved_profile, record, resolve_host_ip, resolved_place, split_lines, txt_record,
    unescaped,
};
use crate::laws::endpoint::plain_host;
use crate::laws::text::{all_space, lemma_blank, lemma_join_split};
use crate::laws::web::lemma_part_from;
use crate::net::is_ipv4_text;
use crate::profiles::{mobile_profile_id, MobileServerProfile};
use crate::text::{
    all_digits, decimal, decimal_round_trip, digits_value, has_part, has_prefix, index_from,
    is_digit, join, last_index, lemma_index_from, lemma_last_index, lemma_trim_keeps, occurs_at,
    texts, trim, words,
};
use crate::web::part_from;

verus! {

/// A text is parted at its line ends, which are no part of the lines; nothing follows
/// the last line end where nothing stands behind it.
pub proof fn texts_are_parted_into_lines(
    s: &str,
    r: Vec<String>,
    parts: Seq<Seq<char>>,
    i: int,
)
    requires
        call_ensures(split_lines, (s,), r),
        parts.len() > 0,
        forall|k: int| 0 <= k < parts.len() ==> !(#[trigger] parts[k]).contains('\n'),
        s@ == join(parts, seq!['\n']),
    ensures
        parts.last().len() == 0 ==> r@.len() == parts.len() - 1,
        parts.last().len() > 0 ==> r@.len() == parts.len() && r@.last()@ == parts.last(),
        0 <= i < parts.len() - 1 && (parts[i].len() == 0 || parts[i].last() != '\r') ==> r@[i]@
            == parts[i],
        0 <= i < parts.len() - 1 && parts[i].len() > 0 && parts[i].last() == '\r' ==> r@[i]@
            == parts[i].drop_last(),
{
    lemma_join_split(parts, '\n');
    let t = texts(r@);
    assert(t == lines(s@));
    assert(t.len() == r@.len());
    if parts.last().len() > 0 {
        assert(t[r@.len() - 1] == r@.last()@);
    }
    if 0 <= i < parts.len() - 1 {
        assert(t[i] == r@[i]@);
    }
}

proof fn lemma_part_at(s: Seq<char>, head: Seq<char>, p: Seq<char>, rest: Seq<char>)
    requires
        p.len() > 0,
        s == head + p + rest,
        forall|j: int| 0 <= j < head.len() ==> !#[trigger] occurs_at(s, p, j),
    ensures
        part_from(s, p, 0) == head.len(),
        s.skip((head.len() + p.len()) as int) == rest,
        s.take(head.len() as int) == head,
        has_part(s, p),
{
    let n = head.len() as int;
    assert(s.subrange(n, n + p.len()) =~= p);
    assert(occurs_at(s, p, n));
    lemma_part_from(s, p, 0);
    let k = part_from(s, p, 0);
    if k < n {
        assert(occurs_at(s, p, k));
    }
    assert(s.skip((head.len() + p.len()) as int) =~= rest);
    assert(s.take(n) =~= head);
}

proof fn lemma_announced(s: Seq<Seq<char>>, i: int, name: Seq<char>)
    requires
        0 <= i < s.len(),
        crate::discovery::announced(s[i]) == Some(name),
    ensures
        announced_names(s).contains(name),
    decreases s.len(),
{
    let t = s.drop_last();
    let r = announced_names(s);
    if i < t.len() {
        lemma_announced(t, i, name);
        let a = announced_names(t);
        let k = choose|k: int| 0 <= k < a.len() && a[k] == name;
        assert(r[k] == name);
    } else {
        assert(r[r.len() - 1] == name);
    }
}

proof fn lemma_all_announced(s: Seq<Seq<char>>, x: Seq<char>)
    requires
        announced_names(s).contains(x),
    ensures
        exists|i: int|
            0 <= i < s.len() && has_part(#[trigger] s[i], " Add "@) && has_part(
                s[i],
                "_intercom-suite._tcp."@,
            ),
    decreases s.len(),
{
    if s.len() > 0 {
        let t = s.drop_last();
        let r = announced_names(s);
        let k = choose|k: int| 0 <= k < r.len() && r[k] == x;
        if k < announced_names(t).len() {
            assert(announced_names(t)[k] == x);
            lemma_all_announced(t, x);
            let i = choose|i: int|
                0 <= i < t.len() && has_part(#[trigger] t[i], " Add "@) && has_part(
                    t[i],
                    "_intercom-suite._tcp."@,
                );
            assert(s[i] == t[i]);
        } else {
            let l = s[s.len() - 1];
            lemma_part_from(l, "_intercom-suite._tcp."@, 0);
            assert(occurs_at(
                l,
                "_intercom-suite._tcp."@,
                part_from(l, "_intercom-suite._tcp."@, 0),
            ));
        }
    }
}

/// A server that a line announces is among the names, by what stands behind the name of
/// the service.
pub proof fn announced_servers_are_named(
    output: &str,
    r: Vec<String>,
    by_line: Vec<String>,
    i: int,
    head: Seq<char>,
    name: Seq<char>,
)
    requires
        call_ensures(browse_instance_names, (output,), r),
        call_ensures(split_lines, (output,), by_line),
        0 <= i < by_line@.len(),
        by_line@[i]@ == head + "_intercom-suite._tcp."@ + name,
        forall|j: int|
            0 <= j < head.len() ==> !#[trigger] occurs_at(
                by_line@[i]@,
                "_intercom-suite._tcp."@,
                j,
            ),
        has_part(by_line@[i]@, " Add "@),
        !all_space(name),
    ensures
        texts(r@).contains(trim(name)),
{
    reveal_strlit("_intercom-suite._tcp.");
    let s = lines(output@);
    assert(s[i] == by_line@[i]@);
    lemma_part_at(s[i], head, "_intercom-suite._tcp."@, name);
    lemma_announced(s, i, trim(name));
    lemma_blank(name);
    crate::text::trim_is_idempotent(name);
    lemma_blank(trim(name));
    crate::laws::bridge_app::lemma_offered(announced_names(s), trim(name));
}

/// Only announced servers are named, in order and each once.
pub proof fn only_announced_servers_are_named(
    output: &str,
    r: Vec<String>,
    by_line: Vec<String>,
    i: int,
    j: int,
)
    requires
        call_ensures(browse_instance_names, (output,), r),
        call_ensures(split_lines, (output,), by_line),
    ensures
        r@.len() > 0 ==> exists|k: int|
            0 <= k < by_line@.len() && has_part((#[trigger] by_line@[k])@, " Add "@) && has_part(
                by_line@[k]@,
                "_intercom-suite._tcp."@,
            ),
        0 <= i < j < r@.len() ==> crate::text::text_before(r@[i]@, r@[j]@),
{
    let s = lines(output@);
    assert(texts(r@).len() == r@.len());
    if r@.len() > 0 {
        let x = texts(r@)[0];
        assert(texts(r@).contains(x));
        crate::laws::bridge_app::lemma_offered(announced_names(s), x);
        lemma_all_announced(s, x);
        let k = choose|k: int|
            0 <= k < s.len() && has_part(#[trigger] s[k], " Add "@) && has_part(
                s[k],
                "_intercom-suite._tcp."@,
            );
        assert(texts(by_line@)[k] == by_line@[k]@);
        assert(texts(by_line@).len() == by_line@.len());
        assert(has_part(by_line@[k]@, " Add "@));
    }
    if 0 <= i < j < r@.len() {
        crate::bridge_app::offered_names_are_in_order(announced_names(s), i, j);
        assert(texts(r@)[i] == r@[i]@ && texts(r@)[j] == r@[j]@);
    }
}

// ---------------------------------------------------------------------------
// Records
// ---------------------------------------------------------------------------

/// A backslash and three digits stand for the character with that number; every other
/// character stands for itself.
pub proof fn records_are_unescaped(
    rest: &str,
    plain: &str,
    escaped: &str,
    c: char,
    digits: Seq<char>,
    r: String,
    p: String,
    e: String,
)
    requires
        call_ensures(decode_dns_sd_txt, (rest,), r),
        call_ensures(decode_dns_sd_txt, (plain,), p),
        call_ensures(decode_dns_sd_txt, (escaped,), e),
        plain@ == seq![c] + rest@,
        digits.len() == 3 && all_digits(digits) && digits_value(digits) <= 255,
        escaped@ == seq!['\\'] + digits + rest@,
    ensures
        c != '\\' ==> p@ == seq![c] + r@,
        e@ == seq![(digits_value(digits) as char)] + r@,
        rest@.len() == 0 ==> r@.len() == 0,
{
    assert(plain@.skip(1) =~= rest@);
    assert(escaped@.skip(4) =~= rest@);
    assert(escaped@.subrange(1, 4) =~= digits);
    assert(crate::text::unsigned_part(digits) == digits) by {
        assert(is_digit(digits[0]));
    }
}

proof fn lemma_entry(key: Seq<char>, value: Seq<char>)
    requires
        !key.contains('='),
    ensures
        crate::routing::split_entry(key + seq!['='] + value) == Some((key, value)),
{
    let w = key + seq!['='] + value;
    let n = key.len() as int;
    assert(w[n] == '=');
    lemma_index_from(w, '=', 0);
    let k = index_from(w, '=', 0);
    if k < n {
        assert(key[k] == w[k]);
    }
    assert(w.take(n) =~= key);
    assert(w.skip(n + 1) =~= value);
}

proof fn lemma_not_entry(w: Seq<char>, key: Seq<char>)
    requires
        !has_prefix(w, key + seq!['=']),
    ensures
        crate::routing::split_entry(w) matches Some((k, v)) ==> k != key,
{
    lemma_index_from(w, '=', 0);
    let k = index_from(w, '=', 0);
    if k < w.len() && w.take(k) == key {
        assert(w.take(k + 1) =~= key + seq!['=']);
    }
}

proof fn lemma_record(s: Seq<Seq<char>>, key: Seq<char>, n: int, i: int)
    requires
        0 <= i < n <= s.len(),
        crate::routing::split_entry(s[i]) is Some,
        crate::routing::split_entry(s[i])->Some_0.0 == key,
        forall|j: int| i < j < n ==> !has_prefix(#[trigger] s[j], key + seq!['=']),
    ensures
        record(s, key, n) == Some(unescaped(crate::routing::split_entry(s[i])->Some_0.1)),
    decreases n,
{
    if i < n - 1 {
        lemma_not_entry(s[n - 1], key);
        lemma_record(s, key, n - 1, i);
    }
}

proof fn lemma_no_record(s: Seq<Seq<char>>, key: Seq<char>, n: int)
    requires
        0 <= n <= s.len(),
        forall|j: int| 0 <= j < n ==> !has_prefix(#[trigger] s[j], key + seq!['=']),
    ensures
        record(s, key, n) is None,
    decreases n,
{
    if n > 0 {
        lemma_not_entry(s[n - 1], key);
        lemma_no_record(s, key, n - 1);
    }
}

/// A record is the value of the last word with its key, unescaped; without such a word
/// there is none.
pub proof fn the_last_record_counts(
    output: &str,
    key: &str,
    r: Option<String>,
    i: int,
    value: &str,
    plain: String,
)
    requires
        call_ensures(txt_record, (output, key), r),
        !key@.contains('='),
        call_ensures(decode_dns_sd_txt, (value,), plain),
    ensures
        0 <= i < words(output@).len() && words(output@)[i] == key@ + seq!['='] + value@ && (
        forall|j: int|
            i < j < words(output@).len() ==> !has_prefix(
                #[trigger] words(output@)[j],
                key@ + seq!['='],
            )) ==> r is Some && r->Some_0@ == plain@,
        (forall|j: int|
            0 <= j < words(output@).len() ==> !has_prefix(
                #[trigger] words(output@)[j],
                key@ + seq!['='],
            )) ==> r is None,
{
    let s = words(output@);
    if 0 <= i < s.len() && s[i] == key@ + seq!['='] + value@ && (forall|j: int|
        i < j < s.len() ==> !has_prefix(#[trigger] s[j], key@ + seq!['='])) {
        lemma_entry(key@, value@);
        lemma_record(s, key@, s.len() as int, i);
    }
    if forall|j: int| 0 <= j < s.len() ==> !has_prefix(#[trigger] s[j], key@ + seq!['=']) {
        lemma_no_record(s, key@, s.len() as int);
    }
}

// ---------------------------------------------------------------------------
// Places
// ---------------------------------------------------------------------------

proof fn lemma_first_reached(s: Seq<Seq<char>>, i: int, k: int)
    requires
        0 <= i <= k < s.len(),
        crate::discovery::reached(s[k]) is Some,
        forall|j: int| i <= j < k ==> !has_part(#[trigger] s[j], " can be reached at "@),
    ensures
        first_reached(s, i) == crate::discovery::reached(s[k]),
    decreases k - i,
{
    if i < k {
        lemma_part_from(s[i], " can be reached at "@, 0);
        if part_from(s[i], " can be reached at "@, 0) < s[i].len() {
            assert(occurs_at(
                s[i],
                " can be reached at "@,
                part_from(s[i], " can be reached at "@, 0),
            ));
        }
        lemma_first_reached(s, i + 1, k);
    }
}

/// The target of a line: a host name, with or without the dot at its end, and a port.
spec fn target(host: Seq<char>, dot: bool, port: u16) -> Seq<char> {
    if dot {
        host + "."@ + ":"@ + decimal(port as nat)
    } else {
        host + ":"@ + decimal(port as nat)
    }
}

proof fn lemma_target(host: Seq<char>, dot: bool, port: u16)
    requires
        plain_host(host),
        host.last() != '.',
    ensures
        ({
            let t = target(host, dot, port);
            let k = last_index(t, ':', t.len() as int);
            &&& t.len() > 0
            &&& trim(t) == t
            &&& crate::web::without_trailing(t, '.') == t
            &&& k >= 0
            &&& crate::web::without_trailing(t.take(k), '.') == host
            &&& crate::text::parse_unsigned(t.skip(k + 1), u16::MAX as nat) == Some(port as nat)
            &&& forall|i: int| 0 <= i < t.len() ==> #[trigger] t[i] != ' '
        }),
{
    reveal_strlit(".");
    reveal_strlit(":");
    let t = target(host, dot, port);
    let d = decimal(port as nat);
    let h = if dot {
        host + "."@
    } else {
        host
    };
    decimal_round_trip(port as nat, u16::MAX as nat);
    let n = h.len() as int;
    assert(t =~= h + ":"@ + d);
    assert(is_digit(d[d.len() - 1]));
    assert(t.last() == d[d.len() - 1]);
    assert(t[0] == host[0]);
    assert(!crate::text::is_space(host[0]));
    lemma_trim_keeps(t);
    assert(t[n] == ':');
    lemma_last_index(t, ':', t.len() as int);
    let k = last_index(t, ':', t.len() as int);
    if k > n {
        assert(t[k] == d[k - n - 1]);
        assert(is_digit(d[k - n - 1]));
    }
    assert(k == n);
    assert(t.take(n) =~= h);
    assert(t.skip(n + 1) =~= d);
    if dot {
        assert(h.drop_last() =~= host);
        assert(h.last() == '.');
    }
    assert(crate::web::without_trailing(host, '.') == host);
    assert forall|i: int| 0 <= i < t.len() implies #[trigger] t[i] != ' ' by {
        if i < host.len() {
            assert(t[i] == host[i]);
            assert(!crate::text::is_space(host[i]));
        } else if i > n {
            assert(t[i] == d[i - n - 1]);
            assert(is_digit(d[i - n - 1]));
        }
    }
}

/// The usual address of a host is its first one of version four, else its first, else
/// the host itself.
pub proof fn version_four_comes_first(
    host: &str,
    ips: Vec<String>,
    r: String,
    k: int,
    fours: Seq<bool>,
    given: Seq<&str>,
)
    requires
        call_ensures(resolve_host_ip, (host, &ips), r),
        fours.len() == ips@.len() && given.len() == ips@.len(),
        forall|i: int|
            0 <= i < ips@.len() ==> (#[trigger] given[i])@ == ips@[i]@ && call_ensures(
                is_ipv4_text,
                (given[i],),
                fours[i],
            ),
    ensures
        0 <= k < ips@.len() && fours[k] && (forall|j: int| 0 <= j < k ==> !#[trigger] fours[j])
            ==> r@ == ips@[k]@,
        ips@.len() > 0 && (forall|j: int| 0 <= j < ips@.len() ==> !#[trigger] fours[j]) ==> r@
            == ips@[0]@,
        ips@.len() == 0 ==> r@ == host@,
{
    let s = texts(ips@);
    assert(s.len() == ips@.len());
    assert forall|i: int| 0 <= i < s.len() implies crate::net::ipv4_text(#[trigger] s[i])
        == fours[i] by {
        assert(given[i]@ == ips@[i]@);
    }
    lemma_first_ipv4(s, 0);
    let n = first_ipv4(s, 0);
    if 0 <= k < ips@.len() && fours[k] && (forall|j: int| 0 <= j < k ==> !#[trigger] fours[j]) {
        if n < k {
            assert(!fours[n]);
            assert(crate::net::ipv4_text(s[n]));
        }
        if k < n {
            assert(!crate::net::ipv4_text(s[k]));
        }
        assert(n == k);
    }
    if forall|j: int| 0 <= j < ips@.len() ==> !#[trigger] fours[j] {
        if n < s.len() {
            assert(!fours[n]);
            assert(crate::net::ipv4_text(s[n]));
        }
    }
}

proof fn lemma_first_ipv4(s: Seq<Seq<char>>, i: int)
    requires
        0 <= i <= s.len(),
    ensures
        i <= first_ipv4(s, i) <= s.len(),
        first_ipv4(s, i) < s.len() ==> crate::net::ipv4_text(s[first_ipv4(s, i)]),
        forall|j: int| i <= j < first_ipv4(s, i) ==> !crate::net::ipv4_text(#[trigger] s[j]),
    decreases s.len() - i,
{
    if i < s.len() && !crate::net::ipv4_text(s[i]) {
        lemma_first_ipv4(s, i + 1);
    }
}

/// A server that was found has its name, its ports and its facts from its records: the
/// audio port is that of the record or else the control port, and the administration is
/// known where its port is.
pub proof fn found_servers_have_what_their_records_say(
    instance: &str,
    output: &str,
    ip: &str,
    control_port: u16,
    r: MobileServerProfile,
    keys: (&str, &str, &str, &str, &str),
    name: Option<String>,
    audio: Option<String>,
    admin: Option<String>,
    auth: Option<String>,
    version: Option<String>,
    audio_port: u16,
    admin_port: u16,
    named: &str,
    control: &str,
    id: String,
)
    requires
        call_ensures(parse_resolved_profile, (instance, output, ip, control_port), r),
        keys.0@ == "name"@ && keys.1@ == "audio_port"@ && keys.2@ == "admin_port"@ && keys.3@
            == "auth"@ && keys.4@ == "version"@,
        call_ensures(txt_record, (output, keys.0), name),
        call_ensures(txt_record, (output, keys.1), audio),
        call_ensures(txt_record, (output, keys.2), admin),
        call_ensures(txt_record, (output, keys.3), auth),
        call_ensures(txt_record, (output, keys.4), version),
        named@ == r.name@ && control@ == r.control@,
        call_ensures(mobile_profile_id, (named, control), id),
    ensures
        name is Some && !all_space(name->Some_0@) ==> r.name@ == name->Some_0@,
        name is None || all_space(name->Some_0@) ==> r.name@ == instance@,
        !ip@.contains(':') ==> r.control@ == "ws://"@ + ip@ + ":"@ + decimal(control_port as nat),
        ip@.contains(':') ==> r.control@ == "ws://"@ + ("["@ + ip@ + "]"@) + ":"@ + decimal(
            control_port as nat,
        ),
        audio is Some && audio->Some_0@ == decimal(audio_port as nat) ==> r.server@ == ip@ + ":"@
            + decimal(audio_port as nat),
        audio is None ==> r.server@ == ip@ + ":"@ + decimal(control_port as nat),
        admin is Some && admin->Some_0@ == decimal(admin_port as nat) && !ip@.contains(':')
            ==> r.admin is Some && r.admin->Some_0@ == "http://"@ + ip@ + ":"@ + decimal(
            admin_port as nat,
        ),
        admin is None ==> r.admin is None,
        r.auth is Some <==> auth is Some,
        auth is Some ==> r.auth->Some_0@ == auth->Some_0@,
        r.version is Some <==> version is Some,
        version is Some ==> r.version->Some_0@ == version->Some_0@,
        r.id@ == id@ && r.discovered && r.last_connected_ms is None && r.server_host@.len() == 0,
{
    assert(r@.name == r.name@ && r@.control == r.control@ && r@.server == r.server@ && r@.id
        == r.id@ && r@.server_host == r.server_host@);
    assert(r@.admin == crate::endpoint::opt_text(r.admin) && r@.auth == crate::endpoint::opt_text(
        r.auth,
    ) && r@.version == crate::endpoint::opt_text(r.version));
    if name is Some {
        lemma_blank(name->Some_0@);
    }
    decimal_round_trip(audio_port as nat, u16::MAX as nat);
    decimal_round_trip(admin_port as nat, u16::MAX as nat);
}

/// The place of a server is the host and the port of the first line that tells it,
/// without the dot behind the host.
pub proof fn places_are_read_from_the_first_line_that_tells(
    output: &str,
    r: Option<(String, u16)>,
    by_line: Vec<String>,
    k: int,
    head: Seq<char>,
    host: Seq<char>,
    dot: bool,
    port: u16,
    more: Seq<char>,
)
    requires
        call_ensures(resolved_place, (output,), r),
        call_ensures(split_lines, (output,), by_line),
        0 <= k < by_line@.len(),
        plain_host(host) && host.last() != '.',
        dot ==> by_line@[k]@ == head + " can be reached at "@ + (host + "."@ + ":"@ + decimal(
            port as nat,
        ) + " ("@ + more),
        !dot ==> by_line@[k]@ == head + " can be reached at "@ + (host + ":"@ + decimal(port as nat)
            + " ("@ + more),
        forall|j: int|
            0 <= j < head.len() ==> !#[trigger] occurs_at(
                by_line@[k]@,
                " can be reached at "@,
                j,
            ),
        forall|j: int|
            0 <= j < k ==> !has_part((#[trigger] by_line@[j])@, " can be reached at "@),
    ensures
        r is Some,
        r->Some_0.0@ == host,
        r->Some_0.1 == port,
{
    reveal_strlit(" can be reached at ");
    reveal_strlit(" (");
    let s = lines(output@);
    assert(texts(by_line@).len() == by_line@.len());
    assert forall|j: int| 0 <= j < s.len() implies #[trigger] s[j] == by_line@[j]@ by {
        assert(texts(by_line@)[j] == by_line@[j]@);
    }
    let t = target(host, dot, port);
    let rest = t + " ("@ + more;
    lemma_part_at(s[k], head, " can be reached at "@, rest);
    lemma_target(host, dot, port);
    assert forall|j: int| 0 <= j < t.len() implies !#[trigger] occurs_at(rest, " ("@, j) by {
        if occurs_at(rest, " ("@, j) {
            assert(rest.subrange(j, j + 2)[0] == rest[j]);
            assert(rest[j] == t[j]);
        }
    }
    lemma_part_at(rest, t, " ("@, more);
    assert forall|j: int| 0 <= j < k implies !has_part(#[trigger] s[j], " can be reached at "@) by {
        assert(!has_part(by_line@[j]@, " can be reached at "@));
    }
    lemma_first_reached(s, 0, k);
}

} // verus!
