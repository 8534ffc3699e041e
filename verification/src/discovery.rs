//! Servers that announce themselves on the network, as `dns-sd` lists them.

use vstd::prelude::*;

use crate::bridge_app::{offered_names, sorted_names};
use crate::endpoint::opt_text;
use crate::net::{ipv4_text, is_ipv4_text};
use crate::profiles::{mobile_profile_id, profile_id, MobileServerProfile, ServerProfile};
use crate::routing::{split_at_equals, split_entry};
use crate::text::{
    blank, chars_of, concat3, concat4, contains_char, contains_part, decimal, find_last, has_part,
    is_blank, last_index, matches_at, occurs_at, owned, parse_u16, parse_u64, parse_unsigned, same,
    split, split_text, split_words, string_of, texts, trim, trimmed, u64_text, words,
};
use crate::web::{part_from, trim_end_char, without_trailing};

verus! {

/// A line without the carriage return at its end.
pub open spec fn without_return(s: Seq<char>) -> Seq<char> {
    if s.len() > 0 && s.last() == '\r' {
        s.drop_last()
    } else {
        s
    }
}

/// The lines of a text. A line that no line end closes counts where it is not
/// empty.
pub open spec fn lines(s: Seq<char>) -> Seq<Seq<char>> {
    let parts = split(s, '\n');
    let closed = parts.drop_last().map_values(|p: Seq<char>| without_return(p));
    if parts.len() > 0 && parts.last().len() > 0 {
        closed.push(parts.last())
    } else {
        closed
    }
}

fn drop_return(s: &str) -> (r: String)
    ensures
        r@ == without_return(s@),
{
    let v = chars_of(s);
    let n = v.len();
    if n > 0 && v[n - 1] == '\r' {
        proof {
            assert(v@.subrange(0, n - 1) =~= v@.drop_last());
        }
        string_of(&v, 0, n - 1)
    } else {
        owned(s)
    }
}

/// Splits a text into lines.
pub fn split_lines(s: &str) -> (r: Vec<String>)
    ensures
        texts(r@) == lines(s@),
{
    let parts = split_text(s, '\n');
    let ghost all = texts(parts@);
    let n = parts.len();
    let mut out: Vec<String> = Vec::new();
    if n == 0 {
        proof {
            assert(texts(out@) =~= lines(s@));
        }
        return out;
    }
    let mut i: usize = 0;
    while i < n - 1
        invariant
            n == parts@.len(),
            all == texts(parts@),
            n > 0,
            0 <= i <= n - 1,
            out@.len() == i,
            forall|k: int| 0 <= k < i ==> (#[trigger] out@[k])@ == without_return(all[k]),
        decreases n - 1 - i,
    {
        proof {
            assert(all[i as int] == parts@[i as int]@);
        }
        out.push(drop_return(parts[i].as_str()));
        i = i + 1;
    }
    let ghost closed = all.drop_last().map_values(|p: Seq<char>| without_return(p));
    proof {
        assert(texts(out@) =~= closed);
        assert(all.last() == parts@[n - 1]@);
    }
    if !parts[n - 1].as_str().is_empty() {
        out.push(parts[n - 1].clone());
        proof {
            assert(texts(out@) =~= closed.push(all.last()));
        }
    }
    out
}

/// What stands behind the first place of `p` in `s`.
pub open spec fn behind(s: Seq<char>, p: Seq<char>) -> Option<Seq<char>> {
    let k = part_from(s, p, 0);
    if k < s.len() {
        Some(s.skip(k + p.len()))
    } else {
        None
    }
}

/// What stands before the first place of `p` in `s`, or all of it.
pub open spec fn ahead(s: Seq<char>, p: Seq<char>) -> Seq<char> {
    s.take(part_from(s, p, 0))
}

fn find_part(v: &Vec<char>, p: &Vec<char>) -> (r: usize)
    ensures
        r == part_from(v@, p@, 0),
        r <= v@.len(),
        r < v@.len() ==> occurs_at(v@, p@, r as int),
{
    let mut i: usize = 0;
    while i < v.len()
        invariant
            0 <= i <= v@.len(),
            part_from(v@, p@, 0) == part_from(v@, p@, i as int),
        decreases v@.len() - i,
    {
        if matches_at(v, p, i) {
            return i;
        }
        i = i + 1;
    }
    i
}

fn text_behind(s: &str, part: &str) -> (r: Option<String>)
    ensures
        opt_text(r) == behind(s@, part@),
{
    let v = chars_of(s);
    let p = chars_of(part);
    let n = v.len();
    let m = p.len();
    let k = find_part(&v, &p);
    if k < n {
        proof {
            assert(v@.subrange(k + m, n as int) =~= v@.skip(k + m));
        }
        Some(string_of(&v, k + m, n))
    } else {
        None
    }
}

fn text_ahead(s: &str, part: &str) -> (r: String)
    ensures
        r@ == ahead(s@, part@),
{
    let v = chars_of(s);
    let p = chars_of(part);
    let k = find_part(&v, &p);
    proof {
        assert(v@.subrange(0, k as int) =~= v@.take(k as int));
    }
    string_of(&v, 0, k)
}

// ---------------------------------------------------------------------------
// Names of servers

/// The name that a line of the list announces, where it announces one.
pub open spec fn announced(line: Seq<char>) -> Option<Seq<char>> {
    if has_part(line, " Add "@) {
        match behind(line, "_intercom-suite._tcp."@) {
            Some(name) => Some(trim(name)),
            None => None,
        }
    } else {
        None
    }
}

/// The names that lines announce.
pub open spec fn announced_names(s: Seq<Seq<char>>) -> Seq<Seq<char>>
    decreases s.len(),
{
    if s.len() == 0 {
        Seq::empty()
    } else {
        match announced(s.last()) {
            Some(name) => announced_names(s.drop_last()).push(name),
            None => announced_names(s.drop_last()),
        }
    }
}

/// The names of the servers that are listed, in order, each once.
pub fn browse_instance_names(output: &str) -> (r: Vec<String>)
    ensures
        texts(r@) == offered_names(announced_names(lines(output@))),
{
    let list = split_lines(output);
    let ghost all = texts(list@);
    let mut names: Vec<String> = Vec::new();
    let mut i: usize = 0;
    proof {
        assert(texts(names@) =~= Seq::<Seq<char>>::empty());
    }
    while i < list.len()
        invariant
            0 <= i <= list@.len(),
            all == texts(list@),
            texts(names@) == announced_names(all.take(i as int)),
        decreases list@.len() - i,
    {
        let ghost before = texts(names@);
        proof {
            assert(all.take(i + 1).drop_last() =~= all.take(i as int));
            assert(all.take(i + 1).last() == list@[i as int]@);
        }
        if contains_part(list[i].as_str(), " Add ") {
            if let Some(name) = text_behind(list[i].as_str(), "_intercom-suite._tcp.") {
                let name = trimmed(name.as_str());
                let ghost shown = name@;
                names.push(name);
                proof {
                    assert(texts(names@) =~= before.push(shown));
                }
            }
        }
        i = i + 1;
    }
    proof {
        assert(all.take(all.len() as int) =~= all);
    }
    sorted_names(names)
}

// ---------------------------------------------------------------------------
// Records

/// The end of an escape that starts at the front: three characters further, or
/// the end of the text.
pub open spec fn escape_end(s: Seq<char>) -> int {
    if s.len() < 4 {
        s.len() as int
    } else {
        4
    }
}

/// A value as it is meant: a backslash and three digits stand for a character. An
/// escape that cannot be read is left out.
pub open spec fn unescaped(s: Seq<char>) -> Seq<char>
    decreases s.len(),
{
    if s.len() == 0 {
        Seq::empty()
    } else if s[0] == '\\' {
        let rest = unescaped(s.skip(escape_end(s)));
        match parse_unsigned(s.subrange(1, escape_end(s)), 255) {
            Some(byte) => seq![byte as char] + rest,
            None => rest,
        }
    } else {
        seq![s[0]] + unescaped(s.skip(1))
    }
}

/// Reads a value with escapes.
pub fn decode_dns_sd_txt(value: &str) -> (r: String)
    ensures
        r@ == unescaped(value@),
{
    let v = chars_of(value);
    let n = v.len();
    let mut out = String::new();
    let mut i: usize = 0;
    proof {
        assert(v@.skip(0) =~= v@);
    }
    while i < n
        invariant
            n == v@.len(),
            0 <= i <= n,
            out@ + unescaped(v@.skip(i as int)) == unescaped(v@),
        decreases n - i,
    {
        let ghost rest = v@.skip(i as int);
        let ghost before = out@;
        if v[i] == '\\' {
            let end = if n - i < 4 {
                n
            } else {
                i + 4
            };
            let digits = string_of(&v, i + 1, end);
            proof {
                assert(v@.subrange(i + 1, end as int) =~= rest.subrange(1, escape_end(rest)));
                assert(rest.skip(escape_end(rest)) =~= v@.skip(end as int));
            }
            if let Some(byte) = parse_u64(digits.as_str(), 255) {
                let c = (byte as u8) as char;
                out.push(c);
                proof {
                    assert(before + (seq![c] + unescaped(v@.skip(end as int))) =~= out@
                        + unescaped(v@.skip(end as int)));
                }
            }
            i = end;
        } else {
            let c = v[i];
            out.push(c);
            proof {
                assert(rest.skip(1) =~= v@.skip(i + 1));
                assert(before + (seq![c] + unescaped(v@.skip(i + 1))) =~= out@ + unescaped(
                    v@.skip(i + 1),
                ));
            }
            i = i + 1;
        }
    }
    proof {
        assert(v@.skip(n as int) =~= Seq::<char>::empty());
        assert(out@ + Seq::<char>::empty() =~= out@);
    }
    out
}

/// The value of a record among the first `n` words: the last one with that key
/// counts.
pub open spec fn record(s: Seq<Seq<char>>, key: Seq<char>, n: int) -> Option<Seq<char>>
    decreases n,
{
    if n <= 0 {
        None
    } else {
        match split_entry(s[n - 1]) {
            Some((k, value)) => if k == key {
                Some(unescaped(value))
            } else {
                record(s, key, n - 1)
            },
            None => record(s, key, n - 1),
        }
    }
}

/// The value of a record that a text holds.
pub open spec fn record_in(output: Seq<char>, key: Seq<char>) -> Option<Seq<char>> {
    record(words(output), key, words(output).len() as int)
}

/// Finds the value of a record.
pub fn txt_record(output: &str, key: &str) -> (r: Option<String>)
    ensures
        opt_text(r) == record_in(output@, key@),
{
    let list = split_words(output);
    let ghost s = texts(list@);
    let mut n: usize = list.len();
    while n > 0
        invariant
            n <= list@.len(),
            s == texts(list@),
            s == words(output@),
            record(s, key@, s.len() as int) == record(s, key@, n as int),
        decreases n,
    {
        proof {
            assert(s[n - 1] == list@[n - 1]@);
        }
        if let Some((k, value)) = split_at_equals(list[n - 1].as_str()) {
            if same(k.as_str(), key) {
                return Some(decode_dns_sd_txt(value.as_str()));
            }
        }
        n = n - 1;
    }
    None
}

/// The port that a record names.
pub open spec fn port_in(output: Seq<char>, key: Seq<char>) -> Option<u16> {
    match record_in(output, key) {
        Some(value) => match parse_unsigned(value, u16::MAX as nat) {
            Some(port) => Some(port as u16),
            None => None,
        },
        None => None,
    }
}

fn port_record(output: &str, key: &str) -> (r: Option<u16>)
    ensures
        r == port_in(output@, key@),
{
    match txt_record(output, key) {
        Some(value) => parse_u16(value.as_str()),
        None => None,
    }
}

// ---------------------------------------------------------------------------
// Where a server is

/// The host and the port of a line that tells where a server is reached.
pub open spec fn reached(line: Seq<char>) -> Option<(Seq<char>, Option<u16>)> {
    match behind(line, " can be reached at "@) {
        None => None,
        Some(rest) => {
            let target = without_trailing(trim(ahead(rest, " ("@)), '.');
            let k = last_index(target, ':', target.len() as int);
            if k < 0 {
                None
            } else {
                Some(
                    (
                        without_trailing(target.take(k), '.'),
                        match parse_unsigned(target.skip(k + 1), u16::MAX as nat) {
                            Some(port) => Some(port as u16),
                            None => None,
                        },
                    ),
                )
            }
        },
    }
}

fn read_reached(line: &str) -> (r: Option<(String, Option<u16>)>)
    ensures
        match r {
            Some((host, port)) => reached(line@) == Some((host@, port)),
            None => reached(line@) is None,
        },
{
    match text_behind(line, " can be reached at ") {
        None => None,
        Some(rest) => {
            let name = trimmed(text_ahead(rest.as_str(), " (").as_str());
            let target = trim_end_char(name.as_str(), '.');
            let v = chars_of(target.as_str());
            let n = v.len();
            match find_last(&v, ':') {
                None => None,
                Some(k) => {
                    proof {
                        assert(v@.subrange(0, k as int) =~= v@.take(k as int));
                        assert(v@.subrange(k + 1, n as int) =~= v@.skip(k + 1));
                    }
                    let host = trim_end_char(string_of(&v, 0, k).as_str(), '.');
                    let port = parse_u16(string_of(&v, k + 1, n).as_str());
                    Some((host, port))
                },
            }
        },
    }
}

/// The first line at or after `i` that tells where a server is reached.
pub open spec fn first_reached(s: Seq<Seq<char>>, i: int) -> Option<(Seq<char>, Option<u16>)>
    decreases s.len() - i,
{
    if i < 0 || i >= s.len() {
        None
    } else if reached(s[i]) is Some {
        reached(s[i])
    } else {
        first_reached(s, i + 1)
    }
}

/// The host and the control port of a server, where both are told.
pub open spec fn server_place(output: Seq<char>) -> Option<(Seq<char>, u16)> {
    match first_reached(lines(output), 0) {
        Some((host, Some(port))) => Some((host, port)),
        _ => None,
    }
}

/// Finds the host and the control port of a server. The host is to be looked up.
pub fn resolved_place(output: &str) -> (r: Option<(String, u16)>)
    ensures
        match r {
            Some((host, port)) => server_place(output@) == Some((host@, port)),
            None => server_place(output@) is None,
        },
{
    let list = split_lines(output);
    let ghost s = texts(list@);
    let mut i: usize = 0;
    while i < list.len()
        invariant
            0 <= i <= list@.len(),
            s == texts(list@),
            s == lines(output@),
            first_reached(s, 0) == first_reached(s, i as int),
        decreases list@.len() - i,
    {
        proof {
            assert(s[i as int] == list@[i as int]@);
        }
        if let Some((host, port)) = read_reached(list[i].as_str()) {
            return match port {
                Some(port) => Some((host, port)),
                None => None,
            };
        }
        i = i + 1;
    }
    None
}

/// The first IPv4 address from `i` on, or the length where there is none.
pub open spec fn first_ipv4(ips: Seq<Seq<char>>, i: int) -> int
    decreases ips.len() - i,
{
    if i >= ips.len() {
        ips.len() as int
    } else if ipv4_text(ips[i]) {
        i
    } else {
        first_ipv4(ips, i + 1)
    }
}

/// Where a host is reached that was found at the addresses `ips`: IPv4 comes first,
/// and a host that was not found goes by its name.
pub open spec fn reached_at(host: Seq<char>, ips: Seq<Seq<char>>) -> Seq<char> {
    let k = first_ipv4(ips, 0);
    if k < ips.len() {
        ips[k]
    } else if ips.len() > 0 {
        ips[0]
    } else {
        host
    }
}

/// Where a host is reached that was found at the addresses `ips`.
pub fn resolve_host_ip(host: &str, ips: &Vec<String>) -> (r: String)
    ensures
        r@ == reached_at(host@, texts(ips@)),
{
    let mut i: usize = 0;
    while i < ips.len()
        invariant
            0 <= i <= ips@.len(),
            first_ipv4(texts(ips@), 0) == first_ipv4(texts(ips@), i as int),
        decreases ips@.len() - i,
    {
        if is_ipv4_text(ips[i].as_str()) {
            return owned(ips[i].as_str());
        }
        i = i + 1;
    }
    if ips.len() > 0 {
        owned(ips[0].as_str())
    } else {
        owned(host)
    }
}

/// A host as it stands in a URL.
pub open spec fn bracketed(host: Seq<char>) -> Seq<char> {
    if host.contains(':') {
        "["@ + host + "]"@
    } else {
        host
    }
}

fn bracket(host: &str) -> (r: String)
    ensures
        r@ == bracketed(host@),
{
    if contains_char(host, ':') {
        concat3("[", host, "]")
    } else {
        owned(host)
    }
}

/// The server that was found under a name, at an address.
pub open spec fn found_profile(
    instance: Seq<char>,
    output: Seq<char>,
    ip: Seq<char>,
    control_port: u16,
) -> ServerProfile {
    let audio_port = match port_in(output, "audio_port"@) {
        Some(port) => port,
        None => control_port,
    };
    let name = match record_in(output, "name"@) {
        Some(name) => if is_blank(name) {
            instance
        } else {
            name
        },
        None => instance,
    };
    let control = "ws://"@ + bracketed(ip) + ":"@ + decimal(control_port as nat);
    ServerProfile {
        id: profile_id(name, control),
        name,
        server_host: Seq::empty(),
        server: ip + ":"@ + decimal(audio_port as nat),
        control,
        admin: match port_in(output, "admin_port"@) {
            Some(port) => Some("http://"@ + bracketed(ip) + ":"@ + decimal(port as nat)),
            None => None,
        },
        auth: record_in(output, "auth"@),
        version: record_in(output, "version"@),
        last_connected_ms: None,
        discovered: true,
    }
}

/// The server that was found under a name: `output` is what was told of it, `ip`
/// the address of its host, and `control_port` its control port.
pub fn parse_resolved_profile(
    instance: &str,
    output: &str,
    ip: &str,
    control_port: u16,
) -> (r: MobileServerProfile)
    ensures
        r@ == found_profile(instance@, output@, ip@, control_port),
{
    let url_host = bracket(ip);
    let audio_port = match port_record(output, "audio_port") {
        Some(port) => port,
        None => control_port,
    };
    let name = match txt_record(output, "name") {
        Some(name) => if blank(name.as_str()) {
            owned(instance)
        } else {
            name
        },
        None => owned(instance),
    };
    let control = concat4(
        "ws://",
        url_host.as_str(),
        ":",
        u64_text(control_port as u64).as_str(),
    );
    let id = mobile_profile_id(name.as_str(), control.as_str());
    let admin = match port_record(output, "admin_port") {
        Some(port) => Some(
            concat4("http://", url_host.as_str(), ":", u64_text(port as u64).as_str()),
        ),
        None => None,
    };
    let server_host = String::new();
    proof {
        assert(server_host@ =~= Seq::<char>::empty());
    }
    MobileServerProfile {
        id,
        name,
        server_host,
        server: concat3(ip, ":", u64_text(audio_port as u64).as_str()),
        control,
        admin,
        auth: txt_record(output, "auth"),
        version: txt_record(output, "version"),
        last_connected_ms: None,
        discovered: true,
    }
}

} // verus!
