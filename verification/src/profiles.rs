//! Servers that a client remembers and finds.

use vstd::prelude::*;

use crate::endpoint::{
    admin_from_control, admin_url_of, checked_host, control_url_of, derive_admin_url_from_control,
    fields_admin, filled, filled_text, host_to_look_up, opt_parts, opt_text, settled_fields,
    ClientEndpointOverrides, ClientServerEndpoint, EndpointFields, DEFAULT_AUDIO_PORT,
};
use crate::net::SocketAddress;
use crate::order::{
    by_rank, is_ranking, is_sorted, sort_items, sort_sorts, sort_through, stable_sort, Ranked,
};
use crate::text::{
    before, blank, concat3, is_blank, same, text_before, text_order_is_total,
    text_order_is_transitive, trim, trimmed,
};
use crate::web::address_text;

verus! {

/// How many servers are remembered.
pub const MAX_SERVER_PROFILES: usize = 20;

/// A server that a client knows.
#[derive(Debug, Clone, PartialEq, Eq)]
pub struct MobileServerProfile {
    pub id: String,
    pub name: String,
    pub server_host: String,
    pub server: String,
    pub control: String,
    pub admin: Option<String>,
    pub auth: Option<String>,
    pub version: Option<String>,
    pub last_connected_ms: Option<u64>,
    pub discovered: bool,
}

/// A server that a client knows, as texts.
pub struct ServerProfile {
    pub id: Seq<char>,
    pub name: Seq<char>,
    pub server_host: Seq<char>,
    pub server: Seq<char>,
    pub control: Seq<char>,
    pub admin: Option<Seq<char>>,
    pub auth: Option<Seq<char>>,
    pub version: Option<Seq<char>>,
    pub last_connected_ms: Option<u64>,
    pub discovered: bool,
}

impl View for MobileServerProfile {
    type V = ServerProfile;

    open spec fn view(&self) -> ServerProfile {
        ServerProfile {
            id: self.id@,
            name: self.name@,
            server_host: self.server_host@,
            server: self.server@,
            control: self.control@,
            admin: opt_text(self.admin),
            auth: opt_text(self.auth),
            version: opt_text(self.version),
            last_connected_ms: self.last_connected_ms,
            discovered: self.discovered,
        }
    }
}

/// Servers that a client knows, as texts.
pub open spec fn profiles(s: Seq<MobileServerProfile>) -> Seq<ServerProfile> {
    s.map_values(|p: MobileServerProfile| p@)
}

impl Default for MobileServerProfile {
    fn default() -> (r: Self)
        ensures
            r@ == (ServerProfile {
                id: Seq::empty(),
                name: Seq::empty(),
                server_host: Seq::empty(),
                server: Seq::empty(),
                control: Seq::empty(),
                admin: None,
                auth: None,
                version: None,
                last_connected_ms: None,
                discovered: false,
            }),
    {
        let r = MobileServerProfile {
            id: String::new(),
            name: String::new(),
            server_host: String::new(),
            server: String::new(),
            control: String::new(),
            admin: None,
            auth: None,
            version: None,
            last_connected_ms: None,
            discovered: false,
        };
        proof {
            assert(r.id@ =~= Seq::empty());
            assert(r.name@ =~= Seq::empty());
            assert(r.server_host@ =~= Seq::empty());
            assert(r.server@ =~= Seq::empty());
            assert(r.control@ =~= Seq::empty());
        }
        r
    }
}

/// The id of a server that has none.
pub open spec fn profile_id(name: Seq<char>, control: Seq<char>) -> Seq<char> {
    if is_blank(name) {
        trim(control)
    } else {
        trim(name) + "|"@ + trim(control)
    }
}

/// The id of a server that has none.
pub fn mobile_profile_id(name: &str, control: &str) -> (r: String)
    ensures
        r@ == profile_id(name@, control@),
{
    if blank(name) {
        trimmed(control)
    } else {
        concat3(trimmed(name).as_str(), "|", trimmed(control).as_str())
    }
}

/// What the addresses of a server come to: `server` is the audio address that
/// its text names, where it names one, and `found` what was looked up for it.
#[derive(Debug)]
pub struct ProfileAddresses {
    pub server: Option<SocketAddress>,
    pub found: Option<SocketAddress>,
}

/// A server with its texts trimmed.
pub open spec fn tidy_profile(p: ServerProfile) -> ServerProfile {
    ServerProfile {
        name: trim(p.name),
        server_host: trim(p.server_host),
        server: trim(p.server),
        control: trim(p.control),
        admin: filled(p.admin),
        auth: filled(p.auth),
        version: filled(p.version),
        ..p
    }
}

/// What is known of where a server without a host is.
pub open spec fn profile_fields(p: ServerProfile, server: (Seq<char>, u16)) -> EndpointFields {
    EndpointFields {
        server_host: Seq::empty(),
        server,
        control: p.control,
        admin: p.admin,
        advanced: false,
    }
}

/// A tidy server with what its addresses say of it.
pub open spec fn located_profile(
    p: ServerProfile,
    server: Option<(Seq<char>, u16)>,
    found: Option<(Seq<char>, u16)>,
) -> ServerProfile {
    if p.server_host.len() == 0 {
        match server {
            None => p,
            Some(addr) => {
                let given = profile_fields(p, addr);
                let settled = settled_fields(given);
                let at = if host_to_look_up(given) is Some && found is Some {
                    found->Some_0
                } else {
                    settled.server
                };
                if settled.advanced {
                    ServerProfile { server_host: settled.server_host, ..p }
                } else {
                    ServerProfile {
                        server_host: settled.server_host,
                        server: address_text(at.0, at.1),
                        control: settled.control,
                        admin: match fields_admin(settled) {
                            Ok(url) => if url.len() == 0 {
                                None
                            } else {
                                Some(url)
                            },
                            Err(_) => match admin_from_control(settled.control) {
                                Some(url) => if url.len() == 0 {
                                    None
                                } else {
                                    Some(url)
                                },
                                None => None,
                            },
                        },
                        ..p
                    }
                }
            },
        }
    } else {
        match checked_host(p.server_host) {
            Err(_) => p,
            Ok(host) => ServerProfile {
                server: if p.server.len() == 0 && found is Some {
                    address_text(found->Some_0.0, found->Some_0.1)
                } else {
                    p.server
                },
                control: if p.control.len() == 0 {
                    control_url_of(host)
                } else {
                    p.control
                },
                admin: if p.admin is None {
                    Some(admin_url_of(host))
                } else {
                    p.admin
                },
                ..p
            },
        }
    }
}

/// A server in order: trimmed, with its addresses, and with an id.
pub open spec fn normal_profile(
    p: ServerProfile,
    server: Option<(Seq<char>, u16)>,
    found: Option<(Seq<char>, u16)>,
) -> ServerProfile {
    let located = located_profile(tidy_profile(p), server, found);
    if is_blank(located.id) {
        ServerProfile { id: profile_id(located.name, located.control), ..located }
    } else {
        located
    }
}

/// The host to look up for a server, where there is one.
pub open spec fn profile_host(p: ServerProfile, server: Option<(Seq<char>, u16)>) -> Option<
    Seq<char>,
> {
    let tidy = tidy_profile(p);
    if tidy.server_host.len() == 0 {
        match server {
            Some(addr) => host_to_look_up(profile_fields(tidy, addr)),
            None => None,
        }
    } else {
        match checked_host(tidy.server_host) {
            Ok(host) => if tidy.server.len() == 0 {
                Some(host)
            } else {
                None
            },
            Err(_) => None,
        }
    }
}

fn copy_opt_text(o: &Option<String>) -> (r: Option<String>)
    ensures
        r == *o,
{
    match o {
        Some(s) => Some(s.clone()),
        None => None,
    }
}

fn nonempty(s: String) -> (r: Option<String>)
    ensures
        r == (if s@.len() == 0 {
            None
        } else {
            Some(s)
        }),
{
    if s.as_str().is_empty() {
        None
    } else {
        Some(s)
    }
}

fn settle_profile(tidy: &MobileServerProfile, server: SocketAddress) -> (r: (
    ClientEndpointOverrides,
    Option<ClientServerEndpoint>,
))
    requires
        trim(tidy.control@) == tidy.control@,
        filled(opt_text(tidy.admin)) == opt_text(tidy.admin),
    ensures
        r.0@ == settled_fields(profile_fields(tidy@, server.parts())),
        match r.1 {
            Some(e) => host_to_look_up(profile_fields(tidy@, server.parts())) == Some(e.host@),
            None => host_to_look_up(profile_fields(tidy@, server.parts())) is None,
        },
{
    proof {
        reveal_strlit("");
        assert(""@ =~= Seq::<char>::empty());
    }
    ClientEndpointOverrides::normalized(
        "",
        server,
        tidy.control.as_str(),
        copy_opt_text(&tidy.admin),
        false,
    )
}

fn tidied(profile: &MobileServerProfile) -> (r: MobileServerProfile)
    ensures
        r@ == tidy_profile(profile@),
        trim(r.control@) == r.control@,
        filled(opt_text(r.admin)) == opt_text(r.admin),
{
    proof {
        crate::text::trim_is_idempotent(profile.control@);
        if profile.admin is Some {
            crate::text::trim_is_idempotent(profile.admin->Some_0@);
        }
    }
    MobileServerProfile {
        id: profile.id.clone(),
        name: trimmed(profile.name.as_str()),
        server_host: trimmed(profile.server_host.as_str()),
        server: trimmed(profile.server.as_str()),
        control: trimmed(profile.control.as_str()),
        admin: filled_text(&profile.admin),
        auth: filled_text(&profile.auth),
        version: filled_text(&profile.version),
        last_connected_ms: profile.last_connected_ms,
        discovered: profile.discovered,
    }
}

/// The host to look up for a server, where `server` is the audio address that
/// its text names.
pub fn profile_lookup(profile: &MobileServerProfile, server: &Option<SocketAddress>) -> (r: Option<
    (String, u16),
>)
    ensures
        match r {
            Some((host, port)) => profile_host(profile@, opt_parts(*server)) == Some(host@)
                && port == DEFAULT_AUDIO_PORT,
            None => profile_host(profile@, opt_parts(*server)) is None,
        },
{
    let tidy = tidied(profile);
    if tidy.server_host.as_str().is_empty() {
        match server {
            Some(addr) => match settle_profile(&tidy, addr.copy()).1 {
                Some(endpoint) => Some((endpoint.host, DEFAULT_AUDIO_PORT)),
                None => None,
            },
            None => None,
        }
    } else {
        match ClientServerEndpoint::new(tidy.server_host.as_str()) {
            Ok(endpoint) => if tidy.server.as_str().is_empty() {
                Some((endpoint.host, DEFAULT_AUDIO_PORT))
            } else {
                None
            },
            Err(_) => None,
        }
    }
}

/// Brings a server in order.
pub fn normalize_mobile_profile(profile: MobileServerProfile, addresses: ProfileAddresses) -> (r:
    MobileServerProfile)
    ensures
        r@ == normal_profile(
            profile@,
            opt_parts(addresses.server),
            opt_parts(addresses.found),
        ),
{
    let mut p = tidied(&profile);
    let ghost tidy = p@;
    if p.server_host.as_str().is_empty() {
        if let Some(server) = addresses.server {
            let (mut endpoints, lookup) = settle_profile(&p, server);
            if !endpoints.advanced_endpoints {
                let admin = match endpoints.effective_admin() {
                    Ok(url) => nonempty(url),
                    Err(_) => match derive_admin_url_from_control(endpoints.control.as_str()) {
                        Some(url) => nonempty(url),
                        None => None,
                    },
                };
                if lookup.is_some() {
                    endpoints.set_resolved_server(addresses.found);
                }
                p.server = endpoints.server.to_text();
                p.server_host = endpoints.server_host;
                p.control = endpoints.control;
                p.admin = admin;
            } else {
                p.server_host = endpoints.server_host;
            }
        }
    } else {
        match ClientServerEndpoint::new(p.server_host.as_str()) {
            Ok(endpoint) => {
                if p.server.as_str().is_empty() {
                    if let Some(server) = addresses.found {
                        p.server = server.to_text();
                    }
                }
                if p.control.as_str().is_empty() {
                    p.control = endpoint.control_url();
                }
                if p.admin.is_none() {
                    p.admin = Some(endpoint.admin_url());
                }
            },
            Err(_) => {},
        }
    }
    proof {
        assert(p@ == located_profile(
            tidy,
            opt_parts(addresses.server),
            opt_parts(addresses.found),
        ));
    }
    if blank(p.id.as_str()) {
        p.id = mobile_profile_id(p.name.as_str(), p.control.as_str());
    }
    p
}

/// The addresses of servers.
pub open spec fn address_parts(s: Seq<ProfileAddresses>) -> Seq<
    (Option<(Seq<char>, u16)>, Option<(Seq<char>, u16)>),
> {
    s.map_values(|a: ProfileAddresses| (opt_parts(a.server), opt_parts(a.found)))
}

/// Servers in order, each with its addresses.
pub open spec fn normal_profiles(
    s: Seq<ServerProfile>,
    addresses: Seq<(Option<(Seq<char>, u16)>, Option<(Seq<char>, u16)>)>,
) -> Seq<ServerProfile> {
    Seq::new(s.len(), |i: int| normal_profile(s[i], addresses[i].0, addresses[i].1))
}

/// Brings servers in order, each with its addresses.
pub fn normalize_profiles(known: Vec<MobileServerProfile>, addresses: Vec<ProfileAddresses>) -> (r:
    Vec<MobileServerProfile>)
    requires
        addresses@.len() == known@.len(),
    ensures
        profiles(r@) == normal_profiles(profiles(known@), address_parts(addresses@)),
{
    let ghost all = known@;
    let ghost at = addresses@;
    let n = known.len();
    let mut rest = known;
    let mut addresses = addresses;
    let mut out: Vec<MobileServerProfile> = Vec::new();
    let mut i: usize = 0;
    proof {
        assert(all.skip(0) =~= all);
        assert(at.skip(0) =~= at);
    }
    while i < n
        invariant
            n == all.len(),
            n == at.len(),
            0 <= i <= n,
            rest@ == all.skip(i as int),
            addresses@ == at.skip(i as int),
            out@.len() == i,
            forall|k: int|
                0 <= k < i ==> (#[trigger] out@[k])@ == normal_profile(
                    all[k]@,
                    opt_parts(at[k].server),
                    opt_parts(at[k].found),
                ),
        decreases n - i,
    {
        let p = rest.remove(0);
        let a = addresses.remove(0);
        proof {
            assert(p == all[i as int]);
            assert(a == at[i as int]);
            assert(rest@ =~= all.skip(i + 1));
            assert(addresses@ =~= at.skip(i + 1));
        }
        out.push(normalize_mobile_profile(p, a));
        i = i + 1;
    }
    proof {
        assert(profiles(out@) =~= normal_profiles(profiles(all), address_parts(at)));
    }
    out
}

// ---------------------------------------------------------------------------
// Remembering servers

/// The servers other than that with the given id, and those with the given
/// control URL.
pub open spec fn others(s: Seq<ServerProfile>, id: Seq<char>, control: Seq<char>) -> Seq<
    ServerProfile,
>
    decreases s.len(),
{
    if s.len() == 0 {
        Seq::empty()
    } else if s.last().id != id && s.last().control != control {
        others(s.drop_last(), id, control).push(s.last())
    } else {
        others(s.drop_last(), id, control)
    }
}

/// The remembered servers with one more, which comes first. One that cannot be
/// reached is not remembered.
pub open spec fn remembered(s: Seq<ServerProfile>, p: ServerProfile) -> Seq<ServerProfile> {
    if p.server.len() == 0 || p.control.len() == 0 {
        s
    } else {
        let all = seq![p] + others(s, p.id, p.control);
        if all.len() > MAX_SERVER_PROFILES {
            all.take(MAX_SERVER_PROFILES as int)
        } else {
            all
        }
    }
}

fn keep_others(known: Vec<MobileServerProfile>, id: &str, control: &str) -> (r: Vec<
    MobileServerProfile,
>)
    ensures
        profiles(r@) == others(profiles(known@), id@, control@),
{
    let ghost all = profiles(known@);
    let ghost mut done: int = 0;
    let mut rest = known;
    let mut out: Vec<MobileServerProfile> = Vec::new();
    proof {
        assert(profiles(out@) =~= Seq::<ServerProfile>::empty());
        assert(all.skip(0) =~= all);
    }
    while rest.len() > 0
        invariant
            0 <= done <= all.len(),
            profiles(rest@) == all.skip(done),
            profiles(out@) == others(all.take(done), id@, control@),
        decreases rest@.len(),
    {
        let ghost was = rest@;
        let ghost before = out@;
        let p = rest.remove(0);
        proof {
            assert(profiles(was).len() == was.len());
            assert(profiles(was)[0] == p@);
            assert(all.take(done + 1).drop_last() =~= all.take(done));
            assert(all.take(done + 1).last() == p@);
            assert(profiles(rest@) =~= all.skip(done + 1)) by {
                assert forall|k: int| 0 <= k < rest@.len() implies profiles(rest@)[k] == all.skip(
                    done + 1,
                )[k] by {
                    assert(rest@[k] == was[k + 1]);
                    assert(profiles(was)[k + 1] == all.skip(done)[k + 1]);
                }
                assert(profiles(was).len() == all.skip(done).len());
            }
            done = done + 1;
        }
        if !same(p.id.as_str(), id) && !same(p.control.as_str(), control) {
            let ghost kept = p@;
            out.push(p);
            proof {
                assert(profiles(out@) =~= profiles(before).push(kept));
            }
        }
    }
    proof {
        assert(profiles(rest@).len() == 0);
        assert(all.take(all.len() as int) =~= all);
    }
    out
}

/// Remembers a server that is in order.
pub fn remember_profile(known: &mut Vec<MobileServerProfile>, profile: MobileServerProfile)
    ensures
        profiles(final(known)@) == remembered(profiles(old(known)@), profile@),
{
    if profile.server.as_str().is_empty() || profile.control.as_str().is_empty() {
        return;
    }
    let ghost p = profile@;
    let mut old_ones: Vec<MobileServerProfile> = Vec::new();
    old_ones.append(known);
    proof {
        assert(old_ones@ =~= old(known)@);
    }
    let mut kept = keep_others(old_ones, profile.id.as_str(), profile.control.as_str());
    let ghost rest = profiles(kept@);
    kept.insert(0, profile);
    proof {
        assert(profiles(kept@) =~= seq![p] + rest);
    }
    let ghost all = kept@;
    kept.truncate(MAX_SERVER_PROFILES);
    proof {
        assert(profiles(all).len() == all.len());
        if all.len() > MAX_SERVER_PROFILES {
            assert(profiles(kept@) =~= profiles(all).take(MAX_SERVER_PROFILES as int));
        } else {
            assert(kept@ =~= all);
        }
    }
    *known = kept;
}

proof fn lemma_others(s: Seq<ServerProfile>, id: Seq<char>, control: Seq<char>, i: int)
    requires
        0 <= i < others(s, id, control).len(),
    ensures
        others(s, id, control)[i].id != id,
        others(s, id, control)[i].control != control,
        s.contains(others(s, id, control)[i]),
    decreases s.len(),
{
    let t = s.drop_last();
    let rest = others(t, id, control);
    if i < rest.len() {
        lemma_others(t, id, control, i);
        assert(others(s, id, control)[i] == rest[i]);
        let k = choose|k: int| 0 <= k < t.len() && t[k] == rest[i];
        assert(s[k] == rest[i]);
    } else {
        assert(s[s.len() - 1] == s.last());
    }
}

/// A server that can be reached is remembered first, there are never more than
/// so many, and no other one has its id or its control URL.
pub proof fn remembering_keeps_few_and_apart(s: Seq<ServerProfile>, p: ServerProfile, i: int)
    requires
        p.server.len() > 0,
        p.control.len() > 0,
        0 < i < remembered(s, p).len(),
    ensures
        remembered(s, p)[0] == p,
        remembered(s, p).len() <= MAX_SERVER_PROFILES,
        remembered(s, p)[i].id != p.id,
        remembered(s, p)[i].control != p.control,
        s.contains(remembered(s, p)[i]),
{
    let rest = others(s, p.id, p.control);
    assert(remembered(s, p)[i] == rest[i - 1]);
    lemma_others(s, p.id, p.control, i - 1);
}

/// The servers without that of the given id.
pub open spec fn without_id(s: Seq<ServerProfile>, id: Seq<char>) -> Seq<ServerProfile>
    decreases s.len(),
{
    if s.len() == 0 {
        Seq::empty()
    } else if s.last().id != id {
        without_id(s.drop_last(), id).push(s.last())
    } else {
        without_id(s.drop_last(), id)
    }
}

/// Forgets a server.
pub fn forget_profile(known: &Vec<MobileServerProfile>, id: &str) -> (r: Vec<MobileServerProfile>)
    ensures
        profiles(r@) == without_id(profiles(known@), id@),
{
    let ghost all = profiles(known@);
    let mut out: Vec<MobileServerProfile> = Vec::new();
    let mut i: usize = 0;
    proof {
        assert(profiles(out@) =~= Seq::<ServerProfile>::empty());
    }
    while i < known.len()
        invariant
            0 <= i <= known@.len(),
            all == profiles(known@),
            profiles(out@) == without_id(all.take(i as int), id@),
        decreases known@.len() - i,
    {
        let ghost before = out@;
        proof {
            assert(all.take(i + 1).drop_last() =~= all.take(i as int));
            assert(all.take(i + 1).last() == known@[i as int]@);
        }
        if !same(known[i].id.as_str(), id) {
            let p = copy_profile(&known[i]);
            let ghost kept = p@;
            out.push(p);
            proof {
                assert(profiles(out@) =~= profiles(before).push(kept));
            }
        }
        i = i + 1;
    }
    proof {
        assert(all.take(all.len() as int) =~= all);
    }
    out
}

/// A copy of what is known of a server.
pub fn copy_profile(p: &MobileServerProfile) -> (r: MobileServerProfile)
    ensures
        r == *p,
{
    MobileServerProfile {
        id: p.id.clone(),
        name: p.name.clone(),
        server_host: p.server_host.clone(),
        server: p.server.clone(),
        control: p.control.clone(),
        admin: copy_opt_text(&p.admin),
        auth: copy_opt_text(&p.auth),
        version: copy_opt_text(&p.version),
        last_connected_ms: p.last_connected_ms,
        discovered: p.discovered,
    }
}

// ---------------------------------------------------------------------------
// The order of servers

/// A time comes after another; never comes before every time.
pub open spec fn later(a: Option<u64>, b: Option<u64>) -> bool {
    match (a, b) {
        (Some(x), Some(y)) => x > y,
        (Some(_), None) => true,
        (None, _) => false,
    }
}

/// A server comes before another: that with the later connection, then that
/// which was found, then by name.
pub open spec fn shown_before(a: ServerProfile, b: ServerProfile) -> bool {
    if a.last_connected_ms != b.last_connected_ms {
        later(a.last_connected_ms, b.last_connected_ms)
    } else if a.discovered != b.discovered {
        a.discovered
    } else {
        text_before(a.name, b.name)
    }
}

/// The order in which servers are shown.
pub open spec fn shown_order() -> spec_fn(ServerProfile, ServerProfile) -> bool {
    |a: ServerProfile, b: ServerProfile| shown_before(a, b)
}

/// The order in which servers are shown is a ranking.
pub proof fn shown_order_is_a_ranking()
    ensures
        is_ranking(shown_order()),
{
    let f = shown_order();
    assert forall|a: ServerProfile| !#[trigger] f(a, a) by {
        text_order_is_total(a.name, a.name);
    }
    assert forall|a: ServerProfile, b: ServerProfile, c: ServerProfile|
        #![trigger f(a, b), f(b, c)]
        f(a, b) && f(b, c) implies f(a, c) by {
        if text_before(a.name, b.name) && text_before(b.name, c.name) {
            text_order_is_transitive(a.name, b.name, c.name);
        }
    }
    assert forall|a: ServerProfile, b: ServerProfile, c: ServerProfile|
        #![trigger f(a, b), f(b, c)]
        !f(a, b) && !f(b, c) implies !f(a, c) by {
        text_order_is_total(a.name, b.name);
        text_order_is_total(b.name, c.name);
        text_order_is_total(a.name, c.name);
        if text_before(b.name, a.name) && text_before(a.name, c.name) {
            text_order_is_transitive(b.name, a.name, c.name);
        }
    }
}

/// Servers that are shown stand in the order in which they are to be shown: those with
/// a later connection before those with an earlier one or none, then those that were
/// found before the others, then by name.
pub proof fn shown_servers_are_in_order(s: Seq<ServerProfile>)
    ensures
        is_sorted(stable_sort(s, shown_order()), shown_order()),
{
    shown_order_is_a_ranking();
    sort_sorts(s, shown_order());
}

impl Ranked for MobileServerProfile {
    open spec fn precedes(self, other: Self) -> bool {
        shown_before(self@, other@)
    }

    fn comes_before(&self, other: &Self) -> (r: bool) {
        match (self.last_connected_ms, other.last_connected_ms) {
            (Some(x), Some(y)) => {
                if x != y {
                    return x > y;
                }
            },
            (Some(_), None) => {
                return true;
            },
            (None, Some(_)) => {
                return false;
            },
            (None, None) => {},
        }
        if self.discovered != other.discovered {
            return self.discovered;
        }
        before(self.name.as_str(), other.name.as_str())
    }
}

/// Puts servers in the order in which they are shown.
pub fn sort_profiles(known: Vec<MobileServerProfile>) -> (r: Vec<MobileServerProfile>)
    ensures
        profiles(r@) == stable_sort(profiles(known@), shown_order()),
{
    let ghost s = known@;
    let out = sort_items(known);
    proof {
        let seen = |p: MobileServerProfile| p@;
        let rank = by_rank::<MobileServerProfile>();
        let order = shown_order();
        assert forall|a: MobileServerProfile, b: MobileServerProfile| #[trigger]
            rank(a, b) == order(seen(a), seen(b)) by {}
        sort_through(s, rank, seen, order);
    }
    out
}

/// The first server at or after `i` with that id or that control URL, or the
/// number of servers.
pub open spec fn known_index(
    s: Seq<ServerProfile>,
    id: Seq<char>,
    control: Seq<char>,
    i: int,
) -> int
    decreases s.len() - i,
{
    if i < 0 || i >= s.len() {
        s.len() as int
    } else if s[i].id == id || s[i].control == control {
        i
    } else {
        known_index(s, id, control, i + 1)
    }
}

/// The known servers with one that was found.
pub open spec fn with_found(s: Seq<ServerProfile>, p: ServerProfile) -> Seq<ServerProfile> {
    let found = ServerProfile { discovered: true, ..p };
    let k = known_index(s, p.id, p.control, 0);
    if k < s.len() {
        s.update(k, ServerProfile { last_connected_ms: s[k].last_connected_ms, ..found })
    } else {
        s.push(found)
    }
}

/// The known servers with all that were found, one after the other.
pub open spec fn with_all_found(s: Seq<ServerProfile>, found: Seq<ServerProfile>) -> Seq<
    ServerProfile,
>
    decreases found.len(),
{
    if found.len() == 0 {
        s
    } else {
        with_found(with_all_found(s, found.drop_last()), found.last())
    }
}

fn add_found(known: &mut Vec<MobileServerProfile>, profile: MobileServerProfile)
    ensures
        profiles(final(known)@) == with_found(profiles(old(known)@), profile@),
{
    let ghost s = profiles(known@);
    let ghost p = profile@;
    let mut found = profile;
    found.discovered = true;
    let mut k: usize = 0;
    while k < known.len() && !same(known[k].id.as_str(), found.id.as_str()) && !same(
        known[k].control.as_str(),
        found.control.as_str(),
    )
        invariant
            0 <= k <= known@.len(),
            s == profiles(known@),
            found.id@ == p.id,
            found.control@ == p.control,
            known_index(s, p.id, p.control, 0) == known_index(s, p.id, p.control, k as int),
        decreases known@.len() - k,
    {
        proof {
            assert(s[k as int] == known@[k as int]@);
        }
        k = k + 1;
    }
    if k < known.len() {
        proof {
            assert(s[k as int] == known@[k as int]@);
        }
        found.last_connected_ms = known[k].last_connected_ms;
        let ghost now = found@;
        known.set(k, found);
        proof {
            assert(profiles(known@) =~= s.update(k as int, now));
        }
    } else {
        let ghost now = found@;
        known.push(found);
        proof {
            assert(profiles(known@) =~= s.push(now));
        }
    }
}

fn add_all_found(known: &mut Vec<MobileServerProfile>, found: Vec<MobileServerProfile>)
    ensures
        profiles(final(known)@) == with_all_found(profiles(old(known)@), profiles(found@)),
{
    let ghost start = profiles(known@);
    let ghost all = profiles(found@);
    let mut i: usize = 0;
    proof {
        assert(all.take(0) =~= Seq::<ServerProfile>::empty());
    }
    while i < found.len()
        invariant
            0 <= i <= found@.len(),
            all == profiles(found@),
            profiles(known@) == with_all_found(start, all.take(i as int)),
        decreases found@.len() - i,
    {
        proof {
            assert(all.take(i + 1).drop_last() =~= all.take(i as int));
            assert(all.take(i + 1).last() == found@[i as int]@);
        }
        let p = copy_profile(&found[i]);
        add_found(known, p);
        i = i + 1;
    }
    proof {
        assert(all.take(all.len() as int) =~= all);
    }
}

/// The known servers with those that were found, as a phone shows them:
/// `addresses` belong to those that were found.
pub fn merge_mobile_profiles(
    saved: Vec<MobileServerProfile>,
    discovered: Vec<MobileServerProfile>,
    addresses: Vec<ProfileAddresses>,
) -> (r: Vec<MobileServerProfile>)
    requires
        addresses@.len() == discovered@.len(),
    ensures
        profiles(r@) == stable_sort(
            with_all_found(
                profiles(saved@),
                normal_profiles(profiles(discovered@), address_parts(addresses@)),
            ),
            shown_order(),
        ),
{
    let mut known = saved;
    let found = normalize_profiles(discovered, addresses);
    add_all_found(&mut known, found);
    sort_profiles(known)
}

/// The known servers with those that were found: `addresses` belong to those
/// that were found.
pub fn native_merge_profiles(
    saved: Vec<MobileServerProfile>,
    discovered: Vec<MobileServerProfile>,
    addresses: Vec<ProfileAddresses>,
) -> (r: Vec<MobileServerProfile>)
    requires
        addresses@.len() == discovered@.len(),
    ensures
        profiles(r@) == with_all_found(
            profiles(saved@),
            normal_profiles(profiles(discovered@), address_parts(addresses@)),
        ),
{
    let mut known = saved;
    let found = normalize_profiles(discovered, addresses);
    add_all_found(&mut known, found);
    known
}

/// Servers brought in order, as a desktop shows them.
pub fn native_sorted_profiles(
    known: Vec<MobileServerProfile>,
    addresses: Vec<ProfileAddresses>,
) -> (r: Vec<MobileServerProfile>)
    requires
        addresses@.len() == known@.len(),
    ensures
        profiles(r@) == stable_sort(
            normal_profiles(profiles(known@), address_parts(addresses@)),
            shown_order(),
        ),
{
    sort_profiles(normalize_profiles(known, addresses))
}

proof fn lemma_known_index(s: Seq<ServerProfile>, id: Seq<char>, control: Seq<char>, i: int)
    requires
        0 <= i,
    ensures
        0 <= known_index(s, id, control, i) <= s.len(),
    decreases s.len() - i,
{
    if i < s.len() {
        lemma_known_index(s, id, control, i + 1);
    }
}

proof fn lemma_with_found_times(s: Seq<ServerProfile>, p: ServerProfile, i: int)
    requires
        0 <= i < s.len(),
    ensures
        s.len() <= with_found(s, p).len() <= s.len() + 1,
        with_found(s, p)[i].last_connected_ms == s[i].last_connected_ms,
{
    lemma_known_index(s, p.id, p.control, 0);
}

/// However many servers are found, every known one stays in its place with the
/// time of its last connection.
pub proof fn finding_keeps_known_servers(
    s: Seq<ServerProfile>,
    found: Seq<ServerProfile>,
    i: int,
)
    requires
        0 <= i < s.len(),
    ensures
        with_all_found(s, found).len() >= s.len(),
        with_all_found(s, found)[i].last_connected_ms == s[i].last_connected_ms,
    decreases found.len(),
{
    if found.len() > 0 {
        finding_keeps_known_servers(s, found.drop_last(), i);
        lemma_with_found_times(with_all_found(s, found.drop_last()), found.last(), i);
    }
}

} // verus!
