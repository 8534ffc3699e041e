//! Servers that a client knows.

use vstd::prelude::*;

use crate::endpoint::{ClientEndpointOverrides, ClientServerEndpoint, EndpointError};
use crate::laws::endpoint::plain_host;
use crate::laws::text::{all_space, lemma_blank};
use crate::net::SocketAddress;
use crate::order::sort_is_a_permutation;
use crate::profiles::{
    forget_profile, known_index, merge_mobile_profiles, mobile_profile_id, native_merge_profiles,
    native_sorted_profiles, normal_profiles, normalize_mobile_profile, normalize_profiles, others,
    profile_lookup, profiles, remember_profile, shown_order, shown_servers_are_in_order,
    sort_profiles, without_id, MobileServerProfile, ProfileAddresses, ServerProfile,
};
use crate::text::trim;

verus! {

/// A server without an id is known by its name and its control URL, or by the URL alone.
pub proof fn servers_are_known_by_name_and_url(name: &str, control: &str, r: String)
    requires
        call_ensures(mobile_profile_id, (name, control), r),
    ensures
        all_space(name@) ==> r@ == trim(control@),
        !all_space(name@) ==> r@ == trim(name@) + "|"@ + trim(control@),
{
    lemma_blank(name@);
}

/// What is known of a server besides where it is stays, without white space around it.
pub proof fn known_facts_stay(
    p: MobileServerProfile,
    at: ProfileAddresses,
    r: MobileServerProfile,
    name: &str,
    control: &str,
    id: String,
)
    requires
        call_ensures(normalize_mobile_profile, (p, at), r),
        name@ == r.name@ && control@ == r.control@,
        call_ensures(mobile_profile_id, (name, control), id),
    ensures
        r.name@ == trim(p.name@),
        !all_space(p.id@) ==> r.id@ == p.id@,
        all_space(p.id@) ==> r.id@ == id@,
        r.last_connected_ms == p.last_connected_ms && r.discovered == p.discovered,
        r.auth is Some <==> p.auth is Some && !all_space(p.auth->Some_0@),
        r.auth is Some ==> r.auth->Some_0@ == trim(p.auth->Some_0@),
        r.version is Some <==> p.version is Some && !all_space(p.version->Some_0@),
        r.version is Some ==> r.version->Some_0@ == trim(p.version->Some_0@),
{
    lemma_blank(p.id@);
    if p.auth is Some {
        lemma_blank(p.auth->Some_0@);
    }
    if p.version is Some {
        lemma_blank(p.version->Some_0@);
    }
    lemma_view(r);
    lemma_view(p);
}

proof fn lemma_view(p: MobileServerProfile)
    ensures
        p@.id == p.id@ && p@.name == p.name@ && p@.server_host == p.server_host@ && p@.server
            == p.server@ && p@.control == p.control@,
        p@.admin == crate::endpoint::opt_text(p.admin),
        p@.auth == crate::endpoint::opt_text(p.auth),
        p@.version == crate::endpoint::opt_text(p.version),
        p@.last_connected_ms == p.last_connected_ms && p@.discovered == p.discovered,
{
}

proof fn lemma_host_of(h: Seq<char>, e: ClientServerEndpoint, control: String, admin: String)
    requires
        plain_host(h),
        e.host@ == h,
        call_ensures(ClientServerEndpoint::control_url, (&e,), control),
        call_ensures(ClientServerEndpoint::admin_url, (&e,), admin),
    ensures
        crate::endpoint::checked_host(h) == Ok::<Seq<char>, EndpointError>(h),
        control@ == crate::endpoint::control_url_of(h),
        admin@ == crate::endpoint::admin_url_of(h),
        trim(h) == h,
{
    crate::laws::endpoint::lemma_plain_host(h);
}

/// For a server with a host, what is given of its URLs and address stays, and what is
/// missing follows from the host.
pub proof fn missing_urls_follow_from_the_host(
    p: MobileServerProfile,
    at: ProfileAddresses,
    r: MobileServerProfile,
    e: ClientServerEndpoint,
    control: String,
    admin: String,
    found: String,
)
    requires
        call_ensures(normalize_mobile_profile, (p, at), r),
        plain_host(trim(p.server_host@)),
        e.host@ == trim(p.server_host@),
        call_ensures(ClientServerEndpoint::control_url, (&e,), control),
        call_ensures(ClientServerEndpoint::admin_url, (&e,), admin),
        at.found is Some ==> call_ensures(SocketAddress::to_text, (&at.found->Some_0,), found),
    ensures
        r.server_host@ == trim(p.server_host@),
        !all_space(p.control@) ==> r.control@ == trim(p.control@),
        all_space(p.control@) ==> r.control@ == control@,
        p.admin is Some && !all_space(p.admin->Some_0@) ==> r.admin is Some && r.admin->Some_0@
            == trim(p.admin->Some_0@),
        p.admin is None || all_space(p.admin->Some_0@) ==> r.admin is Some && r.admin->Some_0@
            == admin@,
        !all_space(p.server@) ==> r.server@ == trim(p.server@),
        all_space(p.server@) && at.found is Some ==> r.server@ == found@,
        all_space(p.server@) && at.found is None ==> r.server@.len() == 0,
{
    let h = trim(p.server_host@);
    lemma_host_of(h, e, control, admin);
    lemma_view(r);
    lemma_view(p);
    lemma_blank(p.control@);
    lemma_blank(p.server@);
    lemma_blank(p.server_host@);
    if p.admin is Some {
        lemma_blank(p.admin->Some_0@);
    }
}

/// A server with neither host nor address keeps its texts.
pub proof fn unplaced_servers_keep_their_texts(
    p: MobileServerProfile,
    at: ProfileAddresses,
    r: MobileServerProfile,
)
    requires
        call_ensures(normalize_mobile_profile, (p, at), r),
        all_space(p.server_host@),
        at.server is None,
    ensures
        r.server_host@.len() == 0,
        r.server@ == trim(p.server@) && r.control@ == trim(p.control@),
        r.admin is Some <==> p.admin is Some && !all_space(p.admin->Some_0@),
        r.admin is Some ==> r.admin->Some_0@ == trim(p.admin->Some_0@),
{
    lemma_view(r);
    lemma_view(p);
    lemma_blank(p.server_host@);
    if p.admin is Some {
        lemma_blank(p.admin->Some_0@);
    }
}

/// A server with an address and no host has its host from the endpoints that the
/// address and the URLs make; where these are the default ones they take the place of
/// its URLs.
pub proof fn placed_servers_follow_their_endpoints(
    p: MobileServerProfile,
    at: ProfileAddresses,
    r: MobileServerProfile,
    empty: &str,
    control: &str,
    admin: Option<String>,
    o: (ClientEndpointOverrides, Option<ClientServerEndpoint>),
    own: String,
    found: String,
)
    requires
        call_ensures(normalize_mobile_profile, (p, at), r),
        all_space(p.server_host@),
        at.server is Some,
        empty@.len() == 0,
        control@ == trim(p.control@),
        call_ensures(crate::endpoint::filled_text, (&p.admin,), admin),
        call_ensures(
            ClientEndpointOverrides::normalized,
            (empty, at.server->Some_0, control, admin, false),
            o,
        ),
        call_ensures(SocketAddress::to_text, (&o.0.server,), own),
        at.found is Some ==> call_ensures(SocketAddress::to_text, (&at.found->Some_0,), found),
    ensures
        r.server_host@ == o.0.server_host@,
        o.0.advanced_endpoints ==> r.server@ == trim(p.server@) && r.control@ == trim(p.control@),
        !o.0.advanced_endpoints ==> r.control@ == o.0.control@,
        !o.0.advanced_endpoints && o.1 is Some && at.found is Some ==> r.server@ == found@,
        !o.0.advanced_endpoints && (o.1 is None || at.found is None) ==> r.server@ == own@,
{
    lemma_view(r);
    lemma_view(p);
    lemma_blank(p.server_host@);
    crate::text::lemma_trim_keeps(empty@);
    assert(empty@ =~= Seq::<char>::empty());
    crate::text::trim_is_idempotent(p.control@);
    if p.admin is Some {
        crate::text::trim_is_idempotent(p.admin->Some_0@);
    }
    assert(o.0@.server.0 == o.0.server.ip@ && o.0@.server.1 == o.0.server.port);
}

/// The host of a server is looked up where its address is not given.
pub proof fn hosts_without_an_address_are_looked_up(
    p: MobileServerProfile,
    server: Option<SocketAddress>,
    r: Option<(String, u16)>,
)
    requires
        call_ensures(profile_lookup, (&p, &server), r),
    ensures
        plain_host(trim(p.server_host@)) && all_space(p.server@) ==> r is Some && r->Some_0.0@
            == trim(p.server_host@) && r->Some_0.1 == 40000,
        plain_host(trim(p.server_host@)) && !all_space(p.server@) ==> r is None,
        all_space(p.server_host@) && server is None ==> r is None,
{
    lemma_view(p);
    lemma_blank(p.server_host@);
    lemma_blank(p.server@);
    if plain_host(trim(p.server_host@)) {
        crate::laws::endpoint::lemma_plain_host(trim(p.server_host@));
    }
}

/// Servers are brought in order each for itself, and stay in their places.
pub proof fn servers_are_brought_in_order_each(
    known: Vec<MobileServerProfile>,
    at: Vec<ProfileAddresses>,
    r: Vec<MobileServerProfile>,
    i: int,
    one: MobileServerProfile,
)
    requires
        call_ensures(normalize_profiles, (known, at), r),
        at@.len() == known@.len(),
        0 <= i < known@.len(),
        call_ensures(normalize_mobile_profile, (known@[i], at@[i]), one),
    ensures
        r@.len() == known@.len(),
        r@[i]@ == one@,
{
    let s = profiles(known@);
    let a = crate::profiles::address_parts(at@);
    assert(profiles(r@).len() == r@.len());
    assert(profiles(r@)[i] == normal_profiles(s, a)[i]);
    assert(s[i] == known@[i]@);
}

// ---------------------------------------------------------------------------
// Remembering and forgetting
// ---------------------------------------------------------------------------

proof fn lemma_others_filter(s: Seq<ServerProfile>, id: Seq<char>, control: Seq<char>)
    ensures
        others(s, id, control) == s.filter(
            |p: ServerProfile| p.id != id && p.control != control,
        ),
    decreases s.len(),
{
    reveal(Seq::filter);
    if s.len() > 0 {
        lemma_others_filter(s.drop_last(), id, control);
    }
}

proof fn lemma_without_filter(s: Seq<ServerProfile>, id: Seq<char>)
    ensures
        without_id(s, id) == s.filter(|p: ServerProfile| p.id != id),
    decreases s.len(),
{
    reveal(Seq::filter);
    if s.len() > 0 {
        lemma_without_filter(s.drop_last(), id);
    }
}

/// A server that is remembered comes first, before the others in their order; an older
/// entry of it is gone, and no more than twenty are kept.
pub proof fn the_newest_server_comes_first(
    known: &mut Vec<MobileServerProfile>,
    p: MobileServerProfile,
)
    requires
        call_ensures(remember_profile, (known, p), ()),
    ensures
        ({
            let rest = profiles(old(known)@).filter(
                |q: ServerProfile| q.id != p.id@ && q.control != p.control@,
            );
            &&& p.server@.len() > 0 && p.control@.len() > 0 ==> {
                &&& profiles(final(known)@)[0] == p@
                &&& rest.len() < 20 ==> profiles(final(known)@) == seq![p@] + rest
                &&& rest.len() >= 20 ==> final(known)@.len() == 20 && profiles(final(known)@)
                    == seq![p@] + rest.take(19)
            }
            &&& p.server@.len() == 0 || p.control@.len() == 0 ==> profiles(final(known)@)
                == profiles(old(known)@)
        }),
{
    let s = profiles(old(known)@);
    lemma_view(p);
    lemma_others_filter(s, p@.id, p@.control);
    let rest = others(s, p@.id, p@.control);
    assert(profiles(final(known)@).len() == final(known)@.len());
    if rest.len() >= 20 {
        assert((seq![p@] + rest).take(20) =~= seq![p@] + rest.take(19));
    }
}

/// A server that is forgotten is gone, and the others stay in their order.
pub proof fn forgotten_servers_are_gone(
    known: Vec<MobileServerProfile>,
    id: &str,
    r: Vec<MobileServerProfile>,
)
    requires
        call_ensures(forget_profile, (&known, id), r),
    ensures
        profiles(r@) == profiles(known@).filter(|p: ServerProfile| p.id != id@),
{
    lemma_without_filter(profiles(known@), id@);
}

// ---------------------------------------------------------------------------
// Showing
// ---------------------------------------------------------------------------

/// Servers are shown by when they were last connected to, the latest first and those
/// never connected to last; then those that were discovered; then by name. None is lost
/// and none is added.
pub proof fn servers_are_shown_latest_first(
    known: Vec<MobileServerProfile>,
    r: Vec<MobileServerProfile>,
    i: int,
    j: int,
)
    requires
        call_ensures(sort_profiles, (known,), r),
    ensures
        profiles(r@).to_multiset() == profiles(known@).to_multiset(),
        0 <= i < j < r@.len() ==> ({
            let a = r@[i];
            let b = r@[j];
            &&& b.last_connected_ms is Some ==> a.last_connected_ms is Some
                && a.last_connected_ms->Some_0 >= b.last_connected_ms->Some_0
            &&& a.last_connected_ms == b.last_connected_ms && b.discovered ==> a.discovered
            &&& a.last_connected_ms == b.last_connected_ms && a.discovered == b.discovered
                ==> !crate::text::text_before(b.name@, a.name@)
        }),
{
    let s = profiles(known@);
    sort_is_a_permutation(s, shown_order());
    shown_servers_are_in_order(s);
    if 0 <= i < j < r@.len() {
        let t = profiles(r@);
        assert(t[i] == r@[i]@ && t[j] == r@[j]@);
        assert(!shown_order()(t[j], t[i]));
    }
}

/// Servers that are brought in order and shown are those, sorted.
pub proof fn shown_servers_are_in_order_first(
    known: Vec<MobileServerProfile>,
    at: Vec<ProfileAddresses>,
    r: Vec<MobileServerProfile>,
    neat: Vec<MobileServerProfile>,
    sorted: Vec<MobileServerProfile>,
)
    requires
        call_ensures(native_sorted_profiles, (known, at), r),
        call_ensures(normalize_profiles, (known, at), neat),
        call_ensures(sort_profiles, (neat,), sorted),
    ensures
        profiles(r@) == profiles(sorted@),
{
}

proof fn lemma_known_index(s: Seq<ServerProfile>, id: Seq<char>, control: Seq<char>, i: int, k: int)
    requires
        0 <= i <= k < s.len(),
        s[k].id == id || s[k].control == control,
        forall|j: int| i <= j < k ==> (#[trigger] s[j]).id != id && s[j].control != control,
    ensures
        known_index(s, id, control, i) == k,
    decreases k - i,
{
    if i < k {
        assert(s[i].id != id && s[i].control != control);
        lemma_known_index(s, id, control, i + 1, k);
    }
}

proof fn lemma_unknown(s: Seq<ServerProfile>, id: Seq<char>, control: Seq<char>, i: int)
    requires
        0 <= i <= s.len(),
        forall|j: int| i <= j < s.len() ==> (#[trigger] s[j]).id != id && s[j].control != control,
    ensures
        known_index(s, id, control, i) == s.len(),
    decreases s.len() - i,
{
    if i < s.len() {
        lemma_unknown(s, id, control, i + 1);
    }
}

/// One more server that is discovered takes the place of the first known one with its
/// id or its control URL, which keeps when it was last connected to, or else comes
/// behind all others; it is marked as discovered, and the others stay.
pub proof fn discovered_servers_join_the_known_ones(
    saved: Vec<MobileServerProfile>,
    fewer: Vec<MobileServerProfile>,
    fewer_at: Vec<ProfileAddresses>,
    more: Vec<MobileServerProfile>,
    more_at: Vec<ProfileAddresses>,
    a: Vec<MobileServerProfile>,
    b: Vec<MobileServerProfile>,
    p: MobileServerProfile,
    k: int,
)
    requires
        more@.len() == fewer@.len() + 1 && more@.drop_last() == fewer@,
        more_at@.len() == more@.len() && more_at@.drop_last() == fewer_at@,
        call_ensures(native_merge_profiles, (saved, fewer, fewer_at), a),
        call_ensures(native_merge_profiles, (saved, more, more_at), b),
        call_ensures(normalize_mobile_profile, (more@.last(), more_at@.last()), p),
    ensures
        0 <= k < a@.len() && (a@[k].id@ == p.id@ || a@[k].control@ == p.control@) && (forall|j: int|
            0 <= j < k ==> (#[trigger] a@[j]).id@ != p.id@ && a@[j].control@ != p.control@)
            ==> profiles(b@) == profiles(a@).update(
            k,
            (ServerProfile {
                discovered: true,
                last_connected_ms: a@[k].last_connected_ms,
                ..p@
            }),
        ),
        (forall|j: int|
            0 <= j < a@.len() ==> (#[trigger] a@[j]).id@ != p.id@ && a@[j].control@ != p.control@)
            ==> profiles(b@) == profiles(a@).push((ServerProfile { discovered: true, ..p@ })),
        fewer@.len() == 0 ==> profiles(a@) == profiles(saved@),
{
    let s = normal_profiles(
        profiles(fewer@),
        crate::profiles::address_parts(fewer_at@),
    );
    let t = normal_profiles(profiles(more@), crate::profiles::address_parts(more_at@));
    assert forall|i: int| 0 <= i < fewer@.len() implies fewer@[i] == more@[i] && fewer_at@[i]
        == more_at@[i] by {
        assert(more@.drop_last()[i] == more@[i] && more_at@.drop_last()[i] == more_at@[i]);
    }
    assert(t.drop_last() =~= s);
    assert(t.last() == p@);
    let m = profiles(a@);
    assert forall|j: int| 0 <= j < m.len() implies (#[trigger] m[j]).id == a@[j].id@ && m[j].control
        == a@[j].control@ && m[j].last_connected_ms == a@[j].last_connected_ms by {
        assert(m[j] == a@[j]@);
    }
    if 0 <= k < a@.len() && (a@[k].id@ == p.id@ || a@[k].control@ == p.control@) && (forall|j: int|
        0 <= j < k ==> (#[trigger] a@[j]).id@ != p.id@ && a@[j].control@ != p.control@) {
        assert forall|j: int| 0 <= j < k implies (#[trigger] m[j]).id != p@.id && m[j].control
            != p@.control by {
            assert(a@[j].id@ != p.id@);
        }
        lemma_known_index(m, p@.id, p@.control, 0, k);
    }
    if forall|j: int|
        0 <= j < a@.len() ==> (#[trigger] a@[j]).id@ != p.id@ && a@[j].control@ != p.control@ {
        assert forall|j: int| 0 <= j < m.len() implies (#[trigger] m[j]).id != p@.id && m[j].control
            != p@.control by {
            assert(a@[j].id@ != p.id@);
        }
        lemma_unknown(m, p@.id, p@.control, 0);
    }
}

/// Merged servers are shown in the order of all servers.
pub proof fn merged_servers_are_sorted(
    saved: Vec<MobileServerProfile>,
    discovered: Vec<MobileServerProfile>,
    at: Vec<ProfileAddresses>,
    r: Vec<MobileServerProfile>,
    merged: Vec<MobileServerProfile>,
    sorted: Vec<MobileServerProfile>,
)
    requires
        call_ensures(merge_mobile_profiles, (saved, discovered, at), r),
        call_ensures(native_merge_profiles, (saved, discovered, at), merged),
        call_ensures(sort_profiles, (merged,), sorted),
    ensures
        profiles(r@) == profiles(sorted@),
{
}

} // verus!
