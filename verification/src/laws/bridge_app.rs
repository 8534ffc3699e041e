//! The program that runs the routes.

use vstd::prelude::*;
use vstd::utf8::{decode_utf8, valid_utf8};

use crate::bridge_app::{
    admin_channels, admin_state_body, apply_ndi_route_status, channels, channels_of_state,
    default_channel_options, discovery_warnings, fallback_channel_options, merge_channel_options,
    merged_channels_are_in_order, merging_keeps_the_first_name, merging_names_new_channels,
    merging_offers_every_channel, ndi_discovery, offered_names, offered_names_are_in_order, offers,
    route_status, routed_channels, row_channels, said_only, sorted_names, source_step,
    state_snapshot, vmix_source_page, vmix_source_url, warnings, BridgeAppStateResponse,
    BrowserConnections, BrowserSourceTelemetry, BrowserSourceTelemetrySnapshot, ChannelOption,
    NdiDiscovery, RouteObservation, RouteRuntimeStatus, SourceAction, SourceEvent, Surroundings,
};
use crate::bridge::BridgeMode;
use crate::json::{read_json_rows, rows, rows_read};
use crate::laws::telemetry::one_more;
use crate::laws::text::{all_space, lemma_blank};
use crate::order::{sort_keeps_members, stable_sort};
use crate::routes::{BridgeAppConfig, BridgeRouteConfig, RouteInputKind, RouteOutputKind};
use crate::text::{decimal, texts, trim};
use crate::web::{headers_ok, html_escape, read_first_line, split_response, trim_end_char};

verus! {

// ---------------------------------------------------------------------------
// Names and channels
// ---------------------------------------------------------------------------

proof fn lemma_said(s: Seq<Seq<char>>, x: Seq<char>)
    ensures
        said_only(s).contains(x) <==> s.contains(x) && !all_space(x),
    decreases s.len(),
{
    if s.len() > 0 {
        let t = s.drop_last();
        lemma_said(t, x);
        lemma_blank(s.last());
        assert(s =~= t.push(s.last()));
        let r = said_only(s);
        if t.contains(x) {
            let k = choose|k: int| 0 <= k < t.len() && t[k] == x;
            assert(s[k] == x);
        }
        if s.contains(x) {
            let k = choose|k: int| 0 <= k < s.len() && s[k] == x;
            if k < t.len() {
                assert(t[k] == x);
            }
        }
        if !crate::text::is_blank(s.last()) {
            assert(r == said_only(t).push(s.last()));
            assert(r[r.len() - 1] == s.last());
            if said_only(t).contains(x) {
                let k = choose|k: int| 0 <= k < said_only(t).len() && said_only(t)[k] == x;
                assert(r[k] == x);
            }
            if r.contains(x) {
                let k = choose|k: int| 0 <= k < r.len() && r[k] == x;
                if k < said_only(t).len() {
                    assert(said_only(t)[k] == x);
                }
            }
            assert(s[s.len() - 1] == s.last());
        }
    }
}

/// A name is offered where it is given and says something.
pub proof fn lemma_offered(s: Seq<Seq<char>>, x: Seq<char>)
    ensures
        offered_names(s).contains(x) <==> s.contains(x) && !all_space(x),
{
    let c = said_only(s);
    lemma_said(s, x);
    sort_keeps_members(c, crate::bridge_app::text_order(), x);
    lemma_kept(stable_sort(c, crate::bridge_app::text_order()), x);
}

/// The names that say something are offered, every one of them and no others, in order
/// and each once.
pub proof fn names_that_say_something_are_offered(
    names: Vec<String>,
    r: Vec<String>,
    x: Seq<char>,
    i: int,
    j: int,
)
    requires
        call_ensures(sorted_names, (names,), r),
    ensures
        texts(r@).contains(x) <==> texts(names@).contains(x) && !all_space(x),
        0 <= i < j < r@.len() ==> crate::text::text_before(r@[i]@, r@[j]@),
{
    let s = texts(names@);
    lemma_offered(s, x);
    if 0 <= i < j < r@.len() {
        assert(texts(r@)[i] == r@[i]@ && texts(r@)[j] == r@[j]@);
        offered_names_are_in_order(s, i, j);
    }
}

proof fn lemma_kept(t: Seq<Seq<char>>, x: Seq<char>)
    ensures
        crate::order::drop_repeats(t, crate::bridge_app::same_text()).contains(x) <==> t.contains(
            x,
        ),
        t.len() > 0 ==> crate::order::drop_repeats(t, crate::bridge_app::same_text()).len() > 0
            && crate::order::drop_repeats(t, crate::bridge_app::same_text()).last() == t.last(),
    decreases t.len(),
{
    if t.len() > 0 {
        let u = t.drop_last();
        let same = crate::bridge_app::same_text();
        lemma_kept(u, x);
        let a = crate::order::drop_repeats(u, same);
        let b = crate::order::drop_repeats(t, same);
        assert(t =~= u.push(t.last()));
        if u.contains(x) {
            let k = choose|k: int| 0 <= k < u.len() && u[k] == x;
            assert(t[k] == x);
        }
        if t.contains(x) {
            let k = choose|k: int| 0 <= k < t.len() && t[k] == x;
            if k < u.len() {
                assert(u[k] == x);
            }
        }
        assert(t[t.len() - 1] == t.last());
        if a.len() > 0 && same(a.last(), t.last()) {
            assert(b == a);
            assert(a[a.len() - 1] == t.last());
        } else {
            assert(b == a.push(t.last()));
            assert(b[b.len() - 1] == t.last());
            if a.contains(x) {
                let k = choose|k: int| 0 <= k < a.len() && a[k] == x;
                assert(b[k] == x);
            }
            if b.contains(x) {
                let k = choose|k: int| 0 <= k < b.len() && b[k] == x;
                if k < a.len() {
                    assert(a[k] == x);
                }
            }
        }
    }
}

/// Some route uses the channel.
pub open spec fn routed(routes: Seq<BridgeRouteConfig>, id: u16) -> bool {
    exists|k: int|
        0 <= k < routes.len() && ((#[trigger] routes[k]).tx_channels@.contains(id)
            || routes[k].listen_channels@.contains(id))
}

/// Some option has the number.
pub open spec fn has_channel(options: Seq<ChannelOption>, id: u16) -> bool {
    exists|k: int| 0 <= k < options.len() && (#[trigger] options[k]).id == id
}

proof fn lemma_routed(routes: Seq<BridgeRouteConfig>, n: int, id: u16)
    requires
        0 <= n <= routes.len(),
    ensures
        routed_channels(routes, n).contains(id) <==> routed(routes.take(n), id),
    decreases n,
{
    if n > 0 {
        lemma_routed(routes, n - 1, id);
        let a = routed_channels(routes, n - 1);
        let b = routes[n - 1].tx_channels@;
        let c = routes[n - 1].listen_channels@;
        let s = routed_channels(routes, n);
        if s.contains(id) {
            let k = choose|k: int| 0 <= k < s.len() && s[k] == id;
            if k < a.len() {
                assert(a[k] == id);
                let m = choose|m: int|
                    0 <= m < n - 1 && ((#[trigger] routes.take(n - 1)[m]).tx_channels@.contains(id)
                        || routes.take(n - 1)[m].listen_channels@.contains(id));
                assert(routes.take(n)[m] == routes.take(n - 1)[m]);
            } else {
                if k < a.len() + b.len() {
                    assert(b[k - a.len()] == id);
                } else {
                    assert(c[k - a.len() - b.len()] == id);
                }
                assert(routes.take(n)[n - 1] == routes[n - 1]);
            }
        }
        if routed(routes.take(n), id) {
            let m = choose|m: int|
                0 <= m < n && ((#[trigger] routes.take(n)[m]).tx_channels@.contains(id)
                    || routes.take(n)[m].listen_channels@.contains(id));
            if m < n - 1 {
                assert(routes.take(n - 1)[m] == routes.take(n)[m]);
                assert(a.contains(id));
                let k = choose|k: int| 0 <= k < a.len() && a[k] == id;
                assert(s[k] == id);
            } else if b.contains(id) {
                let k = choose|k: int| 0 <= k < b.len() && b[k] == id;
                assert(s[a.len() + k] == id);
            } else {
                let k = choose|k: int| 0 <= k < c.len() && c[k] == id;
                assert(s[a.len() + b.len() + k] == id);
            }
        }
    }
}

proof fn lemma_offers(s: Seq<ChannelOption>, id: u16)
    ensures
        offers(channels(s), id) <==> has_channel(s, id),
{
    if offers(channels(s), id) {
        let k = choose|k: int| 0 <= k < channels(s).len() && (#[trigger] channels(s)[k]).0 == id;
        assert(s[k].id == id);
    }
    if has_channel(s, id) {
        let k = choose|k: int| 0 <= k < s.len() && (#[trigger] s[k]).id == id;
        assert(channels(s)[k].0 == id);
    }
}

/// The channels to choose from are the known ones and those that routes use, and no
/// others, in the order of their numbers and each once.
pub proof fn channels_to_choose_from(
    options: Vec<ChannelOption>,
    config: BridgeAppConfig,
    r: Vec<ChannelOption>,
    id: u16,
    i: int,
    j: int,
)
    requires
        call_ensures(merge_channel_options, (options, &config), r),
    ensures
        has_channel(r@, id) <==> has_channel(options@, id) || routed(config.routes@, id),
        0 <= i < j < r@.len() ==> r@[i].id < r@[j].id,
{
    let s = config.routes@;
    lemma_offers(r@, id);
    lemma_offers(options@, id);
    lemma_routed(s, s.len() as int, id);
    assert(s.take(s.len() as int) =~= s);
    merging_offers_every_channel(channels(options@), s, id);
    if 0 <= i < j < r@.len() {
        merged_channels_are_in_order(channels(options@), s, i, j);
        assert(channels(r@)[i].0 == r@[i].id && channels(r@)[j].0 == r@[j].id);
    }
}

/// A known channel keeps its first name, and one that only routes use is named by its
/// number.
pub proof fn channels_keep_their_names(
    options: Vec<ChannelOption>,
    config: BridgeAppConfig,
    r: Vec<ChannelOption>,
    i: int,
    k: int,
)
    requires
        call_ensures(merge_channel_options, (options, &config), r),
        0 <= i < r@.len(),
    ensures
        0 <= k < options@.len() && options@[k].id == r@[i].id && (forall|j: int|
            0 <= j < k ==> (#[trigger] options@[j]).id != options@[k].id) ==> r@[i].name@
            == options@[k].name@,
        !has_channel(options@, r@[i].id) ==> r@[i].name@ == "Channel "@ + decimal(
            r@[i].id as nat,
        ),
{
    let s = channels(options@);
    let m = channels(r@);
    assert(m[i] == (r@[i].id, r@[i].name@));
    if 0 <= k < options@.len() && options@[k].id == r@[i].id && (forall|j: int|
        0 <= j < k ==> (#[trigger] options@[j]).id != options@[k].id) {
        assert forall|j: int| 0 <= j < k implies (#[trigger] s[j]).0 != s[k].0 by {
            assert(options@[j].id != options@[k].id);
        }
        merging_keeps_the_first_name(s, config.routes@, k);
        assert(m[i] == s[k]);
    }
    if !has_channel(options@, r@[i].id) {
        lemma_offers(options@, r@[i].id);
        lemma_offers(r@, r@[i].id);
        merging_offers_every_channel(s, config.routes@, r@[i].id);
        assert(has_channel(r@, r@[i].id));
        merging_names_new_channels(s, config.routes@, r@[i].id);
    }
}

/// Without a server the usual channels take the place of the known ones.
pub proof fn usual_channels_stand_in(
    config: BridgeAppConfig,
    r: Vec<ChannelOption>,
    usual: Vec<ChannelOption>,
    merged: Vec<ChannelOption>,
)
    requires
        call_ensures(fallback_channel_options, (&config,), r),
        call_ensures(default_channel_options, (), usual),
        call_ensures(merge_channel_options, (usual, &config), merged),
    ensures
        channels(r@) == channels(merged@),
{
}

/// The usual channels are eight, numbered from zero.
pub proof fn usual_channels_are_numbered(usual: Vec<ChannelOption>, i: int)
    requires
        call_ensures(default_channel_options, (), usual),
    ensures
        usual@.len() == 8,
        0 <= i < 8 ==> usual@[i].id == i,
        usual@[0].name@ == "open"@ && usual@[1].name@ == "Program"@ && usual@[2].name@
            == "Production PL"@ && usual@[3].name@ == "Referee PL"@ && usual@[4].name@
            == "Director IFB"@ && usual@[5].name@ == "Producer Cue"@ && usual@[6].name@ == "PA"@
            && usual@[7].name@ == "Utility"@,
{
    let s = channels(usual@);
    assert(s.len() == usual@.len());
    assert(s[0] == (usual@[0].id, usual@[0].name@) && s[1] == (usual@[1].id, usual@[1].name@));
    assert(s[2] == (usual@[2].id, usual@[2].name@) && s[3] == (usual@[3].id, usual@[3].name@));
    assert(s[4] == (usual@[4].id, usual@[4].name@) && s[5] == (usual@[5].id, usual@[5].name@));
    assert(s[6] == (usual@[6].id, usual@[6].name@) && s[7] == (usual@[7].id, usual@[7].name@));
}

/// A row of the server's state is one channel more, behind those of the rows before it,
/// where it has a number that a channel can have; otherwise it is passed over.
pub proof fn rows_of_the_state_are_channels(
    fewer: Vec<(Option<u64>, Option<String>)>,
    more: Vec<(Option<u64>, Option<String>)>,
    row: (Option<u64>, Option<String>),
    r: Result<Vec<ChannelOption>, String>,
    s: Result<Vec<ChannelOption>, String>,
)
    requires
        more@ == fewer@.push(row),
        call_ensures(channels_of_state, (Some(Some(fewer)),), r),
        call_ensures(channels_of_state, (Some(Some(more)),), s),
    ensures
        ({
            let before = if r is Ok {
                r->Ok_0@.len() as int
            } else {
                0
            };
            if row.0 is Some && row.0->Some_0 <= 65535 {
                &&& s is Ok && s->Ok_0@.len() == before + 1
                &&& s->Ok_0@.last().id == row.0->Some_0
                &&& row.1 is Some ==> s->Ok_0@.last().name@ == trim(row.1->Some_0@)
                &&& row.1 is None ==> s->Ok_0@.last().name@.len() == 0
                &&& r is Ok ==> channels(s->Ok_0@).drop_last() == channels(r->Ok_0@)
            } else {
                &&& s is Ok <==> r is Ok
                &&& s is Ok ==> channels(s->Ok_0@) == channels(r->Ok_0@)
            }
        }),
        r is Err ==> r->Err_0@ == "admin state returned no channel options"@,
        fewer@.len() == 0 ==> r is Err,
{
    let a = rows(fewer@);
    let b = rows(more@);
    assert(b.drop_last() =~= a);
    assert(b.last() == (row.0, crate::endpoint::opt_text(row.1)));
    assert(rows_read(Some(Some(fewer))) == Some(Some(a)));
    assert(rows_read(Some(Some(more))) == Some(Some(b)));
    if s is Ok {
        let v = s->Ok_0@;
        assert(channels(v).len() == v.len());
        if v.len() > 0 {
            assert(channels(v)[v.len() - 1] == (v.last().id, v.last().name@));
        }
    }
    if r is Ok {
        assert(channels(r->Ok_0@).len() == r->Ok_0@.len());
    }
    assert(row_channels(b).len() > 0 ==> s is Ok);
    if row.0 is Some && row.0->Some_0 <= 65535 {
        assert(row_channels(b).drop_last() =~= row_channels(a));
    }
}

/// What is no JSON, and what has no channels, is told as such.
pub proof fn states_without_channels_are_refused(
    r: Result<Vec<ChannelOption>, String>,
    s: Result<Vec<ChannelOption>, String>,
)
    requires
        call_ensures(
            channels_of_state,
            (None::<Option<Vec<(Option<u64>, Option<String>)>>>,),
            r,
        ),
        call_ensures(
            channels_of_state,
            (Some(None::<Vec<(Option<u64>, Option<String>)>>),),
            s,
        ),
    ensures
        r is Err && r->Err_0@ == "parse admin state JSON"@,
        s is Err && s->Err_0@ == "admin state JSON has no channels array"@,
{
}

/// The state is the body of a response that is text, is in two parts and tells of
/// success; any other response is told by what is wrong with it.
pub proof fn states_are_read_from_responses(
    response: Vec<u8>,
    r: Result<String, String>,
    text: &str,
    parts: Option<(String, String)>,
    headers: &str,
    ok: bool,
    line: String,
)
    requires
        call_ensures(admin_state_body, (response,), r),
        valid_utf8(response@) ==> text@ == decode_utf8(response@),
        call_ensures(split_response, (text,), parts),
        parts is Some ==> headers@ == parts->Some_0.0@,
        call_ensures(headers_ok, (headers,), ok),
        call_ensures(read_first_line, (headers,), line),
    ensures
        !valid_utf8(response@) ==> r is Err && r->Err_0@ == "admin state response is not utf-8"@,
        valid_utf8(response@) && parts is None ==> r is Err && r->Err_0@
            == "admin state response has no header/body split"@,
        valid_utf8(response@) && parts is Some && ok ==> r is Ok && r->Ok_0@ == parts->Some_0.1@,
        valid_utf8(response@) && parts is Some && !ok ==> r is Err && (headers@.len() > 0
            ==> r->Err_0@ == "admin state returned "@ + line@),
{
}

/// The channels of a server are those that its state, read as JSON, lists.
pub proof fn channels_are_read_from_responses(
    response: Vec<u8>,
    r: Result<Vec<ChannelOption>, String>,
    body: Result<String, String>,
    text: &str,
    array: &str,
    number: &str,
    label: &str,
    read: Option<Option<Vec<(Option<u64>, Option<String>)>>>,
    s: Result<Vec<ChannelOption>, String>,
)
    requires
        call_ensures(admin_channels, (response,), r),
        call_ensures(admin_state_body, (response,), body),
        body is Ok ==> text@ == body->Ok_0@,
        array@ == "channels"@ && number@ == "id"@ && label@ == "name"@,
        call_ensures(read_json_rows, (text, array, number, label), read),
        call_ensures(channels_of_state, (read,), s),
    ensures
        body is Err ==> r is Err && r->Err_0@ == body->Err_0@,
        body is Ok ==> (r is Ok <==> s is Ok) && (r is Ok ==> channels(r->Ok_0@) == channels(
            s->Ok_0@,
        )) && (r is Err ==> r->Err_0@ == s->Err_0@),
{
}

// ---------------------------------------------------------------------------
// Telemetry and connections
// ---------------------------------------------------------------------------

/// What happens to a browser source is counted as such, and as nothing else.
pub proof fn sources_count_what_happens(
    a: &mut BrowserSourceTelemetry,
    level_ppm: u32,
    now_ms: u64,
    b: &mut BrowserSourceTelemetry,
    c: &mut BrowserSourceTelemetry,
    d: &mut BrowserSourceTelemetry,
    n: u64,
)
    requires
        call_ensures(BrowserSourceTelemetry::record_audio, (a, level_ppm, now_ms), ()),
        call_ensures(BrowserSourceTelemetry::record_underflow, (b,), ()),
        call_ensures(BrowserSourceTelemetry::record_drop, (c,), ()),
        call_ensures(BrowserSourceTelemetry::record_drops, (d, n), ()),
    ensures
        final(a).audio_level_ppm == level_ppm && final(a).last_audio_ms == now_ms && one_more(
            old(a).audio_frames,
            final(a).audio_frames,
        ) && final(a).underflows == old(a).underflows && final(a).drops == old(a).drops,
        one_more(old(b).underflows, final(b).underflows) && final(b).drops == old(b).drops
            && final(b).audio_frames == old(b).audio_frames && final(b).last_audio_ms
            == old(b).last_audio_ms,
        one_more(old(c).drops, final(c).drops) && final(c).underflows == old(c).underflows
            && final(c).audio_frames == old(c).audio_frames && final(c).last_audio_ms
            == old(c).last_audio_ms,
        old(d).drops + n <= u64::MAX ==> final(d).drops == old(d).drops + n,
        final(d).underflows == old(d).underflows && final(d).audio_frames == old(d).audio_frames
            && final(d).last_audio_ms == old(d).last_audio_ms,
{
}

/// A source is stale before its first audio, and again when more than two seconds have
/// passed since its last.
pub proof fn sources_go_stale(
    t: BrowserSourceTelemetry,
    now_ms: u64,
    r: BrowserSourceTelemetrySnapshot,
)
    requires
        call_ensures(BrowserSourceTelemetry::snapshot, (&t, now_ms), r),
    ensures
        t.audio_frames == 0 ==> r.stale && r.audio_level_ppm is None,
        t.audio_frames > 0 ==> r.audio_level_ppm == Some(t.audio_level_ppm),
        t.audio_frames > 0 && 0 < t.last_audio_ms <= now_ms ==> (r.stale <==> now_ms
            - t.last_audio_ms > 2000),
        t.audio_frames > 0 && (t.last_audio_ms == 0 || now_ms < t.last_audio_ms) ==> !r.stale,
        0 < t.last_audio_ms <= now_ms ==> r.last_audio_ms_ago is Some && r.last_audio_ms_ago->Some_0
            == now_ms - t.last_audio_ms,
        t.last_audio_ms == 0 ==> r.last_audio_ms_ago is None,
        r.audio_frames == t.audio_frames && r.underflows == t.underflows && r.drops == t.drops,
{
}

/// A browser gets the frame that came, silence where none came in time, and nothing
/// more at the end; frames that were passed over are counted as lost.
pub proof fn browsers_get_what_came(
    t: &mut BrowserSourceTelemetry,
    event: SourceEvent,
    r: SourceAction,
)
    requires
        call_ensures(source_step, (t, event), r),
    ensures
        event matches SourceEvent::Frame(bytes) ==> r == SourceAction::Send(bytes) && *final(t)
            == *old(t),
        event is TimedOut ==> r is SendSilence && one_more(old(t).underflows, final(t).underflows)
            && final(t).drops == old(t).drops && final(t).audio_frames == old(t).audio_frames,
        event is Closed ==> r is Stop && *final(t) == *old(t),
        event matches SourceEvent::Lagged(n) ==> r is Wait && (old(t).drops + n <= u64::MAX
            ==> final(t).drops == old(t).drops + n) && final(t).underflows == old(t).underflows,
{
}

/// A browser that connects is counted for its route and no other; one that leaves is
/// counted out; a route that is removed has none.
pub proof fn connections_are_counted(
    a: &mut BrowserConnections,
    b: &mut BrowserConnections,
    c: &mut BrowserConnections,
    id: &str,
    other: &str,
    before: u32,
    other_before: u32,
    after: u32,
    other_after: u32,
    left: u32,
    other_left: u32,
    removed: u32,
    other_removed: u32,
)
    requires
        call_ensures(BrowserConnections::increment, (a, id), ()),
        call_ensures(BrowserConnections::decrement, (b, id), ()),
        call_ensures(BrowserConnections::remove, (c, id), ()),
        *old(b) == *old(a) && *old(c) == *old(a),
        call_ensures(BrowserConnections::count, (old(a), id), before),
        call_ensures(BrowserConnections::count, (old(a), other), other_before),
        call_ensures(BrowserConnections::count, (final(a), id), after),
        call_ensures(BrowserConnections::count, (final(a), other), other_after),
        call_ensures(BrowserConnections::count, (final(b), id), left),
        call_ensures(BrowserConnections::count, (final(b), other), other_left),
        call_ensures(BrowserConnections::count, (final(c), id), removed),
        call_ensures(BrowserConnections::count, (final(c), other), other_removed),
        before < u32::MAX,
    ensures
        after == before + 1,
        before > 0 ==> left == before - 1,
        before == 0 ==> left == 0,
        removed == 0,
        other@ != id@ ==> other_after == other_before && other_left == other_before && other_removed
            == other_before,
{
}

/// Nobody is connected at first.
pub proof fn nobody_is_connected_at_first(c: BrowserConnections, id: &str, r: u32)
    requires
        call_ensures(BrowserConnections::new, (), c),
        call_ensures(BrowserConnections::count, (&c, id), r),
    ensures
        r == 0,
{
}

// ---------------------------------------------------------------------------
// Pages
// ---------------------------------------------------------------------------

/// The page of a route shows its name and plays its source, both escaped.
pub proof fn pages_show_the_route(
    route: BridgeRouteConfig,
    r: String,
    name: &str,
    id: &str,
    title: String,
    source: String,
)
    requires
        call_ensures(vmix_source_page, (&route,), r),
        name@ == route.name@ && id@ == route.id@,
        call_ensures(html_escape, (name,), title),
        call_ensures(html_escape, (id,), source),
    ensures
        r@ == crate::bridge_app::PAGE_HEAD@ + title@ + crate::bridge_app::PAGE_STYLE@ + title@
            + crate::bridge_app::PAGE_SCRIPT@ + source@ + crate::bridge_app::PAGE_OPEN@ + title@
            + crate::bridge_app::PAGE_CLOSE@ + title@ + crate::bridge_app::PAGE_ERROR@ + title@
            + crate::bridge_app::PAGE_FAILED@ + title@ + crate::bridge_app::PAGE_END@,
{
}

/// The page of a route is found below the base, whose slash is not doubled.
pub proof fn pages_are_found_below_the_base(
    base: &str,
    route: BridgeRouteConfig,
    r: String,
    bare: String,
    id: &str,
    segment: String,
)
    requires
        call_ensures(vmix_source_url, (base, &route), r),
        call_ensures(trim_end_char, (base, '/'), bare),
        id@ == route.id@,
        call_ensures(crate::web::encode_path_segment, (id,), segment),
    ensures
        r@ == bare@ + ("/vmix/source/"@ + segment@),
{
}

// ---------------------------------------------------------------------------
// The state that is shown
// ---------------------------------------------------------------------------

/// A search finds sources where the runtime is there and the search succeeds; what went
/// wrong is told.
pub proof fn searches_are_told(
    search: Result<Result<Vec<String>, String>, String>,
    r: NdiDiscovery,
    found: Vec<String>,
)
    requires
        call_ensures(ndi_discovery, (search,), r),
        search matches Ok(Ok(names)) ==> call_ensures(sorted_names, (names,), found),
    ensures
        r.available <==> search is Ok,
        search matches Ok(Ok(_)) ==> texts(r.sources@) == texts(found@) && r.error is None,
        search matches Ok(Err(e)) ==> r.sources@.len() == 0 && r.error is Some && r.error->Some_0@
            == "NDI source discovery failed: "@ + e@,
        search matches Err(e) ==> r.sources@.len() == 0 && r.error is Some && r.error->Some_0@
            == "NDI runtime unavailable: "@ + e@,
{
}

/// The status of a route without NDI tells what was seen of it.
pub proof fn statuses_tell_what_was_seen(
    route: BridgeRouteConfig,
    base: &str,
    clients: u32,
    seen: RouteObservation,
    ndi: NdiDiscovery,
    r: RouteRuntimeStatus,
    url: String,
)
    requires
        call_ensures(route_status, (&route, base, clients, seen, &ndi), r),
        call_ensures(vmix_source_url, (base, &route), url),
        route.input_kind != RouteInputKind::NdiSource && route.output_kind
            != RouteOutputKind::NdiOutput,
    ensures
        r.id@ == route.id@ && r.connected_clients == clients,
        r.source_url is Some <==> route.mode != BridgeMode::Input && route.output_kind
            == RouteOutputKind::VmixBrowserSource,
        r.source_url is Some ==> r.source_url->Some_0@ == url@,
        !(seen is Served) ==> r.audio_level_ppm is None && r.audio_frames == 0 && r.underflows == 0
            && r.drops == 0 && !r.stale && r.last_audio_ms_ago is None && r.runtime is None
            && r.warning is None,
        !(seen is Running) ==> r.pid is None,
        seen is Served ==> r.runtime is Some && r.runtime->Some_0@ == "WebSocket + Web Audio"@,
        seen is Idle ==> !r.running && r.pid is None && r.started_at_ms is None && r.exit is None
            && r.warning is None && !r.stale,
        seen matches RouteObservation::Running { pid, started_at_ms } ==> r.running && r.pid == pid
            && r.started_at_ms == Some(started_at_ms) && r.exit is None,
        seen matches RouteObservation::Exited(how) ==> !r.running && r.exit is Some
            && r.exit->Some_0@ == how@,
        seen matches RouteObservation::Unknown(why) ==> !r.running && r.exit is Some
            && r.exit->Some_0@ == "status error: "@ + why@,
        seen matches RouteObservation::Served { finished, started_at_ms, telemetry } ==> {
            &&& r.running == !finished && r.started_at_ms == Some(started_at_ms)
            &&& r.exit is Some <==> finished
            &&& r.audio_level_ppm == telemetry.audio_level_ppm && r.audio_frames
                == telemetry.audio_frames && r.underflows == telemetry.underflows && r.drops
                == telemetry.drops && r.stale == telemetry.stale && r.last_audio_ms_ago
                == telemetry.last_audio_ms_ago
            &&& finished ==> r.warning is None
            &&& !finished && telemetry.stale ==> r.warning->Some_0@
                == "Browser source is running but has not received recent RedLine audio"@
            &&& !finished && !telemetry.stale ==> r.warning->Some_0@
                == "Browser source page is streaming RedLine audio to connected vMix browser inputs"@
        },
{
    lemma_state(r);
}

proof fn lemma_state(r: RouteRuntimeStatus)
    ensures
        r@.id == r.id@,
        r@.running == r.running && r@.pid == r.pid && r@.started_at_ms == r.started_at_ms,
        r@.exit == crate::endpoint::opt_text(r.exit),
        r@.source_url == crate::endpoint::opt_text(r.source_url),
        r@.warning == crate::endpoint::opt_text(r.warning),
        r@.runtime == crate::endpoint::opt_text(r.runtime),
        r@.stale == r.stale,
{
}

/// A route that uses NDI is marked where the runtime is missing, and warns where its
/// source is not found; nothing else of it changes.
pub proof fn ndi_routes_are_marked(
    route: BridgeRouteConfig,
    s: &mut RouteRuntimeStatus,
    ndi: NdiDiscovery,
)
    requires
        call_ensures(apply_ndi_route_status, (&route, s, &ndi), ()),
    ensures
        ({
            let from = route.input_kind == RouteInputKind::NdiSource;
            let to = route.output_kind == RouteOutputKind::NdiOutput;
            &&& !from && !to ==> final(s)@ == old(s)@
            &&& (from || to) && !ndi.available ==> {
                &&& final(s).stale
                &&& final(s).runtime->Some_0@ == "NDI runtime unavailable"@
                &&& ndi.error is Some ==> final(s).warning->Some_0@ == ndi.error->Some_0@
                &&& ndi.error is None ==> final(s).warning->Some_0@ == "NDI runtime unavailable"@
                &&& final(s).warning is Some && final(s).runtime is Some
            }
            &&& (from || to) && ndi.available ==> {
                &&& final(s).stale == old(s).stale
                &&& final(s).runtime is Some && final(s).runtime->Some_0@ == "system NDI runtime"@
                &&& !from ==> final(s)@.warning == old(s)@.warning
                &&& from && ndi.sources@.len() == 0 ==> final(s).warning is Some
                    && final(s).warning->Some_0@
                    == "NDI runtime ready, but no sources were discovered"@
                &&& from && ndi.sources@.len() > 0 && route.ndi_source is Some
                    && route.ndi_source->Some_0@.len() > 0 && !texts(ndi.sources@).contains(
                    route.ndi_source->Some_0@,
                ) ==> final(s).warning is Some && final(s).warning->Some_0@
                    == "selected NDI source `"@ + route.ndi_source->Some_0@
                    + "` is not discovered"@
                &&& from && route.ndi_source is Some && texts(ndi.sources@).contains(
                    route.ndi_source->Some_0@,
                ) ==> final(s)@.warning == old(s)@.warning
            }
            &&& final(s).id@ == old(s).id@ && final(s).running == old(s).running && final(s).pid
                == old(s).pid && final(s)@.exit == old(s)@.exit && final(s).connected_clients
                == old(s).connected_clients && final(s).drops == old(s).drops
        }),
{
    lemma_state(*old(s));
    lemma_state(*final(s));
    assert(final(s)@.connected_clients == final(s).connected_clients);
    assert(final(s)@.drops == final(s).drops);
    if route.ndi_source is Some && texts(ndi.sources@).contains(route.ndi_source->Some_0@) {
        assert(texts(ndi.sources@).len() == ndi.sources@.len());
    }
}

/// What could not be found out is warned of: devices, channels, and NDI where a route
/// uses it.
pub proof fn failed_searches_are_warned_of(
    config: BridgeAppConfig,
    around: Surroundings,
    r: Vec<String>,
)
    requires
        call_ensures(discovery_warnings, (&config, &around), r),
    ensures
        around.input_devices matches Err(e) ==> texts(r@).contains(
            "input device discovery failed: "@ + e@,
        ),
        around.output_devices matches Err(e) ==> texts(r@).contains(
            "output device discovery failed: "@ + e@,
        ),
        around.channels matches Err(e) ==> texts(r@).contains(
            "server channel discovery failed: "@ + e@,
        ),
        around.ndi.error is Some && (exists|i: int|
            0 <= i < config.routes@.len() && ((#[trigger] config.routes@[i]).input_kind
                == RouteInputKind::NdiSource || config.routes@[i].output_kind
                == RouteOutputKind::NdiOutput)) ==> texts(r@).contains(
            around.ndi.error->Some_0@,
        ),
        around.input_devices is Ok && around.output_devices is Ok && around.channels is Ok
            && around.ndi.error is None && around.ndi.sources@.len() > 0 ==> r@.len() == 0,
        around.input_devices is Ok && around.output_devices is Ok && around.channels is Ok && (
        forall|i: int|
            0 <= i < config.routes@.len() ==> (#[trigger] config.routes@[i]).input_kind
                != RouteInputKind::NdiSource && config.routes@[i].output_kind
                != RouteOutputKind::NdiOutput) ==> r@.len() == 0,
{
    let s = config.routes@;
    let a = crate::bridge_app::warned("input device discovery failed: "@, around.input_devices);
    let b = crate::bridge_app::warned("output device discovery failed: "@, around.output_devices);
    let c = if (crate::bridge_app::takes_from_ndi(s) || crate::bridge_app::gives_to_ndi(s))
        && around.ndi.error is Some {
        seq![around.ndi.error->Some_0@]
    } else {
        Seq::empty()
    };
    let d = if around.ndi.available && crate::bridge_app::takes_from_ndi(s)
        && around.ndi.sources@.len() == 0 {
        seq!["NDI runtime is available but no sources were discovered"@]
    } else {
        Seq::empty()
    };
    let e = crate::bridge_app::warned("server channel discovery failed: "@, around.channels);
    let t = a + b + c + d + e;
    assert(texts(r@) == t);
    assert(texts(r@).len() == r@.len());
    if around.input_devices is Err {
        assert(t[0] == a[0]);
    }
    if around.output_devices is Err {
        assert(t[a.len() as int] == b[0]);
    }
    if around.channels is Err {
        assert(t[(a.len() + b.len() + c.len() + d.len()) as int] == e[0]);
    }
    if around.ndi.error is Some && (exists|i: int|
        0 <= i < s.len() && ((#[trigger] s[i]).input_kind == RouteInputKind::NdiSource
            || s[i].output_kind == RouteOutputKind::NdiOutput)) {
        assert(c.len() == 1);
        assert(t[(a.len() + b.len()) as int] == c[0]);
    }
}

/// The state that is shown is made of the parts: the status of each route, the names of
/// the devices, the channels and the warnings.
pub proof fn the_state_shows_every_part(
    config: BridgeAppConfig,
    bridge_bin: String,
    base_url: String,
    around: Surroundings,
    connections: BrowserConnections,
    seen: Vec<RouteObservation>,
    r: BridgeAppStateResponse,
    i: int,
    base: &str,
    id: &str,
    clients: u32,
    status: RouteRuntimeStatus,
    inputs: Vec<String>,
    outputs: Vec<String>,
    offered: Vec<ChannelOption>,
    warned: Vec<String>,
)
    requires
        call_ensures(
            state_snapshot,
            (config, bridge_bin, base_url, around, &connections, seen),
            r,
        ),
        0 <= i < config.routes@.len(),
        i < seen@.len(),
        base@ == base_url@ && id@ == config.routes@[i].id@,
        call_ensures(BrowserConnections::count, (&connections, id), clients),
        call_ensures(
            route_status,
            (&config.routes@[i], base, clients, seen@[i], &around.ndi),
            status,
        ),
        around.input_devices matches Ok(v) ==> call_ensures(sorted_names, (v,), inputs),
        around.output_devices matches Ok(v) ==> call_ensures(sorted_names, (v,), outputs),
        around.channels matches Ok(v) ==> call_ensures(merge_channel_options, (v, &config), offered),
        around.channels is Err ==> call_ensures(fallback_channel_options, (&config,), offered),
        call_ensures(discovery_warnings, (&config, &around), warned),
    ensures
        r.config == config && r.bridge_bin == bridge_bin && r.base_url == base_url,
        r.routes@.len() == config.routes@.len() && r.routes@[i]@ == status@,
        around.input_devices is Ok ==> texts(r.input_devices@) == texts(inputs@),
        around.input_devices is Err ==> r.input_devices@.len() == 0,
        around.output_devices is Ok ==> texts(r.output_devices@) == texts(outputs@),
        around.output_devices is Err ==> r.output_devices@.len() == 0,
        channels(r.channels@) == channels(offered@),
        texts(r.discovery_warnings@) == texts(warned@),
        r.ndi_available == around.ndi.available && r.ndi_sources == around.ndi.sources
            && r.ndi_error == around.ndi.error,
{
    assert(texts(r.input_devices@).len() == r.input_devices@.len());
    assert(texts(r.output_devices@).len() == r.output_devices@.len());
}

} // verus!
