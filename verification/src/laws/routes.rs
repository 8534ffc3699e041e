//! Routes between the server and the audio of a production machine.

use vstd::prelude::*;

use crate::bridge::BridgeMode;
use crate::config::ClientConfig;
use crate::endpoint::{ClientEndpointOverrides, ClientServerEndpoint, EndpointError};
use crate::gain::Gain;
use crate::laws::bridge::named;
use crate::laws::text::{all_space, lemma_blank};
use crate::net::SocketAddress;
use crate::protocol::{ClientRole, Codec, OpusProfile, TalkMode};
use crate::routes::{
    bridge_args, bridge_bin_path, bridge_mode_arg, browser_source_client_config, browser_start,
    codec_arg, common_args, csv_channels, csv_channels_or_default, enabled_ids, enabled_routes,
    filled_pair, find_browser_route, find_route, opus_profile_arg, pair, route_index,
    route_input_kind_arg, route_output_kind_arg, routes_fault, special_args, start_route,
    valid_routes_are_apart, validate_gain, BridgeAppArgs, BridgeAppConfig, BridgeAppError,
    BridgeRouteConfig, RouteInputKind, RouteOutputKind, StartAction,
};
use crate::routing::decimals;
use crate::session::{is_fresh, ClientStart, SharedDefaults};
use crate::text::{decimal, texts};

verus! {

// ---------------------------------------------------------------------------
// What a route may be
// ---------------------------------------------------------------------------

/// A route captures unless it only plays, plays unless it only captures, and serves
/// browsers where it plays to one.
pub proof fn routes_go_one_way_or_both(
    route: BridgeRouteConfig,
    captures: bool,
    plays: bool,
    browser: bool,
)
    requires
        call_ensures(BridgeRouteConfig::captures, (&route,), captures),
        call_ensures(BridgeRouteConfig::plays, (&route,), plays),
        call_ensures(BridgeRouteConfig::is_vmix_browser_source, (&route,), browser),
    ensures
        captures <==> route.mode != BridgeMode::Output,
        plays <==> route.mode != BridgeMode::Input,
        browser <==> route.mode != BridgeMode::Input && route.output_kind
            == RouteOutputKind::VmixBrowserSource,
{
}

/// A gain from zero to two is accepted, and no other; what is wrong names the gain.
pub proof fn gains_must_be_within_bounds(name: &str, gain: Gain, r: Result<(), String>)
    requires
        call_ensures(validate_gain, (name, gain), r),
    ensures
        r is Ok <==> gain.bits <= 0x4000_0000 || gain.bits == 0x8000_0000,
        r is Err ==> r->Err_0@ == name@ + " must be a finite value between 0 and 2"@,
{
}

proof fn lemma_unset(o: Option<String>)
    ensures
        crate::routes::unset(o) <==> !named(o),
{
    if o is Some {
        lemma_blank(o->Some_0@);
    }
}

/// A route is valid where it has an id and a number, gains within bounds, channels for
/// each direction that it goes and none for both, ends that fit its direction and are
/// named as their kind asks, and a codec that is supported.
pub proof fn valid_routes_meet_every_rule(
    route: BridgeRouteConfig,
    r: Result<(), String>,
    name: &str,
    input: Result<(), String>,
    output: Result<(), String>,
)
    requires
        call_ensures(BridgeRouteConfig::validate, (&route,), r),
        call_ensures(validate_gain, (name, route.input_gain), input),
        call_ensures(validate_gain, (name, route.output_gain), output),
    ensures
        r is Ok <==> {
            &&& !all_space(route.id@)
            &&& route.user_id > 0
            &&& input is Ok && output is Ok
            &&& route.mode != BridgeMode::Output ==> route.tx_channels@.len() > 0
            &&& route.mode != BridgeMode::Input ==> route.listen_channels@.len() > 0
            &&& route.input_kind == RouteInputKind::NdiSource ==> route.mode == BridgeMode::Input
                && named(route.ndi_source)
            &&& route.output_kind != RouteOutputKind::AudioDevice ==> route.mode
                == BridgeMode::Output
            &&& route.output_kind == RouteOutputKind::NdiOutput ==> named(route.ndi_output_name)
            &&& forall|c: u16|
                !(#[trigger] route.tx_channels@.contains(c) && route.listen_channels@.contains(c))
            &&& route.codec != Codec::Adpcm
        },
{
    lemma_blank(route.id@);
    lemma_unset(route.ndi_source);
    lemma_unset(route.ndi_output_name);
    let a = route.tx_channels@;
    let b = route.listen_channels@;
    if crate::routes::share_channel(a, b) {
        let i = choose|i: int| 0 <= i < a.len() && b.contains(#[trigger] a[i]);
        assert(a.contains(a[i]) && b.contains(a[i]));
    } else {
        assert forall|c: u16| !(#[trigger] a.contains(c) && b.contains(c)) by {
            if a.contains(c) && b.contains(c) {
                let i = choose|i: int| 0 <= i < a.len() && a[i] == c;
                assert(b.contains(a[i]));
            }
        }
    }
}

/// What is wrong with a route is told with its id.
pub proof fn faults_name_the_route(route: BridgeRouteConfig, r: Result<(), String>)
    requires
        call_ensures(BridgeRouteConfig::validate, (&route,), r),
        r is Err,
    ensures
        all_space(route.id@) ==> r->Err_0@ == "route id cannot be empty"@,
        !all_space(route.id@) && route.user_id == 0 ==> r->Err_0@ == "route `"@ + route.id@
            + "` user_id must be 1..65535"@,
{
    lemma_blank(route.id@);
}

proof fn lemma_routes_fault(routes: Seq<BridgeRouteConfig>, n: int)
    requires
        0 <= n <= routes.len(),
    ensures
        routes_fault(routes, n) is None <==> all_fine(routes, n),
    decreases n,
{
    if n > 0 {
        lemma_routes_fault(routes, n - 1);
    }
}

spec fn all_fine(routes: Seq<BridgeRouteConfig>, n: int) -> bool {
    forall|i: int|
        0 <= i < n ==> (#[trigger] crate::routes::nth_route_fault(routes, i)) is None
}

/// The routes of a valid configuration are valid, and no two of them share an id or a
/// number.
pub proof fn valid_configurations_have_valid_routes(
    config: BridgeAppConfig,
    r: Result<(), String>,
    i: int,
    j: int,
    of_route: Result<(), String>,
)
    requires
        call_ensures(BridgeAppConfig::validate, (&config,), r),
        r is Ok,
        0 <= i < config.routes@.len(),
        0 <= j < config.routes@.len(),
        call_ensures(BridgeRouteConfig::validate, (&config.routes@[i],), of_route),
    ensures
        of_route is Ok,
        !all_space(config.app_title@),
        i != j ==> config.routes@[i].id@ != config.routes@[j].id@ && config.routes@[i].user_id
            != config.routes@[j].user_id,
{
    lemma_blank(config.app_title@);
    valid_routes_are_apart(config, i, j);
}

/// A configuration with a title, valid endpoints and valid routes with ids and numbers
/// of their own is valid.
pub proof fn configurations_of_valid_parts_are_valid(
    config: BridgeAppConfig,
    r: Result<(), String>,
    o: (ClientEndpointOverrides, Option<ClientServerEndpoint>),
    fields: Result<(), EndpointError>,
    of_routes: Seq<Result<(), String>>,
)
    requires
        call_ensures(BridgeAppConfig::validate, (&config,), r),
        call_ensures(BridgeAppConfig::endpoint_overrides, (&config,), o),
        call_ensures(ClientEndpointOverrides::validate, (&o.0,), fields),
        !all_space(config.app_title@),
        fields is Ok,
        forall|i: int|
            0 <= i < config.routes@.len() ==> (#[trigger] of_routes[i]) is Ok && call_ensures(
                BridgeRouteConfig::validate,
                (&config.routes@[i],),
                of_routes[i],
            ),
        forall|i: int, j: int|
            #![trigger config.routes@[i], config.routes@[j]]
            0 <= i < j < config.routes@.len() ==> config.routes@[i].id@ != config.routes@[j].id@
                && config.routes@[i].user_id != config.routes@[j].user_id,
    ensures
        r is Ok,
{
    let s = config.routes@;
    lemma_blank(config.app_title@);
    lemma_routes_fault(s, s.len() as int);
    assert forall|i: int| 0 <= i < s.len() implies crate::routes::nth_route_fault(
        s,
        i,
    ) is None by {
        assert(of_routes[i] is Ok);
    }
}

/// A configuration without a title is refused for it.
pub proof fn configurations_need_a_title(config: BridgeAppConfig, r: Result<(), String>)
    requires
        call_ensures(BridgeAppConfig::validate, (&config,), r),
        all_space(config.app_title@),
    ensures
        r is Err && r->Err_0@ == "app_title cannot be empty"@,
{
    lemma_blank(config.app_title@);
}

// ---------------------------------------------------------------------------
// Endpoints
// ---------------------------------------------------------------------------

/// What is given on the command line takes the place of what is configured, and then the
/// endpoints are brought in order as ever. Titles and routes stay.
pub proof fn given_arguments_win(
    a: &mut BridgeAppConfig,
    args: BridgeAppArgs,
    r: Option<ClientServerEndpoint>,
    b: &mut BridgeAppConfig,
    s: Option<ClientServerEndpoint>,
)
    requires
        call_ensures(BridgeAppConfig::merge_cli, (a, &args), r),
        call_ensures(BridgeAppConfig::normalize_endpoints, (b,), s),
        old(b).server_host == (if args.server_host is Some {
            args.server_host->Some_0
        } else {
            old(a).server_host
        }),
        old(b).server == (if args.server is Some {
            args.server->Some_0
        } else {
            old(a).server
        }),
        old(b).control == (if args.control is Some {
            args.control->Some_0
        } else {
            old(a).control
        }),
        old(b).admin == (if args.admin is Some {
            args.admin
        } else {
            old(a).admin
        }),
        old(b).advanced_endpoints == (args.server is Some || args.control is Some
            || args.admin is Some || (args.server_host is None && old(a).advanced_endpoints)),
    ensures
        final(a).server_host@ == final(b).server_host@,
        final(a).server.ip@ == final(b).server.ip@ && final(a).server.port == final(b).server.port,
        final(a).control@ == final(b).control@,
        final(a).admin is Some <==> final(b).admin is Some,
        final(a).admin is Some ==> final(a).admin->Some_0@ == final(b).admin->Some_0@,
        final(a).advanced_endpoints == final(b).advanced_endpoints,
        r is Some <==> s is Some,
        r is Some ==> r->Some_0.host@ == s->Some_0.host@,
        final(a).app_title == old(a).app_title && final(a).routes == old(a).routes,
        args.bridge_bin is Some ==> final(a).bridge_bin == args.bridge_bin,
        args.bridge_bin is None ==> final(a).bridge_bin == old(a).bridge_bin,
        final(b).app_title == old(b).app_title && final(b).routes == old(b).routes
            && final(b).bridge_bin == old(b).bridge_bin,
{
    let f = final(a).fields();
    let g = final(b).fields();
    assert(f == g);
    assert(f.server_host == final(a).server_host@ && g.server_host == final(b).server_host@);
    assert(f.server.0 == final(a).server.ip@ && g.server.0 == final(b).server.ip@);
    assert(f.server.1 == final(a).server.port && g.server.1 == final(b).server.port);
    assert(f.control == final(a).control@ && g.control == final(b).control@);
    assert(f.admin == crate::endpoint::opt_text(final(a).admin));
    assert(g.admin == crate::endpoint::opt_text(final(b).admin));
}

/// The endpoints of a configuration are its fields, without the white space around
/// them, brought in order.
pub proof fn endpoints_come_from_the_fields(
    config: BridgeAppConfig,
    r: (ClientEndpointOverrides, Option<ClientServerEndpoint>),
    host: &str,
    control: &str,
    s: (ClientEndpointOverrides, Option<ClientServerEndpoint>),
)
    requires
        call_ensures(BridgeAppConfig::endpoint_overrides, (&config,), r),
        host@ == config.server_host@ && control@ == config.control@,
        call_ensures(
            ClientEndpointOverrides::normalized,
            (host, config.server, control, config.admin, config.advanced_endpoints),
            s,
        ),
    ensures
        r.0@ == s.0@,
        r.1 is Some <==> s.1 is Some,
        r.1 is Some ==> r.1->Some_0.host@ == s.1->Some_0.host@,
{
}

/// The server in effect is that of advanced endpoints, else the one that was found for
/// the host, and without either the configured one. Control and administration in effect
/// are those of the endpoints, and where these are in fault the configured ones.
pub proof fn endpoints_decide_what_is_in_effect(
    config: BridgeAppConfig,
    found: Option<SocketAddress>,
    r: (String, SocketAddress, String),
    admin: Option<String>,
    o: (ClientEndpointOverrides, Option<ClientServerEndpoint>),
    made: Result<ClientServerEndpoint, EndpointError>,
    control: Result<String, EndpointError>,
    at: Result<String, EndpointError>,
)
    requires
        call_ensures(BridgeAppConfig::effective_server, (&config, found), r),
        call_ensures(BridgeAppConfig::effective_admin, (&config,), admin),
        call_ensures(BridgeAppConfig::endpoint_overrides, (&config,), o),
        call_ensures(ClientEndpointOverrides::endpoint, (&o.0,), made),
        call_ensures(ClientEndpointOverrides::effective_control, (&o.0,), control),
        call_ensures(ClientEndpointOverrides::effective_admin, (&o.0,), at),
    ensures
        r.0@ == o.0.server_host@,
        o.0.advanced_endpoints ==> r.1.ip@ == o.0.server.ip@ && r.1.port == o.0.server.port,
        !o.0.advanced_endpoints && made is Ok && found is Some ==> r.1.ip@ == found->Some_0.ip@
            && r.1.port == found->Some_0.port,
        !o.0.advanced_endpoints && (made is Err || found is None) ==> r.1.ip@ == config.server.ip@
            && r.1.port == config.server.port,
        control is Ok ==> r.2@ == control->Ok_0@,
        control is Err ==> r.2@ == config.control@,
        at is Ok ==> admin is Some && admin->Some_0@ == at->Ok_0@,
        at is Err && config.admin is Some ==> admin is Some && admin->Some_0@
            == config.admin->Some_0@,
{
    assert(r.1.parts().0 == r.1.ip@ && r.1.parts().1 == r.1.port);
    assert(o.0@.server.0 == o.0.server.ip@ && o.0@.server.1 == o.0.server.port);
}

/// An address that was found takes the place of the server, and nothing else changes.
pub proof fn found_servers_are_taken(config: &mut BridgeAppConfig, found: Option<SocketAddress>)
    requires
        call_ensures(BridgeAppConfig::set_resolved_server, (config, found), ()),
    ensures
        found is Some ==> final(config).server == found->Some_0,
        found is None ==> final(config).server == old(config).server,
        final(config).routes == old(config).routes && final(config).control == old(config).control
            && final(config).server_host == old(config).server_host,
{
}

// ---------------------------------------------------------------------------
// The command line of a bridge
// ---------------------------------------------------------------------------

/// Each mode, kind, codec and profile has a word of its own.
pub proof fn words_tell_things_apart(
    mode: BridgeMode,
    other_mode: BridgeMode,
    m: &'static str,
    om: &'static str,
    input: RouteInputKind,
    other_input: RouteInputKind,
    i: &'static str,
    oi: &'static str,
    output: RouteOutputKind,
    other_output: RouteOutputKind,
    o: &'static str,
    oo: &'static str,
)
    requires
        call_ensures(bridge_mode_arg, (mode,), m),
        call_ensures(bridge_mode_arg, (other_mode,), om),
        call_ensures(route_input_kind_arg, (input,), i),
        call_ensures(route_input_kind_arg, (other_input,), oi),
        call_ensures(route_output_kind_arg, (output,), o),
        call_ensures(route_output_kind_arg, (other_output,), oo),
    ensures
        m@ == om@ ==> mode == other_mode,
        i@ == oi@ ==> input == other_input,
        o@ == oo@ ==> output == other_output,
        mode == BridgeMode::Input ==> m@ == "input"@,
        mode == BridgeMode::Output ==> m@ == "output"@,
        mode == BridgeMode::Duplex ==> m@ == "duplex"@,
        input == RouteInputKind::AudioDevice ==> i@ == "audio-device"@,
        input == RouteInputKind::NdiSource ==> i@ == "ndi-source"@,
        output == RouteOutputKind::AudioDevice ==> o@ == "audio-device"@,
        output == RouteOutputKind::VmixBrowserSource ==> o@ == "vmix-browser-source"@,
        output == RouteOutputKind::NdiOutput ==> o@ == "ndi-output"@,
{
    reveal_strlit("input");
    reveal_strlit("output");
    reveal_strlit("duplex");
    reveal_strlit("audio-device");
    reveal_strlit("ndi-source");
    reveal_strlit("vmix-browser-source");
    reveal_strlit("ndi-output");
    assert("input"@.len() == 5 && "output"@.len() == 6 && "duplex"@.len() == 6);
    assert("output"@[0] == 'o' && "duplex"@[0] == 'd');
    assert("audio-device"@.len() == 12 && "ndi-source"@.len() == 10 && "vmix-browser-source"@.len()
        == 19 && "ndi-output"@.len() == 10);
}

/// A codec and a profile are written as the word that stands for them.
pub proof fn codecs_have_their_words(
    codec: Codec,
    c: &'static str,
    profile: OpusProfile,
    p: &'static str,
)
    requires
        call_ensures(codec_arg, (codec,), c),
        call_ensures(opus_profile_arg, (profile,), p),
    ensures
        codec == Codec::Pcm16 ==> c@ == "pcm16"@,
        codec == Codec::Pcm24 ==> c@ == "pcm24"@,
        codec == Codec::Pcm48 ==> c@ == "pcm48"@,
        codec == Codec::Opus ==> c@ == "opus"@,
        codec == Codec::Adpcm ==> c@ == "adpcm"@,
        profile == OpusProfile::Speech16Low ==> p@ == "speech-16-low"@,
        profile == OpusProfile::Speech24Standard ==> p@ == "speech-24-standard"@,
        profile == OpusProfile::Speech48High ==> p@ == "speech-48-high"@,
        profile == OpusProfile::Music48 ==> p@ == "music-48"@,
{
}

/// Channels are written in decimal with commas between them; no channel is written as
/// the first one where a default is asked for.
pub proof fn channels_are_written_in_turn(
    channels: Vec<u16>,
    more: Vec<u16>,
    c: u16,
    r: String,
    of_more: String,
    d: String,
    of_more_d: String,
)
    requires
        more@ == channels@.push(c),
        call_ensures(csv_channels, (&channels,), r),
        call_ensures(csv_channels, (&more,), of_more),
        call_ensures(csv_channels_or_default, (&channels,), d),
        call_ensures(csv_channels_or_default, (&more,), of_more_d),
    ensures
        channels@.len() == 0 ==> r@.len() == 0 && d@ == "1"@ && of_more@ == decimal(c as nat),
        channels@.len() > 0 ==> d@ == r@ && of_more@ == r@ + ","@ + decimal(c as nat),
        of_more_d@ == of_more@,
{
    assert(decimals(more@).drop_last() =~= decimals(channels@));
    assert(decimals(more@).last() == decimal(c as nat));
}

/// Among the words stands the name, and behind it the value.
pub open spec fn says(words: Seq<Seq<char>>, name: Seq<char>, value: Seq<char>) -> bool {
    exists|k: int| 0 <= k < words.len() - 1 && #[trigger] words[k] == name && words[k + 1] == value
}

proof fn lemma_says(a: Seq<Seq<char>>, b: Seq<Seq<char>>, name: Seq<char>, value: Seq<char>)
    ensures
        says(a, name, value) || says(b, name, value) ==> says(a + b, name, value),
{
    let c = a + b;
    if says(a, name, value) {
        let k = choose|k: int|
            0 <= k < a.len() - 1 && #[trigger] a[k] == name && a[k + 1] == value;
        assert(c[k] == a[k] && c[k + 1] == a[k + 1]);
    } else if says(b, name, value) {
        let k = choose|k: int|
            0 <= k < b.len() - 1 && #[trigger] b[k] == name && b[k + 1] == value;
        assert(c[a.len() + k] == b[k] && c[a.len() + k + 1] == b[k + 1]);
    }
}

/// The bridge is told the server in effect, and of the route the number, the name, the
/// mode, the channels, the codec, the gains and the kinds of its ends.
pub proof fn bridges_are_told_the_route(
    config: BridgeAppConfig,
    route: BridgeRouteConfig,
    found: Option<SocketAddress>,
    input_gain: &str,
    output_gain: &str,
    r: Vec<String>,
    e: (String, SocketAddress, String),
    address: String,
    mode: &'static str,
    tx: String,
    listen: String,
    codec: &'static str,
    profile: &'static str,
    input: &'static str,
    output: &'static str,
)
    requires
        call_ensures(bridge_args, (&config, &route, found, input_gain, output_gain), r),
        call_ensures(BridgeAppConfig::effective_server, (&config, found), e),
        call_ensures(SocketAddress::to_text, (&e.1,), address),
        call_ensures(bridge_mode_arg, (route.mode,), mode),
        call_ensures(csv_channels_or_default, (&route.tx_channels,), tx),
        call_ensures(csv_channels_or_default, (&route.listen_channels,), listen),
        call_ensures(codec_arg, (route.codec,), codec),
        call_ensures(opus_profile_arg, (route.opus_profile,), profile),
        call_ensures(route_input_kind_arg, (route.input_kind,), input),
        call_ensures(route_output_kind_arg, (route.output_kind,), output),
    ensures
        says(texts(r@), "--server-host"@, e.0@),
        says(texts(r@), "--server"@, address@),
        says(texts(r@), "--control"@, e.2@),
        says(texts(r@), "--user-id"@, decimal(route.user_id as nat)),
        says(texts(r@), "--name"@, route.name@),
        says(texts(r@), "--mode"@, mode@),
        says(texts(r@), "--tx-channels"@, tx@),
        says(texts(r@), "--listen-channels"@, listen@),
        says(texts(r@), "--codec"@, codec@),
        says(texts(r@), "--opus-profile"@, profile@),
        says(texts(r@), "--input-gain"@, input_gain@),
        says(texts(r@), "--output-gain"@, output_gain@),
        says(texts(r@), "--input-kind"@, input@),
        says(texts(r@), "--output-kind"@, output@),
{
    let c = common_args(
        config.fields(),
        route,
        crate::endpoint::opt_parts(found),
        input_gain@,
        output_gain@,
    );
    let s = special_args(route);
    let t = c + s;
    assert(texts(r@) == t);
    assert(c.len() == 28);
    assert(e.1.parts().0 == e.1.ip@ && e.1.parts().1 == e.1.port);
    assert(t[0] == "--server-host"@ && t[1] == e.0@);
    assert(t[2] == "--server"@ && t[3] == address@);
    assert(t[4] == "--control"@ && t[5] == e.2@);
    assert(t[6] == "--user-id"@ && t[7] == decimal(route.user_id as nat));
    assert(t[8] == "--name"@ && t[9] == route.name@);
    assert(t[10] == "--mode"@ && t[11] == mode@);
    assert(t[12] == "--tx-channels"@ && t[13] == tx@);
    assert(t[14] == "--listen-channels"@ && t[15] == listen@);
    assert(t[16] == "--codec"@ && t[17] == codec@);
    assert(t[18] == "--opus-profile"@ && t[19] == profile@);
    assert(t[20] == "--input-gain"@ && t[21] == input_gain@);
    assert(t[22] == "--output-gain"@ && t[23] == output_gain@);
    assert(t[24] == "--input-kind"@ && t[25] == input@);
    assert(t[26] == "--output-kind"@ && t[27] == output@);
}

/// How many words are spent on a value that may be missing.
pub open spec fn words_for(given: bool) -> int {
    if given {
        2
    } else {
        0
    }
}

proof fn lemma_pair(name: Seq<char>, o: Option<String>)
    ensures
        filled_pair(name, crate::endpoint::opt_text(o)).len() == words_for(named(o)),
        named(o) ==> says(filled_pair(name, crate::endpoint::opt_text(o)), name, o->Some_0@),
{
    if o is Some {
        lemma_blank(o->Some_0@);
        let p = pair(name, o->Some_0@);
        assert(p[0] == name && p[1] == o->Some_0@);
    }
}

/// The bridge is told what a route has besides, and nothing of what it has not: its
/// identity, its devices, its NDI names, its page and its note.
pub proof fn bridges_are_told_what_is_named(
    config: BridgeAppConfig,
    route: BridgeRouteConfig,
    found: Option<SocketAddress>,
    input_gain: &str,
    output_gain: &str,
    r: Vec<String>,
    id: &str,
    segment: String,
)
    requires
        call_ensures(bridge_args, (&config, &route, found, input_gain, output_gain), r),
        id@ == route.id@,
        call_ensures(crate::web::encode_path_segment, (id,), segment),
    ensures
        named(route.client_uid) ==> says(
            texts(r@),
            "--client-uid"@,
            route.client_uid->Some_0@,
        ),
        route.identity_file is Some ==> says(
            texts(r@),
            "--identity-file"@,
            route.identity_file->Some_0@,
        ),
        route.stereo ==> texts(r@).contains("--stereo"@),
        named(route.input_device) ==> says(
            texts(r@),
            "--input-device"@,
            route.input_device->Some_0@,
        ),
        named(route.output_device) ==> says(
            texts(r@),
            "--output-device"@,
            route.output_device->Some_0@,
        ),
        named(route.ndi_source) ==> says(texts(r@), "--ndi-source"@, route.ndi_source->Some_0@),
        named(route.ndi_output_name) ==> says(
            texts(r@),
            "--ndi-output-name"@,
            route.ndi_output_name->Some_0@,
        ),
        named(route.ndi_groups) ==> says(texts(r@), "--ndi-groups"@, route.ndi_groups->Some_0@),
        route.mode != BridgeMode::Input && route.output_kind == RouteOutputKind::VmixBrowserSource
            ==> says(texts(r@), "--vmix-source-url"@, "/vmix/source/"@ + segment@),
        !all_space(route.note@) ==> says(texts(r@), "--note"@, route.note@),
        r@.len() == 28 + words_for(named(route.client_uid)) + words_for(
            route.identity_file is Some,
        ) + (if route.stereo {
            1int
        } else {
            0
        }) + words_for(named(route.input_device)) + words_for(named(route.output_device))
            + words_for(named(route.ndi_source)) + words_for(named(route.ndi_output_name))
            + words_for(named(route.ndi_groups)) + words_for(
            route.mode != BridgeMode::Input && route.output_kind
                == RouteOutputKind::VmixBrowserSource,
        ) + words_for(!all_space(route.note@)),
{
    let c = common_args(
        config.fields(),
        route,
        crate::endpoint::opt_parts(found),
        input_gain@,
        output_gain@,
    );
    let p0 = filled_pair("--client-uid"@, crate::endpoint::opt_text(route.client_uid));
    let p1 = match route.identity_file {
        Some(file) => pair("--identity-file"@, file@),
        None => Seq::empty(),
    };
    let p2 = if route.stereo {
        seq!["--stereo"@]
    } else {
        Seq::empty()
    };
    let p3 = filled_pair("--input-device"@, crate::endpoint::opt_text(route.input_device));
    let p4 = filled_pair("--output-device"@, crate::endpoint::opt_text(route.output_device));
    let p5 = filled_pair("--ndi-source"@, crate::endpoint::opt_text(route.ndi_source));
    let p6 = filled_pair("--ndi-output-name"@, crate::endpoint::opt_text(route.ndi_output_name));
    let p7 = filled_pair("--ndi-groups"@, crate::endpoint::opt_text(route.ndi_groups));
    let p8 = if route.serves_browser() {
        pair("--vmix-source-url"@, crate::routes::source_path(route.id@))
    } else {
        Seq::empty()
    };
    let p9 = filled_pair("--note"@, Some(route.note@));
    let s1 = p0 + p1;
    let s2 = s1 + p2;
    let s3 = s2 + p3;
    let s4 = s3 + p4;
    let s5 = s4 + p5;
    let s6 = s5 + p6;
    let s7 = s6 + p7;
    let s8 = s7 + p8;
    let s9 = s8 + p9;
    assert(special_args(route) == s9);
    assert(texts(r@) == c + s9);
    assert(texts(r@).len() == r@.len());
    assert(c.len() == 28);
    lemma_pair("--client-uid"@, route.client_uid);
    lemma_pair("--input-device"@, route.input_device);
    lemma_pair("--output-device"@, route.output_device);
    lemma_pair("--ndi-source"@, route.ndi_source);
    lemma_pair("--ndi-output-name"@, route.ndi_output_name);
    lemma_pair("--ndi-groups"@, route.ndi_groups);
    lemma_pair("--note"@, Some(route.note));
    if route.identity_file is Some {
        assert(p1[0] == "--identity-file"@ && p1[1] == route.identity_file->Some_0@);
        assert(says(p1, "--identity-file"@, route.identity_file->Some_0@));
    }
    if route.serves_browser() {
        assert(p8[0] == "--vmix-source-url"@ && p8[1] == "/vmix/source/"@ + segment@);
        assert(says(p8, "--vmix-source-url"@, "/vmix/source/"@ + segment@));
    }
    if route.stereo {
        assert(p2[0] == "--stereo"@);
        assert((c + s9)[(c.len() + s1.len()) as int] == p2[0]);
    }
    assert forall|name: Seq<char>, value: Seq<char>|
        #![trigger says(p0, name, value)]
        #![trigger says(p1, name, value)]
        #![trigger says(p3, name, value)]
        #![trigger says(p4, name, value)]
        #![trigger says(p5, name, value)]
        #![trigger says(p6, name, value)]
        #![trigger says(p7, name, value)]
        #![trigger says(p8, name, value)]
        #![trigger says(p9, name, value)]
        says(p0, name, value) || says(p1, name, value) || says(p3, name, value) || says(
            p4,
            name,
            value,
        ) || says(p5, name, value) || says(p6, name, value) || says(p7, name, value) || says(
            p8,
            name,
            value,
        ) || says(p9, name, value) implies says(c + s9, name, value) by {
        lemma_says(p0, p1, name, value);
        lemma_says(s1, p2, name, value);
        lemma_says(s2, p3, name, value);
        lemma_says(s3, p4, name, value);
        lemma_says(s4, p5, name, value);
        lemma_says(s5, p6, name, value);
        lemma_says(s6, p7, name, value);
        lemma_says(s7, p8, name, value);
        lemma_says(s8, p9, name, value);
        lemma_says(c, s9, name, value);
    }
}

/// The program of a bridge is the chosen one, else the configured one, else the usual
/// one.
pub proof fn programs_are_chosen_in_turn(
    chosen: Option<String>,
    config: BridgeAppConfig,
    default: String,
    r: String,
)
    requires
        call_ensures(bridge_bin_path, (&chosen, &config, default), r),
    ensures
        chosen is Some ==> r@ == chosen->Some_0@,
        chosen is None && config.bridge_bin is Some ==> r@ == config.bridge_bin->Some_0@,
        chosen is None && config.bridge_bin is None ==> r@ == default@,
{
}

/// A browser source listens on the channels of its route and transmits nowhere.
pub proof fn browser_sources_only_listen(
    route: BridgeRouteConfig,
    defaults: SharedDefaults,
    r: ClientConfig,
)
    requires
        call_ensures(browser_source_client_config, (&route, defaults), r),
    ensures
        r.user_id == route.user_id,
        route.client_uid is Some ==> r.client_uid@ == route.client_uid->Some_0@,
        route.client_uid is None ==> r.client_uid@ == "bridge-app-vmix-"@ + route.id@,
        r.role == ClientRole::Bridge && r.name == route.name,
        r.listen@ == route.listen_channels@ && r.tx@.len() == 0,
        r.talk_mode == TalkMode::Muted && !r.regular_talk_active,
        r.codec == route.codec && r.opus_profile == route.opus_profile,
        r.stereo.enabled == route.stereo,
        r.tally == Some(defaults.tally),
{
    let s = choose|s: ClientStart|
        browser_start(s, route) && #[trigger] is_fresh(r, s, defaults);
    assert(browser_start(s, route));
}

// ---------------------------------------------------------------------------
// Finding and starting routes
// ---------------------------------------------------------------------------

proof fn lemma_route_index(routes: Seq<BridgeRouteConfig>, id: Seq<char>, i: int)
    requires
        0 <= i <= routes.len(),
    ensures
        i <= route_index(routes, id, i) <= routes.len(),
        route_index(routes, id, i) < routes.len() ==> routes[route_index(routes, id, i)].id@ == id,
        forall|j: int| i <= j < route_index(routes, id, i) ==> (#[trigger] routes[j]).id@ != id,
    decreases routes.len() - i,
{
    if i < routes.len() && routes[i].id@ != id {
        lemma_route_index(routes, id, i + 1);
    }
}

/// The first route with an id is found by it, and a browser source only among routes
/// that serve browsers.
pub proof fn routes_are_found_by_id(
    config: BridgeAppConfig,
    id: &str,
    r: Result<usize, BridgeAppError>,
    b: Result<usize, BridgeAppError>,
    k: int,
)
    requires
        call_ensures(find_route, (&config, id), r),
        call_ensures(find_browser_route, (&config, id), b),
        0 <= k < config.routes@.len(),
        config.routes@[k].id@ == id@,
        forall|j: int| 0 <= j < k ==> (#[trigger] config.routes@[j]).id@ != id@,
    ensures
        r is Ok && r->Ok_0 == k,
        b is Ok <==> config.routes@[k].mode != BridgeMode::Input && config.routes@[k].output_kind
            == RouteOutputKind::VmixBrowserSource,
        b is Ok ==> b->Ok_0 == k,
        b is Err ==> b->Err_0.status == 400 && b->Err_0.message@ == "route `"@ + id@
            + "` is not a vMix Browser Source output"@,
{
    lemma_route_index(config.routes@, id@, 0);
}

/// A route that no id names is unknown, and is not started.
pub proof fn unknown_routes_are_refused(
    config: BridgeAppConfig,
    id: &str,
    r: Result<usize, BridgeAppError>,
    b: Result<usize, BridgeAppError>,
    served: bool,
    bridged: bool,
    s: Result<StartAction, BridgeAppError>,
)
    requires
        call_ensures(find_route, (&config, id), r),
        call_ensures(find_browser_route, (&config, id), b),
        call_ensures(start_route, (&config, id, served, bridged), s),
        forall|j: int| 0 <= j < config.routes@.len() ==> (#[trigger] config.routes@[j]).id@ != id@,
    ensures
        r is Err && b is Err && s is Err,
        r->Err_0.status == 400 && r->Err_0.message@ == "unknown bridge route `"@ + id@ + "`"@,
        b->Err_0.message@ == r->Err_0.message@ && s->Err_0.message@ == r->Err_0.message@,
{
    lemma_route_index(config.routes@, id@, 0);
}

/// A valid route is started as what it is, a browser source or a bridge, unless it is
/// running; one in fault is not started.
pub proof fn valid_routes_are_started(
    config: BridgeAppConfig,
    id: &str,
    served: bool,
    bridged: bool,
    r: Result<StartAction, BridgeAppError>,
    k: usize,
    found: Result<usize, BridgeAppError>,
    valid: Result<(), String>,
)
    requires
        call_ensures(start_route, (&config, id, served, bridged), r),
        call_ensures(find_route, (&config, id), found),
        found == Ok::<usize, BridgeAppError>(k),
        call_ensures(BridgeRouteConfig::validate, (&config.routes@[k as int],), valid),
    ensures
        ({
            let route = config.routes@[k as int];
            let browser = route.mode != BridgeMode::Input && route.output_kind
                == RouteOutputKind::VmixBrowserSource;
            &&& r is Ok <==> valid is Ok
            &&& r is Ok && browser && !served ==> r->Ok_0 == StartAction::ServeBrowser(k)
            &&& r is Ok && browser && served ==> r->Ok_0 == StartAction::Nothing
            &&& r is Ok && !browser && !bridged ==> r->Ok_0 == StartAction::SpawnBridge(k)
            &&& r is Ok && !browser && bridged ==> r->Ok_0 == StartAction::Nothing
            &&& r is Err ==> r->Err_0.status == 400 && r->Err_0.message@ == valid->Err_0@
        }),
{
    lemma_route_index(config.routes@, id@, 0);
}

/// What is wrong with a request is told as such, and what is wrong inside as such.
pub proof fn errors_carry_their_status(m: String, bad: BridgeAppError, inside: BridgeAppError)
    requires
        call_ensures(BridgeAppError::bad_request, (m,), bad),
        call_ensures(BridgeAppError::internal, (m,), inside),
    ensures
        bad.status == 400 && inside.status == 500,
        bad.message@ == m@ && inside.message@ == m@,
{
}

proof fn lemma_enabled_ids(routes: Seq<BridgeRouteConfig>)
    ensures
        enabled_ids(routes) == routes.filter(|r: BridgeRouteConfig| r.enabled).map_values(
            |r: BridgeRouteConfig| r.id@,
        ),
    decreases routes.len(),
{
    let p = |r: BridgeRouteConfig| r.enabled;
    let f = |r: BridgeRouteConfig| r.id@;
    reveal(Seq::filter);
    if routes.len() > 0 {
        lemma_enabled_ids(routes.drop_last());
        let t = routes.drop_last().filter(p);
        if routes.last().enabled {
            assert(t.push(routes.last()).map_values(f) =~= t.map_values(f).push(
                routes.last().id@,
            ));
        }
    } else {
        assert(routes.filter(p).map_values(f) =~= Seq::<Seq<char>>::empty());
    }
}

/// The enabled routes are listed, in their order, and no others.
pub proof fn enabled_routes_are_listed(config: BridgeAppConfig, r: Vec<String>)
    requires
        call_ensures(enabled_routes, (&config,), r),
    ensures
        texts(r@) == config.routes@.filter(|r: BridgeRouteConfig| r.enabled).map_values(
            |r: BridgeRouteConfig| r.id@,
        ),
{
    lemma_enabled_ids(config.routes@);
}

} // verus!
