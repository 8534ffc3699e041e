//! Bridge routes: what can be wrong with them, how a bridge is started for one, and
//! the settings of their launcher.

use vstd::prelude::*;

use crate::bridge::BridgeMode;
use crate::endpoint::{
    admin_from_control, control_in_effect, control_url_of, default_audio_addr,
    derive_admin_url_from_control, fields_admin, fields_fault, fields_from_args, host_to_look_up,
    opt_parts, opt_text, server_in_effect, settled_fields, ClientEndpointOverrides,
    ClientServerEndpoint, EndpointFields, ServerTarget, DEFAULT_AUDIO_PORT, DEFAULT_SERVER_HOST,
};
use crate::gain::{Gain, GAIN_ONE, GAIN_TWO};
use crate::net::SocketAddress;
use crate::protocol::{
    copy_ids, ClientCapabilities, ClientRole, Codec, OpusProfile, TalkMode,
};
use crate::config::ClientConfig;
use crate::routing::{decimal_texts, decimals};
use crate::session::{fresh_config, is_fresh, ClientStart, SharedDefaults};
use crate::text::{
    blank, concat2, concat3, decimal, is_blank, join, join_texts, owned, same, texts, u64_text,
};
use crate::web::{address_text, encode_path_segment, path_segment};

verus! {

/// What a route takes audio from.
#[derive(Debug, Clone, Copy, PartialEq, Eq, Structural)]
pub enum RouteInputKind {
    AudioDevice,
    NdiSource,
}

impl Default for RouteInputKind {
    fn default() -> (r: Self)
        ensures
            r == RouteInputKind::AudioDevice,
    {
        RouteInputKind::AudioDevice
    }
}

/// What a route gives audio to.
#[derive(Debug, Clone, Copy, PartialEq, Eq, Structural)]
pub enum RouteOutputKind {
    AudioDevice,
    VmixBrowserSource,
    NdiOutput,
}

impl Default for RouteOutputKind {
    fn default() -> (r: Self)
        ensures
            r == RouteOutputKind::AudioDevice,
    {
        RouteOutputKind::AudioDevice
    }
}

/// A route between the server and some audio of a production machine.
#[derive(Debug, Clone, PartialEq, Eq)]
pub struct BridgeRouteConfig {
    pub id: String,
    pub name: String,
    pub user_id: u16,
    pub client_uid: Option<String>,
    pub identity_file: Option<String>,
    pub mode: BridgeMode,
    pub tx_channels: Vec<u16>,
    pub listen_channels: Vec<u16>,
    pub codec: Codec,
    pub opus_profile: OpusProfile,
    pub stereo: bool,
    pub input_kind: RouteInputKind,
    pub output_kind: RouteOutputKind,
    pub input_device: Option<String>,
    pub output_device: Option<String>,
    pub ndi_source: Option<String>,
    pub ndi_output_name: Option<String>,
    pub ndi_groups: Option<String>,
    pub input_gain: Gain,
    pub output_gain: Gain,
    pub note: String,
    pub enabled: bool,
}

/// A route as it is before anything is set, but for its id, name, and note.
pub open spec fn plain_route(r: BridgeRouteConfig) -> bool {
    &&& r.user_id == 90
    &&& r.client_uid is None
    &&& r.identity_file is None
    &&& r.mode == BridgeMode::Input
    &&& r.tx_channels@ == seq![1u16]
    &&& r.listen_channels@ == Seq::<u16>::empty()
    &&& r.codec == Codec::Pcm48
    &&& r.opus_profile == OpusProfile::Speech48High
    &&& !r.stereo
    &&& r.input_kind == RouteInputKind::AudioDevice
    &&& r.output_kind == RouteOutputKind::AudioDevice
    &&& r.input_device is None
    &&& r.output_device is None
    &&& r.ndi_source is None
    &&& r.ndi_output_name is None
    &&& r.ndi_groups is None
    &&& r.input_gain == (Gain { bits: GAIN_ONE })
    &&& r.output_gain == (Gain { bits: GAIN_ONE })
    &&& r.enabled
}

impl Default for BridgeRouteConfig {
    fn default() -> (r: Self)
        ensures
            r.id@.len() == 0,
            r.name@ == "Bridge Route"@,
            r.note@.len() == 0,
            plain_route(r),
    {
        let mut tx_channels: Vec<u16> = Vec::new();
        tx_channels.push(1);
        proof {
            assert(tx_channels@ =~= seq![1u16]);
        }
        BridgeRouteConfig {
            id: String::new(),
            name: owned("Bridge Route"),
            user_id: 90,
            client_uid: None,
            identity_file: None,
            mode: BridgeMode::Input,
            tx_channels,
            listen_channels: Vec::new(),
            codec: Codec::Pcm48,
            opus_profile: OpusProfile::Speech48High,
            stereo: false,
            input_kind: RouteInputKind::AudioDevice,
            output_kind: RouteOutputKind::AudioDevice,
            input_device: None,
            output_device: None,
            ndi_source: None,
            ndi_output_name: None,
            ndi_groups: None,
            input_gain: Gain { bits: GAIN_ONE },
            output_gain: Gain { bits: GAIN_ONE },
            note: String::new(),
            enabled: true,
        }
    }
}

/// Some channel stands in both lists.
pub open spec fn share_channel(a: Seq<u16>, b: Seq<u16>) -> bool {
    exists|i: int| 0 <= i < a.len() && b.contains(#[trigger] a[i])
}

fn channel_in(channels: &Vec<u16>, id: u16) -> (r: bool)
    ensures
        r == channels@.contains(id),
{
    let mut i: usize = 0;
    while i < channels.len()
        invariant
            0 <= i <= channels@.len(),
            forall|j: int| 0 <= j < i ==> channels@[j] != id,
        decreases channels@.len() - i,
    {
        if channels[i] == id {
            return true;
        }
        i = i + 1;
    }
    false
}

fn channels_shared(a: &Vec<u16>, b: &Vec<u16>) -> (r: bool)
    ensures
        r == share_channel(a@, b@),
{
    let mut i: usize = 0;
    while i < a.len()
        invariant
            0 <= i <= a@.len(),
            forall|j: int| 0 <= j < i ==> !b@.contains(#[trigger] a@[j]),
        decreases a@.len() - i,
    {
        if channel_in(b, a[i]) {
            return true;
        }
        i = i + 1;
    }
    false
}

/// An optional text says nothing.
pub open spec fn unset(o: Option<String>) -> bool {
    match o {
        Some(s) => is_blank(s@),
        None => true,
    }
}

fn is_unset(o: &Option<String>) -> (r: bool)
    ensures
        r == unset(*o),
{
    match o {
        Some(s) => blank(s.as_str()),
        None => true,
    }
}

/// What is said of a route with that id.
pub open spec fn of_route(id: Seq<char>, what: Seq<char>) -> Seq<char> {
    "route `"@ + id + what
}

/// What is wrong with a gain of a route, if anything.
pub open spec fn gain_fault(name: Seq<char>, gain: Gain) -> Option<Seq<char>> {
    if gain.finite() && gain.within(GAIN_TWO) {
        None
    } else {
        Some(name + " must be a finite value between 0 and 2"@)
    }
}

/// Checks a gain of a route.
pub fn validate_gain(name: &str, gain: Gain) -> (r: Result<(), String>)
    ensures
        match r {
            Ok(_) => gain_fault(name@, gain) is None,
            Err(m) => gain_fault(name@, gain) == Some(m@),
        },
{
    if !gain.is_finite() || !gain.is_within(GAIN_TWO) {
        return Err(concat2(name, " must be a finite value between 0 and 2"));
    }
    Ok(())
}

impl BridgeRouteConfig {
    /// The route takes audio in.
    pub open spec fn takes_in(self) -> bool {
        self.mode == BridgeMode::Input || self.mode == BridgeMode::Duplex
    }

    /// The route gives audio out.
    pub open spec fn gives_out(self) -> bool {
        self.mode == BridgeMode::Output || self.mode == BridgeMode::Duplex
    }

    /// The route gives its audio to a browser.
    pub open spec fn serves_browser(self) -> bool {
        self.gives_out() && self.output_kind == RouteOutputKind::VmixBrowserSource
    }

    /// What is wrong with the route, if anything: the first fault counts.
    pub open spec fn fault(self) -> Option<Seq<char>> {
        if is_blank(self.id@) {
            Some("route id cannot be empty"@)
        } else if self.user_id == 0 {
            Some(of_route(self.id@, "` user_id must be 1..65535"@))
        } else if gain_fault("input_gain"@, self.input_gain) is Some {
            gain_fault("input_gain"@, self.input_gain)
        } else if gain_fault("output_gain"@, self.output_gain) is Some {
            gain_fault("output_gain"@, self.output_gain)
        } else if self.takes_in() && self.tx_channels@.len() == 0 {
            Some(of_route(self.id@, "` captures audio but has no TX channels"@))
        } else if self.gives_out() && self.listen_channels@.len() == 0 {
            Some(of_route(self.id@, "` plays audio but has no listen channels"@))
        } else if self.input_kind == RouteInputKind::NdiSource && self.mode != BridgeMode::Input {
            Some(of_route(self.id@, "` uses an NDI source and must be an input route"@))
        } else if self.output_kind == RouteOutputKind::VmixBrowserSource && self.mode
            != BridgeMode::Output {
            Some(of_route(self.id@, "` uses a vMix Browser Source and must be an output route"@))
        } else if self.output_kind == RouteOutputKind::NdiOutput && self.mode
            != BridgeMode::Output {
            Some(of_route(self.id@, "` uses an NDI output and must be an output route"@))
        } else if self.input_kind == RouteInputKind::NdiSource && unset(self.ndi_source) {
            Some(of_route(self.id@, "` uses NDI input but has no NDI source name"@))
        } else if self.output_kind == RouteOutputKind::NdiOutput && unset(self.ndi_output_name) {
            Some(of_route(self.id@, "` uses NDI output but has no NDI output name"@))
        } else if share_channel(self.tx_channels@, self.listen_channels@) {
            Some(
                of_route(
                    self.id@,
                    "` listens and transmits on the same channel; split routes to avoid feedback"@,
                ),
            )
        } else if self.codec == Codec::Adpcm {
            Some(of_route(self.id@, "` uses unsupported ADPCM codec"@))
        } else {
            None
        }
    }

    /// Tells whether the route takes audio in.
    pub fn captures(&self) -> (r: bool)
        ensures
            r == self.takes_in(),
    {
        self.mode == BridgeMode::Input || self.mode == BridgeMode::Duplex
    }

    /// Tells whether the route gives audio out.
    pub fn plays(&self) -> (r: bool)
        ensures
            r == self.gives_out(),
    {
        self.mode == BridgeMode::Output || self.mode == BridgeMode::Duplex
    }

    /// Tells whether the route gives its audio to a browser.
    pub fn is_vmix_browser_source(&self) -> (r: bool)
        ensures
            r == self.serves_browser(),
    {
        self.plays() && self.output_kind == RouteOutputKind::VmixBrowserSource
    }

    fn says(&self, what: &str) -> (r: Result<(), String>)
        ensures
            r matches Err(m) && m@ == of_route(self.id@, what@),
    {
        Err(concat3("route `", self.id.as_str(), what))
    }

    /// Checks the route.
    pub fn validate(&self) -> (r: Result<(), String>)
        ensures
            match r {
                Ok(_) => self.fault() is None,
                Err(m) => self.fault() == Some(m@),
            },
    {
        if blank(self.id.as_str()) {
            return Err(owned("route id cannot be empty"));
        }
        if self.user_id == 0 {
            return self.says("` user_id must be 1..65535");
        }
        match validate_gain("input_gain", self.input_gain) {
            Err(m) => {
                return Err(m);
            },
            Ok(_) => {},
        }
        match validate_gain("output_gain", self.output_gain) {
            Err(m) => {
                return Err(m);
            },
            Ok(_) => {},
        }
        if self.captures() && self.tx_channels.len() == 0 {
            return self.says("` captures audio but has no TX channels");
        }
        if self.plays() && self.listen_channels.len() == 0 {
            return self.says("` plays audio but has no listen channels");
        }
        if self.input_kind == RouteInputKind::NdiSource && self.mode != BridgeMode::Input {
            return self.says("` uses an NDI source and must be an input route");
        }
        if self.output_kind == RouteOutputKind::VmixBrowserSource && self.mode
            != BridgeMode::Output {
            return self.says("` uses a vMix Browser Source and must be an output route");
        }
        if self.output_kind == RouteOutputKind::NdiOutput && self.mode != BridgeMode::Output {
            return self.says("` uses an NDI output and must be an output route");
        }
        if self.input_kind == RouteInputKind::NdiSource && is_unset(&self.ndi_source) {
            return self.says("` uses NDI input but has no NDI source name");
        }
        if self.output_kind == RouteOutputKind::NdiOutput && is_unset(&self.ndi_output_name) {
            return self.says("` uses NDI output but has no NDI output name");
        }
        if channels_shared(&self.tx_channels, &self.listen_channels) {
            return self.says(
                "` listens and transmits on the same channel; split routes to avoid feedback",
            );
        }
        if self.codec == Codec::Adpcm {
            return self.says("` uses unsupported ADPCM codec");
        }
        Ok(())
    }
}

// ---------------------------------------------------------------------------
// The configuration of all routes

/// What the command line says about the launcher of bridges.
#[derive(Debug)]
pub struct BridgeAppArgs {
    pub bridge_bin: Option<String>,
    pub server_host: Option<String>,
    pub server: Option<SocketAddress>,
    pub control: Option<String>,
    pub admin: Option<String>,
}

/// The server, and the routes to and from it.
#[derive(Debug, Clone, PartialEq, Eq)]
pub struct BridgeAppConfig {
    pub app_title: String,
    pub server_host: String,
    pub server: SocketAddress,
    pub control: String,
    pub admin: Option<String>,
    pub advanced_endpoints: bool,
    pub bridge_bin: Option<String>,
    pub routes: Vec<BridgeRouteConfig>,
}

impl Default for BridgeAppConfig {
    fn default() -> (r: Self)
        ensures
            r.app_title@ == "RedLine Bridge"@,
            r.fields() == (EndpointFields {
                server_host: DEFAULT_SERVER_HOST@,
                server: (DEFAULT_SERVER_HOST@, DEFAULT_AUDIO_PORT),
                control: control_url_of(DEFAULT_SERVER_HOST@),
                admin: None,
                advanced: false,
            }),
            r.bridge_bin is None,
            r.routes@.len() == 1,
            r.routes@[0].id@ == "program-in"@,
            r.routes@[0].name@ == "Program Input"@,
            r.routes@[0].note@ == "vMix or virtual audio program feed into RedLine"@,
            plain_route(r.routes@[0]),
    {
        let mut route = BridgeRouteConfig::default();
        route.id = owned("program-in");
        route.name = owned("Program Input");
        route.note = owned("vMix or virtual audio program feed into RedLine");
        let mut routes: Vec<BridgeRouteConfig> = Vec::new();
        routes.push(route);
        BridgeAppConfig {
            app_title: owned("RedLine Bridge"),
            server_host: owned(DEFAULT_SERVER_HOST),
            server: default_audio_addr(),
            control: ClientServerEndpoint::default().control_url(),
            admin: None,
            advanced_endpoints: false,
            bridge_bin: None,
            routes,
        }
    }
}

/// Some route before the `n`th has the id of the `n`th.
pub open spec fn id_taken(routes: Seq<BridgeRouteConfig>, n: int) -> bool {
    exists|i: int| 0 <= i < n && (#[trigger] routes[i]).id@ == routes[n].id@
}

/// Some route before the `n`th has the user number of the `n`th.
pub open spec fn user_taken(routes: Seq<BridgeRouteConfig>, n: int) -> bool {
    exists|i: int| 0 <= i < n && (#[trigger] routes[i]).user_id == routes[n].user_id
}

/// What is wrong with the `n`th route among the routes before it, if anything.
pub open spec fn nth_route_fault(routes: Seq<BridgeRouteConfig>, n: int) -> Option<Seq<char>> {
    if routes[n].fault() is Some {
        routes[n].fault()
    } else if id_taken(routes, n) {
        Some("duplicate bridge route id `"@ + routes[n].id@ + "`"@)
    } else if user_taken(routes, n) {
        Some("duplicate bridge route user_id `"@ + decimal(routes[n].user_id as nat) + "`"@)
    } else {
        None
    }
}

/// What is wrong with the first `n` routes, if anything: the first fault counts.
pub open spec fn routes_fault(routes: Seq<BridgeRouteConfig>, n: int) -> Option<Seq<char>>
    decreases n,
{
    if n <= 0 {
        None
    } else if routes_fault(routes, n - 1) is Some {
        routes_fault(routes, n - 1)
    } else {
        nth_route_fault(routes, n - 1)
    }
}

fn id_used_before(routes: &Vec<BridgeRouteConfig>, n: usize) -> (r: bool)
    requires
        n < routes@.len(),
    ensures
        r == id_taken(routes@, n as int),
{
    let mut i: usize = 0;
    while i < n
        invariant
            0 <= i <= n < routes@.len(),
            forall|j: int| 0 <= j < i ==> (#[trigger] routes@[j]).id@ != routes@[n as int].id@,
        decreases n - i,
    {
        if same(routes[i].id.as_str(), routes[n].id.as_str()) {
            return true;
        }
        i = i + 1;
    }
    false
}

fn user_used_before(routes: &Vec<BridgeRouteConfig>, n: usize) -> (r: bool)
    requires
        n < routes@.len(),
    ensures
        r == user_taken(routes@, n as int),
{
    let mut i: usize = 0;
    while i < n
        invariant
            0 <= i <= n < routes@.len(),
            forall|j: int|
                0 <= j < i ==> (#[trigger] routes@[j]).user_id != routes@[n as int].user_id,
        decreases n - i,
    {
        if routes[i].user_id == routes[n].user_id {
            return true;
        }
        i = i + 1;
    }
    false
}

proof fn lemma_first_fault(routes: Seq<BridgeRouteConfig>, i: int, n: int)
    requires
        0 <= i <= n,
        routes_fault(routes, i) is Some,
    ensures
        routes_fault(routes, n) == routes_fault(routes, i),
    decreases n,
{
    if i < n {
        lemma_first_fault(routes, i, n - 1);
    }
}

fn copy_opt_text(o: &Option<String>) -> (r: Option<String>)
    ensures
        r == *o,
{
    match o {
        Some(s) => Some(s.clone()),
        None => None,
    }
}

impl BridgeAppConfig {
    /// Where the server is.
    pub open spec fn fields(self) -> EndpointFields {
        EndpointFields {
            server_host: self.server_host@,
            server: self.server.parts(),
            control: self.control@,
            admin: opt_text(self.admin),
            advanced: self.advanced_endpoints,
        }
    }

    /// What is wrong with the configuration, if anything: the first fault counts.
    pub open spec fn fault(self) -> Option<Seq<char>> {
        if is_blank(self.app_title@) {
            Some("app_title cannot be empty"@)
        } else if fields_fault(settled_fields(self.fields())) is Some {
            Some(fields_fault(settled_fields(self.fields()))->Some_0.text())
        } else {
            routes_fault(self.routes@, self.routes@.len() as int)
        }
    }

    /// Where the server is, in order, and the host to look up for its address.
    pub fn endpoint_overrides(&self) -> (r: (ClientEndpointOverrides, Option<ClientServerEndpoint>))
        ensures
            r.0@ == settled_fields(self.fields()),
            match r.1 {
                Some(e) => host_to_look_up(self.fields()) == Some(e.host@),
                None => host_to_look_up(self.fields()) is None,
            },
    {
        ClientEndpointOverrides::normalized(
            self.server_host.as_str(),
            self.server.copy(),
            self.control.as_str(),
            copy_opt_text(&self.admin),
            self.advanced_endpoints,
        )
    }

    /// Brings the words about the server in order. The result names the host to
    /// look up for its address: `set_resolved_server` takes what is found.
    pub fn normalize_endpoints(&mut self) -> (r: Option<ClientServerEndpoint>)
        ensures
            final(self).fields() == settled_fields(old(self).fields()),
            match r {
                Some(e) => host_to_look_up(old(self).fields()) == Some(e.host@),
                None => host_to_look_up(old(self).fields()) is None,
            },
            final(self).app_title == old(self).app_title,
            final(self).bridge_bin == old(self).bridge_bin,
            final(self).routes == old(self).routes,
    {
        let (endpoints, lookup) = self.endpoint_overrides();
        self.server_host = endpoints.server_host;
        self.server = endpoints.server;
        self.control = endpoints.control;
        self.admin = endpoints.admin;
        self.advanced_endpoints = endpoints.advanced_endpoints;
        lookup
    }

    /// Takes the address that was found for the server, if one was.
    pub fn set_resolved_server(&mut self, found: Option<SocketAddress>)
        ensures
            *final(self) == (match found {
                Some(server) => (BridgeAppConfig { server, ..*old(self) }),
                None => *old(self),
            }),
    {
        if let Some(server) = found {
            self.server = server;
        }
    }

    /// Takes what the command line says, and brings it in order.
    pub fn merge_cli(&mut self, args: &BridgeAppArgs) -> (r: Option<ClientServerEndpoint>)
        ensures
            ({
                let given = fields_from_args(
                    old(self).fields(),
                    opt_text(args.server_host),
                    opt_parts(args.server),
                    opt_text(args.control),
                    opt_text(args.admin),
                );
                &&& final(self).fields() == settled_fields(given)
                &&& match r {
                    Some(e) => host_to_look_up(given) == Some(e.host@),
                    None => host_to_look_up(given) is None,
                }
            }),
            final(self).app_title == old(self).app_title,
            final(self).bridge_bin == (if args.bridge_bin is Some {
                args.bridge_bin
            } else {
                old(self).bridge_bin
            }),
            final(self).routes == old(self).routes,
    {
        if let Some(server_host) = &args.server_host {
            self.server_host = server_host.clone();
            self.advanced_endpoints = false;
        }
        if let Some(server) = &args.server {
            self.server = server.copy();
            self.advanced_endpoints = true;
        }
        if let Some(control) = &args.control {
            self.control = control.clone();
            self.advanced_endpoints = true;
        }
        if let Some(admin) = &args.admin {
            self.admin = Some(admin.clone());
            self.advanced_endpoints = true;
        }
        if let Some(bridge_bin) = &args.bridge_bin {
            self.bridge_bin = Some(bridge_bin.clone());
        }
        self.normalize_endpoints()
    }

    /// Checks the configuration.
    pub fn validate(&self) -> (r: Result<(), String>)
        ensures
            match r {
                Ok(_) => self.fault() is None,
                Err(m) => self.fault() == Some(m@),
            },
    {
        if blank(self.app_title.as_str()) {
            return Err(owned("app_title cannot be empty"));
        }
        let (endpoints, _) = self.endpoint_overrides();
        match endpoints.validate() {
            Err(e) => {
                return Err(e.message());
            },
            Ok(_) => {},
        }
        let n = self.routes.len();
        let mut i: usize = 0;
        while i < n
            invariant
                n == self.routes@.len(),
                0 <= i <= n,
                !is_blank(self.app_title@),
                fields_fault(settled_fields(self.fields())) is None,
                routes_fault(self.routes@, i as int) is None,
            decreases n - i,
        {
            let ghost fault = routes_fault(self.routes@, i + 1);
            proof {
                if fault is Some {
                    lemma_first_fault(self.routes@, i + 1, n as int);
                }
            }
            match self.routes[i].validate() {
                Err(m) => {
                    return Err(m);
                },
                Ok(_) => {},
            }
            if id_used_before(&self.routes, i) {
                return Err(
                    concat3("duplicate bridge route id `", self.routes[i].id.as_str(), "`"),
                );
            }
            if user_used_before(&self.routes, i) {
                let id = u64_text(self.routes[i].user_id as u64);
                return Err(concat3("duplicate bridge route user_id `", id.as_str(), "`"));
            }
            i = i + 1;
        }
        Ok(())
    }
}

/// In a configuration without a fault, every route is without a fault, no route
/// listens to a channel that it transmits on, and no two routes share an id or a
/// user number.
pub proof fn valid_routes_are_apart(config: BridgeAppConfig, i: int, j: int)
    requires
        config.fault() is None,
        0 <= i < config.routes@.len(),
        0 <= j < config.routes@.len(),
    ensures
        config.routes@[i].fault() is None,
        !share_channel(config.routes@[i].tx_channels@, config.routes@[i].listen_channels@),
        i != j ==> config.routes@[i].id@ != config.routes@[j].id@,
        i != j ==> config.routes@[i].user_id != config.routes@[j].user_id,
{
    let n = config.routes@.len() as int;
    lemma_nth_is_sound(config.routes@, i, n);
    lemma_nth_is_sound(config.routes@, j, n);
    if i < j {
        assert(!id_taken(config.routes@, j));
        assert(!user_taken(config.routes@, j));
    }
    if j < i {
        assert(!id_taken(config.routes@, i));
        assert(!user_taken(config.routes@, i));
    }
}

proof fn lemma_nth_is_sound(routes: Seq<BridgeRouteConfig>, i: int, n: int)
    requires
        0 <= i < n,
        routes_fault(routes, n) is None,
    ensures
        nth_route_fault(routes, i) is None,
    decreases n,
{
    if i < n - 1 {
        lemma_nth_is_sound(routes, i, n - 1);
    }
}

// ---------------------------------------------------------------------------
// Starting a bridge for a route

/// The admin URL in effect.
pub open spec fn admin_in_effect(f: EndpointFields) -> Option<Seq<char>> {
    match fields_admin(settled_fields(f)) {
        Ok(url) => Some(url),
        Err(_) => if f.admin is Some {
            f.admin
        } else {
            admin_from_control(f.control)
        },
    }
}

impl BridgeAppConfig {
    /// The host, the address and the control URL of the server in effect, where
    /// `found` is what the lookup of the host gave.
    pub fn effective_server(&self, found: Option<SocketAddress>) -> (r: (
        String,
        SocketAddress,
        String,
    ))
        ensures
            r.0@ == settled_fields(self.fields()).server_host,
            r.1.parts() == server_in_effect(self.fields(), opt_parts(found)),
            r.2@ == control_in_effect(self.fields()),
    {
        let (endpoints, _) = self.endpoint_overrides();
        let server = match endpoints.effective_server() {
            Ok(ServerTarget::Address(server)) => server,
            Ok(ServerTarget::Lookup(_, _)) => match found {
                Some(server) => server,
                None => self.server.copy(),
            },
            Err(_) => self.server.copy(),
        };
        let control = match endpoints.effective_control() {
            Ok(url) => url,
            Err(_) => self.control.clone(),
        };
        (endpoints.server_host, server, control)
    }

    /// The admin URL in effect, where there is one.
    pub fn effective_admin(&self) -> (r: Option<String>)
        ensures
            opt_text(r) == admin_in_effect(self.fields()),
    {
        let (endpoints, _) = self.endpoint_overrides();
        match endpoints.effective_admin() {
            Ok(url) => Some(url),
            Err(_) => match &self.admin {
                Some(admin) => Some(admin.clone()),
                None => derive_admin_url_from_control(self.control.as_str()),
            },
        }
    }
}

/// A list of channels as an argument: the first channel where there is none.
pub open spec fn channels_arg(channels: Seq<u16>) -> Seq<char> {
    if channels.len() == 0 {
        "1"@
    } else {
        join(decimals(channels), ","@)
    }
}

/// A list of channels, separated by commas.
pub fn csv_channels(channels: &Vec<u16>) -> (r: String)
    ensures
        r@ == join(decimals(channels@), ","@),
{
    join_texts(&decimal_texts(channels), ",")
}

/// A list of channels as an argument: the first channel where there is none.
pub fn csv_channels_or_default(channels: &Vec<u16>) -> (r: String)
    ensures
        r@ == channels_arg(channels@),
{
    if channels.len() == 0 {
        owned("1")
    } else {
        csv_channels(channels)
    }
}

pub open spec fn mode_word(mode: BridgeMode) -> Seq<char> {
    match mode {
        BridgeMode::Input => "input"@,
        BridgeMode::Output => "output"@,
        BridgeMode::Duplex => "duplex"@,
    }
}

/// The direction of a bridge as an argument.
pub fn bridge_mode_arg(mode: BridgeMode) -> (r: &'static str)
    ensures
        r@ == mode_word(mode),
{
    match mode {
        BridgeMode::Input => "input",
        BridgeMode::Output => "output",
        BridgeMode::Duplex => "duplex",
    }
}

pub open spec fn input_kind_word(kind: RouteInputKind) -> Seq<char> {
    match kind {
        RouteInputKind::AudioDevice => "audio-device"@,
        RouteInputKind::NdiSource => "ndi-source"@,
    }
}

/// What a route takes audio from, as an argument.
pub fn route_input_kind_arg(kind: RouteInputKind) -> (r: &'static str)
    ensures
        r@ == input_kind_word(kind),
{
    match kind {
        RouteInputKind::AudioDevice => "audio-device",
        RouteInputKind::NdiSource => "ndi-source",
    }
}

pub open spec fn output_kind_word(kind: RouteOutputKind) -> Seq<char> {
    match kind {
        RouteOutputKind::AudioDevice => "audio-device"@,
        RouteOutputKind::VmixBrowserSource => "vmix-browser-source"@,
        RouteOutputKind::NdiOutput => "ndi-output"@,
    }
}

/// What a route gives audio to, as an argument.
pub fn route_output_kind_arg(kind: RouteOutputKind) -> (r: &'static str)
    ensures
        r@ == output_kind_word(kind),
{
    match kind {
        RouteOutputKind::AudioDevice => "audio-device",
        RouteOutputKind::VmixBrowserSource => "vmix-browser-source",
        RouteOutputKind::NdiOutput => "ndi-output",
    }
}

pub open spec fn codec_word(codec: Codec) -> Seq<char> {
    match codec {
        Codec::Pcm16 => "pcm16"@,
        Codec::Pcm24 => "pcm24"@,
        Codec::Pcm48 => "pcm48"@,
        Codec::Opus => "opus"@,
        Codec::Adpcm => "adpcm"@,
    }
}

/// A codec as an argument.
pub fn codec_arg(codec: Codec) -> (r: &'static str)
    ensures
        r@ == codec_word(codec),
{
    match codec {
        Codec::Pcm16 => "pcm16",
        Codec::Pcm24 => "pcm24",
        Codec::Pcm48 => "pcm48",
        Codec::Opus => "opus",
        Codec::Adpcm => "adpcm",
    }
}

pub open spec fn opus_profile_word(profile: OpusProfile) -> Seq<char> {
    match profile {
        OpusProfile::Speech16Low => "speech-16-low"@,
        OpusProfile::Speech24Standard => "speech-24-standard"@,
        OpusProfile::Speech48High => "speech-48-high"@,
        OpusProfile::Music48 => "music-48"@,
    }
}

/// An Opus profile as an argument.
pub fn opus_profile_arg(profile: OpusProfile) -> (r: &'static str)
    ensures
        r@ == opus_profile_word(profile),
{
    match profile {
        OpusProfile::Speech16Low => "speech-16-low",
        OpusProfile::Speech24Standard => "speech-24-standard",
        OpusProfile::Speech48High => "speech-48-high",
        OpusProfile::Music48 => "music-48",
    }
}

/// An argument and its value.
pub open spec fn pair(name: Seq<char>, value: Seq<char>) -> Seq<Seq<char>> {
    seq![name, value]
}

/// An argument and its value, where the value says something.
pub open spec fn filled_pair(name: Seq<char>, value: Option<Seq<char>>) -> Seq<Seq<char>> {
    match value {
        Some(v) => if is_blank(v) {
            Seq::empty()
        } else {
            pair(name, v)
        },
        None => Seq::empty(),
    }
}

fn push_pair(args: &mut Vec<String>, name: &str, value: &str)
    ensures
        texts(final(args)@) == texts(old(args)@) + pair(name@, value@),
{
    args.push(owned(name));
    args.push(owned(value));
    proof {
        assert(texts(args@) =~= texts(old(args)@) + pair(name@, value@));
    }
}

fn push_filled(args: &mut Vec<String>, name: &str, value: &Option<String>)
    ensures
        texts(final(args)@) == texts(old(args)@) + filled_pair(name@, opt_text(*value)),
{
    if let Some(v) = value {
        if !blank(v.as_str()) {
            push_pair(args, name, v.as_str());
            return;
        }
    }
    proof {
        assert(texts(args@) =~= texts(old(args)@) + filled_pair(name@, opt_text(*value)));
    }
}

/// Where a browser finds the audio of a route, below the address of this program.
pub open spec fn source_path(id: Seq<char>) -> Seq<char> {
    "/vmix/source/"@ + path_segment(id)
}

/// The arguments of every route: where the server is, who the bridge is, and
/// what it sends and hears.
pub open spec fn common_args(
    f: EndpointFields,
    route: BridgeRouteConfig,
    found: Option<(Seq<char>, u16)>,
    input_gain: Seq<char>,
    output_gain: Seq<char>,
) -> Seq<Seq<char>> {
    let server = server_in_effect(f, found);
    pair("--server-host"@, settled_fields(f).server_host) + pair(
        "--server"@,
        address_text(server.0, server.1),
    ) + pair("--control"@, control_in_effect(f)) + pair(
        "--user-id"@,
        decimal(route.user_id as nat),
    ) + pair("--name"@, route.name@) + pair("--mode"@, mode_word(route.mode)) + pair(
        "--tx-channels"@,
        channels_arg(route.tx_channels@),
    ) + pair("--listen-channels"@, channels_arg(route.listen_channels@)) + pair(
        "--codec"@,
        codec_word(route.codec),
    ) + pair("--opus-profile"@, opus_profile_word(route.opus_profile)) + pair(
        "--input-gain"@,
        input_gain,
    ) + pair("--output-gain"@, output_gain) + pair(
        "--input-kind"@,
        input_kind_word(route.input_kind),
    ) + pair("--output-kind"@, output_kind_word(route.output_kind))
}

/// The arguments that only some routes have.
pub open spec fn special_args(route: BridgeRouteConfig) -> Seq<Seq<char>> {
    filled_pair("--client-uid"@, opt_text(route.client_uid)) + match route.identity_file {
        Some(file) => pair("--identity-file"@, file@),
        None => Seq::empty(),
    } + (if route.stereo {
        seq!["--stereo"@]
    } else {
        Seq::empty()
    }) + filled_pair("--input-device"@, opt_text(route.input_device)) + filled_pair(
        "--output-device"@,
        opt_text(route.output_device),
    ) + filled_pair("--ndi-source"@, opt_text(route.ndi_source)) + filled_pair(
        "--ndi-output-name"@,
        opt_text(route.ndi_output_name),
    ) + filled_pair("--ndi-groups"@, opt_text(route.ndi_groups)) + (if route.serves_browser() {
        pair("--vmix-source-url"@, source_path(route.id@))
    } else {
        Seq::empty()
    }) + filled_pair("--note"@, Some(route.note@))
}

fn push_common_args(
    args: &mut Vec<String>,
    config: &BridgeAppConfig,
    route: &BridgeRouteConfig,
    found: Option<SocketAddress>,
    input_gain: &str,
    output_gain: &str,
)
    requires
        old(args)@.len() == 0,
    ensures
        texts(final(args)@) == common_args(
            config.fields(),
            *route,
            opt_parts(found),
            input_gain@,
            output_gain@,
        ),
{
    let (server_host, server, control) = config.effective_server(found);
    push_pair(args, "--server-host", server_host.as_str());
    proof {
        assert(texts(args@) =~= pair("--server-host"@, server_host@));
    }
    push_pair(args, "--server", server.to_text().as_str());
    push_pair(args, "--control", control.as_str());
    push_pair(args, "--user-id", u64_text(route.user_id as u64).as_str());
    push_pair(args, "--name", route.name.as_str());
    push_pair(args, "--mode", bridge_mode_arg(route.mode));
    push_pair(args, "--tx-channels", csv_channels_or_default(&route.tx_channels).as_str());
    push_pair(args, "--listen-channels", csv_channels_or_default(&route.listen_channels).as_str());
    push_pair(args, "--codec", codec_arg(route.codec));
    push_pair(args, "--opus-profile", opus_profile_arg(route.opus_profile));
    push_pair(args, "--input-gain", input_gain);
    push_pair(args, "--output-gain", output_gain);
    push_pair(args, "--input-kind", route_input_kind_arg(route.input_kind));
    push_pair(args, "--output-kind", route_output_kind_arg(route.output_kind));
}

fn push_special_args(args: &mut Vec<String>, route: &BridgeRouteConfig)
    ensures
        texts(final(args)@) == texts(old(args)@) + special_args(*route),
{
    let ghost start = texts(old(args)@);
    let mut more: Vec<String> = Vec::new();
    push_filled(&mut more, "--client-uid", &route.client_uid);
    proof {
        assert(texts(more@) =~= filled_pair("--client-uid"@, opt_text(route.client_uid)));
    }
    let ghost before = texts(more@);
    if let Some(file) = &route.identity_file {
        push_pair(&mut more, "--identity-file", file.as_str());
    }
    proof {
        assert(before + Seq::<Seq<char>>::empty() =~= before);
    }
    let ghost before = texts(more@);
    if route.stereo {
        more.push(owned("--stereo"));
        proof {
            assert(texts(more@) =~= before + seq!["--stereo"@]);
        }
    }
    proof {
        assert(before + Seq::<Seq<char>>::empty() =~= before);
    }
    push_filled(&mut more, "--input-device", &route.input_device);
    push_filled(&mut more, "--output-device", &route.output_device);
    push_filled(&mut more, "--ndi-source", &route.ndi_source);
    push_filled(&mut more, "--ndi-output-name", &route.ndi_output_name);
    push_filled(&mut more, "--ndi-groups", &route.ndi_groups);
    let ghost before = texts(more@);
    if route.is_vmix_browser_source() {
        let path = concat2("/vmix/source/", encode_path_segment(route.id.as_str()).as_str());
        push_pair(&mut more, "--vmix-source-url", path.as_str());
    }
    proof {
        assert(before + Seq::<Seq<char>>::empty() =~= before);
    }
    let note = Some(route.note.clone());
    push_filled(&mut more, "--note", &note);
    let ghost tail = more@;
    args.append(&mut more);
    proof {
        assert(texts(args@) =~= start + texts(tail));
    }
}

/// The arguments of the bridge of a route, where `found` is what the lookup of
/// the server gave, and the gains are given as text.
pub fn bridge_args(
    config: &BridgeAppConfig,
    route: &BridgeRouteConfig,
    found: Option<SocketAddress>,
    input_gain: &str,
    output_gain: &str,
) -> (r: Vec<String>)
    ensures
        texts(r@) == common_args(
            config.fields(),
            *route,
            opt_parts(found),
            input_gain@,
            output_gain@,
        ) + special_args(*route),
{
    let mut args: Vec<String> = Vec::new();
    push_common_args(&mut args, config, route, found, input_gain, output_gain);
    push_special_args(&mut args, route);
    args
}

/// The program to start for a route: what the command line says comes first,
/// what the configuration says comes second.
pub fn bridge_bin_path(
    chosen: &Option<String>,
    config: &BridgeAppConfig,
    default: String,
) -> (r: String)
    ensures
        r@ == (if chosen is Some {
            chosen->Some_0@
        } else if config.bridge_bin is Some {
            config.bridge_bin->Some_0@
        } else {
            default@
        }),
{
    match chosen {
        Some(path) => path.clone(),
        None => match &config.bridge_bin {
            Some(path) => path.clone(),
            None => default,
        },
    }
}

/// The id of the client that plays a route to browsers.
pub open spec fn browser_uid(route: BridgeRouteConfig) -> Seq<char> {
    match route.client_uid {
        Some(uid) => uid@,
        None => "bridge-app-vmix-"@ + route.id@,
    }
}

/// How the client that plays a route to browsers starts: it only listens.
pub open spec fn browser_start(s: ClientStart, route: BridgeRouteConfig) -> bool {
    &&& s.user_id == route.user_id
    &&& s.client_uid@ == browser_uid(route)
    &&& s.role == ClientRole::Bridge
    &&& s.name == route.name
    &&& s.listen@ == route.listen_channels@
    &&& s.tx@.len() == 0
    &&& s.codec == route.codec
    &&& s.opus_profile == route.opus_profile
    &&& s.talk_mode == TalkMode::Muted
    &&& s.last_non_muted_talk_mode == TalkMode::Open
    &&& s.advertised_buttons@.len() == 0
    &&& s.stereo == route.stereo
}

/// The configuration of the client that plays a route to browsers.
pub fn browser_source_client_config(route: &BridgeRouteConfig, defaults: SharedDefaults) -> (r:
    ClientConfig)
    ensures
        exists|s: ClientStart|
            browser_start(s, *route) && #[trigger] is_fresh(r, s, defaults),
        r.capabilities == Some(ClientCapabilities::Bridge),
        r.tally == Some(defaults.tally),
{
    let client_uid = match &route.client_uid {
        Some(uid) => uid.clone(),
        None => concat2("bridge-app-vmix-", route.id.as_str()),
    };
    let start = ClientStart {
        user_id: route.user_id,
        client_uid,
        role: ClientRole::Bridge,
        name: route.name.clone(),
        listen: copy_ids(&route.listen_channels),
        tx: Vec::new(),
        codec: route.codec,
        opus_profile: route.opus_profile,
        talk_mode: TalkMode::Muted,
        last_non_muted_talk_mode: TalkMode::Open,
        advertised_buttons: Vec::new(),
        stereo: route.stereo,
    };
    let ghost kept = start;
    let config = fresh_config(start, defaults);
    proof {
        assert(browser_start(kept, *route) && is_fresh(config, kept, defaults));
    }
    config
}

// ---------------------------------------------------------------------------
// Requests about routes

/// Why a request was not met: the status of the answer, and what it says.
#[derive(Debug)]
pub struct BridgeAppError {
    pub status: u16,
    pub message: String,
}

impl BridgeAppError {
    /// The request was not in order.
    pub fn bad_request(message: String) -> (r: Self)
        ensures
            r == (BridgeAppError { status: 400, message }),
    {
        BridgeAppError { status: 400, message }
    }

    /// The request was in order and failed.
    pub fn internal(message: String) -> (r: Self)
        ensures
            r == (BridgeAppError { status: 500, message }),
    {
        BridgeAppError { status: 500, message }
    }
}

/// The first route at or after `i` with that id, or the number of routes.
pub open spec fn route_index(routes: Seq<BridgeRouteConfig>, id: Seq<char>, i: int) -> int
    decreases routes.len() - i,
{
    if i < 0 || i >= routes.len() {
        routes.len() as int
    } else if routes[i].id@ == id {
        i
    } else {
        route_index(routes, id, i + 1)
    }
}

/// What is said of a route that is not there.
pub open spec fn unknown_route(id: Seq<char>) -> Seq<char> {
    "unknown bridge route `"@ + id + "`"@
}

/// The place of the route with that id.
pub fn find_route(config: &BridgeAppConfig, route_id: &str) -> (r: Result<usize, BridgeAppError>)
    ensures
        ({
            let k = route_index(config.routes@, route_id@, 0);
            match r {
                Ok(i) => i == k && k < config.routes@.len() && config.routes@[k].id@ == route_id@,
                Err(e) => k == config.routes@.len() && e.status == 400 && e.message@
                    == unknown_route(route_id@),
            }
        }),
{
    let mut i: usize = 0;
    while i < config.routes.len()
        invariant
            0 <= i <= config.routes@.len(),
            route_index(config.routes@, route_id@, 0) == route_index(
                config.routes@,
                route_id@,
                i as int,
            ),
        decreases config.routes@.len() - i,
    {
        if same(config.routes[i].id.as_str(), route_id) {
            return Ok(i);
        }
        i = i + 1;
    }
    Err(BridgeAppError::bad_request(concat3("unknown bridge route `", route_id, "`")))
}

/// The place of the route with that id, if it gives its audio to a browser.
pub fn find_browser_route(config: &BridgeAppConfig, route_id: &str) -> (r: Result<
    usize,
    BridgeAppError,
>)
    ensures
        ({
            let k = route_index(config.routes@, route_id@, 0);
            match r {
                Ok(i) => i == k && k < config.routes@.len() && config.routes@[k].serves_browser(),
                Err(e) => e.status == 400 && if k == config.routes@.len() {
                    e.message@ == unknown_route(route_id@)
                } else {
                    !config.routes@[k].serves_browser() && e.message@ == of_route(
                        route_id@,
                        "` is not a vMix Browser Source output"@,
                    )
                },
            }
        }),
{
    match find_route(config, route_id) {
        Err(e) => Err(e),
        Ok(i) => {
            if config.routes[i].is_vmix_browser_source() {
                Ok(i)
            } else {
                Err(
                    BridgeAppError::bad_request(
                        concat3("route `", route_id, "` is not a vMix Browser Source output"),
                    ),
                )
            }
        },
    }
}

/// What starting a route comes to.
#[derive(Debug, Clone, Copy, PartialEq, Eq, Structural)]
pub enum StartAction {
    /// The route is running.
    Nothing,
    /// The route at this place is to be played to browsers.
    ServeBrowser(usize),
    /// A bridge is to be started for the route at this place.
    SpawnBridge(usize),
}

/// Decides what starting a route comes to. `served` tells whether the route is
/// being played to browsers, `bridged` whether its bridge is alive.
pub fn start_route(config: &BridgeAppConfig, route_id: &str, served: bool, bridged: bool) -> (r:
    Result<StartAction, BridgeAppError>)
    ensures
        ({
            let k = route_index(config.routes@, route_id@, 0);
            match r {
                Ok(action) => k < config.routes@.len() && config.routes@[k].fault() is None
                    && action == (if config.routes@[k].serves_browser() {
                    if served {
                        StartAction::Nothing
                    } else {
                        StartAction::ServeBrowser(k as usize)
                    }
                } else if bridged {
                    StartAction::Nothing
                } else {
                    StartAction::SpawnBridge(k as usize)
                }),
                Err(e) => e.status == 400 && if k == config.routes@.len() {
                    e.message@ == unknown_route(route_id@)
                } else {
                    config.routes@[k].fault() == Some(e.message@)
                },
            }
        }),
{
    match find_route(config, route_id) {
        Err(e) => Err(e),
        Ok(i) => match config.routes[i].validate() {
            Err(message) => Err(BridgeAppError::bad_request(message)),
            Ok(_) => Ok(
                if config.routes[i].is_vmix_browser_source() {
                    if served {
                        StartAction::Nothing
                    } else {
                        StartAction::ServeBrowser(i)
                    }
                } else if bridged {
                    StartAction::Nothing
                } else {
                    StartAction::SpawnBridge(i)
                },
            ),
        },
    }
}

/// The ids of the routes that are enabled.
pub open spec fn enabled_ids(routes: Seq<BridgeRouteConfig>) -> Seq<Seq<char>>
    decreases routes.len(),
{
    if routes.len() == 0 {
        Seq::empty()
    } else if routes.last().enabled {
        enabled_ids(routes.drop_last()).push(routes.last().id@)
    } else {
        enabled_ids(routes.drop_last())
    }
}

/// The routes to start when all are to be started, in their order.
pub fn enabled_routes(config: &BridgeAppConfig) -> (r: Vec<String>)
    ensures
        texts(r@) == enabled_ids(config.routes@),
{
    let mut ids: Vec<String> = Vec::new();
    let mut i: usize = 0;
    proof {
        assert(texts(ids@) =~= Seq::<Seq<char>>::empty());
    }
    while i < config.routes.len()
        invariant
            0 <= i <= config.routes@.len(),
            texts(ids@) == enabled_ids(config.routes@.take(i as int)),
        decreases config.routes@.len() - i,
    {
        let ghost before = ids@;
        proof {
            assert(config.routes@.take(i + 1).drop_last() =~= config.routes@.take(i as int));
            assert(config.routes@.take(i + 1).last() == config.routes@[i as int]);
        }
        if config.routes[i].enabled {
            ids.push(config.routes[i].id.clone());
            proof {
                assert(texts(ids@) =~= texts(before).push(config.routes@[i as int].id@));
            }
        }
        i = i + 1;
    }
    proof {
        assert(config.routes@.take(config.routes@.len() as int) =~= config.routes@);
    }
    ids
}

} // verus!
