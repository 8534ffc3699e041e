//! The settings of the client application.

use vstd::prelude::*;

use crate::buttons::{DEFAULT_CLIENT_BUTTON_COUNT, MAX_CLIENT_BUTTON_COUNT};
use crate::capture::InputChannelMode;
use crate::commands::{button_arg, button_key_arg, ButtonArg, ButtonKeyArg};
use crate::device::{backend_kind, AudioInputBackend};
use crate::endpoint::{
    checked_host, control_in_effect, control_url_of, default_audio_addr, fields_admin,
    fields_control, fields_fault, fields_from_args, host_to_look_up, lookup_text, opt_parts,
    opt_text, server_in_effect, settled_fields, ClientEndpointOverrides, ClientServerEndpoint,
    EndpointError, EndpointFields, HostLookup, ServerTarget, DEFAULT_AUDIO_PORT,
    DEFAULT_SERVER_HOST,
};
use crate::gain::{Gain, GAIN_EIGHT, GAIN_ONE};
use crate::net::SocketAddress;
use crate::profiles::{
    address_parts, copy_profile, mobile_profile_id, normal_profile, normal_profiles,
    normalize_mobile_profile, normalize_profiles, profile_id, profiles, remember_profile,
    remembered, MobileServerProfile, ProfileAddresses, ServerProfile,
};
use crate::protocol::{Codec, OpusProfile};
use crate::session::{wire_codec, wire_profile, Args, WireCodec, WireOpusProfile};
use crate::text::{
    blank, clone_texts, concat2, concat3, concat4, decimal, is_blank, owned, same, texts, trim,
    trimmed, u64_text,
};
use crate::ui::{ClientAudioBackendKind, ClientInputChannelMode, ClientRuntimeConfig};
use crate::web::address_text;

verus! {

/// A codec that the command line can ask for.
#[derive(Debug, Clone, Copy, PartialEq, Eq, Structural)]
pub enum AppCodec {
    Pcm16,
    Pcm24,
    Pcm48,
    Opus,
}

/// An Opus profile that the command line can ask for.
#[derive(Debug, Clone, Copy, PartialEq, Eq, Structural)]
pub enum AppOpusProfile {
    Speech16Low,
    Speech24Standard,
    Speech48High,
    Music48,
}

/// Where the controls are shown.
#[derive(Debug, Clone, Copy, PartialEq, Eq, Structural)]
pub enum AppWindowMode {
    SystemBrowser,
    Native,
    Disabled,
}

/// The codec that is asked for.
pub open spec fn app_codec(c: AppCodec) -> Codec {
    match c {
        AppCodec::Pcm16 => Codec::Pcm16,
        AppCodec::Pcm24 => Codec::Pcm24,
        AppCodec::Pcm48 => Codec::Pcm48,
        AppCodec::Opus => Codec::Opus,
    }
}

impl From<AppCodec> for Codec {
    fn from(value: AppCodec) -> (r: Self) {
        match value {
            AppCodec::Pcm16 => Codec::Pcm16,
            AppCodec::Pcm24 => Codec::Pcm24,
            AppCodec::Pcm48 => Codec::Pcm48,
            AppCodec::Opus => Codec::Opus,
        }
    }
}

impl vstd::std_specs::convert::FromSpecImpl<AppCodec> for Codec {
    open spec fn obeys_from_spec() -> bool {
        true
    }

    open spec fn from_spec(value: AppCodec) -> Self {
        app_codec(value)
    }
}

/// The Opus profile that is asked for.
pub open spec fn app_profile(p: AppOpusProfile) -> OpusProfile {
    match p {
        AppOpusProfile::Speech16Low => OpusProfile::Speech16Low,
        AppOpusProfile::Speech24Standard => OpusProfile::Speech24Standard,
        AppOpusProfile::Speech48High => OpusProfile::Speech48High,
        AppOpusProfile::Music48 => OpusProfile::Music48,
    }
}

impl From<AppOpusProfile> for OpusProfile {
    fn from(value: AppOpusProfile) -> (r: Self) {
        match value {
            AppOpusProfile::Speech16Low => OpusProfile::Speech16Low,
            AppOpusProfile::Speech24Standard => OpusProfile::Speech24Standard,
            AppOpusProfile::Speech48High => OpusProfile::Speech48High,
            AppOpusProfile::Music48 => OpusProfile::Music48,
        }
    }
}

impl vstd::std_specs::convert::FromSpecImpl<AppOpusProfile> for OpusProfile {
    open spec fn obeys_from_spec() -> bool {
        true
    }

    open spec fn from_spec(value: AppOpusProfile) -> Self {
        app_profile(value)
    }
}

/// The codec to ask for on the command line, where there is one.
pub open spec fn codec_on_wire(codec: Codec) -> Option<WireCodec> {
    match codec {
        Codec::Pcm16 => Some(WireCodec::Pcm16),
        Codec::Pcm24 => Some(WireCodec::Pcm24),
        Codec::Pcm48 => Some(WireCodec::Pcm48),
        Codec::Opus => Some(WireCodec::Opus),
        Codec::Adpcm => None,
    }
}

/// The codec to ask for on the command line.
pub fn codec_to_wire(codec: Codec) -> (r: Result<WireCodec, String>)
    ensures
        match r {
            Ok(c) => codec_on_wire(codec) == Some(c),
            Err(m) => codec_on_wire(codec) is None && m@
                == "ADPCM is not supported by the app client"@,
        },
{
    match codec {
        Codec::Pcm16 => Ok(WireCodec::Pcm16),
        Codec::Pcm24 => Ok(WireCodec::Pcm24),
        Codec::Pcm48 => Ok(WireCodec::Pcm48),
        Codec::Opus => Ok(WireCodec::Opus),
        Codec::Adpcm => Err(owned("ADPCM is not supported by the app client")),
    }
}

/// The Opus profile to ask for on the command line.
pub fn opus_profile_to_wire(profile: OpusProfile) -> (r: WireOpusProfile)
    ensures
        wire_profile(r) == profile,
{
    match profile {
        OpusProfile::Speech16Low => WireOpusProfile::Speech16Low,
        OpusProfile::Speech24Standard => WireOpusProfile::Speech24Standard,
        OpusProfile::Speech48High => WireOpusProfile::Speech48High,
        OpusProfile::Music48 => WireOpusProfile::Music48,
    }
}

/// The backend to ask for on the command line.
pub open spec fn backend_asked(kind: ClientAudioBackendKind) -> AudioInputBackend {
    match kind {
        ClientAudioBackendKind::Raw => AudioInputBackend::Raw,
        ClientAudioBackendKind::VoiceProcessing => AudioInputBackend::VoiceProcessing,
        _ => AudioInputBackend::Auto,
    }
}

/// The backend to ask for on the command line: those of phones are chosen by
/// themselves.
pub fn core_input_backend_to_desktop(backend: ClientAudioBackendKind) -> (r: AudioInputBackend)
    ensures
        r == backend_asked(backend),
{
    match backend {
        ClientAudioBackendKind::Raw => AudioInputBackend::Raw,
        ClientAudioBackendKind::VoiceProcessing => AudioInputBackend::VoiceProcessing,
        _ => AudioInputBackend::Auto,
    }
}

/// The channel of the microphone that a client uses.
pub open spec fn channel_kind(channel: InputChannelMode) -> ClientInputChannelMode {
    match channel {
        InputChannelMode::Average => ClientInputChannelMode::Average,
        InputChannelMode::Left => ClientInputChannelMode::Left,
        InputChannelMode::Right => ClientInputChannelMode::Right,
    }
}

/// The channel of the microphone that a client uses.
pub fn app_input_channel_to_core(channel: InputChannelMode) -> (r: ClientInputChannelMode)
    ensures
        r == channel_kind(channel),
{
    match channel {
        InputChannelMode::Average => ClientInputChannelMode::Average,
        InputChannelMode::Left => ClientInputChannelMode::Left,
        InputChannelMode::Right => ClientInputChannelMode::Right,
    }
}

/// The channel of the microphone to ask for on the command line.
pub fn core_input_channel_to_desktop(channel: ClientInputChannelMode) -> (r: InputChannelMode)
    ensures
        channel_kind(r) == channel,
{
    match channel {
        ClientInputChannelMode::Average => InputChannelMode::Average,
        ClientInputChannelMode::Left => InputChannelMode::Left,
        ClientInputChannelMode::Right => InputChannelMode::Right,
    }
}

/// What the command line says about the settings.
#[derive(Debug)]
pub struct AppArgs {
    pub server_host: Option<String>,
    pub server: Option<SocketAddress>,
    pub control: Option<String>,
    pub user_id: Option<u16>,
    pub client_uid: Option<String>,
    pub identity_file: Option<String>,
    pub tx_channel: Option<u16>,
    pub listen_channel: Option<u16>,
    pub codec: Option<AppCodec>,
    pub opus_profile: Option<AppOpusProfile>,
    pub mic_gain: Option<Gain>,
    pub input_limiter: bool,
    pub disable_input_transient_suppression: bool,
    pub speaker_gain: Option<Gain>,
    pub jitter_ms: Option<u32>,
    pub input_device: Option<String>,
    pub input_backend: Option<AudioInputBackend>,
    pub input_channel: Option<InputChannelMode>,
    pub output_device: Option<String>,
    pub debug_audio_dir: Option<String>,
    pub button_count: Option<u16>,
    pub buttons: Vec<String>,
    pub button_keys: Vec<String>,
    pub local_ui_bind: Option<SocketAddress>,
    pub local_ui_token: Option<String>,
    pub disable_local_ui: bool,
    pub enable_local_ui: bool,
    pub window_mode: Option<AppWindowMode>,
    pub app_title: Option<String>,
    pub ui_open_delay_ms: Option<u64>,
}

/// Where a desktop shows the controls unless the command line says otherwise.
pub fn apply_native_defaults(args: &mut AppArgs)
    ensures
        *final(args) == (AppArgs {
            window_mode: if old(args).window_mode is None {
                Some(AppWindowMode::Native)
            } else {
                old(args).window_mode
            },
            ..*old(args)
        }),
{
    if args.window_mode.is_none() {
        args.window_mode = Some(AppWindowMode::Native);
    }
}

/// The settings of the client application.
#[derive(Debug, Clone, PartialEq, Eq)]
pub struct AppSettings {
    pub app_title: String,
    pub server_profiles: Vec<MobileServerProfile>,
    pub server_host: String,
    pub server: SocketAddress,
    pub control: String,
    pub admin: Option<String>,
    pub advanced_endpoints: bool,
    pub user_id: Option<u16>,
    pub client_uid: Option<String>,
    pub identity_file: Option<String>,
    pub tx_channel: u16,
    pub listen_channel: u16,
    pub codec: Codec,
    pub opus_profile: OpusProfile,
    pub mic_gain: Gain,
    pub input_limiter: bool,
    pub input_transient_suppression: bool,
    pub speaker_gain: Gain,
    pub jitter_ms: u32,
    pub input_device: Option<String>,
    pub input_backend: AudioInputBackend,
    pub input_channel: InputChannelMode,
    pub output_device: Option<String>,
    pub debug_audio_dir: Option<String>,
    pub button_count: u16,
    pub buttons: Vec<String>,
    pub button_keys: Vec<String>,
    pub local_ui_bind: SocketAddress,
    pub local_ui_token: Option<String>,
    pub disable_local_ui: bool,
    pub window_mode: AppWindowMode,
    pub ui_open_delay_ms: u64,
}

impl Default for AppSettings {
    fn default() -> (r: Self)
        ensures
            r.app_title@ == "Intercom Suite"@,
            r.server_profiles@.len() == 0,
            r.fields() == (EndpointFields {
                server_host: DEFAULT_SERVER_HOST@,
                server: (DEFAULT_SERVER_HOST@, DEFAULT_AUDIO_PORT),
                control: control_url_of(DEFAULT_SERVER_HOST@),
                admin: None,
                advanced: false,
            }),
            r.user_id == Some(1u16),
            r.client_uid is None,
            r.identity_file is None,
            r.tx_channel == 1,
            r.listen_channel == 1,
            r.codec == Codec::Pcm16,
            r.opus_profile == OpusProfile::Speech24Standard,
            r.mic_gain == (Gain { bits: GAIN_ONE }),
            !r.input_limiter,
            r.input_transient_suppression,
            r.speaker_gain == (Gain { bits: GAIN_ONE }),
            r.jitter_ms == 40,
            r.input_device is None,
            r.input_backend == AudioInputBackend::Auto,
            r.input_channel == InputChannelMode::Average,
            r.output_device is None,
            r.debug_audio_dir is None,
            r.button_count == DEFAULT_CLIENT_BUTTON_COUNT,
            r.buttons@.len() == 0,
            r.button_keys@.len() == 0,
            r.local_ui_bind.parts() == ("127.0.0.1"@, 41002u16),
            r.local_ui_token is None,
            !r.disable_local_ui,
            r.window_mode == AppWindowMode::SystemBrowser,
            r.ui_open_delay_ms == 750,
    {
        AppSettings {
            app_title: owned("Intercom Suite"),
            server_profiles: Vec::new(),
            server_host: owned(DEFAULT_SERVER_HOST),
            server: default_audio_addr(),
            control: ClientServerEndpoint::default().control_url(),
            admin: None,
            advanced_endpoints: false,
            user_id: Some(1),
            client_uid: None,
            identity_file: None,
            tx_channel: 1,
            listen_channel: 1,
            codec: Codec::Pcm16,
            opus_profile: OpusProfile::default(),
            mic_gain: Gain { bits: GAIN_ONE },
            input_limiter: false,
            input_transient_suppression: true,
            speaker_gain: Gain { bits: GAIN_ONE },
            jitter_ms: 40,
            input_device: None,
            input_backend: AudioInputBackend::Auto,
            input_channel: InputChannelMode::Average,
            output_device: None,
            debug_audio_dir: None,
            button_count: DEFAULT_CLIENT_BUTTON_COUNT,
            buttons: Vec::new(),
            button_keys: Vec::new(),
            local_ui_bind: SocketAddress { ip: owned("127.0.0.1"), port: 41002 },
            local_ui_token: None,
            disable_local_ui: false,
            window_mode: AppWindowMode::SystemBrowser,
            ui_open_delay_ms: 750,
        }
    }
}

fn copy_opt_text(o: &Option<String>) -> (r: Option<String>)
    ensures
        r == *o,
{
    match o {
        Some(s) => Some(s.clone()),
        None => None,
    }
}

/// What is given, or else what was there.
pub open spec fn given_or<T>(given: Option<T>, was: T) -> T {
    match given {
        Some(value) => value,
        None => was,
    }
}

/// An optional value that is given, or else the one that was there.
pub open spec fn given_or_kept<T>(given: Option<T>, was: Option<T>) -> Option<T> {
    if given is Some {
        given
    } else {
        was
    }
}

fn taken<T: Copy>(given: Option<T>, was: T) -> (r: T)
    ensures
        r == given_or(given, was),
{
    match given {
        Some(value) => value,
        None => was,
    }
}

fn taken_codec(given: Option<AppCodec>, was: Codec) -> (r: Codec)
    ensures
        r == (match given {
            Some(c) => app_codec(c),
            None => was,
        }),
{
    match given {
        Some(c) => Codec::from(c),
        None => was,
    }
}

fn taken_profile(given: Option<AppOpusProfile>, was: OpusProfile) -> (r: OpusProfile)
    ensures
        r == (match given {
            Some(p) => app_profile(p),
            None => was,
        }),
{
    match given {
        Some(p) => OpusProfile::from(p),
        None => was,
    }
}

fn taken_title(given: &Option<String>, was: &String) -> (r: String)
    ensures
        r == given_or(*given, *was),
{
    match given {
        Some(s) => s.clone(),
        None => was.clone(),
    }
}

fn taken_text(given: &Option<String>, was: &Option<String>) -> (r: Option<String>)
    ensures
        r == given_or_kept(*given, *was),
{
    match given {
        Some(s) => Some(s.clone()),
        None => copy_opt_text(was),
    }
}

fn taken_texts(given: &Vec<String>, was: &Vec<String>) -> (r: Vec<String>)
    ensures
        texts(r@) == (if given@.len() > 0 {
            texts(given@)
        } else {
            texts(was@)
        }),
{
    if given.len() > 0 {
        clone_texts(given)
    } else {
        clone_texts(was)
    }
}

fn taken_address(given: &Option<SocketAddress>, was: &SocketAddress) -> (r: SocketAddress)
    ensures
        r.parts() == given_or(opt_parts(*given), was.parts()),
{
    match given {
        Some(a) => a.copy(),
        None => was.copy(),
    }
}

/// What is wrong with a gain, if anything.
pub open spec fn app_gain_fault(name: Seq<char>, gain: Gain) -> Option<Seq<char>> {
    if gain.finite() && gain.within(GAIN_EIGHT) {
        None
    } else {
        Some(name + " must be a finite value between 0 and 8"@)
    }
}

fn check_app_gain(name: &str, gain: Gain) -> (r: Result<(), String>)
    ensures
        match r {
            Ok(_) => app_gain_fault(name@, gain) is None,
            Err(m) => app_gain_fault(name@, gain) == Some(m@),
        },
{
    if !gain.is_finite() || !gain.is_within(GAIN_EIGHT) {
        return Err(concat2(name, " must be a finite value between 0 and 8"));
    }
    Ok(())
}

/// What is wrong with the first `n` buttons, if anything: the first fault counts.
pub open spec fn buttons_fault(s: Seq<Seq<char>>, n: int) -> Option<Seq<char>>
    decreases n,
{
    if n <= 0 {
        None
    } else if buttons_fault(s, n - 1) is Some {
        buttons_fault(s, n - 1)
    } else if button_arg(s[n - 1]) is None {
        Some("invalid button `"@ + s[n - 1] + "`"@)
    } else {
        None
    }
}

/// What is wrong with the first `n` keys, if anything: the first fault counts.
pub open spec fn keys_fault(s: Seq<Seq<char>>, n: int) -> Option<Seq<char>>
    decreases n,
{
    if n <= 0 {
        None
    } else if keys_fault(s, n - 1) is Some {
        keys_fault(s, n - 1)
    } else if button_key_arg(s[n - 1]) is Err {
        Some("invalid button key `"@ + s[n - 1] + "`"@)
    } else {
        None
    }
}

proof fn lemma_first_button_fault(s: Seq<Seq<char>>, i: int, n: int)
    requires
        0 <= i <= n,
        buttons_fault(s, i) is Some,
    ensures
        buttons_fault(s, n) == buttons_fault(s, i),
    decreases n,
{
    if i < n {
        lemma_first_button_fault(s, i, n - 1);
    }
}

proof fn lemma_first_key_fault(s: Seq<Seq<char>>, i: int, n: int)
    requires
        0 <= i <= n,
        keys_fault(s, i) is Some,
    ensures
        keys_fault(s, n) == keys_fault(s, i),
    decreases n,
{
    if i < n {
        lemma_first_key_fault(s, i, n - 1);
    }
}

/// The buttons that the texts name, one after the other.
pub open spec fn buttons_read(r: Seq<ButtonArg>, s: Seq<Seq<char>>) -> bool {
    &&& r.len() == s.len()
    &&& forall|i: int| 0 <= i < s.len() ==> button_arg(s[i]) == Some((
        (#[trigger] r[i]).id@,
        r[i].label@,
    ))
}

/// The keys that the texts name, one after the other.
pub open spec fn keys_read(r: Seq<ButtonKeyArg>, s: Seq<Seq<char>>) -> bool {
    &&& r.len() == s.len()
    &&& forall|i: int| 0 <= i < s.len() ==> button_key_arg(s[i]) == Ok::<
        (Seq<char>, char),
        Seq<char>,
    >(((#[trigger] r[i]).button_id@, r[i].key))
}

fn read_buttons(given: &Vec<String>) -> (r: Result<Vec<ButtonArg>, String>)
    ensures
        match r {
            Ok(v) => buttons_fault(texts(given@), given@.len() as int) is None && buttons_read(
                v@,
                texts(given@),
            ),
            Err(m) => buttons_fault(texts(given@), given@.len() as int) == Some(m@),
        },
{
    let ghost s = texts(given@);
    let n = given.len();
    let mut out: Vec<ButtonArg> = Vec::new();
    let mut i: usize = 0;
    while i < n
        invariant
            n == given@.len(),
            s == texts(given@),
            0 <= i <= n,
            out@.len() == i,
            buttons_fault(s, i as int) is None,
            forall|k: int|
                0 <= k < i ==> button_arg(s[k]) == Some(((#[trigger] out@[k]).id@, out@[k].label@)),
        decreases n - i,
    {
        proof {
            assert(s[i as int] == given@[i as int]@);
            if buttons_fault(s, i + 1) is Some {
                lemma_first_button_fault(s, i + 1, n as int);
            }
        }
        match ButtonArg::parse(given[i].as_str()) {
            Ok(b) => {
                out.push(b);
            },
            Err(_) => {
                return Err(concat3("invalid button `", given[i].as_str(), "`"));
            },
        }
        i = i + 1;
    }
    Ok(out)
}

fn read_keys(given: &Vec<String>) -> (r: Result<Vec<ButtonKeyArg>, String>)
    ensures
        match r {
            Ok(v) => keys_fault(texts(given@), given@.len() as int) is None && keys_read(
                v@,
                texts(given@),
            ),
            Err(m) => keys_fault(texts(given@), given@.len() as int) == Some(m@),
        },
{
    let ghost s = texts(given@);
    let n = given.len();
    let mut out: Vec<ButtonKeyArg> = Vec::new();
    let mut i: usize = 0;
    while i < n
        invariant
            n == given@.len(),
            s == texts(given@),
            0 <= i <= n,
            out@.len() == i,
            keys_fault(s, i as int) is None,
            forall|k: int|
                0 <= k < i ==> button_key_arg(s[k]) == Ok::<(Seq<char>, char), Seq<char>>(
                    ((#[trigger] out@[k]).button_id@, out@[k].key),
                ),
        decreases n - i,
    {
        proof {
            assert(s[i as int] == given@[i as int]@);
            if keys_fault(s, i + 1) is Some {
                lemma_first_key_fault(s, i + 1, n as int);
            }
        }
        match ButtonKeyArg::parse(given[i].as_str()) {
            Ok(b) => {
                out.push(b);
            },
            Err(_) => {
                return Err(concat3("invalid button key `", given[i].as_str(), "`"));
            },
        }
        i = i + 1;
    }
    Ok(out)
}

/// The settings that stay as they are while the words about the server are
/// brought in order.
pub open spec fn rest_kept(a: AppSettings, b: AppSettings) -> bool {
    a == (AppSettings {
        server_profiles: a.server_profiles,
        server_host: a.server_host,
        server: a.server,
        control: a.control,
        admin: a.admin,
        advanced_endpoints: a.advanced_endpoints,
        ..b
    })
}

impl AppSettings {
    /// Where the server is.
    pub open spec fn fields(self) -> EndpointFields {
        EndpointFields {
            server_host: self.server_host@,
            server: self.server.parts(),
            control: self.control@,
            admin: opt_text(self.admin),
            advanced: self.advanced_endpoints,
        }
    }

    /// What is wrong with the settings, if anything: the first fault counts.
    pub open spec fn fault(self) -> Option<Seq<char>> {
        let settled = settled_fields(self.fields());
        if fields_fault(settled) is Some {
            Some(fields_fault(settled)->Some_0.text())
        } else if is_blank(self.app_title@) {
            Some("app_title cannot be empty"@)
        } else if self.jitter_ms > 250 {
            Some("jitter_ms must be between 0 and 250"@)
        } else if self.ui_open_delay_ms > 30_000 {
            Some("ui_open_delay_ms must be between 0 and 30000"@)
        } else if self.button_count > MAX_CLIENT_BUTTON_COUNT {
            Some("button_count must be between 0 and 24"@)
        } else if app_gain_fault("mic_gain"@, self.mic_gain) is Some {
            app_gain_fault("mic_gain"@, self.mic_gain)
        } else if app_gain_fault("speaker_gain"@, self.speaker_gain) is Some {
            app_gain_fault("speaker_gain"@, self.speaker_gain)
        } else if codec_on_wire(self.codec) is None {
            Some("ADPCM is not supported by the app client"@)
        } else if buttons_fault(texts(self.buttons@), self.buttons@.len() as int) is Some {
            buttons_fault(texts(self.buttons@), self.buttons@.len() as int)
        } else {
            keys_fault(texts(self.button_keys@), self.button_keys@.len() as int)
        }
    }

    /// Where the server is, in order, and the host to look up for its address.
    pub fn endpoint_overrides(&self) -> (r: (ClientEndpointOverrides, Option<ClientServerEndpoint>))
        ensures
            r.0@ == settled_fields(self.fields()),
            match r.1 {
                Some(e) => host_to_look_up(self.fields()) == Some(e.host@),
                None => host_to_look_up(self.fields()) is None,
            },
    {
        ClientEndpointOverrides::normalized(
            self.server_host.as_str(),
            self.server.copy(),
            self.control.as_str(),
            copy_opt_text(&self.admin),
            self.advanced_endpoints,
        )
    }

    /// Brings the words about servers in order: `addresses` belong to the servers
    /// that are remembered. The result names the host to look up for the address
    /// of the server: `set_resolved_server` takes what is found.
    pub fn normalize_endpoints(&mut self, addresses: Vec<ProfileAddresses>) -> (r: Option<
        ClientServerEndpoint,
    >)
        requires
            addresses@.len() == old(self).server_profiles@.len(),
        ensures
            final(self).fields() == settled_fields(old(self).fields()),
            match r {
                Some(e) => host_to_look_up(old(self).fields()) == Some(e.host@),
                None => host_to_look_up(old(self).fields()) is None,
            },
            profiles(final(self).server_profiles@) == normal_profiles(
                profiles(old(self).server_profiles@),
                address_parts(addresses@),
            ),
            rest_kept(*final(self), *old(self)),
    {
        let (endpoints, lookup) = self.endpoint_overrides();
        self.server_host = endpoints.server_host;
        self.server = endpoints.server;
        self.control = endpoints.control;
        self.admin = endpoints.admin;
        self.advanced_endpoints = endpoints.advanced_endpoints;
        let mut known: Vec<MobileServerProfile> = Vec::new();
        known.append(&mut self.server_profiles);
        proof {
            assert(known@ =~= old(self).server_profiles@);
        }
        self.server_profiles = normalize_profiles(known, addresses);
        lookup
    }

    /// Takes the address that was found for the server, if one was.
    pub fn set_resolved_server(&mut self, found: Option<SocketAddress>)
        ensures
            *final(self) == (match found {
                Some(server) => (AppSettings { server, ..*old(self) }),
                None => *old(self),
            }),
    {
        if let Some(server) = found {
            self.server = server;
        }
    }

    /// The address that audio goes to, or the host to look up for it.
    pub fn effective_server(&self) -> (r: Result<ServerTarget, EndpointError>)
        ensures
            ({
                let settled = settled_fields(self.fields());
                if settled.advanced {
                    r is Ok && r->Ok_0@ == (true, settled.server)
                } else {
                    match crate::endpoint::checked_host(settled.server_host) {
                        Ok(h) => r is Ok && r->Ok_0@ == (false, (h, DEFAULT_AUDIO_PORT)),
                        Err(e) => r == Err::<ServerTarget, EndpointError>(e),
                    }
                }
            }),
    {
        self.endpoint_overrides().0.effective_server()
    }

    /// The URL of the control connection in effect.
    pub fn effective_control(&self) -> (r: Result<String, EndpointError>)
        ensures
            match r {
                Ok(u) => fields_control(settled_fields(self.fields())) == Ok::<
                    Seq<char>,
                    EndpointError,
                >(u@),
                Err(e) => fields_control(settled_fields(self.fields())) == Err::<
                    Seq<char>,
                    EndpointError,
                >(e),
            },
    {
        self.endpoint_overrides().0.effective_control()
    }

    /// The URL of the admin interface in effect.
    pub fn effective_admin(&self) -> (r: Result<String, EndpointError>)
        ensures
            match r {
                Ok(u) => fields_admin(settled_fields(self.fields())) == Ok::<
                    Seq<char>,
                    EndpointError,
                >(u@),
                Err(e) => fields_admin(settled_fields(self.fields())) == Err::<
                    Seq<char>,
                    EndpointError,
                >(e),
            },
    {
        self.endpoint_overrides().0.effective_admin()
    }

    fn take_server(&mut self, args: &AppArgs)
        ensures
            final(self).fields() == fields_from_args(
                old(self).fields(),
                opt_text(args.server_host),
                opt_parts(args.server),
                opt_text(args.control),
                None,
            ),
            final(self).server_profiles == old(self).server_profiles,
            rest_kept(*final(self), *old(self)),
    {
        if let Some(server_host) = &args.server_host {
            self.server_host = server_host.clone();
            self.advanced_endpoints = false;
        }
        if let Some(server) = &args.server {
            self.server = server.copy();
            self.advanced_endpoints = true;
        }
        if let Some(control) = &args.control {
            self.control = control.clone();
            self.advanced_endpoints = true;
        }
    }

    /// Takes what the command line says, and brings it in order: `addresses`
    /// belong to the servers that are remembered.
    pub fn merge_cli(&mut self, args: &AppArgs, addresses: Vec<ProfileAddresses>) -> (r: Option<
        ClientServerEndpoint,
    >)
        requires
            addresses@.len() == old(self).server_profiles@.len(),
        ensures
            ({
                let given = fields_from_args(
                    old(self).fields(),
                    opt_text(args.server_host),
                    opt_parts(args.server),
                    opt_text(args.control),
                    None,
                );
                &&& final(self).fields() == settled_fields(given)
                &&& match r {
                    Some(e) => host_to_look_up(given) == Some(e.host@),
                    None => host_to_look_up(given) is None,
                }
            }),
            profiles(final(self).server_profiles@) == normal_profiles(
                profiles(old(self).server_profiles@),
                address_parts(addresses@),
            ),
            final(self).app_title == given_or(args.app_title, old(self).app_title),
            final(self).user_id == given_or_kept(args.user_id, old(self).user_id),
            final(self).client_uid == given_or_kept(args.client_uid, old(self).client_uid),
            final(self).identity_file == given_or_kept(args.identity_file, old(self).identity_file),
            final(self).input_device == given_or_kept(args.input_device, old(self).input_device),
            final(self).output_device == given_or_kept(args.output_device, old(self).output_device),
            final(self).debug_audio_dir == given_or_kept(args.debug_audio_dir, old(self).debug_audio_dir),
            final(self).local_ui_token == given_or_kept(args.local_ui_token, old(self).local_ui_token),
            final(self).tx_channel == given_or(args.tx_channel, old(self).tx_channel),
            final(self).listen_channel == given_or(args.listen_channel, old(self).listen_channel),
            final(self).mic_gain == given_or(args.mic_gain, old(self).mic_gain),
            final(self).speaker_gain == given_or(args.speaker_gain, old(self).speaker_gain),
            final(self).jitter_ms == given_or(args.jitter_ms, old(self).jitter_ms),
            final(self).input_backend == given_or(args.input_backend, old(self).input_backend),
            final(self).input_channel == given_or(args.input_channel, old(self).input_channel),
            final(self).button_count == given_or(args.button_count, old(self).button_count),
            final(self).window_mode == given_or(args.window_mode, old(self).window_mode),
            final(self).ui_open_delay_ms == given_or(args.ui_open_delay_ms, old(self).ui_open_delay_ms),
            final(self).codec == (match args.codec {
                Some(c) => app_codec(c),
                None => old(self).codec,
            }),
            final(self).opus_profile == (match args.opus_profile {
                Some(p) => app_profile(p),
                None => old(self).opus_profile,
            }),
            final(self).input_limiter == (args.input_limiter || old(self).input_limiter),
            final(self).input_transient_suppression == (
            !args.disable_input_transient_suppression && old(self).input_transient_suppression),
            texts(final(self).buttons@) == (if args.buttons@.len() > 0 {
                texts(args.buttons@)
            } else {
                texts(old(self).buttons@)
            }),
            texts(final(self).button_keys@) == (if args.button_keys@.len() > 0 {
                texts(args.button_keys@)
            } else {
                texts(old(self).button_keys@)
            }),
            final(self).local_ui_bind.parts() == given_or(
                opt_parts(args.local_ui_bind),
                old(self).local_ui_bind.parts(),
            ),
            final(self).disable_local_ui == (!args.enable_local_ui && (args.disable_local_ui || old(
                self,
            ).disable_local_ui)),
    {
        self.take_server(args);
        if args.user_id.is_some() {
            self.user_id = args.user_id;
        }
        self.client_uid = taken_text(&args.client_uid, &self.client_uid);
        self.identity_file = taken_text(&args.identity_file, &self.identity_file);
        self.input_device = taken_text(&args.input_device, &self.input_device);
        self.output_device = taken_text(&args.output_device, &self.output_device);
        self.debug_audio_dir = taken_text(&args.debug_audio_dir, &self.debug_audio_dir);
        self.local_ui_token = taken_text(&args.local_ui_token, &self.local_ui_token);
        self.tx_channel = taken(args.tx_channel, self.tx_channel);
        self.listen_channel = taken(args.listen_channel, self.listen_channel);
        self.mic_gain = taken(args.mic_gain, self.mic_gain);
        self.speaker_gain = taken(args.speaker_gain, self.speaker_gain);
        self.jitter_ms = taken(args.jitter_ms, self.jitter_ms);
        self.input_backend = taken(args.input_backend, self.input_backend);
        self.input_channel = taken(args.input_channel, self.input_channel);
        self.button_count = taken(args.button_count, self.button_count);
        self.window_mode = taken(args.window_mode, self.window_mode);
        self.ui_open_delay_ms = taken(args.ui_open_delay_ms, self.ui_open_delay_ms);
        self.codec = taken_codec(args.codec, self.codec);
        self.opus_profile = taken_profile(args.opus_profile, self.opus_profile);
        self.input_limiter = args.input_limiter || self.input_limiter;
        self.input_transient_suppression = !args.disable_input_transient_suppression
            && self.input_transient_suppression;
        self.buttons = taken_texts(&args.buttons, &self.buttons);
        self.button_keys = taken_texts(&args.button_keys, &self.button_keys);
        self.local_ui_bind = taken_address(&args.local_ui_bind, &self.local_ui_bind);
        self.disable_local_ui = !args.enable_local_ui && (args.disable_local_ui
            || self.disable_local_ui);
        self.app_title = taken_title(&args.app_title, &self.app_title);
        self.normalize_endpoints(addresses)
    }

    /// Checks the settings.
    pub fn validate(&self) -> (r: Result<(), String>)
        ensures
            match r {
                Ok(_) => self.fault() is None,
                Err(m) => self.fault() == Some(m@),
            },
    {
        match self.endpoint_overrides().0.validate() {
            Err(e) => {
                return Err(e.message());
            },
            Ok(_) => {},
        }
        if blank(self.app_title.as_str()) {
            return Err(owned("app_title cannot be empty"));
        }
        if self.jitter_ms > 250 {
            return Err(owned("jitter_ms must be between 0 and 250"));
        }
        if self.ui_open_delay_ms > 30_000 {
            return Err(owned("ui_open_delay_ms must be between 0 and 30000"));
        }
        if self.button_count > MAX_CLIENT_BUTTON_COUNT {
            return Err(owned("button_count must be between 0 and 24"));
        }
        match check_app_gain("mic_gain", self.mic_gain) {
            Err(m) => {
                return Err(m);
            },
            Ok(_) => {},
        }
        match check_app_gain("speaker_gain", self.speaker_gain) {
            Err(m) => {
                return Err(m);
            },
            Ok(_) => {},
        }
        match codec_to_wire(self.codec) {
            Err(m) => {
                return Err(m);
            },
            Ok(_) => {},
        }
        match read_buttons(&self.buttons) {
            Err(m) => {
                return Err(m);
            },
            Ok(_) => {},
        }
        match read_keys(&self.button_keys) {
            Err(m) => {
                return Err(m);
            },
            Ok(_) => {},
        }
        Ok(())
    }

    /// The settings that a client is started with, where `found` is what the
    /// lookup of the server gave.
    pub fn client_runtime_config(&self, list_devices: bool, found: HostLookup) -> (r:
        Result<ClientRuntimeConfig, String>)
        ensures
            match r {
                Ok(c) => self.fault() is None && (settled_fields(self.fields()).advanced
                    || found is Found) && runtime_config_of(c, *self, list_devices, found),
                Err(m) => if self.fault() is Some {
                    self.fault() == Some(m@)
                } else {
                    &&& !settled_fields(self.fields()).advanced
                    &&& checked_host(settled_fields(self.fields()).server_host) matches Ok(host)
                    &&& lookup_text(host, found) == Some(m@)
                },
            },
    {
        match self.validate() {
            Err(m) => {
                return Err(m);
            },
            Ok(_) => {},
        }
        let (endpoints, _) = self.endpoint_overrides();
        let server = match endpoints.effective_server() {
            Ok(ServerTarget::Address(server)) => server,
            Ok(ServerTarget::Lookup(host, _)) => match found.address(host) {
                Ok(server) => server,
                Err(e) => {
                    return Err(e.message());
                },
            },
            Err(e) => {
                return Err(e.message());
            },
        };
        let control = match endpoints.effective_control() {
            Ok(control) => control,
            Err(e) => {
                return Err(e.message());
            },
        };
        Ok(
            ClientRuntimeConfig {
                server_host: endpoints.server_host,
                server,
                control,
                user_id: self.user_id,
                client_uid: copy_opt_text(&self.client_uid),
                identity_file: copy_opt_text(&self.identity_file),
                tx_channel: self.tx_channel,
                listen_channel: self.listen_channel,
                codec: self.codec,
                opus_profile: self.opus_profile,
                mic_gain: self.mic_gain,
                input_limiter: self.input_limiter,
                input_transient_suppression: self.input_transient_suppression,
                speaker_gain: self.speaker_gain,
                jitter_ms: self.jitter_ms,
                input_device: copy_opt_text(&self.input_device),
                output_device: copy_opt_text(&self.output_device),
                debug_audio_dir: copy_opt_text(&self.debug_audio_dir),
                button_count: self.button_count,
                local_ui_token: copy_opt_text(&self.local_ui_token),
                disable_local_ui: self.disable_local_ui,
                input_backend: ClientAudioBackendKind::from(self.input_backend),
                input_channel: app_input_channel_to_core(self.input_channel),
                buttons: clone_texts(&self.buttons),
                button_keys: clone_texts(&self.button_keys),
                local_ui_bind: self.local_ui_bind.copy(),
                list_devices,
            },
        )
    }

    /// The arguments of a desktop client, where `found` is what the lookup of the
    /// server gave.
    pub fn desktop_args(&self, list_devices: bool, found: HostLookup) -> (r: Result<
        Args,
        String,
    >)
        ensures
            match r {
                Ok(a) => self.fault() is None && (settled_fields(self.fields()).advanced
                    || found is Found) && desktop_args_of(a, *self, list_devices, found),
                Err(m) => if self.fault() is Some {
                    self.fault() == Some(m@)
                } else {
                    &&& !settled_fields(self.fields()).advanced
                    &&& checked_host(settled_fields(self.fields()).server_host) matches Ok(host)
                    &&& lookup_text(host, found) == Some(m@)
                },
            },
    {
        let runtime = match self.client_runtime_config(list_devices, found) {
            Ok(runtime) => runtime,
            Err(m) => {
                return Err(m);
            },
        };
        let codec = match codec_to_wire(runtime.codec) {
            Ok(codec) => codec,
            Err(m) => {
                return Err(m);
            },
        };
        proof {
            assert(texts(runtime.buttons@).len() == texts(self.buttons@).len());
            assert(texts(runtime.button_keys@).len() == texts(self.button_keys@).len());
        }
        let buttons = match read_buttons(&runtime.buttons) {
            Ok(buttons) => buttons,
            Err(m) => {
                return Err(m);
            },
        };
        let button_keys = match read_keys(&runtime.button_keys) {
            Ok(keys) => keys,
            Err(m) => {
                return Err(m);
            },
        };
        Ok(
            Args {
                server_host: Some(runtime.server_host),
                server: runtime.server,
                control: runtime.control,
                user_id: runtime.user_id,
                client_uid: runtime.client_uid,
                identity_file: runtime.identity_file,
                tx_channel: runtime.tx_channel,
                listen_channel: runtime.listen_channel,
                codec,
                opus_profile: opus_profile_to_wire(runtime.opus_profile),
                mic_gain: runtime.mic_gain,
                input_limiter: runtime.input_limiter,
                disable_input_transient_suppression: !runtime.input_transient_suppression,
                speaker_gain: runtime.speaker_gain,
                jitter_ms: runtime.jitter_ms,
                input_device: runtime.input_device,
                input_backend: core_input_backend_to_desktop(runtime.input_backend),
                input_channel: core_input_channel_to_desktop(runtime.input_channel),
                output_device: runtime.output_device,
                debug_audio_dir: runtime.debug_audio_dir,
                button_count: runtime.button_count,
                buttons,
                button_keys,
                local_ui_bind: runtime.local_ui_bind,
                local_ui_token: runtime.local_ui_token,
                disable_local_ui: runtime.disable_local_ui,
                disable_command_loop: false,
                list_devices,
            },
        )
    }
}

/// What a client is started with by the settings.
pub open spec fn runtime_config_of(
    c: ClientRuntimeConfig,
    s: AppSettings,
    list_devices: bool,
    found: HostLookup,
) -> bool {
    &&& c.server_host@ == settled_fields(s.fields()).server_host
    &&& c.server.parts() == server_in_effect(s.fields(), found.parts())
    &&& c.control@ == control_in_effect(s.fields())
    &&& c.user_id == s.user_id
    &&& c.client_uid == s.client_uid
    &&& c.identity_file == s.identity_file
    &&& c.tx_channel == s.tx_channel
    &&& c.listen_channel == s.listen_channel
    &&& c.codec == s.codec
    &&& c.opus_profile == s.opus_profile
    &&& c.mic_gain == s.mic_gain
    &&& c.input_limiter == s.input_limiter
    &&& c.input_transient_suppression == s.input_transient_suppression
    &&& c.speaker_gain == s.speaker_gain
    &&& c.jitter_ms == s.jitter_ms
    &&& c.input_device == s.input_device
    &&& c.output_device == s.output_device
    &&& c.debug_audio_dir == s.debug_audio_dir
    &&& c.button_count == s.button_count
    &&& c.local_ui_token == s.local_ui_token
    &&& c.disable_local_ui == s.disable_local_ui
    &&& c.input_backend == backend_kind(s.input_backend)
    &&& c.input_channel == channel_kind(s.input_channel)
    &&& texts(c.buttons@) == texts(s.buttons@)
    &&& texts(c.button_keys@) == texts(s.button_keys@)
    &&& c.local_ui_bind.parts() == s.local_ui_bind.parts()
    &&& c.list_devices == list_devices
}

/// The arguments of a desktop client by the settings.
pub open spec fn desktop_args_of(
    a: Args,
    s: AppSettings,
    list_devices: bool,
    found: HostLookup,
) -> bool {
    &&& opt_text(a.server_host) == Some(settled_fields(s.fields()).server_host)
    &&& a.server.parts() == server_in_effect(s.fields(), found.parts())
    &&& a.control@ == control_in_effect(s.fields())
    &&& a.user_id == s.user_id
    &&& a.client_uid == s.client_uid
    &&& a.identity_file == s.identity_file
    &&& a.tx_channel == s.tx_channel
    &&& a.listen_channel == s.listen_channel
    &&& a.mic_gain == s.mic_gain
    &&& a.input_limiter == s.input_limiter
    &&& a.speaker_gain == s.speaker_gain
    &&& a.jitter_ms == s.jitter_ms
    &&& a.input_device == s.input_device
    &&& a.output_device == s.output_device
    &&& a.debug_audio_dir == s.debug_audio_dir
    &&& a.button_count == s.button_count
    &&& a.local_ui_token == s.local_ui_token
    &&& a.disable_local_ui == s.disable_local_ui
    &&& wire_codec(a.codec) == s.codec
    &&& wire_profile(a.opus_profile) == s.opus_profile
    &&& a.disable_input_transient_suppression == !s.input_transient_suppression
    &&& a.input_backend == s.input_backend
    &&& a.input_channel == s.input_channel
    &&& buttons_read(a.buttons@, texts(s.buttons@))
    &&& keys_read(a.button_keys@, texts(s.button_keys@))
    &&& a.local_ui_bind.parts() == s.local_ui_bind.parts()
    &&& !a.disable_command_loop
    &&& a.list_devices == list_devices
}

// ---------------------------------------------------------------------------
// The server of the settings, as one that is remembered

/// The first server at or after `i` with that control URL, or the number of
/// servers.
pub open spec fn control_index(s: Seq<ServerProfile>, control: Seq<char>, i: int) -> int
    decreases s.len() - i,
{
    if i < 0 || i >= s.len() {
        s.len() as int
    } else if s[i].control == control {
        i
    } else {
        control_index(s, control, i + 1)
    }
}

fn find_control(known: &Vec<MobileServerProfile>, control: &str) -> (r: usize)
    ensures
        r == control_index(profiles(known@), control@, 0),
        r <= known@.len(),
{
    let ghost s = profiles(known@);
    let mut i: usize = 0;
    while i < known.len()
        invariant
            0 <= i <= known@.len(),
            s == profiles(known@),
            control_index(s, control@, 0) == control_index(s, control@, i as int),
        decreases known@.len() - i,
    {
        proof {
            assert(s[i as int] == known@[i as int]@);
        }
        if same(known[i].control.as_str(), control) {
            return i;
        }
        i = i + 1;
    }
    i
}

/// The name of the server with that control URL.
pub open spec fn name_for(s: Seq<ServerProfile>, control: Seq<char>) -> Seq<char> {
    let k = control_index(s, control, 0);
    if k < s.len() && !is_blank(s[k].name) {
        s[k].name
    } else {
        "Manual server"@
    }
}

/// The id of the server with that control URL.
pub open spec fn id_for(s: Seq<ServerProfile>, control: Seq<char>) -> Seq<char> {
    let k = control_index(s, control, 0);
    if k < s.len() && !is_blank(s[k].id) {
        s[k].id
    } else {
        profile_id(name_for(s, control), control)
    }
}

/// The server at that place, or one of which nothing is known.
pub open spec fn known_or_blank(s: Seq<ServerProfile>, control: Seq<char>) -> ServerProfile {
    let k = control_index(s, control, 0);
    if k < s.len() {
        s[k]
    } else {
        ServerProfile {
            id: Seq::empty(),
            name: Seq::empty(),
            server_host: Seq::empty(),
            server: Seq::empty(),
            control: Seq::empty(),
            admin: None,
            auth: None,
            version: None,
            last_connected_ms: None,
            discovered: false,
        }
    }
}

/// The server of the settings as a phone remembers it.
pub open spec fn mobile_profile(
    s: AppSettings,
    last_connected_ms: Option<u64>,
    found: Option<(Seq<char>, u16)>,
) -> ServerProfile {
    let settled = settled_fields(s.fields());
    let server = server_in_effect(s.fields(), found);
    let control = control_in_effect(s.fields());
    let known = known_or_blank(profiles(s.server_profiles@), control);
    ServerProfile {
        id: id_for(profiles(s.server_profiles@), control),
        name: name_for(profiles(s.server_profiles@), control),
        server_host: settled.server_host,
        server: address_text(server.0, server.1),
        control,
        admin: if known.admin is Some {
            known.admin
        } else {
            match fields_admin(settled) {
                Ok(url) => Some(url),
                Err(_) => None,
            }
        },
        auth: known.auth,
        version: known.version,
        last_connected_ms,
        discovered: false,
    }
}

/// The server of the settings as a desktop remembers it.
pub open spec fn native_profile(s: AppSettings, last_connected_ms: Option<u64>) -> ServerProfile {
    let known = known_or_blank(profiles(s.server_profiles@), s.control@);
    ServerProfile {
        id: id_for(profiles(s.server_profiles@), s.control@),
        name: name_for(profiles(s.server_profiles@), s.control@),
        server_host: Seq::empty(),
        server: address_text(s.server.ip@, s.server.port),
        control: s.control@,
        admin: known.admin,
        auth: known.auth,
        version: known.version,
        last_connected_ms,
        discovered: false,
    }
}

fn known_profile(known: &Vec<MobileServerProfile>, control: &str) -> (r: MobileServerProfile)
    ensures
        r@ == (ServerProfile {
            id: id_for(profiles(known@), control@),
            name: name_for(profiles(known@), control@),
            ..known_or_blank(profiles(known@), control@)
        }),
{
    let k = find_control(known, control);
    let mut p = if k < known.len() {
        proof {
            assert(profiles(known@)[k as int] == known@[k as int]@);
        }
        copy_profile(&known[k])
    } else {
        MobileServerProfile::default()
    };
    proof {
        assert(p@ == known_or_blank(profiles(known@), control@));
    }
    let listed = k < known.len();
    if !listed || blank(p.name.as_str()) {
        p.name = owned("Manual server");
    }
    if !listed || blank(p.id.as_str()) {
        p.id = mobile_profile_id(p.name.as_str(), control);
    }
    p
}

/// The server of the settings as a phone remembers it, where `found` is what the
/// lookup of the server gave.
pub fn mobile_profile_for_settings(
    settings: &AppSettings,
    last_connected_ms: Option<u64>,
    found: Option<SocketAddress>,
) -> (r: MobileServerProfile)
    ensures
        r@ == mobile_profile(*settings, last_connected_ms, opt_parts(found)),
{
    let (endpoints, _) = settings.endpoint_overrides();
    let control = match endpoints.effective_control() {
        Ok(control) => control,
        Err(_) => settings.control.clone(),
    };
    let server = match endpoints.effective_server() {
        Ok(ServerTarget::Address(server)) => server,
        Ok(ServerTarget::Lookup(_, _)) => match found {
            Some(server) => server,
            None => settings.server.copy(),
        },
        Err(_) => settings.server.copy(),
    };
    let mut p = known_profile(&settings.server_profiles, control.as_str());
    if p.admin.is_none() {
        p.admin = match endpoints.effective_admin() {
            Ok(url) => Some(url),
            Err(_) => None,
        };
    }
    p.server_host = endpoints.server_host;
    p.server = server.to_text();
    p.control = control;
    p.last_connected_ms = last_connected_ms;
    p.discovered = false;
    p
}

/// The server of the settings as a desktop remembers it.
pub fn native_profile_for_settings(settings: &AppSettings, last_connected_ms: Option<u64>) -> (r:
    MobileServerProfile)
    ensures
        r@ == native_profile(*settings, last_connected_ms),
{
    let mut p = known_profile(&settings.server_profiles, settings.control.as_str());
    p.server_host = String::new();
    proof {
        assert(p.server_host@ =~= Seq::<char>::empty());
    }
    p.server = settings.server.to_text();
    p.control = settings.control.clone();
    p.last_connected_ms = last_connected_ms;
    p.discovered = false;
    p
}

/// Remembers a server in the settings: `addresses` belong to it.
pub fn remember_mobile_profile(
    settings: &mut AppSettings,
    profile: MobileServerProfile,
    addresses: ProfileAddresses,
)
    ensures
        profiles(final(settings).server_profiles@) == remembered(
            profiles(old(settings).server_profiles@),
            normal_profile(profile@, opt_parts(addresses.server), opt_parts(addresses.found)),
        ),
        *final(settings) == (AppSettings {
            server_profiles: final(settings).server_profiles,
            ..*old(settings)
        }),
{
    let p = normalize_mobile_profile(profile, addresses);
    remember_profile(&mut settings.server_profiles, p);
}

/// What a selected server is completed to, or why it cannot be selected.
pub open spec fn selectable(p: ServerProfile) -> Result<ServerProfile, Seq<char>> {
    let name = if p.name.len() == 0 {
        p.control
    } else {
        p.name
    };
    if p.control.len() == 0 {
        Err("control WebSocket URL cannot be empty"@)
    } else {
        Ok(
            ServerProfile {
                name,
                id: if p.id.len() == 0 {
                    profile_id(name, p.control)
                } else {
                    p.id
                },
                ..p
            },
        )
    }
}

/// Completes a server, in order already, that is to be selected.
pub fn complete_selected(profile: MobileServerProfile) -> (r: Result<MobileServerProfile, String>)
    ensures
        match r {
            Ok(p) => selectable(profile@) == Ok::<ServerProfile, Seq<char>>(p@),
            Err(m) => selectable(profile@) == Err::<ServerProfile, Seq<char>>(m@),
        },
{
    let mut p = profile;
    if p.control.as_str().is_empty() {
        return Err(owned("control WebSocket URL cannot be empty"));
    }
    if p.name.as_str().is_empty() {
        p.name = p.control.clone();
    }
    if p.id.as_str().is_empty() {
        p.id = mobile_profile_id(p.name.as_str(), p.control.as_str());
    }
    Ok(p)
}

/// Sets a phone to a server that is complete: `server` is its audio address.
pub fn select_mobile_server(
    settings: &mut AppSettings,
    profile: &MobileServerProfile,
    server: SocketAddress,
)
    ensures
        ({
            let settled = settled_fields(
                EndpointFields {
                    server_host: profile.server_host@,
                    server: server.parts(),
                    control: profile.control@,
                    admin: opt_text(profile.admin),
                    advanced: false,
                },
            );
            final(settings).fields() == (EndpointFields {
                server_host: settled.server_host,
                server: server.parts(),
                control: profile.control@,
                admin: opt_text(profile.admin),
                advanced: settled.advanced,
            })
        }),
        final(settings).server_profiles == old(settings).server_profiles,
        rest_kept(*final(settings), *old(settings)),
{
    let (endpoints, _) = ClientEndpointOverrides::normalized(
        profile.server_host.as_str(),
        server.copy(),
        profile.control.as_str(),
        copy_opt_text(&profile.admin),
        false,
    );
    settings.server_host = endpoints.server_host;
    settings.server = server;
    settings.control = profile.control.clone();
    settings.admin = copy_opt_text(&profile.admin);
    settings.advanced_endpoints = endpoints.advanced_endpoints;
}

/// Sets a desktop to a server that is complete: `server` is its audio address.
pub fn select_native_server(
    settings: &mut AppSettings,
    profile: &MobileServerProfile,
    server: SocketAddress,
)
    ensures
        *final(settings) == (AppSettings {
            server,
            control: final(settings).control,
            ..*old(settings)
        }),
        final(settings).control@ == profile.control@,
{
    settings.server = server;
    settings.control = profile.control.clone();
}

/// The settings of a phone: its controls are its own window. The result names
/// the host to look up for the address of the server.
pub fn prepare_mobile_settings(settings: &mut AppSettings, addresses: Vec<ProfileAddresses>) -> (r:
    Option<ClientServerEndpoint>)
    requires
        addresses@.len() == old(settings).server_profiles@.len(),
    ensures
        final(settings).fields() == settled_fields(old(settings).fields()),
        match r {
            Some(e) => host_to_look_up(old(settings).fields()) == Some(e.host@),
            None => host_to_look_up(old(settings).fields()) is None,
        },
        profiles(final(settings).server_profiles@) == normal_profiles(
            profiles(old(settings).server_profiles@),
            address_parts(addresses@),
        ),
        rest_kept(
            *final(settings),
            (AppSettings {
                window_mode: AppWindowMode::Native,
                disable_local_ui: true,
                ..*old(settings)
            }),
        ),
{
    settings.window_mode = AppWindowMode::Native;
    settings.disable_local_ui = true;
    settings.normalize_endpoints(addresses)
}

/// The title of a desktop window.
pub open spec fn window_title(title: Seq<char>) -> Seq<char> {
    if is_blank(title) {
        "RedLine"@
    } else {
        trim(title)
    }
}

/// The settings of a desktop with a window of its own, as they are saved.
pub fn prepare_native_saved_settings(settings: &mut AppSettings)
    ensures
        *final(settings) == (AppSettings {
            app_title: final(settings).app_title,
            window_mode: AppWindowMode::Native,
            disable_local_ui: false,
            ..*old(settings)
        }),
        final(settings).app_title@ == window_title(old(settings).app_title@),
{
    settings.app_title = if blank(settings.app_title.as_str()) {
        owned("RedLine")
    } else {
        trimmed(settings.app_title.as_str())
    };
    settings.window_mode = AppWindowMode::Native;
    settings.disable_local_ui = false;
}

/// The settings of a desktop with a window of its own, as it runs: the window
/// takes the place of the local web interface.
pub fn prepare_native_runtime_settings(settings: &mut AppSettings)
    ensures
        *final(settings) == (AppSettings {
            app_title: final(settings).app_title,
            window_mode: AppWindowMode::Native,
            disable_local_ui: true,
            ..*old(settings)
        }),
        final(settings).app_title@ == window_title(old(settings).app_title@),
{
    prepare_native_saved_settings(settings);
    settings.disable_local_ui = true;
}

/// The name of the file that settings are written to before they take the place
/// of the old ones.
pub fn temp_file_name(file_name: Option<&str>, otherwise: &str, process: u32) -> (r: String)
    ensures
        r@ == (match file_name {
            Some(name) => name@,
            None => otherwise@,
        }) + "."@ + decimal(process as nat) + ".tmp"@,
{
    let name = match file_name {
        Some(name) => name,
        None => otherwise,
    };
    concat4(name, ".", u64_text(process as u64).as_str(), ".tmp")
}

} // verus!
