//! A client's session with the server: how it starts, which packets it sends, and
//! how it takes the packets that it receives.

use vstd::prelude::*;
use crate::buttons::{
    cap, caps, default_button_capabilities, merge_button_capabilities, normal_buttons,
    with_buttons, MAX_CLIENT_BUTTON_COUNT,
};
use crate::capture::InputChannelMode;
use crate::commands::{ButtonArg, ButtonKeyArg};
use crate::config::{targets_increase, ClientConfig};
use crate::device::AudioInputBackend;
use crate::endpoint::{
    audio_lookup, checked_host, control_url_of, lookup_gives, ClientServerEndpoint, EndpointError,
    HostLookup, DEFAULT_AUDIO_PORT, DEFAULT_SERVER_HOST,
};
use crate::gain::{Gain, Volumes};
use crate::net::SocketAddress;
use crate::playback::{samples_for_ms, samples_in, Playback, PlaybackBuffer};
use crate::protocol::{
    codec_rate, codec_sample_rate, frame_len, frame_len_for_rate, AudioTarget, ButtonCapability,
    ClientCapabilities, ClientLockoutPolicy, ClientRole, Codec, Esp32AudioConfig, IfbConfig,
    OpusProfile, ProcessingConfig, StereoConfig, TalkMode, TallyStatus, MIX_SAMPLES_PER_FRAME,
};
use crate::text::{decimal, same};

verus! {

/// A codec that can be asked for on the command line.
#[derive(Debug, Clone, Copy, PartialEq, Eq, Structural)]
pub enum WireCodec {
    Pcm16,
    Pcm24,
    Pcm48,
    Opus,
}

/// The codec that is asked for.
pub open spec fn wire_codec(c: WireCodec) -> Codec {
    match c {
        WireCodec::Pcm16 => Codec::Pcm16,
        WireCodec::Pcm24 => Codec::Pcm24,
        WireCodec::Pcm48 => Codec::Pcm48,
        WireCodec::Opus => Codec::Opus,
    }
}

impl From<WireCodec> for Codec {
    fn from(value: WireCodec) -> (r: Self) {
        match value {
            WireCodec::Pcm16 => Codec::Pcm16,
            WireCodec::Pcm24 => Codec::Pcm24,
            WireCodec::Pcm48 => Codec::Pcm48,
            WireCodec::Opus => Codec::Opus,
        }
    }
}

impl vstd::std_specs::convert::FromSpecImpl<WireCodec> for Codec {
    open spec fn obeys_from_spec() -> bool {
        true
    }

    open spec fn from_spec(value: WireCodec) -> Self {
        wire_codec(value)
    }
}

/// An Opus profile that can be asked for on the command line.
#[derive(Debug, Clone, Copy, PartialEq, Eq, Structural)]
pub enum WireOpusProfile {
    Speech16Low,
    Speech24Standard,
    Speech48High,
    Music48,
}

/// The Opus profile that is asked for.
pub open spec fn wire_profile(p: WireOpusProfile) -> OpusProfile {
    match p {
        WireOpusProfile::Speech16Low => OpusProfile::Speech16Low,
        WireOpusProfile::Speech24Standard => OpusProfile::Speech24Standard,
        WireOpusProfile::Speech48High => OpusProfile::Speech48High,
        WireOpusProfile::Music48 => OpusProfile::Music48,
    }
}

impl From<WireOpusProfile> for OpusProfile {
    fn from(value: WireOpusProfile) -> (r: Self) {
        match value {
            WireOpusProfile::Speech16Low => OpusProfile::Speech16Low,
            WireOpusProfile::Speech24Standard => OpusProfile::Speech24Standard,
            WireOpusProfile::Speech48High => OpusProfile::Speech48High,
            WireOpusProfile::Music48 => OpusProfile::Music48,
        }
    }
}

impl vstd::std_specs::convert::FromSpecImpl<WireOpusProfile> for OpusProfile {
    open spec fn obeys_from_spec() -> bool {
        true
    }

    open spec fn from_spec(value: WireOpusProfile) -> Self {
        wire_profile(value)
    }
}

/// The settings that a desktop client is started with.
#[derive(Debug, Clone)]
pub struct Args {
    pub server_host: Option<String>,
    pub server: SocketAddress,
    pub control: String,
    pub user_id: Option<u16>,
    pub client_uid: Option<String>,
    pub identity_file: Option<String>,
    pub tx_channel: u16,
    pub listen_channel: u16,
    pub codec: WireCodec,
    pub opus_profile: WireOpusProfile,
    pub mic_gain: Gain,
    pub input_limiter: bool,
    pub disable_input_transient_suppression: bool,
    pub speaker_gain: Gain,
    pub jitter_ms: u32,
    pub input_device: Option<String>,
    pub input_backend: AudioInputBackend,
    pub input_channel: InputChannelMode,
    pub output_device: Option<String>,
    pub debug_audio_dir: Option<String>,
    pub button_count: u16,
    pub buttons: Vec<ButtonArg>,
    pub button_keys: Vec<ButtonKeyArg>,
    pub local_ui_bind: SocketAddress,
    pub local_ui_token: Option<String>,
    pub disable_local_ui: bool,
    pub disable_command_loop: bool,
    pub list_devices: bool,
}

// ---------------------------------------------------------------------------
// Where the server is
// ---------------------------------------------------------------------------

/// The addresses that a client is started with.
#[derive(Debug, Clone)]
pub struct EndpointArgs {
    pub server_host: Option<String>,
    pub server: SocketAddress,
    pub control: String,
}

/// The server address is the one in use when none is given.
pub open spec fn server_is_default(server: SocketAddress) -> bool {
    server.parts() == (DEFAULT_SERVER_HOST@, DEFAULT_AUDIO_PORT)
}

/// The host to look up for the server address, if any: a host is given, and the
/// server address is not.
pub fn endpoint_lookup(args: &EndpointArgs) -> (r: Result<Option<(String, u16)>, EndpointError>)
    ensures
        match args.server_host {
            None => r == Ok::<Option<(String, u16)>, EndpointError>(None),
            Some(host) => match checked_host(host@) {
                Err(e) => r == Err::<Option<(String, u16)>, EndpointError>(e),
                Ok(h) => if server_is_default(args.server) {
                    r is Ok && r->Ok_0 is Some && r->Ok_0->Some_0.0@ == h && r->Ok_0->Some_0.1
                        == DEFAULT_AUDIO_PORT
                } else {
                    r == Ok::<Option<(String, u16)>, EndpointError>(None)
                },
            },
        },
{
    match &args.server_host {
        None => Ok(None),
        Some(host) => match audio_lookup(host.as_str()) {
            Err(e) => Err(e),
            Ok(target) => if same(args.server.ip.as_str(), DEFAULT_SERVER_HOST) && args.server.port
                == DEFAULT_AUDIO_PORT {
                Ok(Some(target))
            } else {
                Ok(None)
            },
        },
    }
}

/// Derives the addresses that are not given from the host, where one is. `found`
/// is what looking up the host gave.
pub fn resolve_endpoint_args(args: &mut EndpointArgs, found: HostLookup) -> (r: Result<
    (),
    EndpointError,
>)
    ensures
        final(args).server_host == old(args).server_host,
        match old(args).server_host {
            None => r is Ok && *final(args) == *old(args),
            Some(host) => match checked_host(host@) {
                Err(e) => r == Err::<(), EndpointError>(e) && *final(args) == *old(args),
                Ok(h) => if server_is_default(old(args).server) && !(found is Found) {
                    &&& r is Err
                    &&& lookup_gives(Err::<SocketAddress, EndpointError>(r->Err_0), h, found)
                    &&& *final(args) == *old(args)
                } else {
                    &&& r is Ok
                    &&& final(args).server == (if server_is_default(old(args).server) {
                        found->Found_0
                    } else {
                        old(args).server
                    })
                    &&& final(args).control@ == (if old(args).control@ == "ws://127.0.0.1:40001"@ {
                        control_url_of(h)
                    } else {
                        old(args).control@
                    })
                },
            },
        },
{
    let endpoint = match &args.server_host {
        None => {
            return Ok(());
        },
        Some(host) => match ClientServerEndpoint::new(host.as_str()) {
            Ok(e) => e,
            Err(e) => {
                return Err(e);
            },
        },
    };
    if same(args.server.ip.as_str(), DEFAULT_SERVER_HOST) && args.server.port
        == DEFAULT_AUDIO_PORT {
        match found.address(endpoint.host.clone()) {
            Ok(addr) => {
                args.server = addr;
            },
            Err(e) => {
                return Err(e);
            },
        }
    }
    if same(args.control.as_str(), "ws://127.0.0.1:40001") {
        args.control = endpoint.control_url();
    }
    Ok(())
}

// ---------------------------------------------------------------------------
// The first configuration
// ---------------------------------------------------------------------------

/// The settings that the server gives a client that it has none for.
#[derive(Debug, Clone)]
pub struct SharedDefaults {
    pub processing: ProcessingConfig,
    pub ifb: IfbConfig,
    pub esp32_audio: Esp32AudioConfig,
    pub tally: TallyStatus,
}

/// The ids and labels of buttons given on the command line.
pub open spec fn arg_caps(s: Seq<ButtonArg>) -> Seq<(Seq<char>, Seq<char>)> {
    Seq::new(s.len(), |i: int| (s[i].id@, s[i].label@))
}

/// The buttons that a client offers by default, as ids and labels.
pub open spec fn default_caps(count: u16) -> Seq<(Seq<char>, Seq<char>)> {
    Seq::new(
        if count < MAX_CLIENT_BUTTON_COUNT {
            count as nat
        } else {
            MAX_CLIENT_BUTTON_COUNT as nat
        },
        |i: int| (decimal((i + 1) as nat), "Button "@ + decimal((i + 1) as nat)),
    )
}

/// The buttons that a client offers: the default ones, and those given on the
/// command line.
pub fn offered_buttons(count: u16, given: &Vec<ButtonArg>) -> (r: Vec<ButtonCapability>)
    ensures
        caps(r@) == normal_buttons(with_buttons(default_caps(count), arg_caps(given@))),
{
    let defaults = default_button_capabilities(count);
    let mut overrides: Vec<ButtonCapability> = Vec::new();
    let mut i: usize = 0;
    while i < given.len()
        invariant
            0 <= i <= given@.len(),
            overrides@.len() == i,
            forall|k: int|
                0 <= k < i ==> cap(#[trigger] overrides@[k]) == (given@[k].id@, given@[k].label@),
        decreases given@.len() - i,
    {
        overrides.push(
            ButtonCapability { id: given[i].id.clone(), label: given[i].label.clone() },
        );
        i = i + 1;
    }
    proof {
        assert(caps(overrides@) =~= arg_caps(given@));
        assert(caps(defaults@) =~= default_caps(count));
    }
    merge_button_capabilities(defaults, overrides)
}

/// What a client starts with.
pub struct ClientStart {
    pub user_id: u16,
    pub client_uid: String,
    pub role: ClientRole,
    pub name: String,
    pub listen: Vec<u16>,
    pub tx: Vec<u16>,
    pub codec: Codec,
    pub opus_profile: OpusProfile,
    pub talk_mode: TalkMode,
    pub last_non_muted_talk_mode: TalkMode,
    pub advertised_buttons: Vec<ButtonCapability>,
    pub stereo: bool,
}

/// What a client in that role announces that it can do.
pub open spec fn capabilities_of(role: ClientRole) -> Option<ClientCapabilities> {
    match role {
        ClientRole::Bridge => Some(ClientCapabilities::Bridge),
        ClientRole::Client => None,
    }
}

/// The configuration is what the client starts with, and nothing else is going on.
pub open spec fn is_fresh(c: ClientConfig, s: ClientStart, d: SharedDefaults) -> bool {
    &&& c.user_id == s.user_id
    &&& c.client_uid == s.client_uid
    &&& c.role == s.role
    &&& c.name == s.name
    &&& c.listen == s.listen
    &&& c.tx == s.tx
    &&& c.codec == s.codec
    &&& c.opus_profile == s.opus_profile
    &&& c.talk_mode == s.talk_mode
    &&& c.last_non_muted_talk_mode == s.last_non_muted_talk_mode
    &&& !c.regular_talk_active
    &&& !c.priority
    &&& c.priority_channels@.len() == 0
    &&& c.processing == d.processing
    &&& c.channel_rosters@.len() == 0
    &&& c.emergency is None
    &&& c.vol.wf() && c.vol@ == Map::<u16, Gain>::empty()
    &&& c.talker_vol.wf() && c.talker_vol@ == Map::<u16, Gain>::empty()
    &&& c.buttons@.len() == 0
    &&& c.active_buttons@.len() == 0
    &&& c.active_direct_calls@.len() == 0
    &&& c.last_direct_caller is None
    &&& c.direct_call_history@.len() == 0
    &&& c.active_alerts@.len() == 0
    &&& c.recent_alerts@.len() == 0
    &&& c.advertised_buttons == s.advertised_buttons
    &&& c.ifb == d.ifb
    &&& c.lockout.allow_local_api && c.lockout.allow_channels && c.lockout.allow_volumes
    &&& c.lockout.allow_codec && c.lockout.allow_talk_mode && c.lockout.allow_priority
    &&& c.lockout.allow_buttons && c.lockout.allow_ifb
    &&& c.stereo.enabled == s.stereo && c.stereo.channel_pan@ == Map::<u16, Gain>::empty()
    &&& c.esp32_audio == d.esp32_audio
    &&& c.capabilities == capabilities_of(s.role)
    &&& c.tally == match s.role {
        ClientRole::Bridge => Some(d.tally),
        ClientRole::Client => None,
    }
}

/// The configuration of a client that has just been started.
pub fn fresh_config(start: ClientStart, defaults: SharedDefaults) -> (r: ClientConfig)
    ensures
        is_fresh(r, start, defaults),
{
    let (capabilities, tally) = match start.role {
        ClientRole::Bridge => (Some(ClientCapabilities::Bridge), Some(defaults.tally)),
        ClientRole::Client => (None, None),
    };
    ClientConfig {
        user_id: start.user_id,
        client_uid: start.client_uid,
        role: start.role,
        name: start.name,
        listen: start.listen,
        tx: start.tx,
        codec: start.codec,
        opus_profile: start.opus_profile,
        talk_mode: start.talk_mode,
        last_non_muted_talk_mode: start.last_non_muted_talk_mode,
        regular_talk_active: false,
        priority: false,
        priority_channels: Vec::new(),
        processing: defaults.processing,
        channel_rosters: Vec::new(),
        emergency: None,
        vol: Volumes::new(),
        talker_vol: Volumes::new(),
        buttons: Vec::new(),
        active_buttons: Vec::new(),
        active_direct_calls: Vec::new(),
        last_direct_caller: None,
        direct_call_history: Vec::new(),
        active_alerts: Vec::new(),
        recent_alerts: Vec::new(),
        advertised_buttons: start.advertised_buttons,
        capabilities,
        ifb: defaults.ifb,
        lockout: ClientLockoutPolicy::default(),
        stereo: StereoConfig { enabled: start.stereo, channel_pan: Volumes::new() },
        esp32_audio: defaults.esp32_audio,
        tally,
    }
}

/// The configuration that a desktop client starts with: it listens on one channel,
/// transmits on one while a key is held, and has no user number unless one is given.
pub fn desktop_config(args: &Args, client_uid: String, defaults: SharedDefaults) -> (r: ClientConfig)
    ensures
        r.user_id == match args.user_id {
            Some(id) => id,
            None => 0,
        },
        r.client_uid == client_uid,
        r.role == ClientRole::Client,
        r.name@.len() == 0,
        r.listen@ == seq![args.listen_channel],
        r.tx@ == seq![args.tx_channel],
        r.codec == wire_codec(args.codec),
        r.opus_profile == wire_profile(args.opus_profile),
        r.talk_mode == TalkMode::Ptt,
        r.last_non_muted_talk_mode == TalkMode::Ptt,
        !r.stereo.enabled,
        r.capabilities is None,
        r.tally is None,
        caps(r.advertised_buttons@) == normal_buttons(
            with_buttons(default_caps(args.button_count), arg_caps(args.buttons@)),
        ),
        exists|s: ClientStart| #[trigger] is_fresh(r, s, defaults),
{
    let user_id: u16 = match args.user_id {
        Some(id) => id,
        None => 0,
    };
    let mut listen: Vec<u16> = Vec::new();
    listen.push(args.listen_channel);
    let mut tx: Vec<u16> = Vec::new();
    tx.push(args.tx_channel);
    let start = ClientStart {
        user_id,
        client_uid,
        role: ClientRole::Client,
        name: String::new(),
        listen,
        tx,
        codec: Codec::from(args.codec),
        opus_profile: OpusProfile::from(args.opus_profile),
        talk_mode: TalkMode::Ptt,
        last_non_muted_talk_mode: TalkMode::Ptt,
        advertised_buttons: offered_buttons(args.button_count, &args.buttons),
        stereo: false,
    };
    proof {
        assert(start.listen@ =~= seq![args.listen_channel]);
        assert(start.tx@ =~= seq![args.tx_channel]);
    }
    fresh_config(start, defaults)
}

/// The playback buffer of a client: it holds some frames more than it waits for.
pub fn playback_for_jitter(jitter_ms: u32) -> (r: PlaybackBuffer)
    requires
        samples_in(jitter_ms) + 12 * MIX_SAMPLES_PER_FRAME <= usize::MAX,
    ensures
        r.wf(),
        r@ == (Playback {
            queue: Seq::empty(),
            capacity: (samples_in(jitter_ms) + 12 * MIX_SAMPLES_PER_FRAME) as nat,
            prebuffer: samples_in(jitter_ms) as nat,
            channels: 1,
            started: samples_in(jitter_ms) == 0,
            underflows: 0,
            overflows: 0,
            dropped: 0,
        }),
{
    let jitter = samples_for_ms(jitter_ms);
    PlaybackBuffer::new(jitter + 12 * MIX_SAMPLES_PER_FRAME, jitter)
}

// ---------------------------------------------------------------------------
// Sending
// ---------------------------------------------------------------------------

/// What a frame is sent with.
#[derive(Debug)]
pub struct TransmitSnapshot {
    pub user_id: u16,
    pub targets: Vec<AudioTarget>,
    pub codec: Codec,
    pub opus_profile: OpusProfile,
}

/// What a frame is sent with at this moment; nothing where it is for nobody.
pub fn active_transmit_snapshot(config: &ClientConfig) -> (r: Option<TransmitSnapshot>)
    ensures
        match r {
            Some(s) => {
                &&& s.user_id == config.user_id
                &&& s.codec == config.codec
                &&& s.opus_profile == config.opus_profile
                &&& s.targets@.len() > 0
                &&& targets_increase(s.targets@)
                &&& forall|t: AudioTarget| #[trigger] s.targets@.contains(t) <==> config.sends_to(t)
            },
            None => forall|t: AudioTarget| !#[trigger] config.sends_to(t),
        },
{
    let targets = config.active_tx_targets();
    if targets.len() == 0 {
        proof {
            assert forall|t: AudioTarget| !#[trigger] config.sends_to(t) by {
                assert(!targets@.contains(t));
            }
        }
        None
    } else {
        Some(
            TransmitSnapshot {
                user_id: config.user_id,
                targets,
                codec: config.codec,
                opus_profile: config.opus_profile,
            },
        )
    }
}

/// The header of a packet of audio.
#[derive(Debug, Clone, Copy, PartialEq, Eq, Structural)]
pub struct PacketHeader {
    pub user_id: u16,
    pub target: AudioTarget,
    pub codec: Codec,
    pub seq: u16,
    pub timestamp: u32,
}

/// The numbering of sent packets. Numbers start over when they are used up.
#[derive(Debug, Clone, Copy, PartialEq, Eq, Structural)]
pub struct PacketSender {
    pub codec: Codec,
    pub opus_profile: OpusProfile,
    pub seq: u16,
    pub timestamp: u32,
}

impl PacketSender {
    pub fn new(codec: Codec, opus_profile: OpusProfile) -> (r: Self)
        ensures
            r == (PacketSender { codec, opus_profile, seq: 0, timestamp: 0 }),
    {
        PacketSender { codec, opus_profile, seq: 0, timestamp: 0 }
    }

    /// Tells whether another encoder is needed for what a frame is sent with.
    pub fn needs_encoder(&self, snapshot: &TransmitSnapshot) -> (r: bool)
        ensures
            r == (snapshot.codec != self.codec || snapshot.opus_profile != self.opus_profile),
    {
        snapshot.codec != self.codec || snapshot.opus_profile != self.opus_profile
    }

    /// The timestamp of the next frame, counted in samples of the codec.
    pub fn next_timestamp(&mut self) -> (r: u32)
        ensures
            r == old(self).timestamp,
            *final(self) == (PacketSender {
                timestamp: old(self).timestamp.wrapping_add(
                    frame_len(codec_rate(old(self).codec)) as u32,
                ),
                ..*old(self)
            }),
    {
        let timestamp = self.timestamp;
        let step: u32 = frame_len_for_rate(codec_sample_rate(self.codec)) as u32;
        self.timestamp = timestamp.wrapping_add(step);
        timestamp
    }

    /// The header of the next packet of a frame.
    pub fn next_packet(&mut self, user_id: u16, target: AudioTarget, timestamp: u32) -> (r:
        PacketHeader)
        ensures
            r == (PacketHeader {
                user_id,
                target,
                codec: old(self).codec,
                seq: old(self).seq,
                timestamp,
            }),
            *final(self) == (PacketSender { seq: old(self).seq.wrapping_add(1), ..*old(self) }),
    {
        let seq = self.seq;
        self.seq = seq.wrapping_add(1);
        PacketHeader { user_id, target, codec: self.codec, seq, timestamp }
    }
}

/// Whether a failure has been reported that goes on.
#[derive(Debug, Clone, Copy, PartialEq, Eq, Structural)]
pub struct FailureLog {
    pub reported: bool,
}

impl FailureLog {
    pub fn new() -> (r: Self)
        ensures
            !r.reported,
    {
        FailureLog { reported: false }
    }

    /// Notes a success, and tells whether to report that things work again.
    pub fn succeeded(&mut self) -> (r: bool)
        ensures
            r == old(self).reported,
            !final(self).reported,
    {
        let r = self.reported;
        self.reported = false;
        r
    }

    /// Notes a failure, and tells whether to report it: only the first in a row.
    pub fn failed(&mut self) -> (r: bool)
        ensures
            r == !old(self).reported,
            final(self).reported,
    {
        let r = !self.reported;
        self.reported = true;
        r
    }
}

// ---------------------------------------------------------------------------
// Receiving
// ---------------------------------------------------------------------------

/// The number of channels that a packet is received with.
pub open spec fn channels_received(config: ClientConfig, codec: Codec) -> usize {
    if config.stereo.active_with(config.codec) && (codec == Codec::Pcm48 || codec == Codec::Opus) {
        2
    } else {
        1
    }
}

/// The number of channels that a packet of that codec is received with.
pub fn receive_channels(config: &ClientConfig, codec: Codec) -> (r: usize)
    ensures
        r == channels_received(*config, codec),
{
    if config.stereo.active_for_codec(config.codec) && (codec == Codec::Pcm48 || codec
        == Codec::Opus) {
        2
    } else {
        1
    }
}

/// The packets of a frame are numbered in a row, and carry one timestamp: with
/// `n` packets sent, the numbers have moved on by `n`.
pub proof fn packet_numbers_go_on(seq: u16, n: nat)
    requires
        n < 65_536,
    ensures
        numbered(seq, n) == (seq + n) % 65_536,
    decreases n,
{
    if n > 0 {
        packet_numbers_go_on(seq, (n - 1) as nat);
    }
}

/// The number after `n` more packets.
pub open spec fn numbered(seq: u16, n: nat) -> u16
    decreases n,
{
    if n == 0 {
        seq
    } else {
        numbered(seq, (n - 1) as nat).wrapping_add(1)
    }
}

} // verus!
