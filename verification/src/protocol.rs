//! What clients and server say to each other on the control connection, and the
//! audio formats that they agree on.

use vstd::prelude::*;
use crate::gain::{Gain, Volumes};

verus! {

/// Samples per second in the mixer.
pub const MIX_SAMPLE_RATE: u32 = 48_000;

/// Samples per second of wideband speech.
pub const SAMPLE_RATE: u32 = 16_000;

/// The length of an audio frame in milliseconds.
pub const FRAME_MS: u32 = 20;

/// Samples per channel of a mixer frame.
pub const MIX_SAMPLES_PER_FRAME: usize = 960;

/// Samples of a frame of wideband speech.
pub const SAMPLES_PER_FRAME: usize = 320;

/// How audio is coded on the wire.
#[derive(Debug, Clone, Copy, PartialEq, Eq, Structural)]
pub enum Codec {
    Pcm16,
    Pcm24,
    Pcm48,
    Adpcm,
    Opus,
}

/// The settings of the Opus encoder.
#[derive(Debug, Clone, Copy, PartialEq, Eq, Structural)]
pub enum OpusProfile {
    Speech16Low,
    Speech24Standard,
    Speech48High,
    Music48,
}

impl Default for OpusProfile {
    fn default() -> (r: Self)
        ensures
            r == OpusProfile::Speech24Standard,
    {
        OpusProfile::Speech24Standard
    }
}

impl OpusProfile {
    pub open spec fn rate(self) -> u32 {
        match self {
            OpusProfile::Speech16Low => 16_000,
            OpusProfile::Speech24Standard => 24_000,
            OpusProfile::Speech48High => 48_000,
            OpusProfile::Music48 => 48_000,
        }
    }

    /// Samples per second that the encoder works at.
    pub fn sample_rate_hz(self) -> (r: u32)
        ensures
            r == self.rate(),
    {
        match self {
            OpusProfile::Speech16Low => 16_000,
            OpusProfile::Speech24Standard => 24_000,
            OpusProfile::Speech48High => 48_000,
            OpusProfile::Music48 => 48_000,
        }
    }

    /// Samples per channel of a frame that the encoder works on.
    pub fn samples_per_frame(self) -> (r: usize)
        ensures
            r == frame_len(self.rate()),
    {
        frame_len_for_rate(self.sample_rate_hz())
    }

    /// Tells whether the encoder is tuned for music.
    pub fn is_music(self) -> (r: bool)
        ensures
            r == (self == OpusProfile::Music48),
    {
        match self {
            OpusProfile::Music48 => true,
            _ => false,
        }
    }
}

/// Samples per channel of a frame at `rate` samples per second.
pub open spec fn frame_len(rate: u32) -> int {
    (rate * FRAME_MS) / 1000
}

/// Samples per channel of a frame at `rate` samples per second.
pub fn frame_len_for_rate(rate: u32) -> (r: usize)
    ensures
        r == frame_len(rate),
{
    ((rate as u64 * FRAME_MS as u64) / 1000) as usize
}

/// Samples per second of a PCM codec.
pub open spec fn codec_rate(codec: Codec) -> u32 {
    match codec {
        Codec::Pcm16 => 16_000,
        Codec::Pcm24 => 24_000,
        _ => 48_000,
    }
}

/// Samples per second of a PCM codec.
pub fn codec_sample_rate(codec: Codec) -> (r: u32)
    ensures
        r == codec_rate(codec),
{
    match codec {
        Codec::Pcm16 => 16_000,
        Codec::Pcm24 => 24_000,
        _ => 48_000,
    }
}

/// Bytes of a frame of one channel of 16-bit samples.
pub fn codec_pcm16_payload_bytes(codec: Codec) -> (r: usize)
    ensures
        r == 2 * frame_len(codec_rate(codec)),
        r <= 1920,
{
    2 * frame_len_for_rate(codec_sample_rate(codec))
}

/// Tells whether this client can code and decode `codec`.
pub open spec fn supports(codec: Codec) -> bool {
    codec != Codec::Adpcm
}

/// Tells whether this client can code and decode `codec`.
pub fn codec_supported(codec: Codec) -> (r: bool)
    ensures
        r == supports(codec),
{
    match codec {
        Codec::Adpcm => false,
        _ => true,
    }
}

/// The codecs that this client offers.
pub open spec fn offered_codecs() -> Seq<Codec> {
    seq![Codec::Pcm16, Codec::Pcm24, Codec::Pcm48, Codec::Opus]
}

/// The codecs that this client offers.
pub fn supported_codecs() -> (r: Vec<Codec>)
    ensures
        r@ == offered_codecs(),
{
    let mut v: Vec<Codec> = Vec::new();
    v.push(Codec::Pcm16);
    v.push(Codec::Pcm24);
    v.push(Codec::Pcm48);
    v.push(Codec::Opus);
    v
}

/// The codecs offered are those supported, each once.
pub proof fn offered_codecs_are_the_supported_ones(codec: Codec)
    ensures
        offered_codecs().contains(codec) <==> supports(codec),
        offered_codecs().no_duplicates(),
{
    let s = offered_codecs();
    assert(s[0] == Codec::Pcm16);
    assert(s[1] == Codec::Pcm24);
    assert(s[2] == Codec::Pcm48);
    assert(s[3] == Codec::Opus);
}

/// The name of a codec.
pub open spec fn codec_name(codec: Codec) -> Seq<char> {
    match codec {
        Codec::Pcm16 => "pcm16"@,
        Codec::Pcm24 => "pcm24"@,
        Codec::Pcm48 => "pcm48"@,
        Codec::Adpcm => "adpcm"@,
        Codec::Opus => "opus"@,
    }
}

/// The name of a codec.
pub fn format_codec(codec: Codec) -> (r: &'static str)
    ensures
        r@ == codec_name(codec),
{
    match codec {
        Codec::Pcm16 => "pcm16",
        Codec::Pcm24 => "pcm24",
        Codec::Pcm48 => "pcm48",
        Codec::Adpcm => "adpcm",
        Codec::Opus => "opus",
    }
}

/// When the regular microphone is live.
#[derive(Debug, Clone, Copy, PartialEq, Eq, Structural)]
pub enum TalkMode {
    Open,
    Ptt,
    Muted,
}

/// The name of a talk mode in messages to the operator.
pub open spec fn talk_mode_label(mode: TalkMode) -> Seq<char> {
    match mode {
        TalkMode::Open => "Open"@,
        TalkMode::Ptt => "Ptt"@,
        TalkMode::Muted => "Muted"@,
    }
}

/// The name of a talk mode in messages to the operator.
pub fn talk_mode_text(mode: TalkMode) -> (r: &'static str)
    ensures
        r@ == talk_mode_label(mode),
{
    match mode {
        TalkMode::Open => "Open",
        TalkMode::Ptt => "Ptt",
        TalkMode::Muted => "Muted",
    }
}

/// What a client is to the server.
#[derive(Debug, Clone, Copy, PartialEq, Eq, Structural)]
pub enum ClientRole {
    Client,
    Bridge,
}

/// Whom a packet of audio is for.
#[derive(Debug, Clone, Copy, PartialEq, Eq, Structural)]
pub enum AudioTarget {
    Channel(u16),
    Direct(u16),
    Mixed,
}

/// How a talk button reacts to being pressed.
#[derive(Debug, Clone, Copy, PartialEq, Eq, Structural)]
pub enum TalkButtonMode {
    Momentary,
    Latching,
}

/// Whom an alert is for.
#[derive(Debug, Clone, Copy, PartialEq, Eq, Structural)]
pub enum AlertTarget {
    User(u16),
    Channel(u16),
}

/// What a talk button does while it is active.
#[derive(Debug, Clone, PartialEq, Eq)]
pub enum TalkButtonAction {
    Transmit { channels: Vec<u16>, users: Vec<u16>, duck: bool },
    Alert { targets: Vec<AlertTarget>, message: Option<String> },
    ApplyPreset { preset_id: String },
    SetTalkMode { users: Vec<u16>, mode: TalkMode },
    RouteEdit { users: Vec<u16>, listen: Vec<u16>, tx: Vec<u16> },
}

/// A talk button as the server configures it.
#[derive(Debug, Clone, PartialEq, Eq)]
pub struct TalkButtonConfig {
    pub id: String,
    pub label: String,
    pub color: Option<String>,
    pub mode: TalkButtonMode,
    pub actions: Vec<TalkButtonAction>,
}

/// A button that a client offers.
#[derive(Debug, Clone, PartialEq, Eq)]
pub struct ButtonCapability {
    pub id: String,
    pub label: String,
}

/// A direct call between two users.
#[derive(Debug, Clone, PartialEq, Eq)]
pub struct DirectCallStatus {
    pub caller: u16,
    pub caller_name: Option<String>,
    pub target: u16,
    pub target_name: Option<String>,
    pub active: bool,
    pub duck: bool,
}

/// A past direct call, in the form in which the server sent it.
#[derive(Debug, Clone, PartialEq, Eq)]
pub struct DirectCallHistoryEntry {
    pub encoded: String,
}

/// An alert, by its number, with the rest in the form in which the server sent it.
#[derive(Debug, Clone, PartialEq, Eq)]
pub struct AlertStatus {
    pub id: u64,
    pub encoded: String,
}

/// An emergency announcement.
#[derive(Debug, Clone, PartialEq, Eq)]
pub struct EmergencyStatus {
    pub active: bool,
    pub source: u16,
}

/// Someone who listens on a channel.
#[derive(Debug, Clone, PartialEq, Eq)]
pub struct ChannelPresenceMember {
    pub user_id: u16,
    pub name: String,
    pub present: bool,
    pub transmitting: bool,
}

/// Who is on a channel.
#[derive(Debug, Clone, PartialEq, Eq)]
pub struct ChannelPresenceRoster {
    pub channel_id: u16,
    pub name: Option<String>,
    pub members: Vec<ChannelPresenceMember>,
}

/// How strongly captured audio is processed.
#[derive(Debug, Clone, Copy, PartialEq, Eq, Structural)]
pub enum ProcessingMode {
    Auto,
    Enabled,
    Disabled,
}

/// What captured audio is processed for.
#[derive(Debug, Clone, Copy, PartialEq, Eq, Structural)]
pub enum ProcessingProfile {
    Raw,
    Voice,
    VoiceIsolation,
    Broadcast,
}

/// The processing of captured audio.
#[derive(Debug, Clone, Copy, PartialEq, Eq, Structural)]
pub struct ProcessingConfig {
    pub mode: ProcessingMode,
    pub profile: ProcessingProfile,
    pub vad: bool,
    pub transient_suppression: bool,
    pub native_voice_processing: bool,
}

/// Program audio with interruption.
#[derive(Debug, Clone, PartialEq, Eq)]
pub struct IfbConfig {
    pub enabled: bool,
    pub program: Vec<u16>,
    pub interrupt: Vec<u16>,
    pub duck_gain: Gain,
}

impl IfbConfig {
    /// The settings as mathematical values.
    pub open spec fn parts(self) -> (bool, Seq<u16>, Seq<u16>, Gain) {
        (self.enabled, self.program@, self.interrupt@, self.duck_gain)
    }

    /// The two settings are equal, the gains as numbers.
    pub open spec fn equals(self, other: IfbConfig) -> bool {
        &&& self.enabled == other.enabled
        &&& self.program@ == other.program@
        &&& self.interrupt@ == other.interrupt@
        &&& self.duck_gain.equals(other.duck_gain)
    }

    /// A copy of the settings.
    pub fn copy(&self) -> (r: Self)
        ensures
            r.parts() == self.parts(),
    {
        IfbConfig {
            enabled: self.enabled,
            program: copy_ids(&self.program),
            interrupt: copy_ids(&self.interrupt),
            duck_gain: self.duck_gain,
        }
    }

    /// Tells whether two settings are equal.
    pub fn is_equal(&self, other: &IfbConfig) -> (r: bool)
        ensures
            r == self.equals(*other),
    {
        self.enabled == other.enabled && same_ids(&self.program, &other.program) && same_ids(
            &self.interrupt,
            &other.interrupt,
        ) && self.duck_gain.is_equal(other.duck_gain)
    }
}

/// A copy of a list of numbers.
pub fn copy_ids(v: &Vec<u16>) -> (r: Vec<u16>)
    ensures
        r@ == v@,
{
    let r = v.clone();
    proof {
        assert(r@ =~= v@);
    }
    r
}

/// Tells whether two lists of numbers are the same.
pub fn same_ids(a: &Vec<u16>, b: &Vec<u16>) -> (r: bool)
    ensures
        r == (a@ == b@),
{
    if a.len() != b.len() {
        return false;
    }
    let mut i: usize = 0;
    while i < a.len()
        invariant
            a@.len() == b@.len(),
            0 <= i <= a@.len(),
            forall|j: int| 0 <= j < i ==> a@[j] == b@[j],
        decreases a@.len() - i,
    {
        if a[i] != b[i] {
            return false;
        }
        i = i + 1;
    }
    proof {
        assert(a@ =~= b@);
    }
    true
}

/// What the server lets the operator of a client change.
#[derive(Debug, Clone, Copy, PartialEq, Eq, Structural)]
pub struct ClientLockoutPolicy {
    pub allow_local_api: bool,
    pub allow_channels: bool,
    pub allow_volumes: bool,
    pub allow_codec: bool,
    pub allow_talk_mode: bool,
    pub allow_priority: bool,
    pub allow_buttons: bool,
    pub allow_ifb: bool,
}

impl Default for ClientLockoutPolicy {
    fn default() -> (r: Self)
        ensures
            r == (ClientLockoutPolicy {
                allow_local_api: true,
                allow_channels: true,
                allow_volumes: true,
                allow_codec: true,
                allow_talk_mode: true,
                allow_priority: true,
                allow_buttons: true,
                allow_ifb: true,
            }),
    {
        ClientLockoutPolicy {
            allow_local_api: true,
            allow_channels: true,
            allow_volumes: true,
            allow_codec: true,
            allow_talk_mode: true,
            allow_priority: true,
            allow_buttons: true,
            allow_ifb: true,
        }
    }
}

/// Stereo reception.
#[derive(Debug, Clone, PartialEq, Eq)]
pub struct StereoConfig {
    pub enabled: bool,
    pub channel_pan: Volumes,
}

impl StereoConfig {
    /// Stereo is wanted, and the codec carries it.
    pub open spec fn active_with(self, codec: Codec) -> bool {
        self.enabled && (codec == Codec::Pcm48 || codec == Codec::Opus)
    }

    /// Tells whether audio of `codec` is received in stereo.
    pub fn active_for_codec(&self, codec: Codec) -> (r: bool)
        ensures
            r == self.active_with(codec),
    {
        self.enabled && (codec == Codec::Pcm48 || codec == Codec::Opus)
    }
}

/// Settings of hardware clients, in the form in which the server sent them.
#[derive(Debug, Clone)]
pub struct Esp32AudioConfig {
    pub encoded: String,
}

/// What a client announces that it can do.
#[derive(Debug, Clone, Copy, PartialEq, Eq, Structural)]
pub enum ClientCapabilities {
    /// What a bridge can do.
    Bridge,
}

/// The tally of a client, in the form in which the server sends it.
#[derive(Debug, Clone)]
pub struct TallyStatus {
    pub encoded: String,
}

/// Whether the server has admitted a client.
#[derive(Debug, Clone, Copy, PartialEq, Eq, Structural)]
pub enum EnrollmentStatus {
    Enrolled,
    Pending,
    Rejected,
}

/// The routing that a client asks for.
#[derive(Debug, Clone)]
pub struct ConfigMessage {
    pub user_id: u16,
    pub role: Option<ClientRole>,
    pub name: Option<String>,
    pub listen: Vec<u16>,
    pub tx: Vec<u16>,
    pub vol: Volumes,
    pub talker_vol: Option<Volumes>,
    pub codec: Option<Codec>,
    pub opus_profile: Option<OpusProfile>,
    pub talk_mode: Option<TalkMode>,
    pub priority: Option<bool>,
    pub priority_channels: Option<Vec<u16>>,
    pub ifb: Option<IfbConfig>,
}

/// How a client introduces itself.
#[derive(Debug, Clone)]
pub struct HelloMessage {
    pub user_id: u16,
    pub requested_user_id: Option<u16>,
    pub client_uid: String,
    pub codecs: Vec<Codec>,
    pub buttons: Vec<ButtonCapability>,
    /// Only bridges announce what they can do, and only when they first connect.
    pub capabilities: Option<ClientCapabilities>,
    pub role: ClientRole,
}

/// What a client says to the server.
#[derive(Debug, Clone)]
pub enum ControlMessage {
    Hello(HelloMessage),
    Config(ConfigMessage),
    Priority { user_id: u16, active: bool },
    TalkMode { user_id: u16, mode: TalkMode },
    Talk { user_id: u16, active: bool },
    AudioCodec { user_id: u16, codec: Codec },
    Button { user_id: u16, button_id: String, pressed: bool },
    DirectCall { user_id: u16, target_user_id: u16, active: bool, duck: bool },
    ReplyCall { user_id: u16, active: bool, duck: bool },
    SendAlert { user_id: u16, target: AlertTarget, message: Option<String> },
    AckAlert { user_id: u16, alert_id: u64 },
    CancelAlert { user_id: u16, alert_id: u64 },
}

/// What the server answers.
#[derive(Debug, Clone)]
pub enum ControlResponse {
    Ack,
    Error { message: String },
    Hello {
        preconfigured: bool,
        user_id: u16,
        client_uid: String,
        enrollment: EnrollmentStatus,
    },
}

/// The configuration that the server pushes.
#[derive(Debug, Clone)]
pub struct ConfigUpdate {
    pub user_id: u16,
    pub client_uid: String,
    pub name: String,
    pub listen: Vec<u16>,
    pub tx: Vec<u16>,
    pub vol: Volumes,
    pub talker_vol: Volumes,
    pub codec: Codec,
    pub opus_profile: OpusProfile,
    pub talk_mode: TalkMode,
    pub regular_talk_active: bool,
    pub priority: bool,
    pub priority_channels: Vec<u16>,
    pub processing: ProcessingConfig,
    pub buttons: Vec<TalkButtonConfig>,
    pub active_buttons: Vec<String>,
    pub active_direct_calls: Vec<DirectCallStatus>,
    pub last_direct_caller: Option<u16>,
    pub direct_call_history: Vec<DirectCallHistoryEntry>,
    pub active_alerts: Vec<AlertStatus>,
    pub recent_alerts: Vec<AlertStatus>,
    pub emergency: Option<EmergencyStatus>,
    pub ifb: IfbConfig,
    pub lockout: ClientLockoutPolicy,
    pub stereo: StereoConfig,
    pub esp32_audio: Esp32AudioConfig,
}

/// What the server says of its own accord.
#[derive(Debug, Clone)]
pub enum ControlEvent {
    PresenceUpdate { user_id: u16, client_uid: String, channels: Vec<ChannelPresenceRoster> },
    ConfigUpdate(ConfigUpdate),
}

} // verus!
