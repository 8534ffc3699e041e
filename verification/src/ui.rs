//! What a client shows of itself, and what is asked of it, on its local interface.

use vstd::prelude::*;
use crate::config::ClientConfig;
use crate::gain::{AudioSettings, Gain, Volumes};
use crate::net::SocketAddress;
use crate::playback::{ClientConnectionEvent, PlaybackStats};
use crate::protocol::{
    copy_ids, offered_codecs, supported_codecs, AlertStatus, AlertTarget, ButtonCapability,
    ChannelPresenceRoster, ClientLockoutPolicy, Codec, ConfigMessage, ControlMessage,
    DirectCallHistoryEntry, DirectCallStatus, EmergencyStatus, IfbConfig, OpusProfile,
    ProcessingConfig, StereoConfig, TalkButtonConfig, TalkMode,
};
use crate::telemetry::CaptureHealthStatus;
use crate::text::owned;

verus! {

/// How far a client has come.
#[derive(Debug, Clone, Copy, PartialEq, Eq, Structural)]
pub enum ClientRuntimePhase {
    Stopped,
    Starting,
    Running,
    Failed,
}

/// How a client fares.
#[derive(Debug, Clone, PartialEq, Eq)]
pub struct ClientRuntimeStatus {
    pub phase: ClientRuntimePhase,
    pub running: bool,
    pub last_error: Option<String>,
}

impl ClientRuntimeStatus {
    pub fn stopped() -> (r: Self)
        ensures
            r == (ClientRuntimeStatus {
                phase: ClientRuntimePhase::Stopped,
                running: false,
                last_error: None,
            }),
    {
        ClientRuntimeStatus { phase: ClientRuntimePhase::Stopped, running: false, last_error: None }
    }

    pub fn starting() -> (r: Self)
        ensures
            r == (ClientRuntimeStatus {
                phase: ClientRuntimePhase::Starting,
                running: false,
                last_error: None,
            }),
    {
        ClientRuntimeStatus {
            phase: ClientRuntimePhase::Starting,
            running: false,
            last_error: None,
        }
    }

    pub fn running() -> (r: Self)
        ensures
            r == (ClientRuntimeStatus {
                phase: ClientRuntimePhase::Running,
                running: true,
                last_error: None,
            }),
    {
        ClientRuntimeStatus { phase: ClientRuntimePhase::Running, running: true, last_error: None }
    }

    pub fn failed(error: &str) -> (r: Self)
        ensures
            r.phase == ClientRuntimePhase::Failed,
            !r.running,
            r.last_error is Some,
            r.last_error->Some_0@ == error@,
    {
        ClientRuntimeStatus {
            phase: ClientRuntimePhase::Failed,
            running: false,
            last_error: Some(owned(error)),
        }
    }
}

/// Where a client takes its audio from.
#[derive(Debug, Clone, Copy, PartialEq, Eq, Structural)]
pub enum ClientAudioBackendKind {
    Auto,
    Raw,
    VoiceProcessing,
    IosAvAudioSession,
    IosVoiceProcessingIo,
    IosRemoteIo,
}

impl Default for ClientAudioBackendKind {
    fn default() -> (r: Self)
        ensures
            r == ClientAudioBackendKind::Auto,
    {
        ClientAudioBackendKind::Auto
    }
}

/// Which channel of a microphone is used.
#[derive(Debug, Clone, Copy, PartialEq, Eq, Structural)]
pub enum ClientInputChannelMode {
    Average,
    Left,
    Right,
}

impl Default for ClientInputChannelMode {
    fn default() -> (r: Self)
        ensures
            r == ClientInputChannelMode::Average,
    {
        ClientInputChannelMode::Average
    }
}

/// An audio backend that a client can be built with.
pub trait ClientAudioBackend: Send + Sync {
    fn kind(&self) -> ClientAudioBackendKind;

    /// Makes the backend ready. Where a backend says nothing else, it is.
    fn prepare(&self) -> (r: Result<(), String>)
        default_ensures
            r is Ok,
    {
        Ok(())
    }
}

/// The settings that a client is started with.
#[derive(Debug, Clone, PartialEq, Eq)]
pub struct ClientRuntimeConfig {
    pub server_host: String,
    pub server: SocketAddress,
    pub control: String,
    pub user_id: Option<u16>,
    pub client_uid: Option<String>,
    pub identity_file: Option<String>,
    pub tx_channel: u16,
    pub listen_channel: u16,
    pub codec: Codec,
    pub opus_profile: OpusProfile,
    pub mic_gain: Gain,
    pub input_limiter: bool,
    pub input_transient_suppression: bool,
    pub speaker_gain: Gain,
    pub jitter_ms: u32,
    pub input_device: Option<String>,
    pub input_backend: ClientAudioBackendKind,
    pub input_channel: ClientInputChannelMode,
    pub output_device: Option<String>,
    pub debug_audio_dir: Option<String>,
    pub button_count: u16,
    pub buttons: Vec<String>,
    pub button_keys: Vec<String>,
    pub local_ui_bind: SocketAddress,
    pub local_ui_token: Option<String>,
    pub disable_local_ui: bool,
    pub list_devices: bool,
}

/// The backend that captures audio.
#[derive(Debug, Clone, PartialEq, Eq)]
pub struct InputBackendState {
    pub requested: ClientAudioBackendKind,
    pub active: Option<ClientAudioBackendKind>,
    pub note: Option<String>,
}

/// The microphone mode that macOS applies.
#[derive(Debug, Clone, PartialEq, Eq)]
pub struct MacosMicrophoneModeStatus {
    pub preferred: String,
    pub active: String,
    pub voice_isolation_active: bool,
    pub system_ui_available: bool,
    pub note: Option<String>,
}

/// The answer to a request that was carried out.
#[derive(Debug, Clone, Copy, PartialEq, Eq, Structural)]
pub struct OkResponse {
    pub ok: bool,
}

/// What a client shows of itself.
#[derive(Debug, PartialEq, Eq)]
pub struct StateResponse {
    pub user_id: u16,
    pub client_uid: String,
    pub name: String,
    pub listen: Vec<u16>,
    pub tx: Vec<u16>,
    pub vol: Volumes,
    pub talker_vol: Volumes,
    pub codec: Codec,
    pub opus_profile: OpusProfile,
    pub talk_mode: TalkMode,
    pub regular_talk_active: bool,
    pub priority: bool,
    pub priority_channels: Vec<u16>,
    pub processing: ProcessingConfig,
    pub channel_rosters: Vec<ChannelPresenceRoster>,
    pub emergency: Option<EmergencyStatus>,
    pub supported_codecs: Vec<Codec>,
    pub buttons: Vec<TalkButtonConfig>,
    pub active_buttons: Vec<String>,
    pub active_direct_calls: Vec<DirectCallStatus>,
    pub last_direct_caller: Option<u16>,
    pub direct_call_history: Vec<DirectCallHistoryEntry>,
    pub active_alerts: Vec<AlertStatus>,
    pub recent_alerts: Vec<AlertStatus>,
    pub advertised_buttons: Vec<ButtonCapability>,
    pub ifb: IfbConfig,
    pub lockout: ClientLockoutPolicy,
    pub stereo: StereoConfig,
    pub mic_gain: Gain,
    pub speaker_gain: Gain,
    pub requested_input_backend: ClientAudioBackendKind,
    pub active_input_backend: Option<ClientAudioBackendKind>,
    pub input_backend_note: Option<String>,
    pub macos_microphone_mode: Option<MacosMicrophoneModeStatus>,
    pub playback: PlaybackStats,
    pub telemetry: Option<CaptureHealthStatus>,
    pub server_connection: ClientConnectionEvent,
}

/// The state shows the configuration as it is.
pub open spec fn shows_config(r: StateResponse, c: ClientConfig) -> bool {
    &&& r.user_id == c.user_id
    &&& r.client_uid == c.client_uid
    &&& r.name == c.name
    &&& r.listen == c.listen
    &&& r.tx == c.tx
    &&& r.vol == c.vol
    &&& r.talker_vol == c.talker_vol
    &&& r.codec == c.codec
    &&& r.opus_profile == c.opus_profile
    &&& r.talk_mode == c.talk_mode
    &&& r.regular_talk_active == c.regular_talk_active
    &&& r.priority == c.priority
    &&& r.priority_channels == c.priority_channels
    &&& r.processing == c.processing
    &&& r.channel_rosters == c.channel_rosters
    &&& r.emergency == c.emergency
    &&& r.buttons == c.buttons
    &&& r.active_buttons == c.active_buttons
    &&& r.active_direct_calls == c.active_direct_calls
    &&& r.last_direct_caller == c.last_direct_caller
    &&& r.direct_call_history == c.direct_call_history
    &&& r.active_alerts == c.active_alerts
    &&& r.recent_alerts == c.recent_alerts
    &&& r.advertised_buttons == c.advertised_buttons
    &&& r.ifb == c.ifb
    &&& r.lockout == c.lockout
    &&& r.stereo == c.stereo
}

impl StateResponse {
    /// The state of a client, from a copy of its configuration and the rest of it.
    pub fn from_runtime_state(
        config: ClientConfig,
        audio_settings: &AudioSettings,
        input_backend: InputBackendState,
        macos_microphone_mode: Option<MacosMicrophoneModeStatus>,
        playback: PlaybackStats,
        telemetry: Option<CaptureHealthStatus>,
        server_connection: ClientConnectionEvent,
    ) -> (r: Self)
        ensures
            shows_config(r, config),
            r.supported_codecs@ == offered_codecs(),
            r.mic_gain == audio_settings.mic(),
            r.speaker_gain == audio_settings.speaker(),
            r.requested_input_backend == input_backend.requested,
            r.active_input_backend == input_backend.active,
            r.input_backend_note == input_backend.note,
            r.macos_microphone_mode == macos_microphone_mode,
            r.playback == playback,
            r.telemetry == telemetry,
            r.server_connection == server_connection,
    {
        StateResponse {
            user_id: config.user_id,
            client_uid: config.client_uid,
            name: config.name,
            listen: config.listen,
            tx: config.tx,
            vol: config.vol,
            talker_vol: config.talker_vol,
            codec: config.codec,
            opus_profile: config.opus_profile,
            talk_mode: config.talk_mode,
            regular_talk_active: config.regular_talk_active,
            priority: config.priority,
            priority_channels: config.priority_channels,
            processing: config.processing,
            channel_rosters: config.channel_rosters,
            emergency: config.emergency,
            supported_codecs: supported_codecs(),
            buttons: config.buttons,
            active_buttons: config.active_buttons,
            active_direct_calls: config.active_direct_calls,
            last_direct_caller: config.last_direct_caller,
            direct_call_history: config.direct_call_history,
            active_alerts: config.active_alerts,
            recent_alerts: config.recent_alerts,
            advertised_buttons: config.advertised_buttons,
            ifb: config.ifb,
            lockout: config.lockout,
            stereo: config.stereo,
            mic_gain: audio_settings.mic_gain(),
            speaker_gain: audio_settings.speaker_gain(),
            requested_input_backend: input_backend.requested,
            active_input_backend: input_backend.active,
            input_backend_note: input_backend.note,
            macos_microphone_mode,
            playback,
            telemetry,
            server_connection,
        }
    }
}

/// A request to change the whole routing of a client.
#[derive(Debug, Clone)]
pub struct FullConfigRequest {
    pub listen: Vec<u16>,
    pub tx: Vec<u16>,
    pub vol: Volumes,
    pub talker_vol: Volumes,
    pub codec: Codec,
    pub opus_profile: OpusProfile,
    pub talk_mode: TalkMode,
    pub priority: bool,
    pub priority_channels: Vec<u16>,
    pub ifb: IfbConfig,
}

impl FullConfigRequest {
    /// The message asks the server for the requested routing.
    pub open spec fn asked_by(self, m: ConfigMessage, user_id: u16) -> bool {
        &&& m.user_id == user_id
        &&& m.role is None
        &&& m.name is None
        &&& m.listen@ == self.listen@
        &&& m.tx@ == self.tx@
        &&& m.vol.entries@ == self.vol.entries@
        &&& m.talker_vol is Some && m.talker_vol->Some_0.entries@ == self.talker_vol.entries@
        &&& m.codec == Some(self.codec)
        &&& m.opus_profile == Some(self.opus_profile)
        &&& m.talk_mode == Some(self.talk_mode)
        &&& m.priority == Some(self.priority)
        &&& m.priority_channels is Some && m.priority_channels->Some_0@ == self.priority_channels@
        &&& m.ifb is Some && m.ifb->Some_0.parts() == self.ifb.parts()
    }

    /// The two messages that carry out the request, in that order.
    pub fn control_messages(&self, user_id: u16) -> (r: Vec<ControlMessage>)
        ensures
            r@.len() == 2,
            r@[0] matches ControlMessage::Config(m) && self.asked_by(m, user_id),
            r@[1] == (ControlMessage::Priority { user_id, active: self.priority }),
    {
        let mut v: Vec<ControlMessage> = Vec::new();
        v.push(
            ControlMessage::Config(
                ConfigMessage {
                    user_id,
                    role: None,
                    name: None,
                    listen: copy_ids(&self.listen),
                    tx: copy_ids(&self.tx),
                    vol: self.vol.copy(),
                    talker_vol: Some(self.talker_vol.copy()),
                    codec: Some(self.codec),
                    opus_profile: Some(self.opus_profile),
                    talk_mode: Some(self.talk_mode),
                    priority: Some(self.priority),
                    priority_channels: Some(copy_ids(&self.priority_channels)),
                    ifb: Some(self.ifb.copy()),
                },
            ),
        );
        v.push(ControlMessage::Priority { user_id, active: self.priority });
        v
    }
}

/// A request for a codec.
#[derive(Debug, Clone, Copy, PartialEq, Eq, Structural)]
pub struct CodecRequest {
    pub codec: Codec,
}

/// A request for a talk mode.
#[derive(Debug, Clone, Copy, PartialEq, Eq, Structural)]
pub struct TalkModeRequest {
    pub mode: TalkMode,
}

/// A request for other gains.
#[derive(Debug, Clone, Copy, PartialEq, Eq, Structural)]
pub struct GainRequest {
    pub mic_gain: Option<Gain>,
    pub speaker_gain: Option<Gain>,
}

/// A request for an alert.
#[derive(Debug, Clone)]
pub struct AlertRequest {
    pub target: AlertTarget,
    pub message: Option<String>,
}

} // verus!
