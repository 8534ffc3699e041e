//! What a client shows of itself.

use vstd::prelude::*;

use crate::config::ClientConfig;
use crate::gain::{AudioSettings, Gain};
use crate::playback::{ClientConnectionEvent, PlaybackStats};
use crate::protocol::ControlMessage;
use crate::telemetry::CaptureHealthStatus;
use crate::ui::{
    ClientRuntimePhase, ClientRuntimeStatus, FullConfigRequest, InputBackendState,
    MacosMicrophoneModeStatus, StateResponse,
};

verus! {

/// A client runs only where it says that it runs, and has an error only where it failed.
pub proof fn phases_agree_with_running(
    stopped: ClientRuntimeStatus,
    starting: ClientRuntimeStatus,
    running: ClientRuntimeStatus,
    error: &str,
    failed: ClientRuntimeStatus,
)
    requires
        call_ensures(ClientRuntimeStatus::stopped, (), stopped),
        call_ensures(ClientRuntimeStatus::starting, (), starting),
        call_ensures(ClientRuntimeStatus::running, (), running),
        call_ensures(ClientRuntimeStatus::failed, (error,), failed),
    ensures
        running.running && !stopped.running && !starting.running && !failed.running,
        running.phase == ClientRuntimePhase::Running && stopped.phase
            == ClientRuntimePhase::Stopped && starting.phase == ClientRuntimePhase::Starting
            && failed.phase == ClientRuntimePhase::Failed,
        running.last_error is None && stopped.last_error is None && starting.last_error is None,
        failed.last_error is Some && failed.last_error->Some_0@ == error@,
{
}

/// The shown state is that of the configuration, the audio settings, the input, the
/// playback and the connection, each in its place.
pub proof fn the_state_shows_every_part(
    config: ClientConfig,
    audio_settings: AudioSettings,
    input_backend: InputBackendState,
    macos_microphone_mode: Option<MacosMicrophoneModeStatus>,
    playback: PlaybackStats,
    telemetry: Option<CaptureHealthStatus>,
    server_connection: ClientConnectionEvent,
    r: StateResponse,
    mic: Gain,
    speaker: Gain,
)
    requires
        call_ensures(
            StateResponse::from_runtime_state,
            (
                config,
                &audio_settings,
                input_backend,
                macos_microphone_mode,
                playback,
                telemetry,
                server_connection,
            ),
            r,
        ),
        call_ensures(AudioSettings::mic_gain, (&audio_settings,), mic),
        call_ensures(AudioSettings::speaker_gain, (&audio_settings,), speaker),
    ensures
        r.user_id == config.user_id,
        r.client_uid == config.client_uid,
        r.name == config.name,
        r.listen == config.listen,
        r.tx == config.tx,
        r.vol == config.vol,
        r.talker_vol == config.talker_vol,
        r.codec == config.codec,
        r.opus_profile == config.opus_profile,
        r.talk_mode == config.talk_mode,
        r.regular_talk_active == config.regular_talk_active,
        r.priority == config.priority,
        r.priority_channels == config.priority_channels,
        r.processing == config.processing,
        r.channel_rosters == config.channel_rosters,
        r.emergency == config.emergency,
        r.buttons == config.buttons,
        r.active_buttons == config.active_buttons,
        r.active_direct_calls == config.active_direct_calls,
        r.last_direct_caller == config.last_direct_caller,
        r.direct_call_history == config.direct_call_history,
        r.active_alerts == config.active_alerts,
        r.recent_alerts == config.recent_alerts,
        r.advertised_buttons == config.advertised_buttons,
        r.ifb == config.ifb,
        r.lockout == config.lockout,
        r.stereo == config.stereo,
        r.mic_gain == mic && r.speaker_gain == speaker,
        r.requested_input_backend == input_backend.requested,
        r.active_input_backend == input_backend.active,
        r.input_backend_note == input_backend.note,
        r.macos_microphone_mode == macos_microphone_mode,
        r.playback == playback && r.telemetry == telemetry,
        r.server_connection == server_connection,
{
}

/// A request for a whole configuration asks the server for each of its parts, and then
/// for the priority.
pub proof fn requests_ask_for_every_part(
    request: FullConfigRequest,
    user_id: u16,
    r: Vec<ControlMessage>,
)
    requires
        call_ensures(FullConfigRequest::control_messages, (&request, user_id), r),
    ensures
        r@.len() == 2,
        r@[0] matches ControlMessage::Config(m) && m.user_id == user_id && m.listen@
            == request.listen@ && m.tx@ == request.tx@ && m.vol.entries@ == request.vol.entries@
            && m.talker_vol->Some_0.entries@ == request.talker_vol.entries@ && m.codec == Some(
            request.codec,
        ) && m.opus_profile == Some(request.opus_profile) && m.talk_mode == Some(
            request.talk_mode,
        ) && m.priority == Some(request.priority) && m.priority_channels->Some_0@
            == request.priority_channels@ && m.talker_vol is Some && m.priority_channels is Some
            && m.ifb is Some && m.role is None && m.name is None,
        r@[1] == (ControlMessage::Priority { user_id, active: request.priority }),
{
}

} // verus!
