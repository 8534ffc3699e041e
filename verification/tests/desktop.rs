use std::collections::VecDeque;

use redline::commands::{
    apply_runtime_command, command_gain_texts, ButtonArg, CommandUpdate,
};
use redline::config::{apply_control_event, ClientConfig};
use redline::control::{
    fail_pending_control_responses, next_reconnect_delay, CONTROL_RECONNECT_INITIAL_MS,
    CONTROL_RECONNECT_MAX_MS,
};
use redline::device::{device_name_matches, AudioInputBackend, InputBackendStatus};
use redline::gain::{AudioSettings, Gain, Volumes};
use redline::local_api::{
    forward_answer, queue_answer, ApiError, ForwardOutcome, LocalClientApi, QueueOutcome,
};
use redline::playback::{samples_for_ms, ClientConnectionEvent, PlaybackBuffer};
use redline::protocol::{
    AlertTarget, ButtonCapability, ClientLockoutPolicy, ClientRole, Codec, ConfigUpdate,
    ControlEvent, ControlMessage, ControlResponse, Esp32AudioConfig, IfbConfig, OpusProfile,
    ProcessingConfig, ProcessingMode, ProcessingProfile, StereoConfig, TalkButtonAction,
    TalkButtonConfig, TalkButtonMode, TalkMode, SAMPLES_PER_FRAME,
};
use redline::ui::{AlertRequest, ClientAudioBackendKind, FullConfigRequest, GainRequest, OkResponse};

fn gain(value: f32) -> Gain {
    Gain { bits: value.to_bits() }
}

fn processing() -> ProcessingConfig {
    ProcessingConfig {
        mode: ProcessingMode::Auto,
        profile: ProcessingProfile::Voice,
        vad: true,
        transient_suppression: true,
        native_voice_processing: true,
    }
}

fn ifb() -> IfbConfig {
    IfbConfig {
        enabled: false,
        program: Vec::new(),
        interrupt: Vec::new(),
        duck_gain: gain(0.25),
    }
}

fn volumes(entries: &[(u16, f32)]) -> Volumes {
    let mut out = Volumes::new();
    for (channel, value) in entries {
        out.insert(*channel, gain(*value));
    }
    out
}

fn config() -> ClientConfig {
    ClientConfig {
        user_id: 1,
        client_uid: "test-client".to_string(),
        role: ClientRole::Client,
        name: String::new(),
        listen: vec![1],
        tx: vec![1],
        codec: Codec::Pcm16,
        opus_profile: OpusProfile::default(),
        talk_mode: TalkMode::Ptt,
        last_non_muted_talk_mode: TalkMode::Ptt,
        regular_talk_active: true,
        priority: false,
        priority_channels: Vec::new(),
        processing: processing(),
        channel_rosters: Vec::new(),
        emergency: None,
        vol: Volumes::new(),
        talker_vol: Volumes::new(),
        buttons: Vec::new(),
        active_buttons: Vec::new(),
        active_direct_calls: Vec::new(),
        last_direct_caller: None,
        direct_call_history: Vec::new(),
        active_alerts: Vec::new(),
        recent_alerts: Vec::new(),
        advertised_buttons: Vec::new(),
        capabilities: None,
        ifb: ifb(),
        lockout: ClientLockoutPolicy::default(),
        stereo: StereoConfig { enabled: false, channel_pan: Volumes::new() },
        esp32_audio: Esp32AudioConfig { encoded: String::new() },
        tally: None,
    }
}

fn api() -> LocalClientApi {
    LocalClientApi {
        config: config(),
        audio_settings: AudioSettings::new(gain(1.0), gain(1.0)),
        input_backend: InputBackendStatus::active(
            AudioInputBackend::Auto,
            AudioInputBackend::Raw,
            Some("test backend".to_string()),
        )
        .to_client_core(),
        telemetry: None,
        connection: ClientConnectionEvent::Connected,
    }
}

fn run(config: &mut ClientConfig, command: &str) -> Result<CommandUpdate, String> {
    let gains: Vec<Option<Gain>> = command_gain_texts(command)
        .into_iter()
        .map(|text| text.and_then(|text| text.parse::<f32>().ok()).map(gain))
        .collect();
    apply_runtime_command(config, command, &gains)
}

fn acknowledged() -> OkResponse {
    forward_answer(ForwardOutcome::Answered(ControlResponse::Ack), "unexpected").unwrap()
}

#[test]
fn command_updates_tx_channel() {
    let mut config = config();

    let update = run(&mut config, "tx 2,3").unwrap();

    assert!(matches!(update, CommandUpdate::SendConfig));
    assert_eq!(config.tx, vec![2, 3]);
    assert_eq!(config.active_tx_channels(), vec![2, 3]);
}

#[test]
fn mute_and_unmute_change_talk_mode_without_changing_tx() {
    let mut config = config();
    run(&mut config, "tx 4").unwrap();
    run(&mut config, "mute").unwrap();
    assert_eq!(config.tx, vec![4]);
    assert!(config.active_tx_channels().is_empty());

    run(&mut config, "unmute").unwrap();

    assert_eq!(config.tx, vec![4]);
    assert!(config.active_tx_channels().is_empty());
    run(&mut config, "talk on").unwrap();
    assert_eq!(config.active_tx_channels(), vec![4]);

    run(&mut config, "talk-mode open").unwrap();
    run(&mut config, "talk off").unwrap();
    assert_eq!(config.active_tx_channels(), vec![4]);
    run(&mut config, "mute").unwrap();
    assert!(config.active_tx_channels().is_empty());
    run(&mut config, "unmute").unwrap();
    assert_eq!(config.talk_mode, TalkMode::Open);
    assert_eq!(config.active_tx_channels(), vec![4]);
}

#[test]
fn talk_commands_control_mode_and_transient_talk() {
    let mut config = config();

    run(&mut config, "talk off").unwrap();
    assert!(!config.regular_talk_active);
    assert!(config.active_tx_channels().is_empty());

    run(&mut config, "talk on").unwrap();
    assert!(config.regular_talk_active);
    assert_eq!(config.active_tx_channels(), vec![1]);

    run(&mut config, "talk-mode open").unwrap();
    assert_eq!(config.talk_mode, TalkMode::Open);
    run(&mut config, "talk off").unwrap();
    assert_eq!(config.active_tx_channels(), vec![1]);
}

#[test]
fn command_updates_listen_and_volumes() {
    let mut config = config();

    run(&mut config, "listen 1,2").unwrap();
    run(&mut config, "vol 2=0.6,3=0.25").unwrap();

    assert_eq!(config.listen, vec![1, 2]);
    assert_eq!(config.vol.get(2), Some(gain(0.6)));
    assert_eq!(config.vol.get(3), Some(gain(0.25)));
}

#[test]
fn button_argument_parses_id_and_label() {
    let button = ButtonArg::parse("director=Director").unwrap();
    assert_eq!(button.id, "director");
    assert_eq!(button.label, "Director");

    let capability = ButtonCapability::from(button);
    assert_eq!(capability.id, "director");
    assert_eq!(capability.label, "Director");
}

#[test]
fn button_command_sends_button_events() {
    let mut config = config();
    config.advertised_buttons = vec![ButtonCapability {
        id: "director".to_string(),
        label: "Director".to_string(),
    }];

    assert!(matches!(
        run(&mut config, "button director down").unwrap(),
        CommandUpdate::SendButton { button_id, pressed: true } if button_id == "director"
    ));
    assert!(run(&mut config, "button unknown down").is_err());
}

#[test]
fn device_name_matching_is_case_insensitive_substring() {
    assert!(device_name_matches("MacBook Pro Microphone", "micro"));
    assert!(device_name_matches("External USB Headset", "usb head"));
    assert!(!device_name_matches("External USB Headset", "studio"));
}

#[test]
fn playback_buffer_resets_after_underrun() {
    let mut playback = PlaybackBuffer::new(SAMPLES_PER_FRAME * 4, SAMPLES_PER_FRAME);

    playback.push(&vec![1; SAMPLES_PER_FRAME]);
    for _ in 0..SAMPLES_PER_FRAME {
        assert_eq!(playback.pop(), Some(1));
    }
    assert_eq!(playback.pop(), None);

    playback.push(&vec![2; SAMPLES_PER_FRAME - 1]);
    assert_eq!(playback.pop(), None);
    playback.push(&[2]);
    assert_eq!(playback.pop(), Some(2));
}

#[test]
fn jitter_zero_disables_prebuffer() {
    assert_eq!(samples_for_ms(0), 0);
    let mut playback = PlaybackBuffer::new(SAMPLES_PER_FRAME, samples_for_ms(0));

    playback.push(&[7]);

    assert_eq!(playback.pop(), Some(7));
}

#[test]
fn reconnect_delay_backs_off_to_cap() {
    assert_eq!(next_reconnect_delay(CONTROL_RECONNECT_INITIAL_MS), 1000);
    assert_eq!(next_reconnect_delay(CONTROL_RECONNECT_MAX_MS), CONTROL_RECONNECT_MAX_MS);
}

#[test]
fn pending_control_responses_fail_on_disconnect() {
    let mut pending = VecDeque::from([7u32]);

    let failed = fail_pending_control_responses(&mut pending);

    assert!(pending.is_empty());
    assert_eq!(failed.len(), 1);
    assert_eq!(failed[0].0, 7);
    assert!(matches!(failed[0].1, ControlResponse::Error { .. }));
}

#[test]
fn local_ui_state_returns_current_snapshot() {
    let playback = PlaybackBuffer::new(SAMPLES_PER_FRAME * 4, SAMPLES_PER_FRAME);
    let response = api().state(None, playback.stats());

    assert_eq!(response.user_id, 1);
    assert_eq!(response.listen, vec![1]);
    assert_eq!(response.tx, vec![1]);
    assert_eq!(response.codec, Codec::Pcm16);
    assert_eq!(response.mic_gain, gain(1.0));
    assert_eq!(response.speaker_gain, gain(1.0));
    assert_eq!(response.requested_input_backend, ClientAudioBackendKind::Auto);
    assert_eq!(response.active_input_backend, Some(ClientAudioBackendKind::Raw));
    assert_eq!(response.input_backend_note.as_deref(), Some("test backend"));
    assert_eq!(response.playback.available_samples, 0);
    assert_eq!(response.playback.underflows, 0);
    assert_eq!(response.lockout, ClientLockoutPolicy::default());
    assert_eq!(
        response.supported_codecs,
        vec![Codec::Pcm16, Codec::Pcm24, Codec::Pcm48, Codec::Opus]
    );
}

#[test]
fn local_ui_rejects_locked_codec_control() {
    let mut api = api();
    api.config.lockout.allow_codec = false;

    let result = api.set_codec(Codec::Opus);

    assert!(matches!(
        result,
        Err(ApiError::BadRequest(message)) if message.contains("codec")
    ));
}

#[test]
fn local_ui_mute_enqueues_muted_talk_mode() {
    let message = api().mute().unwrap();
    assert!(matches!(
        message,
        ControlMessage::TalkMode { user_id: 1, mode: TalkMode::Muted }
    ));
    assert_eq!(acknowledged(), OkResponse { ok: true });
}

#[test]
fn local_ui_unmute_restores_previous_non_muted_talk_mode() {
    let mut api = api();
    api.config.set_talk_mode(TalkMode::Open);
    api.config.set_talk_mode(TalkMode::Muted);

    let message = api.unmute().unwrap();
    assert!(matches!(
        message,
        ControlMessage::TalkMode { user_id: 1, mode: TalkMode::Open }
    ));
    assert_eq!(acknowledged(), OkResponse { ok: true });
}

#[test]
fn local_ui_talk_down_enqueues_regular_talk_active() {
    let message = api().talk_down().unwrap();
    assert!(matches!(message, ControlMessage::Talk { user_id: 1, active: true }));
    assert_eq!(acknowledged(), OkResponse { ok: true });
}

#[test]
fn no_wait_talk_queue_updates_local_state_without_control_ack() {
    let mut api = api();
    api.config.regular_talk_active = false;

    let message = api.queue_talk(true).unwrap();
    assert_eq!(queue_answer(QueueOutcome::Queued).unwrap(), OkResponse { ok: true });
    assert!(api.config.regular_talk_active);
    assert!(matches!(message, ControlMessage::Talk { user_id: 1, active: true }));
}

#[test]
fn no_wait_button_queue_updates_local_state_without_control_ack() {
    let mut api = api();
    api.config.buttons = vec![TalkButtonConfig {
        id: "director".to_string(),
        label: "Director".to_string(),
        color: None,
        mode: TalkButtonMode::Latching,
        actions: Vec::new(),
    }];

    let message = api.queue_button("director", true).unwrap();
    assert_eq!(queue_answer(QueueOutcome::Queued).unwrap(), OkResponse { ok: true });
    assert_eq!(api.config.active_buttons, vec!["director".to_string()]);
    assert!(matches!(
        message,
        ControlMessage::Button { user_id: 1, ref button_id, pressed: true }
            if button_id == "director"
    ));
}

#[test]
fn local_ui_button_down_enqueues_button_press() {
    let message = api().button_down("director").unwrap();
    assert!(matches!(
        message,
        ControlMessage::Button { user_id: 1, ref button_id, pressed: true }
            if button_id == "director"
    ));
    assert_eq!(acknowledged(), OkResponse { ok: true });
}

#[test]
fn local_ui_alert_endpoints_enqueue_control_messages() {
    let api = api();
    let message = api
        .send_alert(AlertRequest {
            target: AlertTarget::User(2),
            message: Some("Call me".to_string()),
        })
        .unwrap();
    assert!(matches!(
        message,
        ControlMessage::SendAlert { user_id: 1, target: AlertTarget::User(2), ref message }
            if message.as_deref() == Some("Call me")
    ));
    assert!(matches!(
        api.ack_alert(42).unwrap(),
        ControlMessage::AckAlert { user_id: 1, alert_id: 42 }
    ));
    assert!(matches!(
        api.cancel_alert(42).unwrap(),
        ControlMessage::CancelAlert { user_id: 1, alert_id: 42 }
    ));
    assert_eq!(acknowledged(), OkResponse { ok: true });
}

#[test]
fn local_ui_config_sends_config_and_priority_in_order() {
    let messages = api()
        .apply_config(&FullConfigRequest {
            listen: vec![1, 2],
            tx: vec![2],
            vol: volumes(&[(2, 0.6)]),
            talker_vol: Volumes::new(),
            codec: Codec::Pcm48,
            opus_profile: OpusProfile::default(),
            talk_mode: TalkMode::Muted,
            priority: true,
            priority_channels: Vec::new(),
            ifb: IfbConfig {
                enabled: true,
                program: vec![1],
                interrupt: vec![9],
                duck_gain: gain(0.125),
            },
        })
        .unwrap();

    assert_eq!(messages.len(), 2);
    match &messages[0] {
        ControlMessage::Config(message) => {
            assert_eq!(message.user_id, 1);
            assert_eq!(message.listen, vec![1, 2]);
            assert_eq!(message.tx, vec![2]);
            assert_eq!(message.codec, Some(Codec::Pcm48));
            assert_eq!(message.opus_profile, Some(OpusProfile::Speech24Standard));
            assert_eq!(message.talk_mode, Some(TalkMode::Muted));
            assert_eq!(message.priority, Some(true));
        }
        other => panic!("unexpected message {other:?}"),
    }
    assert!(matches!(
        messages[1],
        ControlMessage::Priority { user_id: 1, active: true }
    ));
    assert_eq!(acknowledged(), OkResponse { ok: true });
}

#[test]
fn local_ui_gain_updates_runtime_audio_settings() {
    let mut api = api();

    let response = api
        .set_gain(GainRequest {
            mic_gain: Some(gain(1.75)),
            speaker_gain: Some(gain(1.9)),
        })
        .unwrap();

    assert_eq!(response, OkResponse { ok: true });
    assert_eq!(api.audio_settings.mic_gain(), gain(1.75));
    assert_eq!(api.audio_settings.speaker_gain(), gain(1.9));
}

#[test]
fn config_update_from_server_replaces_local_route_and_talk_mode() {
    let mut config = config();
    apply_control_event(
        &mut config,
        ControlEvent::ConfigUpdate(ConfigUpdate {
            user_id: 1,
            client_uid: "test-client".to_string(),
            name: "Ref 1".to_string(),
            listen: vec![2, 3],
            tx: vec![3],
            vol: volumes(&[(2, 0.5)]),
            talker_vol: volumes(&[(4, 0.75)]),
            codec: Codec::Pcm16,
            opus_profile: OpusProfile::default(),
            talk_mode: TalkMode::Muted,
            regular_talk_active: false,
            priority: true,
            priority_channels: Vec::new(),
            processing: processing(),
            buttons: vec![TalkButtonConfig {
                id: "director".to_string(),
                label: "Director".to_string(),
                color: None,
                mode: TalkButtonMode::Momentary,
                actions: vec![TalkButtonAction::Transmit {
                    channels: vec![5],
                    users: Vec::new(),
                    duck: false,
                }],
            }],
            active_buttons: vec!["director".to_string()],
            active_direct_calls: Vec::new(),
            last_direct_caller: None,
            direct_call_history: Vec::new(),
            active_alerts: Vec::new(),
            recent_alerts: Vec::new(),
            emergency: None,
            ifb: ifb(),
            lockout: ClientLockoutPolicy {
                allow_codec: false,
                ..ClientLockoutPolicy::default()
            },
            stereo: StereoConfig { enabled: false, channel_pan: Volumes::new() },
            esp32_audio: Esp32AudioConfig { encoded: String::new() },
        }),
    );

    assert_eq!(config.listen, vec![2, 3]);
    assert_eq!(config.name, "Ref 1");
    assert_eq!(config.tx, vec![3]);
    assert_eq!(config.active_tx_channels(), vec![5]);
    assert_eq!(config.vol.get(2), Some(gain(0.5)));
    assert_eq!(config.codec, Codec::Pcm16);
    assert_eq!(config.talk_mode, TalkMode::Muted);
    assert!(!config.regular_talk_active);
    assert!(config.priority);
    assert_eq!(config.buttons[0].id, "director");
    assert_eq!(config.active_buttons, vec!["director"]);
    assert!(!config.lockout.allow_codec);
}
