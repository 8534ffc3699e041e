use redline::audio::{
    opus_tuning, pcm16_le_bytes_to_samples, AudioDecoder, AudioEncoder, AudioError, EncodePath,
    interleaved_admits, FrameResampler, OpusBandwidth,
};
use redline::auth::{authorization_matches, basic_credentials_match, LocalHttpAuth};
use redline::bridge::{
    plan_capture, plan_playback, report_outcome, validate_route_endpoint_kinds, BridgeArgs,
    BridgeCliMode, BridgeInputKind, BridgeOutputKind, BridgeStartError, CapturePlan,
    EndpointRuntimeTelemetry, EndpointTelemetrySnapshot, PlaybackPlan, ReportOutcome,
};
use redline::bridge_app::BrowserSourceTelemetrySnapshot;
use redline::capture::{
    fill_frame, mono_frame, zero_crossings, ChannelPick, InputChannelMode, InputCutter,
    SilenceGate, TransientHold,
    TransientStep, SILENCE_HOLD_SAMPLES, TRANSIENT_HOLD_SAMPLES,
};
use redline::commands::{
    apply_runtime_command, asks_for_help, command_message, command_report, hotkey_message,
    parse_bool, parse_duck_flag, parse_talk_mode, ButtonArg, ButtonKeyArg, CommandUpdate,
    KeyStroke, COMMAND_LIST,
};
use redline::config::ClientConfig;
use redline::control::{accept_hello, acknowledgement, Acknowledgement, HelloError};
use redline::device::{
    device_name_matches, no_match_message, plan_input, select_device, voice_status,
    AudioInputBackend, DesktopCpalAudioBackend, DeviceChoice, InputPlan,
    MacosVoiceProcessingAudioBackend, VoiceAttempt, VoicePlatform,
};
use redline::endpoint::{
    resolve_server_audio_addr, validate_control_url, validate_http_url, validate_server_host,
    ClientEndpointOverrides, ClientServerEndpoint, EndpointError, HostLookup,
};
use redline::gain::{AudioSettings, Gain, Volumes};
use redline::gpio::{tally_due, ButtonMode, TallyOutputState};
use redline::identity::{
    choose_client_uid, default_client_identity_path, load_or_create_client_uid, IdentityError,
    IdentityPlatform,
};
use redline::local_api::{
    forward_answer, queue_answer, ApiError, ForwardOutcome, LocalClientApi, QueueOutcome,
};
use redline::mic_mode::{
    context_note, microphone_mode_status, mode_name, DefaultMobileAudioPlatform,
    VOICE_ISOLATION_NOTE,
};
use redline::net::SocketAddress;
use redline::playback::{cue_envelope, samples_for_ms, ClientConnectionEvent, PlaybackBuffer};
use redline::protocol::{
    codec_pcm16_payload_bytes, supported_codecs, AlertStatus, AlertTarget, ClientLockoutPolicy, ClientRole, Codec,
    ControlMessage, ControlResponse, EnrollmentStatus, Esp32AudioConfig, IfbConfig, OpusProfile,
    ProcessingConfig, ProcessingMode, ProcessingProfile, StereoConfig, TalkButtonConfig,
    TalkButtonMode, TalkMode,
};
use redline::pump::{
    greet, ndi_packet_received, ndi_payload_decoded, operator_input, packet_received,
    payload_decoded, OperatorInput, TransmitAction, Transmitter,
};
use redline::routing::{parse_volumes, volume_gain_texts, VolumeError};
use redline::routes::{RouteInputKind, RouteOutputKind};
use redline::session::{
    resolve_endpoint_args, Args, EndpointArgs, WireCodec, WireOpusProfile,
};
use redline::settings::AppSettings;
use redline::telemetry::{ClientTelemetryCounters, TelemetryStore};
use redline::ui::{
    AlertRequest, ClientAudioBackend, ClientAudioBackendKind, FullConfigRequest, InputBackendState,
};

fn gain(value: f32) -> Gain {
    Gain { bits: value.to_bits() }
}

fn ifb() -> IfbConfig {
    IfbConfig {
        enabled: false,
        program: Vec::new(),
        interrupt: Vec::new(),
        duck_gain: gain(0.25),
    }
}

fn config() -> ClientConfig {
    ClientConfig {
        user_id: 1,
        client_uid: "client".to_string(),
        role: ClientRole::Client,
        name: " ".to_string(),
        listen: vec![1],
        tx: vec![1, 2],
        codec: Codec::Pcm16,
        opus_profile: OpusProfile::default(),
        talk_mode: TalkMode::Ptt,
        last_non_muted_talk_mode: TalkMode::Ptt,
        regular_talk_active: false,
        priority: false,
        priority_channels: Vec::new(),
        processing: ProcessingConfig {
            mode: ProcessingMode::Auto,
            profile: ProcessingProfile::Voice,
            vad: true,
            transient_suppression: true,
            native_voice_processing: true,
        },
        channel_rosters: Vec::new(),
        emergency: None,
        vol: Volumes::new(),
        talker_vol: Volumes::new(),
        buttons: Vec::new(),
        active_buttons: Vec::new(),
        active_direct_calls: Vec::new(),
        last_direct_caller: None,
        direct_call_history: Vec::new(),
        active_alerts: Vec::new(),
        recent_alerts: Vec::new(),
        advertised_buttons: Vec::new(),
        capabilities: None,
        ifb: ifb(),
        lockout: ClientLockoutPolicy::default(),
        stereo: StereoConfig { enabled: false, channel_pan: Volumes::new() },
        esp32_audio: Esp32AudioConfig { encoded: String::new() },
        tally: None,
    }
}

fn api() -> LocalClientApi {
    LocalClientApi {
        config: config(),
        audio_settings: AudioSettings::new(gain(1.0), gain(1.0)),
        input_backend: InputBackendState {
            requested: ClientAudioBackendKind::Auto,
            active: None,
            note: None,
        },
        telemetry: None,
        connection: ClientConnectionEvent::Connected,
    }
}

fn full_request() -> FullConfigRequest {
    FullConfigRequest {
        listen: vec![1],
        tx: vec![2, 1],
        vol: Volumes::new(),
        talker_vol: Volumes::new(),
        codec: Codec::Pcm16,
        opus_profile: OpusProfile::default(),
        talk_mode: TalkMode::Ptt,
        priority: false,
        priority_channels: Vec::new(),
        ifb: ifb(),
    }
}

fn bridge_args() -> BridgeArgs {
    BridgeArgs {
        server_host: None,
        server: SocketAddress { ip: "127.0.0.1".to_string(), port: 40000 },
        control: "ws://127.0.0.1:40001".to_string(),
        user_id: Some(95),
        client_uid: None,
        identity_file: None,
        name: "Bridge".to_string(),
        mode: BridgeCliMode::Input,
        tx_channels: vec![1],
        listen_channels: vec![1],
        codec: WireCodec::Pcm48,
        opus_profile: WireOpusProfile::Speech48High,
        stereo: false,
        input_device: None,
        output_device: None,
        input_kind: BridgeInputKind::AudioDevice,
        output_kind: BridgeOutputKind::AudioDevice,
        ndi_source: None,
        ndi_output_name: None,
        ndi_groups: None,
        vmix_source_url: None,
        input_gain: gain(1.0),
        output_gain: gain(1.0),
        note: String::new(),
        list_devices: false,
        list_ndi_sources: false,
    }
}

fn desktop_args() -> Args {
    Args {
        server_host: None,
        server: SocketAddress { ip: "127.0.0.1".to_string(), port: 40000 },
        control: "ws://127.0.0.1:40001".to_string(),
        user_id: None,
        client_uid: None,
        identity_file: None,
        tx_channel: 1,
        listen_channel: 1,
        codec: WireCodec::Pcm16,
        opus_profile: WireOpusProfile::Speech24Standard,
        mic_gain: gain(1.0),
        input_limiter: false,
        disable_input_transient_suppression: false,
        speaker_gain: gain(1.0),
        jitter_ms: 40,
        input_device: None,
        input_backend: AudioInputBackend::Auto,
        input_channel: InputChannelMode::Average,
        output_device: None,
        debug_audio_dir: None,
        button_count: 6,
        buttons: Vec::new(),
        button_keys: Vec::new(),
        local_ui_bind: SocketAddress { ip: "127.0.0.1".to_string(), port: 41002 },
        local_ui_token: None,
        disable_local_ui: false,
        disable_command_loop: false,
        list_devices: false,
    }
}

#[test]
fn every_host_fault_is_told() {
    let cases = [
        ("  ", EndpointError::HostEmpty),
        ("http://a", EndpointError::HostScheme),
        ("a/b", EndpointError::HostPath),
        ("a?b", EndpointError::HostPath),
        ("a#b", EndpointError::HostPath),
        ("u@a", EndpointError::HostPath),
        ("a b", EndpointError::HostWhitespace),
        ("[a]", EndpointError::HostBracketedNotIpv6),
        ("[::1", EndpointError::HostBrackets),
        ("a:1", EndpointError::HostPort),
        ("a:b", EndpointError::HostNotIpv6),
        ("1:2:3:4:5:6:7:8:9", EndpointError::HostNotIpv6),
    ];
    for (host, fault) in cases {
        assert_eq!(validate_server_host(host), Err(fault), "{host}");
    }
    assert_eq!(validate_server_host("::ffff:1.2.3.4").unwrap(), "::ffff:1.2.3.4");
    assert_eq!(validate_server_host("1:2:3:4:5:6:7:8").unwrap(), "1:2:3:4:5:6:7:8");
    assert_eq!(
        EndpointError::Unresolved("studio".to_string()).message(),
        "server host `studio` did not resolve"
    );
    assert_eq!(
        EndpointError::LookupFailed("studio".to_string()).message(),
        "resolve server host `studio`"
    );
}

#[test]
fn every_url_fault_is_told() {
    assert_eq!(validate_control_url(" "), Err(EndpointError::ControlEmpty));
    assert_eq!(validate_control_url("http://a"), Err(EndpointError::ControlScheme));
    assert_eq!(validate_control_url(" wss://a"), Ok(()));
    assert_eq!(validate_http_url(""), Err(EndpointError::UrlEmpty));
    assert_eq!(validate_http_url("ws://a"), Err(EndpointError::UrlScheme));
    assert_eq!(validate_http_url("https://a"), Ok(()));
    let (endpoints, _) = ClientEndpointOverrides::normalized(
        "a",
        SocketAddress { ip: "10.0.0.1".to_string(), port: 1 },
        "nothing",
        None,
        true,
    );
    assert_eq!(endpoints.effective_admin(), Err(EndpointError::AdminNotDerivable));
    assert_eq!(endpoints.validate(), Err(EndpointError::ControlScheme));
}

#[test]
fn every_audio_fault_is_told() {
    let encoder = AudioEncoder::new(Codec::Opus, OpusProfile::Speech24Standard);
    assert_eq!(encoder.edge_rate(), 24_000);
    assert_eq!(
        encoder.path(10),
        Err(AudioError::SampleCount { got: 10, expected: 960 })
    );
    assert_eq!(encoder.path(960), Ok(EncodePath::Opus));
    let adpcm = AudioEncoder::new(Codec::Adpcm, OpusProfile::default());
    assert_eq!(adpcm.path(960), Err(AudioError::AdpcmNotImplemented));
    let decoder = AudioDecoder::default();
    assert_eq!(
        decoder.path(Codec::Pcm16, 640, 2),
        Err(AudioError::StereoNotSupported)
    );
    assert_eq!(
        decoder.path(Codec::Pcm48, 5, 1),
        Err(AudioError::PayloadLength { got: 5, expected: 1920 })
    );
    assert_eq!(pcm16_le_bytes_to_samples(&[1]), Err(AudioError::OddPayload));
    assert_eq!(
        decoder.check_frame(OpusProfile::Speech16Low, 300, 1),
        Err(AudioError::OpusSampleCount { got: 300, expected: 320 })
    );
    let resampler = FrameResampler::new(48_000, 16_000);
    assert_eq!(
        resampler.admits(5),
        Err(AudioError::ResamplerInput { got: 5, expected: 960 })
    );
    assert_eq!(codec_pcm16_payload_bytes(Codec::Pcm24), 960);
}

#[test]
fn resampled_frames_have_the_length_of_their_rate() {
    let down = FrameResampler::new(48_000, 16_000);
    assert_eq!(down.admits(960), Ok(true));
    let short: Vec<i16> = (0..318).collect();
    let filled = down.finish(&short);
    assert_eq!(filled.len(), 320);
    assert_eq!(filled[319], 317);
    let up = FrameResampler::new(16_000, 48_000);
    assert_eq!(up.finish(&vec![3; 970]).len(), 960);
    assert_eq!(up.finish(&Vec::new()), vec![0; 960]);
    assert_eq!(FrameResampler::new(48_000, 48_000).admits(7), Ok(false));
}

#[test]
fn opus_is_set_up_for_voice_or_music() {
    let voice = opus_tuning(OpusProfile::Speech24Standard);
    assert!(!voice.music);
    assert_eq!(voice.max_bandwidth, OpusBandwidth::Superwideband);
    assert!(voice.variable_rate && voice.constrained_rate && voice.forward_correction);
    assert!(!voice.silence_suppression);
    assert!(opus_tuning(OpusProfile::Music48).music);
}

#[test]
fn every_bridge_fault_is_told() {
    let mut args = bridge_args();
    args.input_kind = BridgeInputKind::NdiSource;
    assert_eq!(
        validate_route_endpoint_kinds(&args),
        Err(BridgeStartError::NdiSourceMissing)
    );
    assert_eq!(plan_capture(&args).unwrap_err(), BridgeStartError::NdiSourceMissing);
    args.ndi_source = Some(" vMix ".to_string());
    assert!(validate_route_endpoint_kinds(&args).is_ok());
    assert!(matches!(plan_capture(&args), Ok(CapturePlan::Ndi(name)) if name == "vMix"));
    assert!(matches!(plan_playback(&args), Ok(PlaybackPlan::Nothing)));

    let mut args = bridge_args();
    args.mode = BridgeCliMode::Output;
    args.output_kind = BridgeOutputKind::VmixBrowserSource;
    assert_eq!(
        validate_route_endpoint_kinds(&args),
        Err(BridgeStartError::VmixServedElsewhere)
    );
    args.output_kind = BridgeOutputKind::NdiOutput;
    assert_eq!(
        validate_route_endpoint_kinds(&args),
        Err(BridgeStartError::NdiOutputNameMissing)
    );
    assert_eq!(BridgeStartError::UserIdMissing.message(), "--user-id is required");
}

#[test]
fn reports_are_taken_deferred_or_rejected() {
    assert!(matches!(report_outcome(ControlResponse::Ack), ReportOutcome::Taken));
    let deferred = ControlResponse::Error {
        message: "control connection unavailable; reconnecting".to_string(),
    };
    assert!(matches!(report_outcome(deferred), ReportOutcome::Deferred(_)));
    let rejected = ControlResponse::Error { message: "no".to_string() };
    assert!(matches!(report_outcome(rejected), ReportOutcome::Rejected(m) if m == "no"));
}

#[test]
fn volumes_name_what_is_wrong() {
    let read = |value: &str| {
        let gains: Vec<Option<Gain>> = volume_gain_texts(value)
            .into_iter()
            .map(|text| text.and_then(|text| text.parse::<f32>().ok()).map(gain))
            .collect();
        parse_volumes(value, &gains)
    };
    assert_eq!(read("1=0.5,2=1").unwrap().get(2), Some(gain(1.0)));
    assert!(matches!(read("1"), Err(VolumeError::Entry(_))));
    assert!(matches!(read("x=1"), Err(VolumeError::Channel(_))));
    assert!(matches!(read("1=loud"), Err(VolumeError::Gain(_))));
}

#[test]
fn commands_name_what_is_wrong() {
    assert_eq!(parse_bool("on"), Ok(true));
    assert_eq!(parse_bool("x").unwrap_err(), "invalid boolean `x`, expected on/off");
    assert_eq!(
        parse_talk_mode("x").unwrap_err(),
        "invalid talk mode `x`, expected muted, ptt, or open"
    );
    assert_eq!(parse_duck_flag(None), Ok(false));
    assert_eq!(parse_duck_flag(Some("duck")), Ok(true));
    assert_eq!(parse_duck_flag(Some("no-duck")), Ok(false));
    assert!(parse_duck_flag(Some("x")).is_err());
    let mut config = config();
    assert!(apply_runtime_command(&mut config, "dance", &Vec::new()).is_err());
    assert!(apply_runtime_command(&mut config, "call x down", &Vec::new()).is_err());
    assert!(matches!(
        apply_runtime_command(&mut config, "call 7 down no-duck", &Vec::new()).unwrap(),
        CommandUpdate::SendDirectCall { target_user_id: 7, active: true, duck: false }
    ));
}

#[test]
fn commands_are_reported() {
    let config = config();
    let update = CommandUpdate::SendDirectCall { target_user_id: 7, active: true, duck: false };
    assert_eq!(
        command_report(&config, &update, "-"),
        "direct_call target=7 active=true duck=false"
    );
    assert_eq!(
        command_report(&config, &CommandUpdate::Show, "2=0.5"),
        "listen=1 tx=1,2 buttons=- active_buttons=- active_calls= last_caller=None codec=pcm16 \
         talk_mode=Ptt regular_talk=false priority=false vol=2=0.5"
    );
    match command_message(&config, CommandUpdate::SendConfig) {
        Some(ControlMessage::Config(message)) => {
            assert_eq!(message.name, None);
            assert_eq!(message.tx, vec![1, 2]);
        }
        other => panic!("unexpected message {other:?}"),
    }
}

#[test]
fn button_arguments_name_what_is_wrong() {
    assert_eq!(ButtonArg::parse("pa").unwrap().label, "pa");
    assert_eq!(ButtonArg::parse("pa= ").unwrap().label, "pa");
    assert_eq!(ButtonArg::parse("=x").unwrap_err(), "button id cannot be empty");
    assert_eq!(ButtonKeyArg::parse("pa").unwrap_err(), "button key must be ID=KEY");
    assert_eq!(ButtonKeyArg::parse("=x").unwrap_err(), "button id cannot be empty");
    assert_eq!(ButtonKeyArg::parse("pa=").unwrap_err(), "hotkey cannot be empty");
    assert_eq!(ButtonKeyArg::parse("pa=xy").unwrap_err(), "hotkey must be a single character");
    let keys = vec![ButtonKeyArg::parse("pa=p").unwrap(), ButtonKeyArg::parse("dir=p").unwrap()];
    assert!(matches!(
        hotkey_message(&keys, 'p', KeyStroke::Press, 3),
        Some(ControlMessage::Button { user_id: 3, button_id, pressed: true }) if button_id == "dir"
    ));
    assert!(hotkey_message(&keys, 'p', KeyStroke::Repeat, 3).is_none());
    assert!(hotkey_message(&keys, 'q', KeyStroke::Press, 3).is_none());
}

#[test]
fn introductions_are_accepted_or_refused() {
    let mut enrolled = config();
    let hello = ControlResponse::Hello {
        preconfigured: false,
        user_id: 12,
        client_uid: "given".to_string(),
        enrollment: EnrollmentStatus::Enrolled,
    };
    let message = greet(&mut enrolled, hello).unwrap().unwrap();
    assert_eq!(enrolled.user_id, 12);
    assert_eq!(enrolled.client_uid, "given");
    assert!(matches!(message, ControlMessage::Config(m) if m.user_id == 12));

    let mut known = config();
    let hello = ControlResponse::Hello {
        preconfigured: true,
        user_id: 13,
        client_uid: String::new(),
        enrollment: EnrollmentStatus::Enrolled,
    };
    assert!(greet(&mut known, hello).unwrap().is_none());
    assert_eq!(known.client_uid, "client");

    let mut pending = config();
    let hello = ControlResponse::Hello {
        preconfigured: true,
        user_id: 14,
        client_uid: "x".to_string(),
        enrollment: EnrollmentStatus::Pending,
    };
    assert!(matches!(
        accept_hello(&mut pending, hello),
        Err(HelloError::NotEnrolled(EnrollmentStatus::Pending))
    ));
    assert_eq!(pending.user_id, 1);
    let refused = ControlResponse::Error { message: "full".to_string() };
    assert!(matches!(
        accept_hello(&mut pending, refused),
        Err(HelloError::Refused(m)) if m == "full"
    ));
    assert!(matches!(acknowledgement(ControlResponse::Ack), Acknowledgement::Done));
}

#[test]
fn operators_drive_clients_by_commands_or_keys() {
    let mut args = desktop_args();
    assert_eq!(operator_input(&args), OperatorInput::Commands);
    args.button_keys = vec![ButtonKeyArg::parse("pa=p").unwrap()];
    assert_eq!(operator_input(&args), OperatorInput::Hotkeys);
    args.disable_command_loop = true;
    assert_eq!(operator_input(&args), OperatorInput::Nothing);
}

#[test]
fn ids_are_chosen_and_made() {
    assert_eq!(
        choose_client_uid(None, Some(" ".to_string()), "new".to_string()).unwrap_err(),
        IdentityError::EmptyStoredId
    );
    assert_eq!(
        choose_client_uid(Some(" "), None, "new".to_string()).unwrap().client_uid,
        "new"
    );
    let first = load_or_create_client_uid(None, None).unwrap().client_uid;
    let second = load_or_create_client_uid(None, None).unwrap().client_uid;
    assert_eq!(first.len(), 36);
    assert_eq!(&first[14..15], "4");
    assert_ne!(first, second);
    assert_eq!(
        default_client_identity_path(IdentityPlatform::Other, None, None, Some("/home/a")),
        vec!["/home/a", ".config", "intercom-suite", "client-identity.json"]
    );
    assert_eq!(
        default_client_identity_path(IdentityPlatform::Windows, None, None, Some("/home/a")),
        vec!["intercom-client-identity.json"]
    );
}

#[test]
fn locked_interfaces_refuse_everything() {
    let mut locked = api();
    locked.config.lockout.allow_local_api = false;
    assert!(locked.mute().is_err());
    assert!(locked.talk_down().is_err());
    assert!(locked.button_down("a").is_err());
    assert!(locked.apply_config(&full_request()).is_err());
    match locked.set_codec(Codec::Opus) {
        Err(error) => {
            assert_eq!(error.status(), 400);
            assert!(error.message().contains("local API controls"));
        }
        Ok(_) => panic!("a locked interface changed the codec"),
    }
}

#[test]
fn unchanged_routing_is_allowed_where_it_is_locked() {
    let mut locked = api();
    locked.config.lockout.allow_channels = false;
    assert!(locked.apply_config(&full_request()).is_ok());
    let mut changed = full_request();
    changed.tx = vec![1];
    assert!(matches!(
        locked.apply_config(&changed),
        Err(ApiError::BadRequest(m)) if m.contains("channels")
    ));
    locked.config.lockout.allow_codec = false;
    let mut changed = full_request();
    changed.codec = Codec::Opus;
    assert!(matches!(
        locked.apply_config(&changed),
        Err(ApiError::BadRequest(m)) if m.contains("codec")
    ));
}

#[test]
fn latching_buttons_toggle() {
    let mut api = api();
    api.config.buttons = vec![TalkButtonConfig {
        id: "pa".to_string(),
        label: "PA".to_string(),
        color: None,
        mode: TalkButtonMode::Latching,
        actions: Vec::new(),
    }];
    api.queue_button("pa", true).unwrap();
    assert_eq!(api.config.active_buttons, vec!["pa"]);
    api.queue_button("pa", false).unwrap();
    assert_eq!(api.config.active_buttons, vec!["pa"]);
    api.queue_button("pa", true).unwrap();
    assert!(api.config.active_buttons.is_empty());
}

#[test]
fn answers_tell_what_became_of_a_request() {
    assert!(matches!(
        queue_answer(QueueOutcome::Full),
        Err(ApiError::Unavailable(_))
    ));
    assert!(matches!(
        queue_answer(QueueOutcome::Closed),
        Err(ApiError::Unavailable(_))
    ));
    let error = forward_answer(ForwardOutcome::NotQueued, "x").unwrap_err();
    assert_eq!(error.message(), "control connection is not available");
    assert_eq!(error.status(), 503);
    let error = forward_answer(ForwardOutcome::Unanswered, "x").unwrap_err();
    assert_eq!(error.message(), "control response channel closed");
    let refused = ControlResponse::Error { message: "no".to_string() };
    let error = forward_answer(ForwardOutcome::Answered(refused), "x").unwrap_err();
    assert_eq!((error.status(), error.message()), (400, "no"));
}

#[test]
fn credentials_are_decoded() {
    // "operator:s3cret" in base64.
    assert!(authorization_matches(Some("Basic b3BlcmF0b3I6czNjcmV0"), "s3cret"));
    assert!(!authorization_matches(Some("Basic b3BlcmF0b3I6czNjcmV0"), "other"));
    assert!(!authorization_matches(Some("Basic operator:s3cret"), "s3cret"));
    assert!(!authorization_matches(Some("s3cret"), "s3cret"));
    assert!(basic_credentials_match(Some(b"a:b:c".to_vec()), "b:c"));
    assert!(!basic_credentials_match(Some(vec![0xff, b':', b'x']), "x"));
    assert!(!basic_credentials_match(None, "x"));
    let auth = LocalHttpAuth::token("t", "RedLine Client");
    assert!(auth.is_enabled());
    assert_eq!(
        auth.challenge(),
        "Basic realm=\"RedLine Client\", charset=\"UTF-8\""
    );
}

#[test]
fn device_names_match_in_any_case() {
    assert!(device_name_matches("ÄUSSERES MIKROFON", "äusseres"));
    let names = vec!["USB Audio".to_string(), "Built-in".to_string()];
    assert_eq!(select_device(&names, Some("BUILT")), DeviceChoice::Index(1));
    assert_eq!(select_device(&names, Some("none")), DeviceChoice::NoMatch);
    assert_eq!(select_device(&names, None), DeviceChoice::Default);
    assert_eq!(
        no_match_message("input", "none", false),
        "no input device matched `none`; run with --list-devices to inspect devices"
    );
    assert_eq!(
        no_match_message("output", "none", true),
        "no output device matched `none`; run --list-devices"
    );
}

#[test]
fn capture_falls_back_to_the_raw_backend() {
    assert!(matches!(
        plan_input(VoicePlatform::Macos, AudioInputBackend::Auto, false),
        InputPlan::TryVoiceProcessing
    ));
    match plan_input(VoicePlatform::Other, AudioInputBackend::Auto, false) {
        InputPlan::Raw(status) => {
            assert_eq!(status.active, Some(AudioInputBackend::Raw));
            assert_eq!(
                status.note.as_deref(),
                Some("auto uses the raw input backend on this platform")
            );
        }
        InputPlan::TryVoiceProcessing => panic!("voice processing is not there"),
    }
    let failed = voice_status(
        VoicePlatform::Ios,
        AudioInputBackend::VoiceProcessing,
        VoiceAttempt::Failed("busy".to_string()),
    );
    assert_eq!(failed.active, Some(AudioInputBackend::Raw));
    assert_eq!(
        failed.note.as_deref(),
        Some("iOS voice processing unavailable; using raw input: busy")
    );
}

#[test]
fn microphone_modes_are_named() {
    assert_eq!(mode_name(2), "voice_isolation");
    assert_eq!(mode_name(-1), "unsupported");
    assert_eq!(mode_name(-7), "unknown_-7");
    assert_eq!(mode_name(9), "unknown_9");
    assert!(microphone_mode_status(false, 0, 0).is_none());
    let status = microphone_mode_status(true, 2, 0);
    assert_eq!(status.as_ref().unwrap().preferred, "voice_isolation");
    assert_eq!(context_note(status).as_deref(), Some(VOICE_ISOLATION_NOTE));
    assert_eq!(context_note(microphone_mode_status(true, 0, 2)), None);
}

#[test]
fn phones_prepare_their_audio_session() {
    let phone = DefaultMobileAudioPlatform { ios: true, session: Err(String::new()) };
    assert_eq!(phone.kind(), ClientAudioBackendKind::IosAvAudioSession);
    assert_eq!(phone.prepare().unwrap_err(), "iOS audio session setup failed");
    let other = DefaultMobileAudioPlatform { ios: false, session: Err("x".to_string()) };
    assert_eq!(other.kind(), ClientAudioBackendKind::Raw);
    assert!(other.prepare().is_ok());
}

#[test]
fn cues_fade_in_and_out() {
    assert_eq!(cue_envelope(0, 0), (0, 1));
    assert_eq!(cue_envelope(3, 1000), (3, 100));
    assert_eq!(cue_envelope(500, 1000), (1, 1));
    assert_eq!(cue_envelope(990, 1000), (10, 100));
    assert_eq!(samples_for_ms(20), 960);
    assert_eq!(samples_for_ms(1), 960);
    assert_eq!(samples_for_ms(21), 1920);
    assert_eq!(samples_for_ms(0), 0);
}

#[test]
fn capture_picks_and_holds() {
    assert_eq!(InputChannelMode::Right.select(2), ChannelPick::Sample(1));
    assert_eq!(InputChannelMode::Right.select(1), ChannelPick::Sample(0));
    assert_eq!(InputChannelMode::Average.select(2), ChannelPick::Mean);
    assert_eq!(InputChannelMode::Left.select(0), ChannelPick::Silence);
    assert_eq!(zero_crossings(&[1, -1, 0, 5]), 2);
    assert_eq!(fill_frame(10, -5, 1), vec![2]);
    assert_eq!(fill_frame(10, -5, 4), vec![10, -5, 0, 0]);
    let mut silence = SilenceGate::new();
    assert!(silence.step(true, false));
    assert_eq!(silence.hold_samples, SILENCE_HOLD_SAMPLES);
    assert!(silence.step(false, true));
    let mut transient = TransientHold { samples: 0 };
    assert_eq!(transient.step(false), TransientStep::Recover);
    assert_eq!(transient.step(true), TransientStep::Duck);
    assert_eq!(transient.samples, TRANSIENT_HOLD_SAMPLES);
    assert_eq!(transient.step(false), TransientStep::Hold);
}

#[test]
fn every_supported_codec_is_offered() {
    assert_eq!(
        supported_codecs(),
        vec![Codec::Pcm16, Codec::Pcm24, Codec::Pcm48, Codec::Opus]
    );
}

#[test]
fn feeds_are_cut_into_frames_of_their_rate() {
    let mut cutter = InputCutter::new(100);
    assert!(cutter.push_interleaved(&[1, 9], 2).is_empty());
    assert_eq!(
        cutter.push_interleaved(&[2, 9, 3, 9, 4, 9, 5], 2),
        vec![vec![1, 2], vec![3, 4]]
    );
    assert_eq!(cutter.push_interleaved(&[6], 1), vec![vec![5, 6]]);
    let mut slow = InputCutter::new(49);
    assert_eq!(
        slow.push_interleaved(&[1, 2, 3], 2),
        vec![Vec::<i16>::new(), Vec::new(), Vec::new()]
    );
}

#[test]
fn single_speakers_get_the_mean() {
    let mut playback = PlaybackBuffer::new(4000, 0);
    playback.push_frame(&[10, 20, -3, -4], 2);
    let frame = mono_frame(&mut playback);
    assert_eq!(frame.len(), 960);
    assert_eq!(&frame[..3], &[15, -3, 0]);
    assert_eq!(playback.stats().underflows, 958);
}

#[test]
fn faults_are_told_in_words() {
    assert_eq!(
        AudioError::SampleCount { got: 10, expected: 960 }.message(),
        "unexpected sample count: got 10, expected 960"
    );
    assert_eq!(AudioError::AdpcmNotImplemented.message(), "ADPCM is not implemented");
    assert_eq!(
        interleaved_admits(16_000, 5, 2),
        Err(AudioError::InterleavedSampleCount { got: 5, expected: 640 })
    );
    assert_eq!(interleaved_admits(16_000, 640, 2), Ok(true));
    assert_eq!(interleaved_admits(48_000, 5, 2), Ok(false));
    assert_eq!(
        HelloError::NotEnrolled(EnrollmentStatus::Pending).message("client"),
        "client enrollment is Pending; waiting for admin approval"
    );
    assert_eq!(HelloError::Refused("full".to_string()).message("client"), "full");
}

#[test]
fn queued_changes_are_kept_and_told() {
    let mut api = api();
    assert!(matches!(
        api.queue_mute(),
        Ok(ControlMessage::TalkMode { user_id: 1, mode: TalkMode::Muted })
    ));
    assert_eq!(api.config.talk_mode, TalkMode::Muted);
    assert!(matches!(
        api.queue_unmute(),
        Ok(ControlMessage::TalkMode { mode: TalkMode::Ptt, .. })
    ));
    assert!(matches!(
        api.queue_talk_toggle(),
        Ok(ControlMessage::Talk { active: true, .. })
    ));
    assert!(api.config.regular_talk_active);
    assert!(matches!(
        api.queue_set_codec(Codec::Opus),
        Ok(ControlMessage::AudioCodec { codec: Codec::Opus, .. })
    ));
    assert_eq!(api.config.codec, Codec::Opus);
    assert!(matches!(
        api.queue_direct_call_toggle(9),
        Ok(ControlMessage::DirectCall { target_user_id: 9, active: true, duck: false, .. })
    ));
    assert_eq!(api.config.active_direct_calls.len(), 1);
    assert!(matches!(
        api.queue_direct_call_toggle(9),
        Ok(ControlMessage::DirectCall { active: false, .. })
    ));
    assert!(api.config.active_direct_calls.is_empty());
    assert_eq!(
        api.queue_reply_toggle().unwrap_err().message(),
        "no last direct caller to reply to"
    );
    api.config.last_direct_caller = Some(5);
    assert!(matches!(
        api.queue_reply_toggle(),
        Ok(ControlMessage::ReplyCall { active: true, duck: false, .. })
    ));
    assert_eq!(api.queue_button("x", true).unwrap_err().message(), "unknown button `x`");
}

#[test]
fn queued_alerts_are_told() {
    let mut api = api();
    let alert = |id: u64| AlertStatus { id, encoded: String::new() };
    api.config.active_alerts = vec![alert(1), alert(2)];
    assert!(matches!(
        api.queue_ack_alert(1),
        Ok(ControlMessage::AckAlert { user_id: 1, alert_id: 1 })
    ));
    assert!(matches!(
        api.queue_cancel_alert(2),
        Ok(ControlMessage::CancelAlert { user_id: 1, alert_id: 2 })
    ));
    assert!(api.config.active_alerts.is_empty());
    let request = AlertRequest { target: AlertTarget::User(4), message: Some("come".to_string()) };
    match api.queue_send_alert(request) {
        Ok(ControlMessage::SendAlert { user_id, target, message }) => {
            assert_eq!(user_id, 1);
            assert!(matches!(target, AlertTarget::User(4)));
            assert_eq!(message.as_deref(), Some("come"));
        }
        other => panic!("unexpected message {other:?}"),
    }
}

#[test]
fn servers_are_looked_up_by_their_host() {
    let found =
        || HostLookup::Found(SocketAddress { ip: "10.0.0.5".to_string(), port: 40000 });
    let studio = || "studio.local".to_string();
    let endpoint = ClientServerEndpoint::new(" studio.local ").unwrap();
    assert_eq!(endpoint.resolve_audio_addr(found()).unwrap().ip, "10.0.0.5");
    assert_eq!(
        endpoint.resolve_audio_addr(HostLookup::Empty).unwrap_err(),
        EndpointError::Unresolved(studio())
    );
    assert_eq!(
        resolve_server_audio_addr(" studio.local ", HostLookup::Failed).unwrap_err(),
        EndpointError::LookupFailed(studio())
    );
    assert_eq!(
        resolve_server_audio_addr("a b", HostLookup::Failed).unwrap_err(),
        EndpointError::HostWhitespace
    );
    let (mut endpoints, _) = ClientEndpointOverrides::normalized(
        "studio.local",
        SocketAddress { ip: "10.0.0.1".to_string(), port: 1 },
        "ws://other:1",
        None,
        true,
    );
    endpoints.sync_default_endpoints(found()).unwrap();
    assert_eq!(endpoints.server.port, 40000);
    assert_eq!(endpoints.control, "ws://studio.local:40001");
    assert_eq!(
        endpoints.sync_default_endpoints(HostLookup::Empty).unwrap_err(),
        EndpointError::Unresolved(studio())
    );
    assert_eq!(found().found().unwrap().ip, "10.0.0.5");
    assert!(HostLookup::Failed.found().is_none());

    let mut args = EndpointArgs {
        server_host: Some(studio()),
        server: SocketAddress { ip: "127.0.0.1".to_string(), port: 40000 },
        control: "ws://127.0.0.1:40001".to_string(),
    };
    assert_eq!(
        resolve_endpoint_args(&mut args, HostLookup::Failed).unwrap_err(),
        EndpointError::LookupFailed(studio())
    );
    assert_eq!(args.control, "ws://127.0.0.1:40001");
    resolve_endpoint_args(&mut args, found()).unwrap();
    assert_eq!(args.server.ip, "10.0.0.5");
    assert_eq!(args.control, "ws://studio.local:40001");
    let settings = AppSettings::default();
    assert_eq!(
        settings.desktop_args(false, HostLookup::Empty).unwrap_err(),
        "server host `127.0.0.1` did not resolve"
    );
    assert_eq!(
        settings.client_runtime_config(false, HostLookup::Failed).unwrap_err(),
        "resolve server host `127.0.0.1`"
    );
}

#[test]
fn the_tally_is_looked_up_in_time() {
    assert!(tally_due(None, 0, 100));
    assert!(!tally_due(Some(5), 104, 100));
    assert!(tally_due(Some(5), 105, 100));
    assert!(!tally_due(Some(50), 5, 1));
    assert!(tally_due(Some(50), 5, 0));
}

#[test]
fn unreadable_payloads_are_counted() {
    let mut store = TelemetryStore::default();
    let telemetry = ClientTelemetryCounters::new(&mut store);
    telemetry.record_payload_decode_error(&mut store);
    assert_eq!(telemetry.snapshot(&store).payload_decode_errors, 1);
    assert_eq!(telemetry.snapshot(&store).decode_errors, 0);
}

#[test]
fn every_fault_of_sending_and_receiving_is_counted() {
    let mut store = TelemetryStore::default();
    let telemetry = ClientTelemetryCounters::new(&mut store);
    for persistent in [true, false] {
        let mut transmitter = Transmitter::new(Codec::Pcm48, OpusProfile::default(), persistent);
        let (goes_on, fails) = if persistent {
            (TransmitAction::NextFrame, TransmitAction::Pause(250))
        } else {
            (TransmitAction::Stop, TransmitAction::Stop)
        };
        assert_eq!(transmitter.encode_failed(&telemetry, &mut store), goes_on);
        assert_eq!(transmitter.packet_unwritable(&telemetry, &mut store), goes_on);
        assert_eq!(transmitter.send_failed(&telemetry, &mut store), (fails, true));
    }
    assert_eq!(telemetry.packet_encode_errors(&store), 2);

    let config = config();
    let plan = packet_received(&telemetry, &mut store, &config, Some(Codec::Pcm16)).unwrap();
    assert_eq!(plan.channels, 1);
    assert!(packet_received(&telemetry, &mut store, &config, None).is_none());
    assert!(payload_decoded(&telemetry, &mut store, true));
    assert!(!payload_decoded(&telemetry, &mut store, false));
    let mut endpoint = EndpointRuntimeTelemetry::default();
    let codec = Some(Codec::Pcm48);
    assert!(ndi_packet_received(&telemetry, &mut store, &mut endpoint, &config, codec).is_some());
    assert!(ndi_packet_received(&telemetry, &mut store, &mut endpoint, &config, None).is_none());
    assert!(ndi_payload_decoded(&telemetry, &mut store, &mut endpoint, Some((7, 8))));
    assert!(!ndi_payload_decoded(&telemetry, &mut store, &mut endpoint, None));
    assert_eq!((endpoint.drops, endpoint.frames, endpoint.audio_level_ppm), (2, 1, 7));

    let seen = telemetry.snapshot(&store);
    assert_eq!((seen.codec_drops, seen.tx_send_failures), (2, 2));
    assert_eq!((seen.udp_rx_packets, seen.malformed_packets), (2, 2));
    assert_eq!((seen.decode_errors, seen.payload_decode_errors), (2, 0));
    assert_eq!((seen.tx_packets, seen.tx_queue_drops), (0, 0));
}

#[test]
fn pcm_is_decoded_or_refused() {
    let decoder = AudioDecoder::default();
    let none = Vec::new();
    assert_eq!(
        decoder.decode_pcm(Codec::Adpcm, &[], 1, &none),
        Err(AudioError::AdpcmNotImplemented)
    );
    assert_eq!(
        decoder.decode_pcm(Codec::Pcm24, &[0; 1920], 2, &none),
        Err(AudioError::StereoNotSupported)
    );
    assert_eq!(
        decoder.decode_pcm(Codec::Pcm16, &[0; 3], 1, &none),
        Err(AudioError::PayloadLength { got: 3, expected: 640 })
    );
    let mut payload = vec![0u8; 3840];
    payload[0] = 1;
    payload[1] = 2;
    payload[3838] = 0xff;
    payload[3839] = 0xff;
    let stereo = decoder.decode_pcm(Codec::Pcm48, &payload, 2, &none).unwrap();
    assert_eq!((stereo.len(), stereo[0], stereo[1919]), (1920, 513, -1));
    let mono = decoder.decode_pcm(Codec::Pcm48, &payload[..1920], 0, &vec![9; 960]).unwrap();
    assert_eq!((mono.len(), mono[0], mono[1]), (960, 513, 0));
    let up = decoder.decode_pcm(Codec::Pcm16, &payload[..640], 1, &vec![4, 5]).unwrap();
    assert_eq!((up.len(), up[0], up[1], up[2], up[959]), (960, 4, 5, 5, 5));
}

#[test]
fn help_lists_the_commands() {
    assert!(asks_for_help(" help me"));
    assert!(!asks_for_help("helpme"));
    assert!(!asks_for_help(" "));
    assert!(COMMAND_LIST.starts_with("commands: tx <channels>, "));
    assert!(COMMAND_LIST.ends_with(", buttons, calls, show"));
}

struct PlainBackend;

impl ClientAudioBackend for PlainBackend {
    fn kind(&self) -> ClientAudioBackendKind {
        ClientAudioBackendKind::Raw
    }
}

#[test]
fn backends_are_ready_unless_they_say_otherwise() {
    assert_eq!(PlainBackend.prepare(), Ok(()));
    assert_eq!(DesktopCpalAudioBackend::default().prepare(), Ok(()));
    assert_eq!(
        MacosVoiceProcessingAudioBackend::default().kind(),
        ClientAudioBackendKind::VoiceProcessing
    );
}

#[test]
fn values_that_nobody_sets_have_their_usual_form() {
    assert!(!LocalHttpAuth::default().is_enabled());
    assert!(LocalHttpAuth::default().authorizes(None));
    let same_rate = FrameResampler::default();
    assert_eq!((same_rate.from_rate, same_rate.to_rate), (48_000, 48_000));
    assert_eq!(RouteInputKind::default(), RouteInputKind::AudioDevice);
    assert_eq!(RouteOutputKind::default(), RouteOutputKind::AudioDevice);
    assert_eq!(ButtonMode::default(), ButtonMode::Momentary);
    let lamps = TallyOutputState::default();
    assert_eq!((lamps.preview, lamps.live), (None, None));
    assert_eq!(EndpointTelemetrySnapshot::default().frames, 0);
    assert!(!BrowserSourceTelemetrySnapshot::default().stale);
    assert_eq!(AppSettings::default(), AppSettings::default());
    let other = AppSettings { jitter_ms: 1, ..AppSettings::default() };
    assert_ne!(other, AppSettings::default());
}
