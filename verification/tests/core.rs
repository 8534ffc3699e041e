use redline::audio::{pcm16_le_bytes_to_samples, AudioDecoder, AudioEncoder};
use redline::bind::{PortSearch, PortStep};
use redline::buttons::{
    default_button_capabilities, merge_button_capabilities, DEFAULT_CLIENT_BUTTON_COUNT,
    MAX_CLIENT_BUTTON_COUNT,
};
use redline::config::{apply_control_event, ClientConfig};
use redline::control::{ControlLink, LinkAction, LinkEvent};
use redline::endpoint::{
    normalize_endpoint_overrides, validate_server_host, ClientEndpointOverrides,
    ClientServerEndpoint,
};
use redline::gain::{AudioSettings, Gain, Volumes};
use redline::identity::load_or_create_client_uid;
use redline::net::SocketAddress;
use redline::playback::{
    cue_segments, enqueue_connection_cue, samples_for_ms, ClientConnectionEvent, PlaybackBuffer,
    PlaybackStats, RECONNECTING_CUE_REPEAT_MS,
};
use redline::protocol::{
    codec_pcm16_payload_bytes, codec_sample_rate, AudioTarget, ButtonCapability, ChannelPresenceMember, ChannelPresenceRoster,
    ClientLockoutPolicy, ClientRole, Codec, ControlEvent, Esp32AudioConfig, IfbConfig,
    OpusProfile, ProcessingConfig, ProcessingMode, ProcessingProfile, StereoConfig, TalkButtonAction,
    TalkButtonConfig, TalkButtonMode, TalkMode, MIX_SAMPLES_PER_FRAME, SAMPLES_PER_FRAME,
};
use redline::telemetry::{basic_client_telemetry, ClientTelemetryCounters, TelemetryStore};
use redline::ui::{ClientRuntimePhase, ClientRuntimeStatus};

fn gain(value: f32) -> Gain {
    Gain { bits: value.to_bits() }
}

fn addr(text: &str) -> SocketAddress {
    let (ip, port) = text.rsplit_once(':').unwrap();
    SocketAddress { ip: ip.to_string(), port: port.parse().unwrap() }
}

fn client_config() -> ClientConfig {
    ClientConfig {
        user_id: 1,
        client_uid: "test-client".to_string(),
        role: ClientRole::Client,
        name: String::new(),
        listen: vec![1],
        tx: vec![1, 2],
        codec: Codec::Pcm16,
        opus_profile: OpusProfile::default(),
        talk_mode: TalkMode::Ptt,
        last_non_muted_talk_mode: TalkMode::Ptt,
        regular_talk_active: true,
        priority: false,
        priority_channels: Vec::new(),
        processing: ProcessingConfig {
            mode: ProcessingMode::Auto,
            profile: ProcessingProfile::Voice,
            vad: true,
            transient_suppression: true,
            native_voice_processing: true,
        },
        channel_rosters: Vec::new(),
        emergency: None,
        vol: Volumes::new(),
        talker_vol: Volumes::new(),
        buttons: Vec::new(),
        active_buttons: Vec::new(),
        active_direct_calls: Vec::new(),
        last_direct_caller: None,
        direct_call_history: Vec::new(),
        active_alerts: Vec::new(),
        recent_alerts: Vec::new(),
        advertised_buttons: Vec::new(),
        capabilities: None,
        ifb: IfbConfig {
            enabled: false,
            program: Vec::new(),
            interrupt: Vec::new(),
            duck_gain: gain(0.25),
        },
        lockout: ClientLockoutPolicy::default(),
        stereo: StereoConfig { enabled: false, channel_pan: Volumes::new() },
        esp32_audio: Esp32AudioConfig { encoded: String::new() },
        tally: None,
    }
}

/// The samples of a cue, as loud as they get at any time.
fn cue_samples(event: ClientConnectionEvent) -> Vec<i16> {
    let mut out = Vec::new();
    for (_, ms) in cue_segments(event) {
        for _ in 0..samples_for_ms(ms) {
            out.push(1000);
        }
    }
    out
}

#[test]
fn default_button_capabilities_are_numeric_and_bounded() {
    let buttons = default_button_capabilities(DEFAULT_CLIENT_BUTTON_COUNT);
    assert_eq!(buttons.len(), 6);
    assert_eq!(buttons[0].id, "1");
    assert_eq!(buttons[5].label, "Button 6");

    let capped = default_button_capabilities(MAX_CLIENT_BUTTON_COUNT + 5);
    assert_eq!(capped.len(), usize::from(MAX_CLIENT_BUTTON_COUNT));
    assert_eq!(capped.last().unwrap().id, MAX_CLIENT_BUTTON_COUNT.to_string());
}

#[test]
fn server_endpoint_derives_default_addresses() {
    let endpoint = ClientServerEndpoint::new("192.168.12.84").unwrap();
    assert_eq!(endpoint.audio_addr_string(), "192.168.12.84:40000");
    assert_eq!(endpoint.control_url(), "ws://192.168.12.84:40001");
    assert_eq!(endpoint.admin_url(), "http://192.168.12.84:40002");
}

#[test]
fn server_endpoint_formats_ipv6_for_urls_and_sockets() {
    let endpoint = ClientServerEndpoint::new("::1").unwrap();
    assert_eq!(endpoint.host, "::1");
    assert_eq!(endpoint.audio_addr_string(), "[::1]:40000");
    assert_eq!(endpoint.control_url(), "ws://[::1]:40001");

    let bracketed = ClientServerEndpoint::new("[::1]").unwrap();
    assert_eq!(bracketed.host, "::1");
}

#[test]
fn server_host_validation_rejects_non_host_inputs() {
    for host in [
        "",
        "http://127.0.0.1",
        "127.0.0.1:40000",
        "server.local/path",
        "server local",
        "[::1]:40000",
    ] {
        assert!(validate_server_host(host).is_err(), "{host} should fail");
    }
    assert_eq!(validate_server_host("server.local").unwrap(), "server.local");
    assert_eq!(validate_server_host("localhost").unwrap(), "localhost");
}

#[test]
fn endpoint_overrides_migrate_legacy_default_ports_to_host() {
    let (mut endpoints, lookup) = ClientEndpointOverrides::normalized(
        "",
        addr("192.168.1.20:40000"),
        "ws://192.168.1.20:40001",
        Some("http://192.168.1.20:40002".to_string()),
        false,
    );
    assert_eq!(endpoints.server_host, "192.168.1.20");
    assert!(!endpoints.advanced_endpoints);
    assert_eq!(endpoints.control, "ws://192.168.1.20:40001");
    assert_eq!(endpoints.admin, None);
    assert_eq!(lookup.unwrap().host, "192.168.1.20");

    endpoints.server = addr("192.168.1.20:41000");
    endpoints.control = "ws://192.168.1.20:41001".to_string();
    endpoints.advanced_endpoints = false;
    assert!(normalize_endpoint_overrides(&mut endpoints).is_none());
    assert!(endpoints.advanced_endpoints);
}

#[test]
fn telemetry_builder_maps_playback_and_transport_counters() {
    let mut store = TelemetryStore::default();
    let counters = ClientTelemetryCounters::new(&mut store);
    counters.record_udp_rx_packet(&mut store);
    counters.record_malformed_packet(&mut store);
    counters.record_decode_error(&mut store);
    counters.record_tx_packet(&mut store);
    counters.record_tx_send_failure(&mut store);
    counters.record_tx_queue_drop(&mut store);

    let playback = PlaybackStats {
        available_samples: 120,
        capacity_samples: 960,
        prebuffer_samples: 240,
        channels: 2,
        started: true,
        underflows: 3,
        overflows: 4,
        dropped_samples: 5,
    };
    let health = basic_client_telemetry("pi", playback, counters.snapshot(&store));

    assert_eq!(health.runtime.unwrap().client_kind, "pi");
    let playback = health.playback.unwrap();
    assert_eq!(playback.available_samples, 120);
    assert_eq!(playback.capacity_samples, 960);
    assert_eq!(playback.underflows, 3);
    assert_eq!(health.playback_queue_depth, 120);
    assert_eq!(health.playback_underflows, 3);
    let transport = health.client_transport.unwrap();
    assert_eq!(transport.udp_rx_packets, 1);
    assert_eq!(transport.malformed_packets, 1);
    assert_eq!(transport.decode_errors, 1);
    assert_eq!(transport.tx_packets, 1);
    assert_eq!(transport.tx_send_failures, 1);
    assert_eq!(transport.tx_queue_drops, 1);
}

#[test]
fn merge_button_capabilities_overrides_default_labels() {
    let buttons = merge_button_capabilities(
        default_button_capabilities(12),
        vec![ButtonCapability { id: "2".to_string(), label: "Director".to_string() }],
    );
    assert_eq!(buttons[1].id, "2");
    assert_eq!(buttons[1].label, "Director");
    assert_eq!(buttons[9].id, "10");
}

#[test]
fn lib_active_buttons_union_with_default_ptt_route() {
    let mut config = client_config();
    config.buttons = vec![TalkButtonConfig {
        id: "director".to_string(),
        label: "Director".to_string(),
        color: None,
        mode: TalkButtonMode::Momentary,
        actions: vec![TalkButtonAction::Transmit {
            channels: vec![2, 3],
            users: vec![4],
            duck: false,
        }],
    }];
    config.active_buttons = vec!["director".to_string()];

    assert_eq!(config.active_tx_channels(), vec![1, 2, 3]);
    assert_eq!(
        config.active_tx_targets(),
        vec![
            AudioTarget::Channel(1),
            AudioTarget::Channel(2),
            AudioTarget::Channel(3),
            AudioTarget::Direct(4)
        ]
    );
    config.talk_mode = TalkMode::Muted;
    config.regular_talk_active = false;
    assert_eq!(config.active_tx_channels(), vec![2, 3]);
    config.talk_mode = TalkMode::Open;
    assert_eq!(config.active_tx_channels(), vec![1, 2, 3]);

    // Two buttons, one of them latching.
    let mut config = client_config();
    config.buttons = vec![
        TalkButtonConfig {
            id: "director".to_string(),
            label: "Director".to_string(),
            color: None,
            mode: TalkButtonMode::Momentary,
            actions: vec![TalkButtonAction::Transmit {
                channels: vec![2, 3],
                users: Vec::new(),
                duck: false,
            }],
        },
        TalkButtonConfig {
            id: "pa".to_string(),
            label: "PA".to_string(),
            color: None,
            mode: TalkButtonMode::Latching,
            actions: vec![TalkButtonAction::Transmit {
                channels: vec![9],
                users: Vec::new(),
                duck: false,
            }],
        },
    ];
    config.active_buttons = vec!["director".to_string(), "pa".to_string()];
    assert_eq!(config.active_tx_channels(), vec![1, 2, 3, 9]);
    config.talk_mode = TalkMode::Muted;
    config.regular_talk_active = false;
    assert_eq!(config.active_tx_channels(), vec![2, 3, 9]);
}

#[test]
fn presence_update_replaces_channel_rosters() {
    let mut config = client_config();
    config.tx = Vec::new();
    config.regular_talk_active = false;

    apply_control_event(
        &mut config,
        ControlEvent::PresenceUpdate {
            user_id: 1,
            client_uid: "test-client".to_string(),
            channels: vec![ChannelPresenceRoster {
                channel_id: 7,
                name: Some("Production PL".to_string()),
                members: vec![ChannelPresenceMember {
                    user_id: 2,
                    name: "Director".to_string(),
                    present: true,
                    transmitting: true,
                }],
            }],
        },
    );

    assert_eq!(config.channel_rosters[0].channel_id, 7);
    assert_eq!(config.channel_rosters[0].name.as_deref(), Some("Production PL"));
    assert!(config.channel_rosters[0].members[0].transmitting);
}

#[test]
fn lib_playback_buffer_waits_for_prebuffer() {
    let mut playback = PlaybackBuffer::new(SAMPLES_PER_FRAME * 4, SAMPLES_PER_FRAME * 2);

    playback.push(&vec![1; SAMPLES_PER_FRAME]);
    assert_eq!(playback.pop(), None);
    playback.push(&vec![2; SAMPLES_PER_FRAME]);
    assert_eq!(playback.pop(), Some(1));
}

#[test]
fn playback_buffer_tracks_underflow_and_overflow() {
    let mut playback = PlaybackBuffer::new(4, 0);

    assert_eq!(playback.pop(), None);
    playback.push(&[1, 2, 3, 4, 5, 6]);

    let stats = playback.stats();
    assert_eq!(stats.underflows, 1);
    assert_eq!(stats.overflows, 1);
    assert_eq!(stats.dropped_samples, 2);
    assert_eq!(stats.available_samples, 4);
}

#[test]
fn playback_buffer_tracks_stereo_layout_and_clears_on_change() {
    let mut playback = PlaybackBuffer::new(MIX_SAMPLES_PER_FRAME * 4, 0);

    playback.push_frame(&[1, 2, 3, 4], 2);
    assert_eq!(playback.channels(), 2);
    assert_eq!(playback.pop_stereo(), Some((1, 2)));
    assert_eq!(playback.pop_stereo(), Some((3, 4)));

    playback.push_frame(&[9, 10], 2);
    playback.push_frame(&[11], 1);
    assert_eq!(playback.channels(), 1);
    assert_eq!(playback.available_samples(), 1);
    assert_eq!(playback.pop_stereo(), Some((11, 11)));
}

#[test]
fn connection_cues_enqueue_without_changing_existing_layout() {
    let mut playback = PlaybackBuffer::new(samples_for_ms(2500) * 2, 0);
    playback.set_channels(2);
    enqueue_connection_cue(&mut playback, &cue_samples(ClientConnectionEvent::Connected));

    assert_eq!(playback.channels(), 2);
    assert!(playback.available_samples() > samples_for_ms(150) * 2);
    assert!(playback.pop_stereo().is_some());

    let before = playback.available_samples();
    enqueue_connection_cue(&mut playback, &cue_samples(ClientConnectionEvent::Reconnecting));
    assert_eq!(playback.channels(), 2);
    assert!(playback.available_samples() > before + samples_for_ms(120) * 2);
    assert_eq!(RECONNECTING_CUE_REPEAT_MS, 4000);
}

#[test]
fn reconnecting_cue_remains_audible_in_small_playback_buffer() {
    let mut playback = PlaybackBuffer::new(samples_for_ms(120), 0);
    enqueue_connection_cue(&mut playback, &cue_samples(ClientConnectionEvent::Reconnecting));

    let mut non_zero_samples = 0;
    while let Some(sample) = playback.pop() {
        if sample != 0 {
            non_zero_samples += 1;
        }
    }

    assert!(non_zero_samples > 0);
}

#[test]
fn initial_control_connect_failure_emits_reconnecting_event() {
    let mut link = ControlLink::new();
    let actions = link.step(LinkEvent::OpenFailed);
    assert!(actions.contains(&LinkAction::Notify(ClientConnectionEvent::Reconnecting)));
}

#[test]
fn lib_runtime_gain_is_clamped() {
    let settings = AudioSettings::new(gain(f32::NAN), gain(99.0));

    assert_eq!(settings.mic_gain(), gain(1.0));
    assert_eq!(settings.speaker_gain(), gain(8.0));
}

#[test]
fn client_identity_file_is_created_and_reused() {
    let first = load_or_create_client_uid(None, None).unwrap();
    assert!(first.fresh);
    let second = load_or_create_client_uid(None, Some(first.client_uid.clone())).unwrap();

    assert!(!first.client_uid.is_empty());
    assert_eq!(first.client_uid, second.client_uid);
    assert!(!second.fresh);
    assert_eq!(
        load_or_create_client_uid(Some("override-uid"), Some(first.client_uid))
            .unwrap()
            .client_uid,
        "override-uid"
    );
}

#[test]
fn tcp_bind_fallback_uses_next_available_port() {
    let mut search = PortSearch::new(41002);
    assert_eq!(search.failed(true), PortStep::Retry);
    assert_ne!(search.port, 41002);
    assert!(search.port > 41002);
}

#[test]
fn runtime_status_constructors_set_phase_and_running_flag() {
    assert_eq!(ClientRuntimeStatus::stopped().phase, ClientRuntimePhase::Stopped);
    assert!(!ClientRuntimeStatus::starting().running);
    assert!(ClientRuntimeStatus::running().running);

    let failed = ClientRuntimeStatus::failed("boom");
    assert_eq!(failed.phase, ClientRuntimePhase::Failed);
    assert_eq!(failed.last_error.as_deref(), Some("boom"));
}

/// Takes the nearest sample for each that comes out.
fn resampled(samples: &[i16], from_rate: u32, to_rate: u32) -> Vec<i16> {
    let len = samples.len() * to_rate as usize / from_rate as usize;
    (0..len)
        .map(|index| samples[index * from_rate as usize / to_rate as usize])
        .collect()
}

#[test]
fn codec_paths_round_trip_to_mixer_domain() {
    let mixer_frame = (0..MIX_SAMPLES_PER_FRAME)
        .map(|index| ((index as f32 * 0.05).sin() * 10_000.0) as i16)
        .collect::<Vec<_>>();

    for codec in [Codec::Pcm16, Codec::Pcm24, Codec::Pcm48] {
        let rate = codec_sample_rate(codec);
        let encoder = AudioEncoder::new(codec, OpusProfile::default());
        let down = resampled(&mixer_frame, 48_000, rate);
        let payload = encoder.encode_pcm(&mixer_frame, &down).unwrap();
        assert_eq!(payload.len(), codec_pcm16_payload_bytes(codec));
        assert_eq!(pcm16_le_bytes_to_samples(&payload).unwrap(), down);

        let decoder = AudioDecoder::default();
        let up = resampled(&down, rate, 48_000);
        let decoded = decoder.decode_pcm(codec, &payload, 1, &up).unwrap();
        assert_eq!(decoded.len(), MIX_SAMPLES_PER_FRAME);
        assert_eq!(decoded, up);
    }
}
