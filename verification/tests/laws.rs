use redline::audio::{
    deinterleave, interleave, pcm16_le_bytes_to_samples, pcm16_samples_to_le_bytes, AudioDecoder,
    DecodePath,
};
use redline::auth::LocalHttpAuth;
use redline::bind::{PortSearch, PortStep, LOCAL_BIND_PORT_FALLBACK_ATTEMPTS};
use redline::bridge::EndpointRuntimeTelemetry;
use redline::bridge_app::{
    default_channel_options, merge_channel_options, sorted_names, BrowserConnections,
    BrowserSourceTelemetry, ChannelOption,
};
use redline::buttons::{default_button_capabilities, normalize_button_capabilities};
use redline::capture::{CaptureProcessingSettings, CaptureSpeechGate};
use redline::commands::{apply_runtime_command, CommandUpdate};
use redline::config::{apply_control_event, ClientConfig};
use redline::control::{
    next_reconnect_delay, ControlLink, LinkAction, LinkEvent, LinkPhase,
    CONTROL_RECONNECT_INITIAL_MS, CONTROL_RECONNECT_MAX_MS,
};
use redline::endpoint::{
    derive_admin_url_from_control, host_for_url, normalize_endpoint_overrides,
    parse_url_host_port, validate_server_host, ClientEndpointOverrides, ClientServerEndpoint,
};
use redline::gain::{clamp_runtime_gain, Gain, Volumes};
use redline::gpio::{
    ButtonRuntime, GpioOutput, GpioOutputs, TallyLamps, TallyOutputState,
};
use redline::local_api::{set_active_button, set_active_direct_call};
use redline::ndi::{dedupe, planarize};
use redline::net::SocketAddress;
use redline::playback::{ClientConnectionEvent, PlaybackBuffer};
use redline::profiles::{
    merge_mobile_profiles, remember_profile, sort_profiles, MobileServerProfile, ProfileAddresses,
    MAX_SERVER_PROFILES,
};
use redline::protocol::{
    AudioTarget, ButtonCapability, ClientLockoutPolicy, ClientRole, Codec, ConfigUpdate,
    ControlEvent, Esp32AudioConfig, IfbConfig, OpusProfile, ProcessingConfig, ProcessingMode,
    ProcessingProfile, StereoConfig, TalkMode,
};
use redline::pump::{TransmitAction, Transmitter};
use redline::routes::{BridgeAppConfig, BridgeRouteConfig};
use redline::routing::{format_channels, parse_channels};
use redline::session::{PacketSender, TransmitSnapshot};
use redline::telemetry::{
    ClientTelemetryCounters, ClientTelemetryTransportStatus, TelemetryStore,
};
use redline::text::{parse_u64, trimmed, u64_text};
use redline::web::{encode_path_segment, html_escape};

fn gain(value: f32) -> Gain {
    Gain { bits: value.to_bits() }
}

fn processing() -> ProcessingConfig {
    ProcessingConfig {
        mode: ProcessingMode::Enabled,
        profile: ProcessingProfile::Broadcast,
        vad: false,
        transient_suppression: true,
        native_voice_processing: false,
    }
}

fn ifb() -> IfbConfig {
    IfbConfig {
        enabled: false,
        program: Vec::new(),
        interrupt: Vec::new(),
        duck_gain: gain(0.25),
    }
}

fn config() -> ClientConfig {
    ClientConfig {
        user_id: 1,
        client_uid: "client".to_string(),
        role: ClientRole::Client,
        name: "Desk".to_string(),
        listen: vec![1],
        tx: vec![1, 2],
        codec: Codec::Pcm16,
        opus_profile: OpusProfile::default(),
        talk_mode: TalkMode::Open,
        last_non_muted_talk_mode: TalkMode::Open,
        regular_talk_active: false,
        priority: false,
        priority_channels: Vec::new(),
        processing: processing(),
        channel_rosters: Vec::new(),
        emergency: None,
        vol: Volumes::new(),
        talker_vol: Volumes::new(),
        buttons: Vec::new(),
        active_buttons: Vec::new(),
        active_direct_calls: Vec::new(),
        last_direct_caller: None,
        direct_call_history: Vec::new(),
        active_alerts: Vec::new(),
        recent_alerts: Vec::new(),
        advertised_buttons: Vec::new(),
        capabilities: None,
        ifb: ifb(),
        lockout: ClientLockoutPolicy::default(),
        stereo: StereoConfig { enabled: false, channel_pan: Volumes::new() },
        esp32_audio: Esp32AudioConfig { encoded: String::new() },
        tally: None,
    }
}

fn update(user_id: u16, client_uid: &str, codec: Codec) -> ConfigUpdate {
    ConfigUpdate {
        user_id,
        client_uid: client_uid.to_string(),
        name: "Changed".to_string(),
        listen: vec![9],
        tx: vec![9],
        vol: Volumes::new(),
        talker_vol: Volumes::new(),
        codec,
        opus_profile: OpusProfile::default(),
        talk_mode: TalkMode::Ptt,
        regular_talk_active: false,
        priority: false,
        priority_channels: Vec::new(),
        processing: processing(),
        buttons: Vec::new(),
        active_buttons: Vec::new(),
        active_direct_calls: Vec::new(),
        last_direct_caller: None,
        direct_call_history: Vec::new(),
        active_alerts: Vec::new(),
        recent_alerts: Vec::new(),
        emergency: None,
        ifb: ifb(),
        lockout: ClientLockoutPolicy::default(),
        stereo: StereoConfig { enabled: false, channel_pan: Volumes::new() },
        esp32_audio: Esp32AudioConfig { encoded: String::new() },
    }
}

#[test]
fn trimming_twice_is_trimming_once() {
    let once = trimmed(" \t studio a\u{a0}\n");
    assert_eq!(once, "studio a");
    assert_eq!(trimmed(&once), once);
}

#[test]
fn numbers_are_read_back() {
    for n in [0u64, 7, 10, 65_535, u64::MAX] {
        assert_eq!(u64_text(n), n.to_string());
        assert_eq!(parse_u64(&u64_text(n), u64::MAX), Some(n));
    }
    assert_eq!(parse_u64("256", 255), None);
    assert_eq!(parse_u64("+12", 255), Some(12));
    assert_eq!(parse_u64("", 255), None);
    assert_eq!(parse_u64("18446744073709551616", u64::MAX), None);
}

#[test]
fn runtime_gains_stay_in_range() {
    assert_eq!(clamp_runtime_gain(gain(-3.0)), gain(0.0));
    assert_eq!(clamp_runtime_gain(gain(8.5)), gain(8.0));
    assert_eq!(clamp_runtime_gain(gain(f32::INFINITY)), gain(1.0));
    assert_eq!(clamp_runtime_gain(gain(f32::NAN)), gain(1.0));
    assert_eq!(clamp_runtime_gain(gain(0.3)), gain(0.3));
}

#[test]
fn events_for_others_change_nothing() {
    let mut config = config();
    apply_control_event(
        &mut config,
        ControlEvent::ConfigUpdate(update(2, "other", Codec::Pcm48)),
    );
    assert_eq!(config.name, "Desk");
    assert_eq!(config.tx, vec![1, 2]);
    assert_eq!(config.codec, Codec::Pcm16);
}

#[test]
fn updates_keep_the_codec_supported() {
    let mut config = config();
    apply_control_event(
        &mut config,
        ControlEvent::ConfigUpdate(update(1, "client", Codec::Adpcm)),
    );
    assert_eq!(config.name, "Changed");
    assert_eq!(config.codec, Codec::Pcm16);
    assert_eq!(config.client_uid, "client");
}

#[test]
fn muting_silences_and_unmuting_restores() {
    let mut config = config();
    assert_eq!(config.active_tx_channels(), vec![1, 2]);
    config.set_talk_mode(TalkMode::Muted);
    assert!(config.active_tx_channels().is_empty());
    assert!(config.active_tx_targets().is_empty());
    assert_eq!(config.restored_unmute_talk_mode(), TalkMode::Open);
    config.set_talk_mode(TalkMode::Open);
    assert_eq!(config.active_tx_channels(), vec![1, 2]);
}

#[test]
fn channel_lists_are_read_back() {
    for channels in [vec![1u16], vec![0, 65_535], vec![3, 1, 2]] {
        assert_eq!(parse_channels(&format_channels(&channels)).unwrap(), channels);
    }
    assert_eq!(format_channels(&Vec::new()), "-");
    assert_eq!(parse_channels("1,x").unwrap_err(), "x");
}

#[test]
fn buttons_come_in_order_once() {
    let given = ["10", "2", "b", "2 ", "a", " "];
    let buttons: Vec<ButtonCapability> = given
        .iter()
        .map(|id| ButtonCapability { id: id.to_string(), label: format!("Label {id}") })
        .collect();
    let normal = normalize_button_capabilities(buttons);
    let ids: Vec<&str> = normal.iter().map(|b| b.id.as_str()).collect();
    assert_eq!(ids, vec!["2", "10", "a", "b"]);
    assert_eq!(normal[0].label, "Label 2");
    let again = normalize_button_capabilities(normal.clone());
    let ids_again: Vec<&str> = again.iter().map(|b| b.id.as_str()).collect();
    assert_eq!(ids_again, ids);
    assert_eq!(default_button_capabilities(0).len(), 0);
}

#[test]
fn playback_accounts_for_every_sample() {
    let mut playback = PlaybackBuffer::new(4, 2);
    playback.push(&[1]);
    assert_eq!(playback.pop(), None);
    playback.push(&[2, 3, 4, 5, 6]);
    let stats = playback.stats();
    assert_eq!(stats.available_samples, 4);
    assert_eq!(stats.dropped_samples, 2);
    assert!(stats.available_samples <= stats.capacity_samples);
    let mut out = Vec::new();
    while let Some(sample) = playback.pop() {
        out.push(sample);
    }
    assert_eq!(out, vec![3, 4, 5, 6]);
    playback.push(&[7]);
    assert_eq!(playback.pop(), None);
    playback.push(&[8]);
    assert_eq!(playback.pop(), Some(7));
}

#[test]
fn samples_are_read_back_from_bytes() {
    let samples = [0i16, 1, -1, 256, i16::MAX, i16::MIN];
    let bytes = pcm16_samples_to_le_bytes(&samples);
    assert_eq!(&bytes[..6], &[0, 0, 1, 0, 255, 255]);
    assert_eq!(pcm16_le_bytes_to_samples(&bytes).unwrap(), samples.to_vec());
}

#[test]
fn interleaving_keeps_the_channels() {
    let left = vec![1i16, 2, 3];
    let right = vec![9i16, 8, 7];
    let mixed = interleave(&vec![left.clone(), right.clone()], 3);
    assert_eq!(mixed, vec![1, 9, 2, 8, 3, 7]);
    assert_eq!(deinterleave(&mixed, 2, 0), left);
    assert_eq!(deinterleave(&mixed, 2, 1), right);
}

#[test]
fn encoded_pcm_can_be_decoded() {
    let frame = vec![5i16; 960];
    let encoder = redline::audio::AudioEncoder::new(Codec::Pcm48, OpusProfile::default());
    let payload = encoder.encode_pcm(&frame, &frame).unwrap();
    assert_eq!(payload.len(), 1920);
    let decoder = AudioDecoder::default();
    assert_eq!(
        decoder.path(Codec::Pcm48, payload.len(), 1).unwrap(),
        DecodePath::PcmMono(48_000)
    );
    assert_eq!(decoder.decode_pcm(Codec::Pcm48, &payload, 1, &Vec::new()).unwrap(), frame);
}

#[test]
fn reconnects_slow_down_to_a_limit() {
    let mut delay = CONTROL_RECONNECT_INITIAL_MS;
    let mut seen = vec![delay];
    for _ in 0..6 {
        let next = next_reconnect_delay(delay);
        assert!(next >= delay);
        delay = next;
        seen.push(delay);
    }
    assert_eq!(seen, vec![500, 1000, 2000, 4000, 5000, 5000, 5000]);
    assert_eq!(delay, CONTROL_RECONNECT_MAX_MS);
}

#[test]
fn lost_connections_are_announced_and_stopped_links_stay_stopped() {
    let mut link = ControlLink::new();
    link.step(LinkEvent::Opened);
    link.step(LinkEvent::HelloSent);
    assert_eq!(link.phase, LinkPhase::Active);
    let actions = link.step(LinkEvent::Lost);
    assert!(actions
        .iter()
        .any(|action| matches!(action, LinkAction::Notify(event) if *event != ClientConnectionEvent::Connected)));

    let mut link = ControlLink::new();
    link.step(LinkEvent::Opened);
    link.step(LinkEvent::HelloSent);
    link.step(LinkEvent::RequestsEnded);
    assert_eq!(link.phase, LinkPhase::Stopped);
    link.step(LinkEvent::WaitOver);
    assert_eq!(link.phase, LinkPhase::Stopped);
}

#[test]
fn ports_are_tried_one_after_the_other() {
    let mut search = PortSearch::new(65_000);
    for k in 1..=LOCAL_BIND_PORT_FALLBACK_ATTEMPTS {
        assert_eq!(search.failed(true), PortStep::Retry);
        assert_eq!(search.port, 65_000 + k);
    }
    assert_eq!(search.failed(true), PortStep::Exhausted);
    assert_eq!(PortSearch::new(41_002).failed(false), PortStep::Fail);
    assert_eq!(PortSearch::new(0).failed(true), PortStep::Fail);
    assert_eq!(PortSearch::new(u16::MAX).failed(true), PortStep::Fail);
}

#[test]
fn held_buttons_are_as_they_were_set() {
    let mut held = vec!["a".to_string()];
    set_active_button(&mut held, "b", true);
    set_active_button(&mut held, "b", true);
    assert_eq!(held, vec!["a", "b"]);
    set_active_button(&mut held, "a", false);
    assert_eq!(held, vec!["b"]);
}

#[test]
fn ended_calls_are_gone() {
    let mut config = config();
    set_active_direct_call(&mut config, 7, true, true);
    assert_eq!(config.active_direct_calls.len(), 1);
    assert!(config.active_direct_calls[0].duck);
    set_active_direct_call(&mut config, 7, false, true);
    assert!(config.active_direct_calls.is_empty());
}

#[test]
fn commands_keep_the_identity() {
    let mut config = config();
    for command in ["tx 5", "listen 6", "mute", "unmute", "talk on", "show"] {
        apply_runtime_command(&mut config, command, &Vec::new()).unwrap();
        assert_eq!(config.user_id, 1);
        assert_eq!(config.client_uid, "client");
    }
    assert_eq!(config.tx, vec![5]);
    assert!(matches!(
        apply_runtime_command(&mut config, "show", &Vec::new()).unwrap(),
        CommandUpdate::Show
    ));
}

#[test]
fn the_token_gives_access() {
    let auth = LocalHttpAuth::token("s3cret", "RedLine Client");
    assert!(auth.authorizes(Some("Bearer s3cret")));
    assert!(!auth.authorizes(Some("Bearer other")));
    assert!(!auth.authorizes(None));
    assert!(LocalHttpAuth::disabled().authorizes(None));
}

#[test]
fn processing_settings_are_read_back() {
    let settings = CaptureProcessingSettings::new(&processing());
    let read = settings.snapshot();
    assert_eq!(read.mode, ProcessingMode::Enabled);
    assert_eq!(read.profile, ProcessingProfile::Broadcast);
    assert!(!read.vad);
    assert!(read.transient_suppression);
    assert!(!read.native_voice_processing);
}

#[test]
fn speech_passes_after_enough_frames() {
    let mut speech = CaptureSpeechGate::default();
    assert!(!speech.step(ProcessingProfile::VoiceIsolation, true, true));
    assert!(!speech.step(ProcessingProfile::VoiceIsolation, true, true));
    assert!(speech.step(ProcessingProfile::VoiceIsolation, true, true));
    assert!(speech.step(ProcessingProfile::VoiceIsolation, false, true));
    assert!(!speech.step(ProcessingProfile::VoiceIsolation, false, false));
}

#[test]
fn packets_are_numbered_in_a_row() {
    let mut sender = PacketSender::new(Codec::Pcm16, OpusProfile::default());
    sender.seq = u16::MAX;
    let first = sender.next_packet(4, AudioTarget::Channel(1), 7);
    let second = sender.next_packet(4, AudioTarget::Direct(2), 7);
    assert_eq!((first.seq, second.seq), (u16::MAX, 0));
    assert_eq!(first.timestamp, second.timestamp);
}

#[test]
fn frames_reach_every_target() {
    let mut store = TelemetryStore::default();
    let telemetry = ClientTelemetryCounters::new(&mut store);
    let mut transmitter = Transmitter::new(Codec::Pcm16, OpusProfile::default(), true);
    let snapshot = TransmitSnapshot {
        user_id: 4,
        targets: vec![AudioTarget::Channel(1), AudioTarget::Direct(9)],
        codec: Codec::Pcm48,
        opus_profile: OpusProfile::default(),
    };
    assert_eq!(
        transmitter.frame(Some(snapshot)),
        TransmitAction::MakeEncoder(Codec::Pcm48, OpusProfile::default())
    );
    assert_eq!(transmitter.encoder_made(), TransmitAction::Encode);
    let first = transmitter.encoded();
    let (second, _) = transmitter.sent(&telemetry, &mut store);
    let (last, _) = transmitter.sent(&telemetry, &mut store);
    match (first, second, last) {
        (TransmitAction::Send(a), TransmitAction::Send(b), TransmitAction::NextFrame) => {
            assert_eq!(a.target, AudioTarget::Channel(1));
            assert_eq!(b.target, AudioTarget::Direct(9));
            assert_eq!((a.seq, b.seq), (0, 1));
            assert_eq!((a.timestamp, b.timestamp), (0, 0));
            assert_eq!(a.codec, Codec::Pcm48);
        }
        other => panic!("unexpected actions {other:?}"),
    }
    assert_eq!(transmitter.sender.timestamp, 960);
    assert_eq!(telemetry.snapshot(&store).tx_packets, 2);
    assert_eq!(transmitter.frame(None), TransmitAction::NextFrame);
}

#[test]
fn endpoints_are_stale_until_audio_comes() {
    let mut telemetry = EndpointRuntimeTelemetry::default();
    assert!(telemetry.snapshot(10).stale);
    telemetry.record_audio_level(5, 10);
    assert!(!telemetry.snapshot(2010).stale);
    assert!(telemetry.snapshot(2011).stale);
}

#[test]
fn routes_for_browsers_go_stale() {
    let mut telemetry = BrowserSourceTelemetry::default();
    assert!(telemetry.snapshot(10).stale);
    telemetry.record_audio(400_000, 10);
    assert_eq!(telemetry.snapshot(2010).last_audio_ms_ago, Some(2000));
    assert!(!telemetry.snapshot(2010).stale);
    assert!(telemetry.snapshot(2011).stale);
    assert_eq!(telemetry.snapshot(2011).audio_level_ppm, Some(400_000));
}

#[test]
fn path_segments_hold_only_plain_characters() {
    assert_eq!(encode_path_segment("a b/ü%~"), "a%20b%2F%C3%BC%25~");
    assert_eq!(encode_path_segment("AZaz09-_.~"), "AZaz09-_.~");
}

#[test]
fn escaped_text_holds_no_markup() {
    assert_eq!(
        html_escape("<b a='1' c=\"2\">&amp;</b>"),
        "&lt;b a=&#39;1&#39; c=&quot;2&quot;&gt;&amp;amp;&lt;/b&gt;"
    );
}

#[test]
fn discovered_names_come_in_order_once() {
    let names = ["b", " ", "a", "b", "B", ""].iter().map(|n| n.to_string()).collect();
    assert_eq!(sorted_names(names), vec!["B", "a", "b"]);
}

#[test]
fn channels_come_in_order_once() {
    let config = BridgeAppConfig {
        routes: vec![BridgeRouteConfig {
            tx_channels: vec![9, 3],
            listen_channels: vec![9, 4],
            ..BridgeRouteConfig::default()
        }],
        ..BridgeAppConfig::default()
    };
    let known = vec![
        ChannelOption { id: 5, name: "Five".to_string() },
        ChannelOption { id: 3, name: "Three".to_string() },
        ChannelOption { id: 5, name: "Again".to_string() },
    ];
    let merged: Vec<(u16, String)> = merge_channel_options(known, &config)
        .into_iter()
        .map(|channel| (channel.id, channel.name))
        .collect();
    assert_eq!(
        merged,
        vec![
            (3, "Three".to_string()),
            (4, "Channel 4".to_string()),
            (5, "Five".to_string()),
            (9, "Channel 9".to_string()),
        ]
    );
    assert_eq!(default_channel_options().len(), 8);
}

#[test]
fn browsers_are_counted_by_route() {
    let mut connections = BrowserConnections::new();
    assert_eq!(connections.count("a"), 0);
    connections.increment("a");
    connections.increment("b");
    connections.increment("a");
    assert_eq!(connections.count("a"), 2);
    connections.decrement("a");
    assert_eq!(connections.count("a"), 1);
    connections.decrement("a");
    connections.decrement("a");
    assert_eq!(connections.count("a"), 0);
    assert_eq!(connections.count("b"), 1);
    connections.remove("b");
    assert_eq!(connections.count("b"), 0);
}

#[test]
fn valid_routes_share_nothing() {
    let mut config = BridgeAppConfig::default();
    config.routes.push(BridgeRouteConfig {
        id: "second".to_string(),
        user_id: 91,
        ..BridgeRouteConfig::default()
    });
    assert!(config.validate().is_ok());
    config.routes[1].user_id = 90;
    assert_eq!(config.validate().unwrap_err(), "duplicate bridge route user_id `90`");
    config.routes[1].id = "program-in".to_string();
    assert_eq!(config.validate().unwrap_err(), "duplicate bridge route id `program-in`");
}

#[test]
fn remembered_servers_are_few_and_apart() {
    let mut known = Vec::new();
    for k in 0..30 {
        remember_profile(
            &mut known,
            MobileServerProfile {
                id: format!("id {k}"),
                server: "10.0.0.1:40000".to_string(),
                control: format!("ws://host{k}:40001"),
                ..MobileServerProfile::default()
            },
        );
    }
    assert_eq!(known.len(), MAX_SERVER_PROFILES);
    remember_profile(
        &mut known,
        MobileServerProfile {
            id: "id 20".to_string(),
            server: "10.0.0.2:40000".to_string(),
            control: "ws://host25:40001".to_string(),
            ..MobileServerProfile::default()
        },
    );
    assert_eq!(known.len(), MAX_SERVER_PROFILES - 1);
    assert_eq!(known[0].server, "10.0.0.2:40000");
    remember_profile(&mut known, MobileServerProfile::default());
    assert_eq!(known.len(), MAX_SERVER_PROFILES - 1);
}

#[test]
fn found_servers_keep_their_last_connection() {
    let saved = vec![MobileServerProfile {
        id: "a".to_string(),
        name: "Old".to_string(),
        server: "10.0.0.1:40000".to_string(),
        control: "ws://10.0.0.1:40001".to_string(),
        last_connected_ms: Some(5),
        ..MobileServerProfile::default()
    }];
    let found = vec![
        MobileServerProfile {
            id: "b".to_string(),
            name: "Zeta".to_string(),
            server_host: "10.0.0.9".to_string(),
            server: "10.0.0.9:40000".to_string(),
            ..MobileServerProfile::default()
        },
        MobileServerProfile {
            id: "a".to_string(),
            name: "New".to_string(),
            server_host: "10.0.0.1".to_string(),
            server: "10.0.0.1:40000".to_string(),
            ..MobileServerProfile::default()
        },
    ];
    let addresses = vec![
        ProfileAddresses { server: None, found: None },
        ProfileAddresses { server: None, found: None },
    ];
    let merged = merge_mobile_profiles(saved, found, addresses);
    assert_eq!(merged.len(), 2);
    assert_eq!(merged[0].name, "New");
    assert_eq!(merged[0].last_connected_ms, Some(5));
    assert!(merged[0].discovered);
    assert_eq!(merged[1].control, "ws://10.0.0.9:40001");
    assert_eq!(merged[1].admin.as_deref(), Some("http://10.0.0.9:40002"));
}

#[test]
fn changes_are_debounced_and_told_once() {
    let mut button = ButtonRuntime::new(false, 0);
    assert!(!button.step(true, 10, 30));
    assert!(!button.step(true, 39, 30));
    assert!(button.step(true, 40, 30));
    assert!(!button.step(true, 90, 30));
    assert!(!button.step(false, 100, 30));
    assert!(!button.step(true, 110, 30));
    assert!(!button.step(true, 200, 30));
    assert!(button.stable_pressed);
}

#[test]
fn set_lamps_are_left_alone() {
    let outputs = GpioOutputs {
        preview: Some(GpioOutput { name: "p".to_string(), gpio: 1, active_low: false }),
        live: None,
    };
    let mut state = TallyOutputState::new();
    let lit = TallyLamps { preview: true, live: true };
    assert_eq!(state.changes(&outputs, lit), (Some(true), None));
    state.preview_set(true);
    assert_eq!(state.changes(&outputs, lit), (None, None));
    let dark = TallyLamps { preview: false, live: false };
    assert_eq!(state.changes(&outputs, dark), (Some(false), None));
    state.live_set(false);
    assert_eq!(state.live, Some(false));
}

#[test]
fn places_are_tried_once() {
    let places = ["b", "a", "b", "c", "a"].iter().map(|p| p.to_string()).collect();
    assert_eq!(dedupe(places), vec!["b", "a", "c"]);
}

#[test]
fn planar_audio_is_clipped_and_whole() {
    let samples = [2.0f32, -2.0, 0.5, f32::NAN, 0.25].map(gain);
    let planar = planarize(&samples, 2);
    assert_eq!(planar.len(), 4);
    assert_eq!(planar[0], gain(1.0));
    assert_eq!(planar[1], gain(0.5));
    assert_eq!(planar[2], gain(-1.0));
    assert!(f32::from_bits(planar[3].bits).is_nan());
}

#[test]
fn checked_hosts_stay_as_they_are() {
    for host in [" studio.local ", "[2001:db8::7]", "10.0.0.1"] {
        let once = validate_server_host(host).unwrap();
        assert_eq!(validate_server_host(&once).unwrap(), once);
    }
}

#[test]
fn control_urls_lead_back_to_their_host() {
    for host in ["studio.local", "2001:db8::7", "10.0.0.1"] {
        let endpoint = ClientServerEndpoint::new(host).unwrap();
        assert_eq!(
            parse_url_host_port(&endpoint.control_url(), "ws"),
            Some((host.to_string(), 40001))
        );
        assert_eq!(
            derive_admin_url_from_control(&endpoint.control_url()),
            Some(endpoint.admin_url())
        );
    }
}

#[test]
fn settled_fields_stay_as_they_are() {
    let server = SocketAddress { ip: "10.0.0.5".to_string(), port: 40000 };
    let (mut first, lookup) = ClientEndpointOverrides::normalized(
        "10.0.0.5",
        server,
        " ws://10.0.0.5:40001 ",
        None,
        false,
    );
    let host = lookup.unwrap().host;
    first.set_resolved_server(Some(SocketAddress { ip: host.clone(), port: 40000 }));
    let (second, lookup) = ClientEndpointOverrides::normalized(
        &first.server_host,
        first.server.copy(),
        &first.control,
        first.admin.clone(),
        first.advanced_endpoints,
    );
    assert_eq!(second.server_host, first.server_host);
    assert_eq!(second.control, "ws://10.0.0.5:40001");
    assert!(!second.advanced_endpoints);
    assert_eq!(lookup.unwrap().host, host);

    // A name that leads to another address does not settle.
    let (named, _) = ClientEndpointOverrides::normalized(
        "studio.local",
        SocketAddress { ip: "192.168.1.20".to_string(), port: 40000 },
        "ws://studio.local:40001",
        None,
        false,
    );
    assert!(named.advanced_endpoints);
}

#[test]
fn escapes_tell_texts_apart() {
    assert_eq!(encode_path_segment("a b/\u{e4}"), "a%20b%2F%C3%A4");
    assert_ne!(encode_path_segment("a%20b"), encode_path_segment("a b"));
    assert_eq!(html_escape("<a> & 'b' \"c\""), "&lt;a&gt; &amp; &#39;b&#39; &quot;c&quot;");
    assert_ne!(html_escape("&lt;"), html_escape("<"));
}

#[test]
fn clones_share_counters() {
    let mut store = TelemetryStore::default();
    let c = ClientTelemetryCounters::new(&mut store);
    let other = ClientTelemetryCounters::new(&mut store);
    let d = c.clone();
    c.record_decode_error(&mut store);
    c.record_codec_drop(&mut store);
    let before = c.snapshot(&store);
    d.record_payload_decode_error(&mut store);
    assert_eq!(
        c.snapshot(&store),
        ClientTelemetryTransportStatus {
            payload_decode_errors: before.payload_decode_errors + 1,
            ..before
        }
    );
    assert_eq!(d.snapshot(&store), c.snapshot(&store));
    d.record_packet_encode_error(&mut store);
    assert_eq!(c.packet_encode_errors(&store), 1);
    assert_eq!(d.snapshot(&store), c.snapshot(&store));
    assert_eq!(other.snapshot(&store).decode_errors, 0);
    assert_eq!(other.snapshot(&store).payload_decode_errors, 0);
    assert!(other.belongs_to(&store));
    assert!(!other.belongs_to(&TelemetryStore::default()));
}

#[test]
fn admin_urls_follow_all_control_urls() {
    for host in ["studio.local", "2001:db8::7", "10.0.0.1"] {
        let endpoint = ClientServerEndpoint::new(host).unwrap();
        let shown = host_for_url(host);
        for scheme in ["ws", "wss"] {
            for (port, number) in [("", 40001), (":1", 1), (":40001", 40001), (":65535", 65535)] {
                for rest in ["", "/", "/control?a=b:1#c", "?x ", "#f/ \t"] {
                    let url = format!("{scheme}://{shown}{port}{rest}");
                    assert_eq!(
                        parse_url_host_port(&url, "ws"),
                        Some((host.to_string(), number)),
                        "{url}"
                    );
                    assert_eq!(
                        derive_admin_url_from_control(&url),
                        Some(endpoint.admin_url()),
                        "{url}"
                    );
                }
            }
        }
    }
    assert_eq!(derive_admin_url_from_control("ws://studio.local:0"), None);
    assert_eq!(
        derive_admin_url_from_control("ws://[::1]:0").as_deref(),
        Some("http://[::1]:40002")
    );
}

#[test]
fn hosts_in_urls_stay_as_they_are() {
    for host in [" studio ", "[::1]", "::1", "[[a]]", "", "[ a:b ]"] {
        let once = host_for_url(host);
        assert_eq!(host_for_url(&once), once, "{host}");
    }
    assert_eq!(host_for_url("[ a ]"), " a ");
    assert_eq!(host_for_url(" a "), "a");
}

#[test]
fn merged_channels_keep_their_first_names() {
    let option = |id: u16, name: &str| ChannelOption { id, name: name.to_string() };
    let config = BridgeAppConfig {
        routes: vec![BridgeRouteConfig {
            tx_channels: vec![9, 2],
            listen_channels: vec![5, 9],
            ..BridgeRouteConfig::default()
        }],
        ..BridgeAppConfig::default()
    };
    let options = vec![option(5, "Cue"), option(2, "PL"), option(5, "Later"), option(2, "Last")];
    let merged = merge_channel_options(options, &config);
    let seen: Vec<(u16, &str)> = merged.iter().map(|c| (c.id, c.name.as_str())).collect();
    assert_eq!(seen, vec![(2, "PL"), (5, "Cue"), (9, "Channel 9")]);
}

#[test]
fn first_buttons_of_an_id_stay() {
    let button = |id: &str, label: &str| ButtonCapability {
        id: id.to_string(),
        label: label.to_string(),
    };
    let normal = normalize_button_capabilities(vec![
        button("7", "First"),
        button(" ", "Nobody"),
        button("a", ""),
        button(" 7 ", "Second"),
        button("3", " Three "),
        button("a", "Late"),
    ]);
    let seen: Vec<(&str, &str)> =
        normal.iter().map(|b| (b.id.as_str(), b.label.as_str())).collect();
    assert_eq!(seen, vec![("3", "Three"), ("7", "First"), ("a", "a")]);
}

#[test]
fn normalizing_again_changes_nothing() {
    let overrides = |host: &str, ip: &str, port: u16, control: &str, admin: &str, advanced: bool| {
        ClientEndpointOverrides {
            server_host: host.to_string(),
            server: SocketAddress { ip: ip.to_string(), port },
            control: control.to_string(),
            admin: Some(admin.to_string()),
            advanced_endpoints: advanced,
        }
    };
    let normalize = |config: &mut ClientEndpointOverrides| {
        let lookup = normalize_endpoint_overrides(config);
        config.set_resolved_server(
            lookup.map(|endpoint| SocketAddress { ip: endpoint.host, port: 40000 }),
        );
    };
    for given in [
        overrides("studio.local", "10.0.0.7", 9, " ws://other:1/x ", " http://a ", true),
        overrides("", "::1", 40000, "ws://[::1]:40001", " ", true),
        overrides(" 10.0.0.5 ", "10.0.0.5", 40000, "ws://10.0.0.5:40001", "", false),
        overrides("10.0.0.5", "10.0.0.6", 1, "ws://10.0.0.6:2", "http://b", false),
        overrides("127.0.0.1", "::1", 40000, "ws://[::1]:40001", "", false),
    ] {
        let mut once = given.clone();
        normalize(&mut once);
        let mut again = once.clone();
        normalize(&mut again);
        assert_eq!(again, once);
        if given.advanced_endpoints {
            assert!(once.advanced_endpoints);
            assert_eq!(once.server, given.server);
            assert_eq!(once.control, given.control.trim());
            let admin = given.admin.unwrap().trim().to_string();
            assert_eq!(once.admin, Some(admin).filter(|admin| !admin.is_empty()));
        }
    }
}

#[test]
fn shown_servers_are_in_order() {
    let server = |name: &str, last_connected_ms: Option<u64>, discovered: bool| {
        MobileServerProfile {
            id: name.to_string(),
            name: name.to_string(),
            server_host: String::new(),
            server: String::new(),
            control: format!("ws://{name}"),
            admin: None,
            auth: None,
            version: None,
            last_connected_ms,
            discovered,
        }
    };
    let shown = sort_profiles(vec![
        server("e", None, false),
        server("d", None, false),
        server("c", None, true),
        server("b", Some(1), false),
        server("a", Some(2), false),
    ]);
    let names: Vec<&str> = shown.iter().map(|server| server.name.as_str()).collect();
    assert_eq!(names, vec!["a", "b", "c", "d", "e"]);
}
