use redline::bridge::{
    bridge_config, bridge_status_snapshot, validate_route_endpoint_kinds, BridgeArgs, BridgeCliMode,
    BridgeEndpointKind, BridgeInputKind, BridgeMode, BridgeOutputKind, BridgeStatusConfig,
    EndpointRuntimeTelemetry,
};
use redline::bridge_app::{default_channel_options, merge_channel_options};
use redline::bridge_page::{APP_JS, INDEX_HTML};
use redline::capture::sample_peak;
use redline::config::ClientConfig;
use redline::gain::{Gain, Volumes};
use redline::net::SocketAddress;
use redline::protocol::{
    ClientCapabilities, ClientLockoutPolicy, ClientRole, Codec, Esp32AudioConfig, IfbConfig,
    OpusProfile, ProcessingConfig, ProcessingMode, ProcessingProfile, StereoConfig, TalkMode,
    TallyStatus,
};
use redline::routes::{
    bridge_args, BridgeAppConfig, BridgeRouteConfig, RouteInputKind, RouteOutputKind,
};
use redline::session::{SharedDefaults, WireCodec, WireOpusProfile};
use redline::web::{admin_state_url, derive_admin_base_from_control, encode_path_segment};

fn gain(value: f32) -> Gain {
    Gain { bits: value.to_bits() }
}

fn test_config() -> ClientConfig {
    ClientConfig {
        user_id: 90,
        client_uid: "bridge-test".to_string(),
        role: ClientRole::Bridge,
        name: "Program Bridge".to_string(),
        listen: vec![30],
        tx: vec![20],
        codec: Codec::Pcm48,
        opus_profile: OpusProfile::Speech48High,
        talk_mode: TalkMode::Open,
        last_non_muted_talk_mode: TalkMode::Open,
        regular_talk_active: false,
        priority: false,
        priority_channels: Vec::new(),
        processing: ProcessingConfig {
            mode: ProcessingMode::Auto,
            profile: ProcessingProfile::Voice,
            vad: true,
            transient_suppression: true,
            native_voice_processing: true,
        },
        channel_rosters: Vec::new(),
        emergency: None,
        vol: Volumes::new(),
        talker_vol: Volumes::new(),
        buttons: Vec::new(),
        active_buttons: Vec::new(),
        active_direct_calls: Vec::new(),
        last_direct_caller: None,
        direct_call_history: Vec::new(),
        active_alerts: Vec::new(),
        recent_alerts: Vec::new(),
        advertised_buttons: Vec::new(),
        capabilities: None,
        ifb: IfbConfig {
            enabled: false,
            program: Vec::new(),
            interrupt: Vec::new(),
            duck_gain: gain(0.25),
        },
        lockout: ClientLockoutPolicy::default(),
        stereo: StereoConfig { enabled: false, channel_pan: Volumes::new() },
        esp32_audio: Esp32AudioConfig { encoded: String::new() },
        tally: None,
    }
}

fn bridge_cli(mode: BridgeCliMode) -> BridgeArgs {
    BridgeArgs {
        server_host: None,
        server: SocketAddress { ip: "127.0.0.1".to_string(), port: 40000 },
        control: "ws://127.0.0.1:40001".to_string(),
        user_id: Some(95),
        client_uid: None,
        identity_file: None,
        name: "Bridge".to_string(),
        mode,
        tx_channels: vec![1],
        listen_channels: vec![1],
        codec: WireCodec::Pcm48,
        opus_profile: WireOpusProfile::Speech48High,
        stereo: false,
        input_device: None,
        output_device: None,
        input_kind: BridgeInputKind::AudioDevice,
        output_kind: BridgeOutputKind::AudioDevice,
        ndi_source: None,
        ndi_output_name: None,
        ndi_groups: None,
        vmix_source_url: None,
        input_gain: gain(1.0),
        output_gain: gain(1.0),
        note: String::new(),
        list_devices: false,
        list_ndi_sources: false,
    }
}

fn args_of(config: &BridgeAppConfig, route: &BridgeRouteConfig) -> Vec<String> {
    let found = SocketAddress { ip: "127.0.0.1".to_string(), port: 40000 };
    let input = f32::from_bits(route.input_gain.bits).to_string();
    let output = f32::from_bits(route.output_gain.bits).to_string();
    bridge_args(config, route, Some(found), &input, &output)
}

fn has_pair(args: &[String], name: &str, value: &str) -> bool {
    args.windows(2).any(|pair| pair == [name, value])
}

#[test]
fn bridge_cli_mode_maps_to_wire_status_mode() {
    assert_eq!(BridgeCliMode::Input.status_mode(), BridgeMode::Input);
    assert_eq!(BridgeCliMode::Output.status_mode(), BridgeMode::Output);
    assert_eq!(BridgeCliMode::Duplex.status_mode(), BridgeMode::Duplex);
}

#[test]
fn bridge_status_snapshot_reports_routes_devices_and_levels() {
    let config = test_config();

    let status = bridge_status_snapshot(
        &config,
        BridgeStatusConfig {
            mode: BridgeCliMode::Duplex,
            input_kind: BridgeInputKind::AudioDevice,
            output_kind: BridgeOutputKind::AudioDevice,
            input_device: Some("BlackHole".to_string()),
            output_device: Some("USB Audio".to_string()),
            ndi_source: None,
            ndi_output_name: None,
            vmix_source_url: None,
            input_gain: gain(0.8),
            output_gain: gain(0.6),
            note: "vMix program bridge".to_string(),
            input_telemetry: EndpointRuntimeTelemetry::default(),
            output_telemetry: EndpointRuntimeTelemetry::default(),
        },
        0,
    );

    assert_eq!(status.mode, BridgeMode::Duplex);
    assert_eq!(status.input_device.as_deref(), Some("BlackHole"));
    assert_eq!(status.output_device.as_deref(), Some("USB Audio"));
    assert_eq!(status.input.as_ref().unwrap().kind, BridgeEndpointKind::AudioDevice);
    assert_eq!(status.output.as_ref().unwrap().kind, BridgeEndpointKind::AudioDevice);
    assert_eq!(status.input_gain, gain(0.8));
    assert_eq!(status.output_gain, gain(0.6));
    assert_eq!(status.tx, vec![20]);
    assert_eq!(status.listen, vec![30]);
    assert_eq!(status.note, "vMix program bridge");
}

#[test]
fn bridge_cli_parses_default_ndi_route_fields() {
    let mut args = bridge_cli(BridgeCliMode::Output);
    args.output_kind = BridgeOutputKind::NdiOutput;
    args.ndi_output_name = Some("RedLine Program".to_string());
    args.ndi_groups = Some("arena".to_string());

    assert!(validate_route_endpoint_kinds(&args).is_ok());
}

#[test]
fn bridge_status_snapshot_includes_endpoint_telemetry() {
    let config = test_config();
    let mut telemetry = EndpointRuntimeTelemetry::default();
    telemetry.set_runtime("/usr/local/lib/libndi.4.dylib");
    let level = (u64::from(sample_peak(&[0, i16::MAX])) * 1_000_000 / 32_767) as u32;
    telemetry.record_audio_level(level, 5);
    telemetry.record_underflow();
    telemetry.record_reconnect();

    let status = bridge_status_snapshot(
        &config,
        BridgeStatusConfig {
            mode: BridgeCliMode::Input,
            input_kind: BridgeInputKind::NdiSource,
            output_kind: BridgeOutputKind::AudioDevice,
            input_device: None,
            output_device: None,
            ndi_source: Some("vMix Program".to_string()),
            ndi_output_name: None,
            vmix_source_url: None,
            input_gain: gain(1.0),
            output_gain: gain(1.0),
            note: String::new(),
            input_telemetry: telemetry,
            output_telemetry: EndpointRuntimeTelemetry::default(),
        },
        5,
    );

    let input = status.input.unwrap();
    assert_eq!(input.runtime.as_deref(), Some("/usr/local/lib/libndi.4.dylib"));
    assert_eq!(input.frames, Some(1));
    assert_eq!(input.underflows, Some(1));
    assert_eq!(input.reconnects, Some(1));
    assert!(input.audio_level_ppm.unwrap() > 900_000);
    assert_eq!(input.stale, Some(false));
}

#[test]
fn bridge_cli_requires_ndi_route_names() {
    let mut args = bridge_cli(BridgeCliMode::Output);
    args.output_kind = BridgeOutputKind::NdiOutput;
    assert!(validate_route_endpoint_kinds(&args).is_err());
}

#[test]
fn default_config_contains_program_input_route() {
    let config = BridgeAppConfig::default();

    config.validate().unwrap();
    assert_eq!(config.routes.len(), 1);
    assert_eq!(config.routes[0].mode, BridgeMode::Input);
    assert_eq!(config.routes[0].tx_channels, vec![1]);
    assert!(config.routes[0].listen_channels.is_empty());
}

#[test]
fn bridge_args_include_route_devices_levels_and_note() {
    let config = BridgeAppConfig::default();
    let route = BridgeRouteConfig {
        id: "pa-out".to_string(),
        name: "PA Out".to_string(),
        user_id: 91,
        mode: BridgeMode::Output,
        listen_channels: vec![6],
        tx_channels: Vec::new(),
        codec: Codec::Opus,
        opus_profile: OpusProfile::Music48,
        stereo: true,
        output_device: Some("USB Audio".to_string()),
        output_gain: gain(0.75),
        note: "arena PA".to_string(),
        ..BridgeRouteConfig::default()
    };

    let args = args_of(&config, &route);
    assert!(has_pair(&args, "--server-host", "127.0.0.1"));
    assert!(has_pair(&args, "--mode", "output"));
    assert!(has_pair(&args, "--listen-channels", "6"));
    assert!(has_pair(&args, "--output-device", "USB Audio"));
    assert!(has_pair(&args, "--output-gain", "0.75"));
    assert!(has_pair(&args, "--input-kind", "audio-device"));
    assert!(has_pair(&args, "--output-kind", "audio-device"));
    assert!(has_pair(&args, "--note", "arena PA"));
    assert!(args.contains(&"--stereo".to_string()));
}

#[test]
fn vmix_browser_source_routes_validate_as_output_only() {
    let route = BridgeRouteConfig {
        id: "program mix".to_string(),
        name: "Program Mix".to_string(),
        mode: BridgeMode::Output,
        tx_channels: Vec::new(),
        listen_channels: vec![1],
        output_kind: RouteOutputKind::VmixBrowserSource,
        ..BridgeRouteConfig::default()
    };

    route.validate().unwrap();
    assert_eq!(encode_path_segment(&route.id), "program%20mix");

    let bad = BridgeRouteConfig {
        mode: BridgeMode::Duplex,
        tx_channels: vec![2],
        ..route
    };
    assert!(bad.validate().unwrap_err().contains("must be an output route"));
}

#[test]
fn ndi_routes_validate_and_emit_cli_args() {
    let config = BridgeAppConfig::default();
    let input = BridgeRouteConfig {
        id: "ndi-in".to_string(),
        name: "NDI In".to_string(),
        mode: BridgeMode::Input,
        input_kind: RouteInputKind::NdiSource,
        ndi_source: Some("vMix - Program".to_string()),
        tx_channels: vec![2],
        listen_channels: Vec::new(),
        ..BridgeRouteConfig::default()
    };
    input.validate().unwrap();
    let input_args = args_of(&config, &input);
    assert!(has_pair(&input_args, "--input-kind", "ndi-source"));
    assert!(has_pair(&input_args, "--ndi-source", "vMix - Program"));

    let output = BridgeRouteConfig {
        id: "ndi-out".to_string(),
        name: "NDI Out".to_string(),
        user_id: 91,
        mode: BridgeMode::Output,
        output_kind: RouteOutputKind::NdiOutput,
        ndi_output_name: Some("RedLine Program".to_string()),
        ndi_groups: Some("arena".to_string()),
        tx_channels: Vec::new(),
        listen_channels: vec![2],
        ..BridgeRouteConfig::default()
    };
    output.validate().unwrap();
    let output_args = args_of(&config, &output);
    assert!(has_pair(&output_args, "--output-kind", "ndi-output"));
    assert!(has_pair(&output_args, "--ndi-output-name", "RedLine Program"));
    assert!(has_pair(&output_args, "--ndi-groups", "arena"));

    let missing = BridgeRouteConfig { ndi_output_name: None, ..output };
    assert!(missing.validate().unwrap_err().contains("no NDI output name"));
}

#[test]
fn rejects_feedback_overlap() {
    let route = BridgeRouteConfig {
        id: "bad".to_string(),
        tx_channels: vec![6],
        listen_channels: vec![6],
        ..BridgeRouteConfig::default()
    };

    assert!(route.validate().unwrap_err().contains("feedback"));
}

#[test]
fn derives_admin_url_and_merges_selected_channels() {
    let config = BridgeAppConfig {
        control: "ws://192.0.2.10:40001/control".to_string(),
        routes: vec![BridgeRouteConfig {
            id: "custom".to_string(),
            tx_channels: vec![42],
            listen_channels: vec![6],
            ..BridgeRouteConfig::default()
        }],
        ..BridgeAppConfig::default()
    };

    assert_eq!(
        derive_admin_base_from_control(&config.control).as_deref(),
        Some("http://192.0.2.10:40002")
    );
    assert_eq!(
        admin_state_url("http://192.0.2.10:40002/admin"),
        "http://192.0.2.10:40002/admin/api/state"
    );
    let channels = merge_channel_options(default_channel_options(), &config);
    assert!(channels.iter().any(|channel| channel.id == 0 && channel.name == "open"));
    assert!(channels.iter().any(|channel| channel.id == 42 && channel.name == "Channel 42"));
    assert!(channels.iter().any(|channel| channel.id == 6 && channel.name == "PA"));
}

#[test]
fn bridge_app_ui_uses_dropdown_controls_for_devices_and_channels() {
    assert!(INDEX_HTML.contains("server-host"));
    assert!(INDEX_HTML.contains("advanced-endpoints"));
    assert!(APP_JS.contains("server_host"));
    assert!(APP_JS.contains("advanced_endpoints"));
    assert!(APP_JS.contains("deviceSelect('input_device'"));
    assert!(APP_JS.contains("deviceSelect('output_device'"));
    assert!(APP_JS.contains("channelDropdown('tx_channels'"));
    assert!(APP_JS.contains("channelDropdown('listen_channels'"));
    assert!(APP_JS.contains("ndi-source-options"));
    assert!(APP_JS.contains("NDI ready"));
    assert!(APP_JS.contains("updateRouteVisibility"));
    assert!(APP_JS.contains("routeTelemetryHtml"));
    assert!(!APP_JS.contains("TX Channels<input"));
    assert!(!APP_JS.contains("Input Device<input"));
}

#[test]
fn bridges_start_with_their_capabilities_and_tally() {
    let defaults = SharedDefaults {
        processing: test_config().processing,
        ifb: test_config().ifb,
        esp32_audio: Esp32AudioConfig { encoded: String::new() },
        tally: TallyStatus { encoded: "off".to_string() },
    };
    let args = bridge_cli(BridgeCliMode::Input);
    let config = bridge_config(&args, "bridge".to_string(), defaults).unwrap();
    assert_eq!(config.role, ClientRole::Bridge);
    assert_eq!(config.capabilities, Some(ClientCapabilities::Bridge));
    assert_eq!(config.tally.unwrap().encoded, "off");
}
