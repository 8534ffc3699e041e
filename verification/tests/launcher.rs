use redline::bridge::{BridgeMode, EndpointRuntimeTelemetry};
use redline::bridge_app::{
    admin_channels, admin_state_body, channels_of_state, ndi_discovery, source_step,
    state_snapshot, vmix_source_page, vmix_source_url, BrowserConnections, BrowserSourceTelemetry,
    ChannelOption, RouteObservation, SourceAction, SourceEvent, Surroundings,
};
use redline::control::{bridge_hello, first_hello, reconnect_hello};
use redline::discovery::{
    browse_instance_names, decode_dns_sd_txt, parse_resolved_profile, resolve_host_ip,
    resolved_place, txt_record,
};
use redline::gain::Gain;
use redline::gpio::{
    check_response, parse_http_target, request_text, tally_lamps, tally_of_response,
    validate_config, ButtonAction, ButtonMode, GpioButton, GpioConfig, GpioOutput, GpioOutputs,
    HttpTarget,
};
use redline::json::{read_json_rows, read_json_text, JsonNode};
use redline::launch::{
    mobile_runtime_phase_name, url_to_open, AppLaunchPlan, HostPlatform, NativeTrayAction,
    RuntimeCheck, WindowKind, WindowRuntime,
};
use redline::ndi::{
    c_text, copy_audio_samples, frame_shape, library_candidates, library_missing, listed_sources,
    millis_u32, optional_c_text, received_kind, send_shape, FrameHeader, FrameShape, NdiReceived,
    NDI_FOURCC_FLTP,
};
use redline::net::SocketAddress;
use redline::profiles::{
    forget_profile, native_merge_profiles, native_sorted_profiles, normalize_mobile_profile,
    profile_lookup, MobileServerProfile, ProfileAddresses,
};
use redline::protocol::{
    ClientCapabilities, ClientRole, Codec, ControlMessage, ControlResponse, EnrollmentStatus,
    Esp32AudioConfig, IfbConfig, ProcessingConfig, ProcessingMode, ProcessingProfile, TallyStatus,
};
use redline::pump::{
    ndi_runtime_name, ndi_send_failed, ndi_sender_made, source_greet, source_packet_received,
    source_payload_decoded, NdiCapture, NdiCaptureAction, NdiCaptureEvent,
};
use redline::routes::{
    bridge_args, bridge_bin_path, browser_source_client_config, csv_channels, csv_channels_or_default, enabled_routes,
    find_browser_route, start_route, BridgeAppArgs, BridgeAppConfig, BridgeRouteConfig,
    RouteInputKind, RouteOutputKind, StartAction,
};
use redline::session::SharedDefaults;
use redline::settings::{
    complete_selected, mobile_profile_for_settings, native_profile_for_settings,
    prepare_native_runtime_settings, prepare_native_saved_settings, select_mobile_server,
    select_native_server, temp_file_name, AppSettings, AppWindowMode,
};
use redline::ui::ClientRuntimePhase;
use redline::web::{
    admin_state_url, derive_admin_base_from_control, get_request, parse_http_url,
    read_first_line, shutdown_target, split_host_port, stop_all_request, ParsedHttpUrl,
};

fn gain(value: f32) -> Gain {
    Gain { bits: value.to_bits() }
}

fn addr(text: &str) -> SocketAddress {
    let (ip, port) = text.rsplit_once(':').unwrap();
    SocketAddress {
        ip: ip.trim_start_matches('[').trim_end_matches(']').to_string(),
        port: port.parse().unwrap(),
    }
}

fn browser_route() -> BridgeRouteConfig {
    BridgeRouteConfig {
        id: "mix 1".to_string(),
        name: "Mix <1>".to_string(),
        mode: BridgeMode::Output,
        tx_channels: Vec::new(),
        listen_channels: vec![1],
        output_kind: RouteOutputKind::VmixBrowserSource,
        ..BridgeRouteConfig::default()
    }
}

#[test]
fn every_route_fault_is_told() {
    let base = || BridgeRouteConfig { id: "r".to_string(), ..BridgeRouteConfig::default() };
    assert!(base().validate().is_ok());
    let cases: Vec<(BridgeRouteConfig, &str)> = vec![
        (BridgeRouteConfig { id: " ".to_string(), ..base() }, "route id cannot be empty"),
        (BridgeRouteConfig { user_id: 0, ..base() }, "route `r` user_id must be 1..65535"),
        (
            BridgeRouteConfig { input_gain: gain(2.5), ..base() },
            "input_gain must be a finite value between 0 and 2",
        ),
        (
            BridgeRouteConfig { output_gain: gain(f32::NAN), ..base() },
            "output_gain must be a finite value between 0 and 2",
        ),
        (
            BridgeRouteConfig { tx_channels: Vec::new(), ..base() },
            "route `r` captures audio but has no TX channels",
        ),
        (
            BridgeRouteConfig { mode: BridgeMode::Output, ..base() },
            "route `r` plays audio but has no listen channels",
        ),
        (
            BridgeRouteConfig {
                mode: BridgeMode::Duplex,
                listen_channels: vec![2],
                input_kind: RouteInputKind::NdiSource,
                ..base()
            },
            "route `r` uses an NDI source and must be an input route",
        ),
        (
            BridgeRouteConfig { output_kind: RouteOutputKind::NdiOutput, ..base() },
            "route `r` uses an NDI output and must be an output route",
        ),
        (
            BridgeRouteConfig { input_kind: RouteInputKind::NdiSource, ..base() },
            "route `r` uses NDI input but has no NDI source name",
        ),
        (
            BridgeRouteConfig { codec: Codec::Adpcm, ..base() },
            "route `r` uses unsupported ADPCM codec",
        ),
    ];
    for (route, message) in cases {
        assert_eq!(route.validate().unwrap_err(), message);
    }
    let untitled = BridgeAppConfig { app_title: " ".to_string(), ..BridgeAppConfig::default() };
    assert_eq!(untitled.validate().unwrap_err(), "app_title cannot be empty");
    let lost = BridgeAppConfig { server_host: "a b".to_string(), ..BridgeAppConfig::default() };
    assert_eq!(
        lost.validate().unwrap_err(),
        "server host must not contain whitespace"
    );
}

#[test]
fn arguments_come_in_their_order() {
    let config = BridgeAppConfig::default();
    let mut route = browser_route();
    route.client_uid = Some("uid".to_string());
    route.identity_file = Some("id.json".to_string());
    let args = bridge_args(&config, &route, None, "1", "1");
    let expected = [
        "--server-host", "127.0.0.1", "--server", "127.0.0.1:40000", "--control",
        "ws://127.0.0.1:40001", "--user-id", "90", "--name", "Mix <1>", "--mode", "output",
        "--tx-channels", "1", "--listen-channels", "1", "--codec", "pcm48", "--opus-profile",
        "speech-48-high", "--input-gain", "1", "--output-gain", "1", "--input-kind",
        "audio-device", "--output-kind", "vmix-browser-source", "--client-uid", "uid",
        "--identity-file", "id.json", "--vmix-source-url", "/vmix/source/mix%201",
    ];
    assert_eq!(args, expected);
    assert_eq!(csv_channels(&vec![3, 1]), "3,1");
    assert_eq!(csv_channels_or_default(&Vec::new()), "1");
    assert_eq!(bridge_bin_path(&None, &config, "bridge".to_string()), "bridge");
    assert_eq!(bridge_bin_path(&Some("x".to_string()), &config, "bridge".to_string()), "x");
}

#[test]
fn command_lines_move_the_launcher() {
    let mut config = BridgeAppConfig::default();
    let args = BridgeAppArgs {
        bridge_bin: Some("b".to_string()),
        server_host: Some("studio.local".to_string()),
        server: None,
        control: None,
        admin: None,
    };
    let lookup = config.merge_cli(&args);
    assert_eq!(lookup.unwrap().host, "studio.local");
    config.set_resolved_server(Some(addr("10.0.0.5:40000")));
    assert_eq!(config.server.to_text(), "10.0.0.5:40000");
    assert_eq!(config.control, "ws://studio.local:40001");
    assert_eq!(config.bridge_bin.as_deref(), Some("b"));
    assert_eq!(config.effective_admin().as_deref(), Some("http://studio.local:40002"));
}

#[test]
fn starting_a_route_is_decided() {
    let mut config = BridgeAppConfig::default();
    config.routes.push(browser_route());
    assert_eq!(
        start_route(&config, "program-in", false, false).unwrap(),
        StartAction::SpawnBridge(0)
    );
    assert_eq!(
        start_route(&config, "program-in", false, true).unwrap(),
        StartAction::Nothing
    );
    assert_eq!(
        start_route(&config, "mix 1", false, true).unwrap(),
        StartAction::ServeBrowser(1)
    );
    assert_eq!(start_route(&config, "mix 1", true, false).unwrap(), StartAction::Nothing);
    let error = start_route(&config, "none", false, false).unwrap_err();
    assert_eq!((error.status, error.message.as_str()), (400, "unknown bridge route `none`"));
    let error = find_browser_route(&config, "program-in").unwrap_err();
    assert_eq!(
        error.message,
        "route `program-in` is not a vMix Browser Source output"
    );
    config.routes[0].enabled = false;
    assert_eq!(enabled_routes(&config), vec!["mix 1"]);
}

#[test]
fn pages_and_urls_name_their_route() {
    let route = browser_route();
    let page = vmix_source_page(&route);
    assert!(page.starts_with("<!doctype html>"));
    assert!(page.contains("<title>Mix &lt;1&gt;</title>"));
    assert!(page.contains("'/vmix/source/mix 1/ws'"));
    assert!(page.contains("RedLine Mix &lt;1&gt; connected"));
    assert!(page.ends_with("</script></body></html>"));
    assert!(!page.contains("{{"));
    assert_eq!(
        vmix_source_url("http://127.0.0.1:41012/", &route),
        "http://127.0.0.1:41012/vmix/source/mix%201"
    );
}

#[test]
fn the_state_of_the_launcher_is_shown() {
    let mut config = BridgeAppConfig::default();
    config.routes.push(browser_route());
    config.routes.push(BridgeRouteConfig {
        id: "ndi".to_string(),
        user_id: 92,
        input_kind: RouteInputKind::NdiSource,
        ndi_source: Some("Gone".to_string()),
        ..BridgeRouteConfig::default()
    });
    let mut connections = BrowserConnections::new();
    connections.increment("mix 1");
    let mut telemetry = BrowserSourceTelemetry::default();
    telemetry.record_audio(250_000, 1000);
    let around = Surroundings {
        input_devices: Ok(vec!["USB".to_string(), "A".to_string(), "USB".to_string()]),
        output_devices: Err("no host".to_string()),
        ndi: ndi_discovery(Ok(Ok(vec!["Cam".to_string()]))),
        channels: Ok(vec![ChannelOption { id: 7, name: "Seven".to_string() }]),
    };
    let seen = vec![
        RouteObservation::Running { pid: Some(44), started_at_ms: 5 },
        RouteObservation::Served {
            finished: false,
            started_at_ms: 6,
            telemetry: telemetry.snapshot(1500),
        },
        RouteObservation::Exited("exit status: 1".to_string()),
    ];
    let state = state_snapshot(
        config,
        "bridge".to_string(),
        "http://127.0.0.1:41012".to_string(),
        around,
        &connections,
        seen,
    );
    assert_eq!(state.input_devices, vec!["A", "USB"]);
    assert!(state.output_devices.is_empty());
    assert_eq!(
        state.discovery_warnings,
        vec!["output device discovery failed: no host"]
    );
    assert_eq!(state.routes[0].pid, Some(44));
    assert!(state.routes[0].running);
    assert_eq!(state.routes[1].connected_clients, 1);
    assert_eq!(state.routes[1].audio_level_ppm, Some(250_000));
    assert_eq!(state.routes[1].last_audio_ms_ago, Some(500));
    assert!(state.routes[1].warning.as_ref().unwrap().contains("streaming"));
    assert_eq!(state.routes[2].exit.as_deref(), Some("exit status: 1"));
    assert_eq!(
        state.routes[2].warning.as_deref(),
        Some("selected NDI source `Gone` is not discovered")
    );
    let ids: Vec<u16> = state.channels.iter().map(|channel| channel.id).collect();
    assert_eq!(ids, vec![1, 7]);
}

#[test]
fn ndi_that_is_missing_is_told() {
    let missing = ndi_discovery(Err("not found".to_string()));
    assert!(!missing.available);
    assert_eq!(missing.error.as_deref(), Some("NDI runtime unavailable: not found"));
    let broken = ndi_discovery(Ok(Err("x".to_string())));
    assert!(broken.available);
    assert_eq!(broken.error.as_deref(), Some("NDI source discovery failed: x"));
}

#[test]
fn browsers_get_audio_or_silence() {
    let mut telemetry = BrowserSourceTelemetry::default();
    assert!(matches!(
        source_step(&mut telemetry, SourceEvent::Frame(vec![1])),
        SourceAction::Send(bytes) if bytes == vec![1]
    ));
    assert!(matches!(
        source_step(&mut telemetry, SourceEvent::Lagged(3)),
        SourceAction::Wait
    ));
    assert!(matches!(
        source_step(&mut telemetry, SourceEvent::TimedOut),
        SourceAction::SendSilence
    ));
    assert!(matches!(
        source_step(&mut telemetry, SourceEvent::Closed),
        SourceAction::Stop
    ));
    assert_eq!((telemetry.drops, telemetry.underflows), (3, 1));
}

#[test]
fn channels_are_read_from_the_server() {
    let response = b"HTTP/1.1 200 OK\r\nX: y\r\n\r\n{\"channels\":[{\"id\":3,\"name\":\" PA \"},{\"id\":70000},{\"name\":\"x\"},{\"id\":4}]}";
    let channels = admin_channels(response.to_vec()).unwrap();
    let read: Vec<(u16, &str)> =
        channels.iter().map(|channel| (channel.id, channel.name.as_str())).collect();
    assert_eq!(read, vec![(3, "PA"), (4, "")]);
}

#[test]
fn every_fault_of_the_server_state_is_told() {
    let fault = |response: &[u8]| admin_channels(response.to_vec()).unwrap_err();
    assert_eq!(fault(&[0xff]), "admin state response is not utf-8");
    assert_eq!(fault(b"HTTP/1.1 200 OK"), "admin state response has no header/body split");
    assert_eq!(
        fault(b"HTTP/1.1 404 Not Found\r\nA: b\r\n\r\n{}"),
        "admin state returned HTTP/1.1 404 Not Found"
    );
    assert_eq!(fault(b"\r\n\r\n{}"), "admin state returned unknown status");
    assert_eq!(fault(b"HTTP/1.0 200 OK\r\n\r\n{"), "parse admin state JSON");
    assert_eq!(
        fault(b"HTTP/1.0 200 OK\r\n\r\n{}"),
        "admin state JSON has no channels array"
    );
    assert_eq!(
        fault(b"HTTP/1.0 200 OK\r\n\r\n{\"channels\":[]}"),
        "admin state returned no channel options"
    );
    assert_eq!(
        admin_state_body(b"HTTP/1.1 200 OK\r\n\r\na\r\n\r\nb".to_vec()).unwrap(),
        "a\r\n\r\nb"
    );
    let read = Some(Some(vec![(Some(9), Some(" Nine ".to_string())), (None, None)]));
    assert_eq!(channels_of_state(read).unwrap()[0].name, "Nine");
}

#[test]
fn urls_are_taken_apart() {
    assert_eq!(
        parse_http_url("http://[::1]:8080/a/b").unwrap(),
        ParsedHttpUrl {
            host: "::1".to_string(),
            host_header: "[::1]:8080".to_string(),
            port: 8080,
            path: "/a/b".to_string(),
        }
    );
    assert_eq!(parse_http_url("http://host").unwrap().port, 80);
    assert_eq!(parse_http_url("http://host").unwrap().path, "/");
    assert!(parse_http_url("https://host").is_none());
    assert!(parse_http_url("http:///x").is_none());
    assert_eq!(split_host_port("a:b", 9), Some(("a:b".to_string(), 9)));
    assert_eq!(split_host_port("[::1", 9), None);
    assert_eq!(
        derive_admin_base_from_control("ws://[::1]:40001"),
        Some("http://[::1]:40002".to_string())
    );
    assert_eq!(derive_admin_base_from_control("wss://a"), None);
    assert_eq!(admin_state_url(" http://a/ "), "http://a/admin/api/state");
    assert_eq!(admin_state_url("http://a/admin/api/state//"), "http://a/admin/api/state");
    assert_eq!(
        get_request("/x", "h:1"),
        "GET /x HTTP/1.1\r\nHost: h:1\r\nAccept: application/json\r\nConnection: close\r\n\r\n"
    );
    assert_eq!(read_first_line("a\r\nb"), "a");
    assert_eq!(read_first_line("a\r"), "a\r");
    assert_eq!(shutdown_target(&addr("0.0.0.0:5")).to_text(), "127.0.0.1:5");
    assert_eq!(shutdown_target(&addr("[::]:5")).to_text(), "127.0.0.1:5");
    assert_eq!(shutdown_target(&addr("[fe80::1]:5")).to_text(), "[fe80::1]:5");
    assert!(stop_all_request(&addr("10.0.0.1:5")).contains("Host: 10.0.0.1:5\r\n"));
}

#[test]
fn the_tally_is_read() {
    let response = "HTTP/1.1 200 OK\r\n\r\n{\"tally\":{\"state\":\"live\"}}";
    let lamps = tally_of_response(response).unwrap();
    assert_eq!((lamps.preview, lamps.live), (false, true));
    assert!(!tally_of_response("HTTP/1.1 200 OK\r\n\r\n{}").unwrap().live);
    assert_eq!(
        tally_of_response("HTTP/1.1 200 OK\r\n\r\n[").unwrap_err(),
        "parse local API state JSON"
    );
    assert_eq!(
        tally_of_response("HTTP/1.1 200 OK").unwrap_err(),
        "local API state response has no body"
    );
    assert_eq!(
        tally_of_response("HTTP/1.1 401 Unauthorized\r\n\r\n").unwrap_err(),
        "local API rejected /api/state: HTTP/1.1 401 Unauthorized"
    );
    assert!(tally_lamps(Some(Some("preview".to_string()))).unwrap().preview);
    assert!(check_response("/x", "HTTP/1.0 204 No Content").is_ok());
}

#[test]
fn every_pin_fault_is_told() {
    let empty = GpioConfig {
        buttons: Vec::new(),
        outputs: GpioOutputs::default(),
        ..GpioConfig::default()
    };
    assert_eq!(
        validate_config(&empty).unwrap_err(),
        "GPIO config must define at least one button or tally output"
    );
    let nameless = GpioConfig {
        outputs: GpioOutputs {
            preview: None,
            live: Some(GpioOutput { name: " ".to_string(), gpio: 1, active_low: false }),
        },
        ..GpioConfig::default()
    };
    assert_eq!(validate_config(&nameless).unwrap_err(), "GPIO output name cannot be empty");
    let button = |name: &str, id: &str| GpioButton {
        name: name.to_string(),
        gpio: 1,
        active_low: true,
        mode: ButtonMode::Momentary,
        action: ButtonAction::TalkButton { button_id: id.to_string() },
    };
    let unnamed = GpioConfig { buttons: vec![button(" ", "a")], ..GpioConfig::default() };
    assert_eq!(validate_config(&unnamed).unwrap_err(), "GPIO button name cannot be empty");
    let unbound = GpioConfig { buttons: vec![button("a", " ")], ..GpioConfig::default() };
    assert_eq!(
        validate_config(&unbound).unwrap_err(),
        "GPIO talk button action requires a button_id"
    );
    assert_eq!(
        parse_http_target("https://a:1").unwrap_err(),
        "local API URL must start with http://"
    );
    assert_eq!(
        parse_http_target("http://a/").unwrap_err(),
        "local API URL must include host:port"
    );
    assert_eq!(parse_http_target("http://a:x").unwrap_err(), "parse local API port");
    let target = HttpTarget { host: "a".to_string(), port: 7 };
    assert_eq!(
        request_text(&target, "POST", "/talk/down", Some("t")),
        "POST /talk/down HTTP/1.1\r\nHost: a:7\r\nAuthorization: Bearer t\r\nContent-Length: 0\r\nConnection: close\r\n\r\n"
    );
    assert!(!request_text(&target, "GET", "/", Some("")).contains("Authorization"));
}

#[test]
fn ndi_frames_are_checked_and_copied() {
    let good = FrameHeader {
        has_data: true,
        sample_rate: 48_000,
        no_channels: 2,
        no_samples: 2,
        four_cc: NDI_FOURCC_FLTP,
        channel_stride_in_bytes: 0,
    };
    let shape = frame_shape(good).unwrap();
    assert_eq!(
        shape,
        FrameShape { sample_rate_hz: 48_000, channels: 2, samples_per_channel: 2, stride: 8 }
    );
    let mut data = Vec::new();
    for value in [0.5f32, 0.25, -0.5, -0.25] {
        data.extend_from_slice(&value.to_le_bytes());
    }
    let expected: Vec<Gain> = [0.5f32, -0.5, 0.25, -0.25].map(gain).to_vec();
    assert_eq!(copy_audio_samples(&data, shape), expected);
    let fault = |header: FrameHeader| frame_shape(header).unwrap_err();
    assert_eq!(fault(FrameHeader { has_data: false, ..good }), "NDI audio frame had no data");
    assert_eq!(
        fault(FrameHeader { no_samples: 0, ..good }),
        "NDI audio frame had invalid dimensions"
    );
    assert_eq!(
        fault(FrameHeader { four_cc: 0xab, ..good }),
        "unsupported NDI audio format: 0x000000ab"
    );
    assert_eq!(received_kind(2), NdiReceived::Audio);
    assert_eq!(received_kind(4), NdiReceived::Fault);
    assert_eq!(received_kind(3), NdiReceived::Nothing);
    assert_eq!(
        send_shape(48_000, 0, 4).unwrap_err(),
        "cannot send NDI audio with zero channels"
    );
    assert_eq!(send_shape(48_000, 2, 1).unwrap(), None);
    let shape = send_shape(u32::MAX, 2, 5).unwrap().unwrap();
    assert_eq!((shape.sample_rate, shape.no_samples), (48_000, 2));
    assert_eq!(shape.channel_stride_in_bytes, 8);
    assert_eq!(millis_u32(u128::MAX), u32::MAX);
    assert_eq!(c_text(" a ", "no").unwrap(), "a");
    assert_eq!(c_text("a\0b", "no").unwrap_err(), "no");
    assert_eq!(optional_c_text(Some("  ".to_string())).unwrap(), None);
    assert!(optional_c_text(Some("a\0".to_string())).is_err());
    let sources = listed_sources(vec![
        (Some(" Cam ".to_string()), Some(" ".to_string())),
        (None, Some("x".to_string())),
    ]);
    assert_eq!(sources.len(), 1);
    assert_eq!((sources[0].name.as_str(), sources[0].url.as_deref()), ("Cam", None));
}

#[test]
fn the_ndi_library_is_looked_for_in_order() {
    let places = library_candidates(
        HostPlatform::Windows,
        vec!["D:/ndi.dll".to_string()],
        vec!["P/ndi.dll".to_string(), "D:/ndi.dll".to_string()],
    );
    assert_eq!(places, vec!["D:/ndi.dll", "P/ndi.dll", "Processing.NDI.Lib.x64.dll"]);
    let message = library_missing(&places, &vec!["a: b".to_string()]);
    assert!(message.ends_with("Tried: D:/ndi.dll, P/ndi.dll, Processing.NDI.Lib.x64.dll. Usable library errors: a: b"));
    assert!(library_missing(&places, &Vec::new()).ends_with("x64.dll."));
}

#[test]
fn ndi_capture_reconnects() {
    let mut telemetry = EndpointRuntimeTelemetry::default();
    let mut capture = NdiCapture::new();
    assert_eq!(
        capture.step(&mut telemetry, NdiCaptureEvent::ConnectFailed("x".to_string())),
        NdiCaptureAction::Retry(1000)
    );
    assert_eq!(telemetry.warning.as_deref(), Some("NDI source unavailable: x"));
    assert_eq!(
        capture.step(&mut telemetry, NdiCaptureEvent::Connected),
        NdiCaptureAction::Receive
    );
    assert_eq!(telemetry.warning, None);
    let frame = |rate: u32| NdiCaptureEvent::Frame {
        sample_rate_hz: rate,
        channels: 2,
        level_ppm: 9,
        now_ms: 7,
    };
    assert_eq!(
        capture.step(&mut telemetry, frame(48_000)),
        NdiCaptureAction::Take { sample_rate_hz: 48_000, channels: 2, changed: true }
    );
    assert_eq!(
        capture.step(&mut telemetry, frame(48_000)),
        NdiCaptureAction::Take { sample_rate_hz: 48_000, channels: 2, changed: false }
    );
    assert_eq!(
        capture.step(&mut telemetry, frame(44_100)),
        NdiCaptureAction::Take { sample_rate_hz: 44_100, channels: 2, changed: true }
    );
    assert_eq!(
        capture.step(&mut telemetry, NdiCaptureEvent::NoFrame),
        NdiCaptureAction::Receive
    );
    assert_eq!(
        capture.step(&mut telemetry, NdiCaptureEvent::ReceiveFailed("y".to_string())),
        NdiCaptureAction::Connect
    );
    assert_eq!((telemetry.frames, telemetry.underflows, telemetry.reconnects), (3, 1, 2));
    ndi_send_failed(&mut telemetry, "z");
    assert_eq!(telemetry.warning.as_deref(), Some("NDI output send failed: z"));
    ndi_sender_made(&mut telemetry);
    assert_eq!(telemetry.warning, None);
    assert_eq!(ndi_runtime_name(None), "system NDI runtime");
}

#[test]
fn announced_servers_are_read() {
    let browse = "Browsing\r\n10:00 Add 2 4 local. _intercom-suite._tcp. Studio B\r\n10:01 Add 2 4 local. _intercom-suite._tcp. Studio A\n10:02 Rmv 0 4 local. _intercom-suite._tcp. Gone\n10:03 Add 2 4 local. _intercom-suite._tcp. Studio A";
    assert_eq!(browse_instance_names(browse), vec!["Studio A", "Studio B"]);
    let output = "Lookup Studio A\n10:00 Studio\\032A can be reached at studio-a.local.:40001 (interface 4)\n name=Studio\\032A audio_port=40000 admin_port=40002 version=1.2 version=1.3";
    assert_eq!(
        resolved_place(output),
        Some(("studio-a.local".to_string(), 40001))
    );
    assert_eq!(decode_dns_sd_txt("Studio\\032A\\9"), "Studio A\u{9}");
    assert_eq!(decode_dns_sd_txt("a\\999b"), "ab");
    assert_eq!(txt_record(output, "version").as_deref(), Some("1.3"));
    assert_eq!(txt_record(output, "auth"), None);
    let profile = parse_resolved_profile("Studio A", output, "fe80::1", 40001);
    assert_eq!(profile.name, "Studio A");
    assert_eq!(profile.control, "ws://[fe80::1]:40001");
    assert_eq!(profile.server, "fe80::1:40000");
    assert_eq!(profile.admin.as_deref(), Some("http://[fe80::1]:40002"));
    assert_eq!(profile.id, "Studio A|ws://[fe80::1]:40001");
    assert!(profile.discovered);
    assert_eq!(resolved_place("x can be reached at host"), None);
}

#[test]
fn profiles_are_completed_from_their_host() {
    let bare = MobileServerProfile {
        server_host: " studio.local ".to_string(),
        ..MobileServerProfile::default()
    };
    assert_eq!(
        profile_lookup(&bare, &None),
        Some(("studio.local".to_string(), 40000))
    );
    let full = normalize_mobile_profile(
        bare,
        ProfileAddresses { server: None, found: Some(addr("10.0.0.5:40000")) },
    );
    assert_eq!(full.server, "10.0.0.5:40000");
    assert_eq!(full.control, "ws://studio.local:40001");
    assert_eq!(full.admin.as_deref(), Some("http://studio.local:40002"));
    assert_eq!(full.id, "ws://studio.local:40001");
    let kept = forget_profile(&vec![full.clone()], "other");
    assert_eq!(kept.len(), 1);
    assert!(forget_profile(&kept, &full.id).is_empty());
}

#[test]
fn desktops_show_servers_in_order() {
    let profile = |id: &str, last: Option<u64>, discovered: bool| MobileServerProfile {
        id: id.to_string(),
        name: id.to_string(),
        control: format!("ws://{id}:40001"),
        last_connected_ms: last,
        discovered,
        ..MobileServerProfile::default()
    };
    let none = || ProfileAddresses { server: None, found: None };
    let merged = native_merge_profiles(
        vec![profile("b", None, false), profile("a", None, false)],
        vec![profile("c", Some(9), false)],
        vec![none()],
    );
    assert_eq!(merged.len(), 3);
    let sorted = native_sorted_profiles(merged, vec![none(), none(), none()]);
    let ids: Vec<&str> = sorted.iter().map(|profile| profile.id.as_str()).collect();
    assert_eq!(ids, vec!["c", "a", "b"]);
}

#[test]
fn settings_remember_their_server() {
    let mut settings = AppSettings::default();
    settings.server_profiles = vec![MobileServerProfile {
        id: "known".to_string(),
        name: "Studio".to_string(),
        control: "ws://127.0.0.1:40001".to_string(),
        auth: Some("required".to_string()),
        ..MobileServerProfile::default()
    }];
    let mobile = mobile_profile_for_settings(&settings, Some(3), Some(addr("127.0.0.1:40000")));
    assert_eq!((mobile.id.as_str(), mobile.name.as_str()), ("known", "Studio"));
    assert_eq!(mobile.admin.as_deref(), Some("http://127.0.0.1:40002"));
    assert_eq!(mobile.auth.as_deref(), Some("required"));
    assert_eq!(mobile.last_connected_ms, Some(3));
    settings.control = "ws://10.0.0.1:1".to_string();
    let native = native_profile_for_settings(&settings, None);
    assert_eq!(native.name, "Manual server");
    assert_eq!(native.id, "Manual server|ws://10.0.0.1:1");
    assert_eq!(native.server, "127.0.0.1:40000");
}

#[test]
fn servers_are_selected() {
    let profile = MobileServerProfile {
        server_host: "10.0.0.7".to_string(),
        control: "ws://10.0.0.7:40001".to_string(),
        ..MobileServerProfile::default()
    };
    let profile = complete_selected(profile).unwrap();
    assert_eq!(profile.name, "ws://10.0.0.7:40001");
    assert_eq!(
        complete_selected(MobileServerProfile::default()).unwrap_err(),
        "control WebSocket URL cannot be empty"
    );
    let mut settings = AppSettings::default();
    select_mobile_server(&mut settings, &profile, addr("10.0.0.7:40000"));
    assert_eq!(settings.server_host, "10.0.0.7");
    assert!(!settings.advanced_endpoints);
    let mut settings = AppSettings::default();
    select_native_server(&mut settings, &profile, addr("10.0.0.7:40000"));
    assert_eq!(settings.server.to_text(), "10.0.0.7:40000");
    assert_eq!(settings.server_host, "127.0.0.1");
    settings.app_title = "  ".to_string();
    prepare_native_saved_settings(&mut settings);
    assert_eq!(settings.app_title, "RedLine");
    assert_eq!(settings.window_mode, AppWindowMode::Native);
    prepare_native_runtime_settings(&mut settings);
    assert!(settings.disable_local_ui);
    assert_eq!(temp_file_name(Some("app.json"), "x", 12), "app.json.12.tmp");
    assert_eq!(temp_file_name(None, "x", 12), "x.12.tmp");
}

#[test]
fn windows_follow_their_client() {
    let mut window = WindowRuntime::new(WindowKind::Native);
    assert_eq!(window.refusal().as_deref(), Some("native client is not running"));
    assert!(window.begin());
    assert_eq!(window.phase, ClientRuntimePhase::Starting);
    window.started();
    assert!(!window.begin());
    assert!(window.refusal().is_none());
    window.refresh(RuntimeCheck::Exited);
    assert_eq!(window.phase, ClientRuntimePhase::Stopped);
    assert_eq!(window.refusal().as_deref(), Some("native client runtime exited"));
    window.started();
    window.refresh(RuntimeCheck::Broke("boom".to_string()));
    assert_eq!(window.phase, ClientRuntimePhase::Failed);
    window.refresh(RuntimeCheck::Alive);
    assert_eq!(window.phase, ClientRuntimePhase::Failed);
    window.failed("no".to_string());
    assert_eq!(window.refusal().as_deref(), Some("no"));
    assert!(!window.stopped());
    assert_eq!(window.last_error, None);
    assert_eq!(mobile_runtime_phase_name(ClientRuntimePhase::Failed), "failed");
    assert_eq!(NativeTrayAction::TalkUp.report(), "TalkUp sent");
    assert_eq!(NativeTrayAction::Status.report(), "status refreshed");
    let plan = AppLaunchPlan {
        app_title: "a".to_string(),
        window_mode: AppWindowMode::Native,
        local_ui_url: Some("http://a/".to_string()),
        opens_window: true,
    };
    assert_eq!(url_to_open(&plan), None);
}

#[test]
fn found_hosts_are_reached_over_ipv4_first() {
    let ips = |list: &[&str]| list.iter().map(|ip| ip.to_string()).collect::<Vec<String>>();
    assert_eq!(resolve_host_ip("studio", &ips(&["fe80::1", "10.0.0.5", "10.0.0.6"])), "10.0.0.5");
    assert_eq!(resolve_host_ip("studio", &ips(&["fe80::1", "fe80::2"])), "fe80::1");
    assert_eq!(resolve_host_ip("studio", &ips(&[])), "studio");
}

fn defaults() -> SharedDefaults {
    SharedDefaults {
        processing: ProcessingConfig {
            mode: ProcessingMode::Auto,
            profile: ProcessingProfile::Voice,
            vad: true,
            transient_suppression: true,
            native_voice_processing: true,
        },
        ifb: IfbConfig {
            enabled: false,
            program: Vec::new(),
            interrupt: Vec::new(),
            duck_gain: gain(0.25),
        },
        esp32_audio: Esp32AudioConfig { encoded: String::new() },
        tally: TallyStatus { encoded: "off".to_string() },
    }
}

#[test]
fn routes_for_browsers_introduce_themselves() {
    let mut config = browser_source_client_config(&browser_route(), defaults());
    assert_eq!(config.client_uid, "bridge-app-vmix-mix 1");
    let hello = |enrollment: EnrollmentStatus| ControlResponse::Hello {
        preconfigured: true,
        user_id: 77,
        client_uid: "given".to_string(),
        enrollment,
    };
    assert!(source_greet(&mut config, hello(EnrollmentStatus::Rejected)).is_err());
    assert_eq!(config.user_id, 90);
    let message = source_greet(&mut config, hello(EnrollmentStatus::Enrolled)).unwrap();
    assert!(matches!(message, ControlMessage::Config(m) if m.user_id == 77 && m.listen == vec![1]));
    assert_eq!(config.client_uid, "given");
}

#[test]
fn only_bridges_announce_what_they_can_do() {
    let config = browser_source_client_config(&browser_route(), defaults());
    assert_eq!(config.role, ClientRole::Bridge);
    assert_eq!(config.capabilities, Some(ClientCapabilities::Bridge));
    assert_eq!(config.tally.as_ref().unwrap().encoded, "off");
    let hello = bridge_hello(&config);
    assert_eq!(hello.capabilities, Some(ClientCapabilities::Bridge));
    assert_eq!((hello.user_id, hello.requested_user_id), (90, Some(90)));
    assert_eq!(hello.client_uid, "bridge-app-vmix-mix 1");
    assert_eq!(hello.role, ClientRole::Bridge);
    assert!(hello.buttons.is_empty() && !hello.codecs.is_empty());
    assert_eq!(first_hello(&config, ClientRole::Client).capabilities, None);
    assert_eq!(reconnect_hello(&config).capabilities, None);
}

#[test]
fn values_in_json_are_found_by_their_keys() {
    let object = JsonNode::Object(vec![
        ("a".to_string(), "1".to_string()),
        ("b".to_string(), "[2]".to_string()),
    ]);
    assert_eq!(object.get("b").as_deref(), Some("[2]"));
    assert_eq!(object.get("c"), None);
    assert_eq!(JsonNode::Text("a".to_string()).get("a"), None);
    assert_eq!(JsonNode::Array(vec!["1".to_string()]).get("a"), None);

    let body = "{\"rows\":[{\"n\":7,\"t\":\"x\\u0041\"},{\"n\":-1,\"t\":5},{\"n\":1.5},3,null,[true]]}";
    let rows = read_json_rows(body, "rows", "n", "t").unwrap().unwrap();
    assert_eq!(rows[0], (Some(7), Some("xA".to_string())));
    assert_eq!(rows[1..], vec![(None, None); 5]);
    assert_eq!(read_json_rows("{\"rows\":{}}", "rows", "n", "t"), Some(None));
    assert_eq!(read_json_rows("[]", "rows", "n", "t"), Some(None));
    assert_eq!(read_json_rows("{", "rows", "n", "t"), None);
    assert_eq!(
        read_json_text("{\"o\":{\"i\":\"x\",\"i\":\"y\"}}", "o", "i"),
        Some(Some("y".to_string()))
    );
    assert_eq!(read_json_text("{\"o\":{\"i\":false}}", "o", "i"), Some(None));
    assert_eq!(read_json_text("{\"o\":\"i\"}", "o", "i"), Some(None));
    assert_eq!(read_json_text("", "o", "i"), None);
}

#[test]
fn audio_for_browsers_is_counted() {
    let config = browser_source_client_config(
        &BridgeRouteConfig { stereo: true, ..browser_route() },
        defaults(),
    );
    let mut telemetry = BrowserSourceTelemetry::default();
    let plan = source_packet_received(&mut telemetry, &config, Some(Codec::Pcm48)).unwrap();
    assert_eq!(plan.channels, 2);
    assert!(source_packet_received(&mut telemetry, &config, None).is_none());
    source_payload_decoded(&mut telemetry, Some((500_000, 12)), true);
    source_payload_decoded(&mut telemetry, Some((600_000, 13)), false);
    source_payload_decoded(&mut telemetry, None, false);
    assert_eq!((telemetry.audio_frames, telemetry.drops), (2, 3));
    assert_eq!((telemetry.audio_level_ppm, telemetry.last_audio_ms), (600_000, 13));
}
