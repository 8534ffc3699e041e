use std::path::{Path, PathBuf};

use redline::buttons::{DEFAULT_CLIENT_BUTTON_COUNT, MAX_CLIENT_BUTTON_COUNT};
use redline::capture::InputChannelMode;
use redline::device::AudioInputBackend;
use redline::endpoint::HostLookup;
use redline::gain::Gain;
use redline::launch::{
    build_launch_plan, open_command_for_platform, summarize_state_fields, HostPlatform,
    NativeTrayAction, MENU_MUTE, MENU_OPEN, MENU_QUIT, MENU_SETTINGS, MENU_STATUS, MENU_TALK_DOWN,
    MENU_TALK_UP, MENU_UNMUTE,
};
use redline::net::SocketAddress;
use redline::profiles::{MobileServerProfile, ProfileAddresses};
use redline::protocol::{Codec, OpusProfile};
use redline::settings::{
    apply_native_defaults, remember_mobile_profile, temp_file_name, AppArgs, AppCodec,
    AppOpusProfile, AppSettings, AppWindowMode,
};
use redline::ui::{ClientAudioBackendKind, ClientInputChannelMode};

fn gain(value: f32) -> Gain {
    Gain { bits: value.to_bits() }
}

fn addr(text: &str) -> SocketAddress {
    let (ip, port) = text.rsplit_once(':').unwrap();
    SocketAddress { ip: ip.to_string(), port: port.parse().unwrap() }
}

fn args() -> AppArgs {
    AppArgs {
        server_host: None,
        server: None,
        control: None,
        user_id: None,
        client_uid: None,
        identity_file: None,
        tx_channel: None,
        listen_channel: None,
        codec: None,
        opus_profile: None,
        mic_gain: None,
        input_limiter: false,
        disable_input_transient_suppression: false,
        speaker_gain: None,
        jitter_ms: None,
        input_device: None,
        input_backend: None,
        input_channel: None,
        output_device: None,
        debug_audio_dir: None,
        button_count: None,
        buttons: Vec::new(),
        button_keys: Vec::new(),
        local_ui_bind: None,
        local_ui_token: None,
        disable_local_ui: false,
        enable_local_ui: false,
        window_mode: None,
        app_title: None,
        ui_open_delay_ms: None,
    }
}

/// What the text of a profile's server names.
fn addresses(profile: &MobileServerProfile) -> ProfileAddresses {
    ProfileAddresses { server: Some(addr(profile.server.trim())), found: None }
}

#[test]
fn tray_action_maps_menu_ids() {
    assert_eq!(NativeTrayAction::from_menu_id(MENU_OPEN), NativeTrayAction::Open);
    assert_eq!(NativeTrayAction::from_menu_id(MENU_SETTINGS), NativeTrayAction::Settings);
    assert_eq!(NativeTrayAction::from_menu_id(MENU_STATUS), NativeTrayAction::Status);
    assert_eq!(NativeTrayAction::from_menu_id(MENU_MUTE), NativeTrayAction::Mute);
    assert_eq!(NativeTrayAction::from_menu_id(MENU_UNMUTE), NativeTrayAction::Unmute);
    assert_eq!(NativeTrayAction::from_menu_id(MENU_TALK_DOWN), NativeTrayAction::TalkDown);
    assert_eq!(NativeTrayAction::from_menu_id(MENU_TALK_UP), NativeTrayAction::TalkUp);
    assert_eq!(NativeTrayAction::from_menu_id(MENU_QUIT), NativeTrayAction::Quit);
    assert_eq!(NativeTrayAction::from_menu_id("other"), NativeTrayAction::Unknown);
}

#[test]
fn tray_actions_map_to_client_api() {
    assert!(NativeTrayAction::Status.uses_client_api());
    assert!(NativeTrayAction::Mute.uses_client_api());
    assert!(NativeTrayAction::Unmute.uses_client_api());
    assert!(NativeTrayAction::TalkDown.uses_client_api());
    assert!(NativeTrayAction::TalkUp.uses_client_api());
    assert!(!NativeTrayAction::Open.uses_client_api());
    assert!(!NativeTrayAction::Settings.uses_client_api());
}

#[test]
fn state_summary_uses_client_identity_mode_and_codec() {
    assert_eq!(summarize_state_fields(7, "Ptt", "Pcm48"), "client 7 Ptt Pcm48");
}

#[test]
fn native_defaults_to_native_window_mode() {
    let mut plain = args();
    apply_native_defaults(&mut plain);
    assert_eq!(plain.window_mode, Some(AppWindowMode::Native));

    let mut explicit_disabled = args();
    explicit_disabled.window_mode = Some(AppWindowMode::Disabled);
    apply_native_defaults(&mut explicit_disabled);
    assert_eq!(explicit_disabled.window_mode, Some(AppWindowMode::Disabled));
}

#[test]
fn defaults_match_desktop_launcher_defaults() {
    let settings = AppSettings::default();

    assert_eq!(settings.user_id, Some(1));
    assert_eq!(settings.server_host, "127.0.0.1");
    assert_eq!(settings.server.to_text(), "127.0.0.1:40000");
    assert_eq!(settings.control, "ws://127.0.0.1:40001");
    assert!(!settings.advanced_endpoints);
    assert_eq!(settings.tx_channel, 1);
    assert_eq!(settings.listen_channel, 1);
    assert_eq!(settings.codec, Codec::Pcm16);
    assert_eq!(settings.opus_profile, OpusProfile::Speech24Standard);
    assert!(!settings.input_limiter);
    assert!(settings.input_transient_suppression);
    assert_eq!(settings.input_backend, AudioInputBackend::Auto);
    assert_eq!(settings.input_channel, InputChannelMode::Average);
    assert_eq!(settings.local_ui_bind.to_text(), "127.0.0.1:41002");
    assert_eq!(settings.local_ui_token, None);
    assert_eq!(settings.button_count, DEFAULT_CLIENT_BUTTON_COUNT);
    assert_eq!(settings.app_title, "Intercom Suite");
    assert_eq!(settings.window_mode, AppWindowMode::SystemBrowser);
    assert_eq!(settings.ui_open_delay_ms, 750);
    assert!(settings.server_profiles.is_empty());
}

#[test]
fn server_host_derives_runtime_endpoints() {
    let settings = AppSettings {
        server_host: "192.168.12.84".to_string(),
        ..AppSettings::default()
    };

    let runtime = settings
        .client_runtime_config(false, HostLookup::Found(addr("192.168.12.84:40000")))
        .unwrap();
    assert_eq!(runtime.server_host, "192.168.12.84");
    assert_eq!(runtime.server.to_text(), "192.168.12.84:40000");
    assert_eq!(runtime.control, "ws://192.168.12.84:40001");
}

#[test]
fn legacy_default_port_settings_migrate_to_server_host() {
    let mut settings = AppSettings {
        server_host: String::new(),
        server: addr("192.168.1.20:40000"),
        control: "ws://192.168.1.20:40001".to_string(),
        admin: Some("http://192.168.1.20:40002".to_string()),
        ..AppSettings::default()
    };

    let lookup = settings.normalize_endpoints(Vec::new()).unwrap();
    settings.set_resolved_server(Some(SocketAddress { ip: lookup.host, port: 40000 }));
    assert_eq!(settings.server_host, "192.168.1.20");
    assert!(!settings.advanced_endpoints);
    assert_eq!(settings.server.to_text(), "192.168.1.20:40000");
    assert_eq!(settings.control, "ws://192.168.1.20:40001");
    assert_eq!(settings.admin, None);
}

#[test]
fn settings_build_platform_neutral_runtime_config() {
    let settings = AppSettings {
        codec: Codec::Opus,
        input_backend: AudioInputBackend::VoiceProcessing,
        input_channel: InputChannelMode::Left,
        button_count: 8,
        buttons: vec!["director=Director".to_string()],
        ..AppSettings::default()
    };

    let runtime = settings
        .client_runtime_config(false, HostLookup::Found(addr("127.0.0.1:40000")))
        .unwrap();

    assert_eq!(runtime.codec, Codec::Opus);
    assert_eq!(runtime.input_backend, ClientAudioBackendKind::VoiceProcessing);
    assert_eq!(runtime.input_channel, ClientInputChannelMode::Left);
    assert_eq!(runtime.button_count, 8);
    assert_eq!(runtime.buttons, vec!["director=Director"]);
    assert!(!runtime.list_devices);
}

#[test]
fn cli_values_override_file_settings() {
    let mut settings = AppSettings {
        user_id: Some(7),
        tx_channel: 2,
        disable_local_ui: true,
        buttons: vec!["old=Old".to_string()],
        ..AppSettings::default()
    };
    let mut args = args();
    args.user_id = Some(9);
    args.tx_channel = Some(5);
    args.codec = Some(AppCodec::Pcm48);
    args.opus_profile = Some(AppOpusProfile::Speech48High);
    args.input_backend = Some(AudioInputBackend::Raw);
    args.button_count = Some(4);
    args.buttons = vec!["director=Director".to_string()];
    args.local_ui_token = Some("secret".to_string());
    args.enable_local_ui = true;
    args.window_mode = Some(AppWindowMode::Disabled);
    args.app_title = Some("Bench Client".to_string());
    args.ui_open_delay_ms = Some(25);

    settings.merge_cli(&args, Vec::new());

    assert_eq!(settings.user_id, Some(9));
    assert_eq!(settings.tx_channel, 5);
    assert_eq!(settings.codec, Codec::Pcm48);
    assert_eq!(settings.opus_profile, OpusProfile::Speech48High);
    assert_eq!(settings.input_backend, AudioInputBackend::Raw);
    assert_eq!(settings.button_count, 4);
    assert_eq!(settings.buttons, vec!["director=Director"]);
    assert_eq!(settings.local_ui_token.as_deref(), Some("secret"));
    assert!(!settings.disable_local_ui);
    assert_eq!(settings.window_mode, AppWindowMode::Disabled);
    assert_eq!(settings.app_title, "Bench Client");
    assert_eq!(settings.ui_open_delay_ms, 25);
}

#[test]
fn mobile_server_profiles_are_normalized_deduplicated_and_capped() {
    let mut settings = AppSettings::default();
    let first = MobileServerProfile {
        name: "  Studio A  ".to_string(),
        server: "  192.168.1.20:40000  ".to_string(),
        control: "  ws://192.168.1.20:40001  ".to_string(),
        admin: Some("  http://192.168.1.20:40002  ".to_string()),
        auth: Some(" required ".to_string()),
        version: Some(" 0.1.0 ".to_string()),
        discovered: true,
        ..MobileServerProfile::default()
    };

    let at = addresses(&first);
    remember_mobile_profile(&mut settings, first, at);

    assert_eq!(settings.server_profiles.len(), 1);
    assert_eq!(settings.server_profiles[0].id, "Studio A|ws://192.168.1.20:40001");
    assert_eq!(settings.server_profiles[0].name, "Studio A");
    assert_eq!(settings.server_profiles[0].server, "192.168.1.20:40000");
    assert_eq!(settings.server_profiles[0].control, "ws://192.168.1.20:40001");
    assert_eq!(
        settings.server_profiles[0].admin.as_deref(),
        Some("http://192.168.1.20:40002")
    );
    assert_eq!(settings.server_profiles[0].auth.as_deref(), Some("required"));

    let second = MobileServerProfile {
        name: "Studio A renamed".to_string(),
        server: "192.168.1.21:40000".to_string(),
        control: "ws://192.168.1.20:40001".to_string(),
        ..MobileServerProfile::default()
    };
    let at = addresses(&second);
    remember_mobile_profile(&mut settings, second, at);

    assert_eq!(settings.server_profiles.len(), 1);
    assert_eq!(settings.server_profiles[0].name, "Studio A renamed");
    assert_eq!(settings.server_profiles[0].server, "192.168.1.21:40000");

    for index in 0..25 {
        let profile = MobileServerProfile {
            name: format!("Server {index}"),
            server: format!("192.168.1.{index}:40000"),
            control: format!("ws://192.168.1.{index}:40001"),
            ..MobileServerProfile::default()
        };
        let at = addresses(&profile);
        remember_mobile_profile(&mut settings, profile, at);
    }

    assert_eq!(settings.server_profiles.len(), 20);
    assert_eq!(settings.server_profiles[0].name, "Server 24");
}

#[test]
fn desktop_args_parse_button_strings() {
    let settings = AppSettings {
        user_id: Some(1),
        buttons: vec!["director=Director".to_string()],
        button_keys: vec!["director=d".to_string()],
        ..AppSettings::default()
    };

    let args = settings.desktop_args(false, HostLookup::Found(addr("127.0.0.1:40000"))).unwrap();

    assert_eq!(args.user_id, Some(1));
    assert_eq!(args.server_host.as_deref(), Some("127.0.0.1"));
    assert_eq!(args.button_count, DEFAULT_CLIENT_BUTTON_COUNT);
    assert_eq!(args.buttons.len(), 1);
    assert_eq!(args.button_keys.len(), 1);
}

#[test]
fn validates_settings_before_launch_or_save() {
    let mut settings = AppSettings { jitter_ms: 251, ..AppSettings::default() };
    assert!(settings.validate().is_err());

    settings.jitter_ms = 40;
    settings.mic_gain = gain(9.0);
    assert!(settings.validate().is_err());

    settings.mic_gain = gain(1.0);
    settings.buttons = vec!["=NoId".to_string()];
    assert!(settings.validate().is_err());

    settings.buttons.clear();
    settings.app_title = "   ".to_string();
    assert!(settings.validate().is_err());

    settings.app_title = "Intercom Suite".to_string();
    settings.ui_open_delay_ms = 30_001;
    assert!(settings.validate().is_err());

    settings.ui_open_delay_ms = 750;
    settings.button_count = MAX_CLIENT_BUTTON_COUNT + 1;
    assert!(settings.validate().is_err());

    settings.button_count = DEFAULT_CLIENT_BUTTON_COUNT;
    settings.server_host = "http://127.0.0.1".to_string();
    assert!(settings.validate().is_err());

    settings.server_host = "127.0.0.1".to_string();
    settings.advanced_endpoints = true;
    settings.control = "http://127.0.0.1:40001".to_string();
    assert!(settings.validate().is_err());

    settings.control = "ws://127.0.0.1:40001".to_string();
    assert!(settings.validate().is_ok());
}

#[test]
fn launch_plan_opens_system_browser_when_ui_enabled() {
    let mut settings = AppSettings {
        local_ui_bind: addr("127.0.0.1:0"),
        ..AppSettings::default()
    };

    let plan = build_launch_plan(&mut settings, false, addr("127.0.0.1:53211"));

    assert!(plan.opens_window);
    assert_eq!(plan.window_mode, AppWindowMode::SystemBrowser);
    assert_eq!(plan.app_title, "Intercom Suite");
    assert!(plan.local_ui_url.unwrap().starts_with("http://127.0.0.1:"));
    assert_ne!(settings.local_ui_bind.port, 0);
}

#[test]
fn launch_plan_does_not_open_when_disabled_or_listing_devices() {
    let bound = addr("127.0.0.1:41002");
    let mut disabled_settings = AppSettings { disable_local_ui: true, ..AppSettings::default() };
    let disabled_plan = build_launch_plan(&mut disabled_settings, false, bound.copy());
    assert!(!disabled_plan.opens_window);
    assert_eq!(disabled_plan.local_ui_url, None);

    let mut no_window_settings = AppSettings {
        window_mode: AppWindowMode::Disabled,
        ..AppSettings::default()
    };
    let no_window_plan = build_launch_plan(&mut no_window_settings, false, bound.copy());
    assert!(!no_window_plan.opens_window);
    assert_eq!(no_window_plan.local_ui_url, None);

    let mut list_devices_settings = AppSettings::default();
    let list_devices_plan = build_launch_plan(&mut list_devices_settings, true, bound);
    assert!(!list_devices_plan.opens_window);
    assert_eq!(list_devices_plan.local_ui_url, None);
}

#[test]
fn launch_plan_prepares_local_ui_for_native_window() {
    let mut settings = AppSettings {
        window_mode: AppWindowMode::Native,
        local_ui_bind: addr("127.0.0.1:0"),
        ..AppSettings::default()
    };

    let plan = build_launch_plan(&mut settings, false, addr("127.0.0.1:53211"));

    assert!(plan.opens_window);
    assert_eq!(plan.window_mode, AppWindowMode::Native);
    assert!(plan.local_ui_url.unwrap().starts_with("http://127.0.0.1:"));
}

#[test]
fn open_command_for_platform_uses_expected_commands() {
    let url = "http://127.0.0.1:41002/";

    let macos = open_command_for_platform(url, HostPlatform::Macos);
    assert_eq!(macos.program, "open");
    assert_eq!(macos.args, vec![url]);

    let linux = open_command_for_platform(url, HostPlatform::Linux);
    assert_eq!(linux.program, "xdg-open");
    assert_eq!(linux.args, vec![url]);

    let windows = open_command_for_platform(url, HostPlatform::Windows);
    assert_eq!(windows.program, "cmd");
    assert_eq!(windows.args, vec!["/C", "start", "", url]);
}

#[test]
fn temp_settings_path_stays_next_to_target() {
    let path = PathBuf::from("config/app.json");

    let file_name = path.file_name().and_then(|name| name.to_str());
    let tmp = path.with_file_name(temp_file_name(file_name, "intercom-app-settings.json", 7));

    assert_eq!(tmp.parent(), Some(Path::new("config")));
    assert!(tmp.file_name().unwrap().to_string_lossy().starts_with("app.json."));
}
