use redline::gain::Gain;
use redline::gpio::{
    endpoints_for_event, gpio_output_value, gpio_pressed, gpio_value_file, parse_http_target,
    validate_config, ButtonAction, ButtonMode, GpioButton, GpioConfig, GpioOutput, GpioOutputs,
    HttpTarget,
};
use redline::launch::HostPlatform;
use redline::ndi::{library_candidates, planarize, NDI_FOURCC_FLTP};

fn gain(value: f32) -> Gain {
    Gain { bits: value.to_bits() }
}

#[test]
fn sender_planarizes_interleaved_audio() {
    let input = [0.1f32, 0.2, 0.3, 0.4, 0.5, 0.6].map(gain);
    let planar = planarize(&input, 2);
    let expected: Vec<Gain> = [0.1f32, 0.3, 0.5, 0.2, 0.4, 0.6].map(gain).to_vec();
    assert_eq!(planar, expected);
}

#[test]
fn library_candidates_include_platform_name() {
    let candidates = library_candidates(HostPlatform::Macos, Vec::new(), Vec::new());
    assert!(candidates.iter().any(|path| path.ends_with("libndi.dylib")));
    assert!(candidates.iter().any(|path| path.ends_with("libndi.4.dylib")));
    assert!(candidates.iter().any(|path| path.contains("NDI Monitor.app")));

    let candidates = library_candidates(HostPlatform::Linux, Vec::new(), Vec::new());
    assert!(candidates.iter().any(|path| path.contains("libndi.so")));

    let candidates = library_candidates(HostPlatform::Windows, Vec::new(), Vec::new());
    assert!(candidates.iter().any(|path| path.ends_with("Processing.NDI.Lib.x64.dll")));
}

#[test]
fn fltp_fourcc_matches_ndi_value() {
    assert_eq!(NDI_FOURCC_FLTP, 1_884_572_742);
}

#[test]
fn maps_momentary_regular_talk_to_talk_down_up() {
    let button = GpioButton {
        name: "regular-talk".to_string(),
        gpio: 1,
        active_low: true,
        mode: ButtonMode::Momentary,
        action: ButtonAction::RegularTalk,
    };

    assert_eq!(endpoints_for_event(&button, true), vec!["/talk/down"]);
    assert_eq!(endpoints_for_event(&button, false), vec!["/talk/up"]);
}

#[test]
fn maps_talk_buttons_to_button_endpoints() {
    let mut button = GpioButton {
        name: "director".to_string(),
        gpio: 2,
        active_low: true,
        mode: ButtonMode::Momentary,
        action: ButtonAction::TalkButton { button_id: "director one".to_string() },
    };

    assert_eq!(endpoints_for_event(&button, true), vec!["/buttons/director%20one/down"]);
    assert_eq!(endpoints_for_event(&button, false), vec!["/buttons/director%20one/up"]);

    button.mode = ButtonMode::Latching;
    assert_eq!(endpoints_for_event(&button, true), vec!["/buttons/director%20one/toggle"]);
    assert!(endpoints_for_event(&button, false).is_empty());
}

#[test]
fn parses_local_api_url() {
    assert_eq!(
        parse_http_target("http://127.0.0.1:41001").unwrap(),
        HttpTarget { host: "127.0.0.1".to_string(), port: 41001 }
    );
}

#[test]
fn reads_active_low_gpio_value() {
    let button = GpioButton {
        name: "regular-talk".to_string(),
        gpio: 17,
        active_low: true,
        mode: ButtonMode::Momentary,
        action: ButtonAction::RegularTalk,
    };

    assert_eq!(gpio_value_file(button.gpio), "gpio17/value");
    assert!(gpio_pressed("0\n", &button));
}

#[test]
fn writes_active_high_and_active_low_outputs() {
    let preview = GpioOutput { name: "preview".to_string(), gpio: 22, active_low: false };
    let live = GpioOutput { name: "live".to_string(), gpio: 23, active_low: true };

    assert_eq!(gpio_value_file(preview.gpio), "gpio22/value");
    assert_eq!(gpio_output_value(&preview, true), "1\n");
    assert_eq!(gpio_value_file(live.gpio), "gpio23/value");
    assert_eq!(gpio_output_value(&live, true), "0\n");
}

#[test]
fn default_config_is_valid() {
    let config = GpioConfig::default();
    assert_eq!(config.tally_poll_ms, 500);
    validate_config(&config).unwrap();
}

#[test]
fn output_only_config_is_valid() {
    validate_config(&GpioConfig {
        buttons: Vec::new(),
        outputs: GpioOutputs {
            preview: Some(GpioOutput {
                name: "preview".to_string(),
                gpio: 22,
                active_low: false,
            }),
            live: None,
        },
        ..GpioConfig::default()
    })
    .unwrap();
}
