//! Settings of the client.

use vstd::prelude::*;

use crate::capture::InputChannelMode;
use crate::commands::{ButtonArg, ButtonKeyArg};
use crate::device::AudioInputBackend;
use crate::endpoint::{
    ClientEndpointOverrides, ClientServerEndpoint, EndpointError, HostLookup, ServerTarget,
};
use crate::laws::text::{all_space, lemma_blank};
use crate::net::SocketAddress;
use crate::profiles::{
    mobile_profile_id, normalize_mobile_profile, normalize_profiles, profiles, remember_profile,
    MobileServerProfile, ProfileAddresses,
};
use crate::protocol::{Codec, OpusProfile};
use crate::session::{Args, WireCodec, WireOpusProfile};
use crate::settings::{
    app_input_channel_to_core, apply_native_defaults, buttons_fault, codec_to_wire,
    complete_selected, control_index, core_input_backend_to_desktop, core_input_channel_to_desktop,
    keys_fault, mobile_profile_for_settings, native_profile_for_settings, opus_profile_to_wire,
    prepare_mobile_settings, prepare_native_runtime_settings, prepare_native_saved_settings,
    remember_mobile_profile, select_mobile_server, select_native_server, temp_file_name, AppArgs,
    AppCodec, AppOpusProfile, AppSettings, AppWindowMode,
};
use crate::text::{decimal, texts, trim};
use crate::ui::{ClientAudioBackendKind, ClientInputChannelMode, ClientRuntimeConfig};

verus! {

// ---------------------------------------------------------------------------
// Conversions
// ---------------------------------------------------------------------------

/// Codecs, profiles, backends and channels are taken over as what they are.
pub proof fn choices_are_taken_over(
    codec: Codec,
    c: Result<WireCodec, String>,
    profile: OpusProfile,
    p: WireOpusProfile,
    backend: ClientAudioBackendKind,
    b: AudioInputBackend,
    channel: InputChannelMode,
    core: ClientInputChannelMode,
    back: InputChannelMode,
)
    requires
        call_ensures(codec_to_wire, (codec,), c),
        call_ensures(opus_profile_to_wire, (profile,), p),
        call_ensures(core_input_backend_to_desktop, (backend,), b),
        call_ensures(app_input_channel_to_core, (channel,), core),
        call_ensures(core_input_channel_to_desktop, (core,), back),
    ensures
        c is Err <==> codec == Codec::Adpcm,
        c is Ok ==> (c->Ok_0 == WireCodec::Pcm16 <==> codec == Codec::Pcm16) && (c->Ok_0
            == WireCodec::Pcm24 <==> codec == Codec::Pcm24) && (c->Ok_0 == WireCodec::Pcm48
            <==> codec == Codec::Pcm48) && (c->Ok_0 == WireCodec::Opus <==> codec == Codec::Opus),
        p == WireOpusProfile::Speech16Low <==> profile == OpusProfile::Speech16Low,
        p == WireOpusProfile::Speech24Standard <==> profile == OpusProfile::Speech24Standard,
        p == WireOpusProfile::Speech48High <==> profile == OpusProfile::Speech48High,
        p == WireOpusProfile::Music48 <==> profile == OpusProfile::Music48,
        b == AudioInputBackend::Raw <==> backend == ClientAudioBackendKind::Raw,
        b == AudioInputBackend::VoiceProcessing <==> backend
            == ClientAudioBackendKind::VoiceProcessing,
        core == ClientInputChannelMode::Average <==> channel == InputChannelMode::Average,
        core == ClientInputChannelMode::Left <==> channel == InputChannelMode::Left,
        core == ClientInputChannelMode::Right <==> channel == InputChannelMode::Right,
        back == channel,
{
}

/// A window is native unless another is asked for.
pub proof fn windows_are_native_by_default(args: &mut AppArgs)
    requires
        call_ensures(apply_native_defaults, (args,), ()),
    ensures
        old(args).window_mode is None ==> final(args).window_mode == Some(AppWindowMode::Native),
        old(args).window_mode is Some ==> *final(args) == *old(args),
        final(args).server == old(args).server && final(args).user_id == old(args).user_id
            && final(args).buttons == old(args).buttons,
{
}

// ---------------------------------------------------------------------------
// The command line
// ---------------------------------------------------------------------------

/// What is given on the command line takes the place of the setting, and what is not
/// given leaves it.
pub proof fn given_arguments_win(
    a: &mut AppSettings,
    args: AppArgs,
    at: Vec<ProfileAddresses>,
    r: Option<ClientServerEndpoint>,
)
    requires
        call_ensures(AppSettings::merge_cli, (a, &args, at), r),
    ensures
        final(a).user_id == (if args.user_id is Some {
            args.user_id
        } else {
            old(a).user_id
        }),
        final(a).client_uid == (if args.client_uid is Some {
            args.client_uid
        } else {
            old(a).client_uid
        }),
        final(a).identity_file == (if args.identity_file is Some {
            args.identity_file
        } else {
            old(a).identity_file
        }),
        final(a).input_device == (if args.input_device is Some {
            args.input_device
        } else {
            old(a).input_device
        }),
        final(a).output_device == (if args.output_device is Some {
            args.output_device
        } else {
            old(a).output_device
        }),
        final(a).debug_audio_dir == (if args.debug_audio_dir is Some {
            args.debug_audio_dir
        } else {
            old(a).debug_audio_dir
        }),
        final(a).local_ui_token == (if args.local_ui_token is Some {
            args.local_ui_token
        } else {
            old(a).local_ui_token
        }),
        args.app_title is Some ==> final(a).app_title == args.app_title->Some_0,
        args.app_title is None ==> final(a).app_title == old(a).app_title,
        args.tx_channel is Some ==> final(a).tx_channel == args.tx_channel->Some_0,
        args.tx_channel is None ==> final(a).tx_channel == old(a).tx_channel,
        args.listen_channel is Some ==> final(a).listen_channel == args.listen_channel->Some_0,
        args.listen_channel is None ==> final(a).listen_channel == old(a).listen_channel,
        args.mic_gain is Some ==> final(a).mic_gain == args.mic_gain->Some_0,
        args.mic_gain is None ==> final(a).mic_gain == old(a).mic_gain,
        args.speaker_gain is Some ==> final(a).speaker_gain == args.speaker_gain->Some_0,
        args.speaker_gain is None ==> final(a).speaker_gain == old(a).speaker_gain,
        args.jitter_ms is Some ==> final(a).jitter_ms == args.jitter_ms->Some_0,
        args.jitter_ms is None ==> final(a).jitter_ms == old(a).jitter_ms,
        args.input_backend is Some ==> final(a).input_backend == args.input_backend->Some_0,
        args.input_backend is None ==> final(a).input_backend == old(a).input_backend,
        args.input_channel is Some ==> final(a).input_channel == args.input_channel->Some_0,
        args.input_channel is None ==> final(a).input_channel == old(a).input_channel,
        args.button_count is Some ==> final(a).button_count == args.button_count->Some_0,
        args.button_count is None ==> final(a).button_count == old(a).button_count,
        args.window_mode is Some ==> final(a).window_mode == args.window_mode->Some_0,
        args.window_mode is None ==> final(a).window_mode == old(a).window_mode,
        args.ui_open_delay_ms is Some ==> final(a).ui_open_delay_ms == args.ui_open_delay_ms->Some_0,
        args.ui_open_delay_ms is None ==> final(a).ui_open_delay_ms == old(a).ui_open_delay_ms,
        args.codec is Some ==> (final(a).codec == Codec::Pcm16 <==> args.codec == Some(
            AppCodec::Pcm16,
        )) && (final(a).codec == Codec::Pcm24 <==> args.codec == Some(AppCodec::Pcm24)) && (final(a).codec == Codec::Pcm48 <==> args.codec == Some(AppCodec::Pcm48)) && (final(a).codec
            == Codec::Opus <==> args.codec == Some(AppCodec::Opus)),
        args.codec is None ==> final(a).codec == old(a).codec,
        args.opus_profile is Some ==> (final(a).opus_profile == OpusProfile::Speech16Low
            <==> args.opus_profile == Some(AppOpusProfile::Speech16Low)) && (final(a).opus_profile
            == OpusProfile::Speech24Standard <==> args.opus_profile == Some(
            AppOpusProfile::Speech24Standard,
        )) && (final(a).opus_profile == OpusProfile::Speech48High <==> args.opus_profile == Some(
            AppOpusProfile::Speech48High,
        )) && (final(a).opus_profile == OpusProfile::Music48 <==> args.opus_profile == Some(
            AppOpusProfile::Music48,
        )),
        args.opus_profile is None ==> final(a).opus_profile == old(a).opus_profile,
        final(a).input_limiter <==> args.input_limiter || old(a).input_limiter,
        final(a).input_transient_suppression <==> old(a).input_transient_suppression
            && !args.disable_input_transient_suppression,
        args.buttons@.len() > 0 ==> texts(final(a).buttons@) == texts(args.buttons@),
        args.buttons@.len() == 0 ==> texts(final(a).buttons@) == texts(old(a).buttons@),
        args.button_keys@.len() > 0 ==> texts(final(a).button_keys@) == texts(args.button_keys@),
        args.button_keys@.len() == 0 ==> texts(final(a).button_keys@) == texts(old(a).button_keys@),
        args.local_ui_bind is Some ==> final(a).local_ui_bind.ip@ == args.local_ui_bind->Some_0.ip@
            && final(a).local_ui_bind.port == args.local_ui_bind->Some_0.port,
        args.local_ui_bind is None ==> final(a).local_ui_bind.ip@ == old(a).local_ui_bind.ip@
            && final(a).local_ui_bind.port == old(a).local_ui_bind.port,
        args.enable_local_ui ==> !final(a).disable_local_ui,
        !args.enable_local_ui && args.disable_local_ui ==> final(a).disable_local_ui,
        !args.enable_local_ui && !args.disable_local_ui ==> final(a).disable_local_ui
            == old(a).disable_local_ui,
{
    assert(final(a).local_ui_bind.parts().0 == final(a).local_ui_bind.ip@);
    assert(final(a).local_ui_bind.parts().1 == final(a).local_ui_bind.port);
    assert(old(a).local_ui_bind.parts().0 == old(a).local_ui_bind.ip@);
    assert(old(a).local_ui_bind.parts().1 == old(a).local_ui_bind.port);
}

/// Endpoints that are given take the place of the settings, and then the endpoints and
/// the known servers are brought in order as ever.
pub proof fn given_endpoints_win(
    a: &mut AppSettings,
    args: AppArgs,
    at: Vec<ProfileAddresses>,
    r: Option<ClientServerEndpoint>,
    b: &mut AppSettings,
    s: Option<ClientServerEndpoint>,
)
    requires
        call_ensures(AppSettings::merge_cli, (a, &args, at), r),
        call_ensures(AppSettings::normalize_endpoints, (b, at), s),
        old(b).server_profiles == old(a).server_profiles,
        old(b).server_host == (if args.server_host is Some {
            args.server_host->Some_0
        } else {
            old(a).server_host
        }),
        old(b).server == (if args.server is Some {
            args.server->Some_0
        } else {
            old(a).server
        }),
        old(b).control == (if args.control is Some {
            args.control->Some_0
        } else {
            old(a).control
        }),
        old(b).admin == old(a).admin,
        old(b).advanced_endpoints == (args.server is Some || args.control is Some || (
        args.server_host is None && old(a).advanced_endpoints)),
    ensures
        final(a).server_host@ == final(b).server_host@,
        final(a).server.ip@ == final(b).server.ip@ && final(a).server.port == final(b).server.port,
        final(a).control@ == final(b).control@,
        final(a).admin is Some <==> final(b).admin is Some,
        final(a).admin is Some ==> final(a).admin->Some_0@ == final(b).admin->Some_0@,
        final(a).advanced_endpoints == final(b).advanced_endpoints,
        r is Some <==> s is Some,
        r is Some ==> r->Some_0.host@ == s->Some_0.host@,
        profiles(final(a).server_profiles@) == profiles(final(b).server_profiles@),
{
    let f = final(a).fields();
    let g = final(b).fields();
    assert(f == g);
    assert(f.server_host == final(a).server_host@ && g.server_host == final(b).server_host@);
    assert(f.server.0 == final(a).server.ip@ && g.server.0 == final(b).server.ip@);
    assert(f.server.1 == final(a).server.port && g.server.1 == final(b).server.port);
    assert(f.control == final(a).control@ && g.control == final(b).control@);
    assert(f.admin == crate::endpoint::opt_text(final(a).admin));
    assert(g.admin == crate::endpoint::opt_text(final(b).admin));
}

/// The endpoints of the settings are their fields brought in order; the known servers
/// are brought in order too, and nothing else changes.
pub proof fn endpoints_are_brought_in_order(
    a: &mut AppSettings,
    at: Vec<ProfileAddresses>,
    r: Option<ClientServerEndpoint>,
    o: (ClientEndpointOverrides, Option<ClientServerEndpoint>),
    known: Vec<MobileServerProfile>,
    host: &str,
    control: &str,
    n: (ClientEndpointOverrides, Option<ClientServerEndpoint>),
)
    requires
        call_ensures(AppSettings::normalize_endpoints, (a, at), r),
        call_ensures(AppSettings::endpoint_overrides, (old(a),), o),
        call_ensures(normalize_profiles, (old(a).server_profiles, at), known),
        host@ == old(a).server_host@ && control@ == old(a).control@,
        call_ensures(
            ClientEndpointOverrides::normalized,
            (host, old(a).server, control, old(a).admin, old(a).advanced_endpoints),
            n,
        ),
    ensures
        o.0@ == n.0@ && (o.1 is Some <==> n.1 is Some),
        final(a).server_host@ == o.0.server_host@ && final(a).control@ == o.0.control@
            && final(a).advanced_endpoints == o.0.advanced_endpoints,
        final(a).server.ip@ == o.0.server.ip@ && final(a).server.port == o.0.server.port,
        r is Some <==> o.1 is Some,
        r is Some ==> r->Some_0.host@ == o.1->Some_0.host@,
        profiles(final(a).server_profiles@) == profiles(known@),
        final(a).user_id == old(a).user_id && final(a).codec == old(a).codec && final(a).buttons
            == old(a).buttons && final(a).mic_gain == old(a).mic_gain && final(a).app_title
            == old(a).app_title,
{
    let f = final(a).fields();
    assert(f == o.0@);
    assert(f.server_host == final(a).server_host@ && o.0@.server_host == o.0.server_host@);
    assert(f.server.0 == final(a).server.ip@ && o.0@.server.0 == o.0.server.ip@);
    assert(f.server.1 == final(a).server.port && o.0@.server.1 == o.0.server.port);
    assert(f.control == final(a).control@ && o.0@.control == o.0.control@);
}

/// Server, control and administration in effect are those of the endpoints.
pub proof fn endpoints_decide_what_is_in_effect(
    s: AppSettings,
    o: (ClientEndpointOverrides, Option<ClientServerEndpoint>),
    server: Result<ServerTarget, EndpointError>,
    control: Result<String, EndpointError>,
    admin: Result<String, EndpointError>,
    of_server: Result<ServerTarget, EndpointError>,
    of_control: Result<String, EndpointError>,
    of_admin: Result<String, EndpointError>,
)
    requires
        call_ensures(AppSettings::endpoint_overrides, (&s,), o),
        call_ensures(AppSettings::effective_server, (&s,), server),
        call_ensures(AppSettings::effective_control, (&s,), control),
        call_ensures(AppSettings::effective_admin, (&s,), admin),
        call_ensures(ClientEndpointOverrides::effective_server, (&o.0,), of_server),
        call_ensures(ClientEndpointOverrides::effective_control, (&o.0,), of_control),
        call_ensures(ClientEndpointOverrides::effective_admin, (&o.0,), of_admin),
    ensures
        server is Ok <==> of_server is Ok,
        server is Ok ==> server->Ok_0@ == of_server->Ok_0@,
        control is Ok <==> of_control is Ok,
        control is Ok ==> control->Ok_0@ == of_control->Ok_0@,
        admin is Ok <==> of_admin is Ok,
        admin is Ok ==> admin->Ok_0@ == of_admin->Ok_0@,
{
    assert(o.0@.server == o.0.server.parts());
}

/// An address that was found takes the place of the server, and nothing else changes.
pub proof fn found_servers_are_taken(s: &mut AppSettings, found: Option<SocketAddress>)
    requires
        call_ensures(AppSettings::set_resolved_server, (s, found), ()),
    ensures
        found is Some ==> final(s).server == found->Some_0,
        found is None ==> *final(s) == *old(s),
        final(s).server_host == old(s).server_host && final(s).control == old(s).control
            && final(s).server_profiles == old(s).server_profiles && final(s).user_id
            == old(s).user_id,
{
}

// ---------------------------------------------------------------------------
// Validity
// ---------------------------------------------------------------------------

proof fn lemma_buttons(s: Seq<Seq<char>>, n: int)
    requires
        0 <= n <= s.len(),
    ensures
        buttons_fault(s, n) is None <==> forall|i: int|
            0 <= i < n ==> crate::commands::button_arg(#[trigger] s[i]) is Some,
    decreases n,
{
    if n > 0 {
        lemma_buttons(s, n - 1);
        assert(crate::commands::button_arg(s[n - 1]) is None || crate::commands::button_arg(
            s[n - 1],
        ) is Some);
    }
}

proof fn lemma_keys(s: Seq<Seq<char>>, n: int)
    requires
        0 <= n <= s.len(),
    ensures
        keys_fault(s, n) is None <==> forall|i: int|
            0 <= i < n ==> crate::commands::button_key_arg(#[trigger] s[i]) is Ok,
    decreases n,
{
    if n > 0 {
        lemma_keys(s, n - 1);
        assert(crate::commands::button_key_arg(s[n - 1]) is Err || crate::commands::button_key_arg(
            s[n - 1],
        ) is Ok);
    }
}

/// Settings are valid where their endpoints are, the title says something, numbers and
/// gains are within bounds, the codec is supported, and every button and key is read.
pub proof fn valid_settings_meet_every_rule(
    s: AppSettings,
    r: Result<(), String>,
    o: (ClientEndpointOverrides, Option<ClientServerEndpoint>),
    fields: Result<(), EndpointError>,
)
    requires
        call_ensures(AppSettings::validate, (&s,), r),
        call_ensures(AppSettings::endpoint_overrides, (&s,), o),
        call_ensures(ClientEndpointOverrides::validate, (&o.0,), fields),
    ensures
        r is Ok <==> {
            &&& fields is Ok
            &&& !all_space(s.app_title@)
            &&& s.jitter_ms <= 250 && s.ui_open_delay_ms <= 30_000 && s.button_count <= 24
            &&& s.mic_gain.bits <= 0x4100_0000 || s.mic_gain.bits == 0x8000_0000
            &&& s.speaker_gain.bits <= 0x4100_0000 || s.speaker_gain.bits == 0x8000_0000
            &&& s.codec != Codec::Adpcm
            &&& forall|i: int|
                0 <= i < s.buttons@.len() ==> crate::commands::button_arg(
                    #[trigger] texts(s.buttons@)[i],
                ) is Some
            &&& forall|i: int|
                0 <= i < s.button_keys@.len() ==> crate::commands::button_key_arg(
                    #[trigger] texts(s.button_keys@)[i],
                ) is Ok
        },
{
    lemma_blank(s.app_title@);
    lemma_buttons(texts(s.buttons@), s.buttons@.len() as int);
    lemma_keys(texts(s.button_keys@), s.button_keys@.len() as int);
}

/// A button or a key of valid settings is read.
pub proof fn buttons_of_valid_settings_are_read(
    s: AppSettings,
    r: Result<(), String>,
    i: int,
    button: &str,
    b: Result<ButtonArg, String>,
    j: int,
    key: &str,
    k: Result<ButtonKeyArg, String>,
)
    requires
        call_ensures(AppSettings::validate, (&s,), r),
        r is Ok,
        0 <= i < s.buttons@.len() && button@ == s.buttons@[i]@,
        call_ensures(ButtonArg::parse, (button,), b),
        0 <= j < s.button_keys@.len() && key@ == s.button_keys@[j]@,
        call_ensures(ButtonKeyArg::parse, (key,), k),
    ensures
        b is Ok && k is Ok,
{
    lemma_buttons(texts(s.buttons@), s.buttons@.len() as int);
    lemma_keys(texts(s.button_keys@), s.button_keys@.len() as int);
    assert(texts(s.buttons@)[i] == button@ && texts(s.button_keys@)[j] == key@);
}

// ---------------------------------------------------------------------------
// What the client is run with
// ---------------------------------------------------------------------------

/// Valid settings whose host was found make a client, with everything that they say.
pub proof fn settings_make_the_client(
    s: AppSettings,
    list_devices: bool,
    found: HostLookup,
    c: Result<ClientRuntimeConfig, String>,
    a: Result<Args, String>,
    valid: Result<(), String>,
    o: (ClientEndpointOverrides, Option<ClientServerEndpoint>),
)
    requires
        call_ensures(AppSettings::client_runtime_config, (&s, list_devices, found), c),
        call_ensures(AppSettings::desktop_args, (&s, list_devices, found), a),
        call_ensures(AppSettings::validate, (&s,), valid),
        call_ensures(AppSettings::endpoint_overrides, (&s,), o),
    ensures
        c is Ok <==> valid is Ok && (o.0.advanced_endpoints || found is Found),
        a is Ok <==> c is Ok,
        valid is Err ==> c->Err_0@ == valid->Err_0@ && a->Err_0@ == valid->Err_0@,
        c is Ok ==> c->Ok_0.user_id == s.user_id,
        a is Ok ==> a->Ok_0.user_id == s.user_id,
        c is Ok ==> c->Ok_0.client_uid == s.client_uid,
        a is Ok ==> a->Ok_0.client_uid == s.client_uid,
        c is Ok ==> c->Ok_0.identity_file == s.identity_file,
        a is Ok ==> a->Ok_0.identity_file == s.identity_file,
        c is Ok ==> c->Ok_0.tx_channel == s.tx_channel,
        a is Ok ==> a->Ok_0.tx_channel == s.tx_channel,
        c is Ok ==> c->Ok_0.listen_channel == s.listen_channel,
        a is Ok ==> a->Ok_0.listen_channel == s.listen_channel,
        c is Ok ==> c->Ok_0.mic_gain == s.mic_gain,
        a is Ok ==> a->Ok_0.mic_gain == s.mic_gain,
        c is Ok ==> c->Ok_0.input_limiter == s.input_limiter,
        a is Ok ==> a->Ok_0.input_limiter == s.input_limiter,
        c is Ok ==> c->Ok_0.speaker_gain == s.speaker_gain,
        a is Ok ==> a->Ok_0.speaker_gain == s.speaker_gain,
        c is Ok ==> c->Ok_0.jitter_ms == s.jitter_ms,
        a is Ok ==> a->Ok_0.jitter_ms == s.jitter_ms,
        c is Ok ==> c->Ok_0.input_device == s.input_device,
        a is Ok ==> a->Ok_0.input_device == s.input_device,
        c is Ok ==> c->Ok_0.output_device == s.output_device,
        a is Ok ==> a->Ok_0.output_device == s.output_device,
        c is Ok ==> c->Ok_0.debug_audio_dir == s.debug_audio_dir,
        a is Ok ==> a->Ok_0.debug_audio_dir == s.debug_audio_dir,
        c is Ok ==> c->Ok_0.button_count == s.button_count,
        a is Ok ==> a->Ok_0.button_count == s.button_count,
        c is Ok ==> c->Ok_0.local_ui_token == s.local_ui_token,
        a is Ok ==> a->Ok_0.local_ui_token == s.local_ui_token,
        c is Ok ==> c->Ok_0.disable_local_ui == s.disable_local_ui,
        a is Ok ==> a->Ok_0.disable_local_ui == s.disable_local_ui,
        c is Ok ==> c->Ok_0.codec == s.codec && c->Ok_0.opus_profile == s.opus_profile,
        a is Ok ==> (a->Ok_0.codec == WireCodec::Pcm16 <==> s.codec == Codec::Pcm16) && (
        a->Ok_0.codec == WireCodec::Pcm24 <==> s.codec == Codec::Pcm24) && (a->Ok_0.codec
            == WireCodec::Pcm48 <==> s.codec == Codec::Pcm48) && (a->Ok_0.codec == WireCodec::Opus
            <==> s.codec == Codec::Opus),
        a is Ok ==> (a->Ok_0.opus_profile == WireOpusProfile::Speech16Low <==> s.opus_profile
            == OpusProfile::Speech16Low) && (a->Ok_0.opus_profile
            == WireOpusProfile::Speech24Standard <==> s.opus_profile
            == OpusProfile::Speech24Standard) && (a->Ok_0.opus_profile
            == WireOpusProfile::Speech48High <==> s.opus_profile == OpusProfile::Speech48High) && (
        a->Ok_0.opus_profile == WireOpusProfile::Music48 <==> s.opus_profile
            == OpusProfile::Music48),
        c is Ok ==> c->Ok_0.input_transient_suppression == s.input_transient_suppression,
        a is Ok ==> a->Ok_0.disable_input_transient_suppression == !s.input_transient_suppression,
        a is Ok ==> a->Ok_0.input_backend == s.input_backend && a->Ok_0.input_channel
            == s.input_channel,
        c is Ok ==> (c->Ok_0.input_backend == ClientAudioBackendKind::Raw <==> s.input_backend
            == AudioInputBackend::Raw) && (c->Ok_0.input_backend
            == ClientAudioBackendKind::VoiceProcessing <==> s.input_backend
            == AudioInputBackend::VoiceProcessing) && (c->Ok_0.input_backend
            == ClientAudioBackendKind::Auto <==> s.input_backend == AudioInputBackend::Auto),
        c is Ok ==> (c->Ok_0.input_channel == ClientInputChannelMode::Left <==> s.input_channel
            == InputChannelMode::Left) && (c->Ok_0.input_channel == ClientInputChannelMode::Right
            <==> s.input_channel == InputChannelMode::Right),
        c is Ok ==> texts(c->Ok_0.buttons@) == texts(s.buttons@) && texts(c->Ok_0.button_keys@)
            == texts(s.button_keys@),
        a is Ok ==> a->Ok_0.buttons@.len() == s.buttons@.len() && a->Ok_0.button_keys@.len()
            == s.button_keys@.len(),
        c is Ok ==> c->Ok_0.list_devices == list_devices,
        a is Ok ==> a->Ok_0.list_devices == list_devices && !a->Ok_0.disable_command_loop,
        c is Ok ==> c->Ok_0.local_ui_bind.ip@ == s.local_ui_bind.ip@ && c->Ok_0.local_ui_bind.port
            == s.local_ui_bind.port,
        a is Ok ==> a->Ok_0.local_ui_bind.ip@ == s.local_ui_bind.ip@ && a->Ok_0.local_ui_bind.port
            == s.local_ui_bind.port,
{
    if c is Ok {
        assert(c->Ok_0.local_ui_bind.parts().0 == s.local_ui_bind.parts().0);
        assert(c->Ok_0.local_ui_bind.parts().1 == s.local_ui_bind.parts().1);
    }
    if a is Ok {
        assert(a->Ok_0.local_ui_bind.parts().0 == s.local_ui_bind.parts().0);
        assert(a->Ok_0.local_ui_bind.parts().1 == s.local_ui_bind.parts().1);
        assert(texts(s.buttons@).len() == s.buttons@.len());
        assert(texts(s.button_keys@).len() == s.button_keys@.len());
    }
}

/// The client is run against the server in effect: that of advanced endpoints, or the
/// one that was found.
pub proof fn clients_are_run_against_the_server_in_effect(
    s: AppSettings,
    list_devices: bool,
    found: HostLookup,
    c: Result<ClientRuntimeConfig, String>,
    a: Result<Args, String>,
    o: (ClientEndpointOverrides, Option<ClientServerEndpoint>),
    control: Result<String, EndpointError>,
)
    requires
        call_ensures(AppSettings::client_runtime_config, (&s, list_devices, found), c),
        call_ensures(AppSettings::desktop_args, (&s, list_devices, found), a),
        call_ensures(AppSettings::endpoint_overrides, (&s,), o),
        call_ensures(ClientEndpointOverrides::effective_control, (&o.0,), control),
        c is Ok && a is Ok,
    ensures
        c->Ok_0.server_host@ == o.0.server_host@,
        a->Ok_0.server_host is Some && a->Ok_0.server_host->Some_0@ == o.0.server_host@,
        o.0.advanced_endpoints ==> c->Ok_0.server.ip@ == o.0.server.ip@ && c->Ok_0.server.port
            == o.0.server.port,
        !o.0.advanced_endpoints ==> (found matches HostLookup::Found(at) && c->Ok_0.server.ip@
            == at.ip@ && c->Ok_0.server.port == at.port),
        a->Ok_0.server.ip@ == c->Ok_0.server.ip@ && a->Ok_0.server.port == c->Ok_0.server.port,
        control is Ok ==> c->Ok_0.control@ == control->Ok_0@ && a->Ok_0.control@ == control->Ok_0@,
{
    let x = c->Ok_0.server;
    let y = a->Ok_0.server;
    assert(x.parts().0 == x.ip@ && x.parts().1 == x.port);
    assert(y.parts().0 == y.ip@ && y.parts().1 == y.port);
    assert(o.0@.server.0 == o.0.server.ip@ && o.0@.server.1 == o.0.server.port);
}

// ---------------------------------------------------------------------------
// Servers of the settings
// ---------------------------------------------------------------------------

proof fn lemma_control_index(s: Seq<crate::profiles::ServerProfile>, control: Seq<char>, i: int)
    requires
        0 <= i <= s.len(),
    ensures
        i <= control_index(s, control, i) <= s.len(),
        control_index(s, control, i) < s.len() ==> s[control_index(s, control, i)].control
            == control,
        forall|j: int| i <= j < control_index(s, control, i) ==> (#[trigger] s[j]).control
            != control,
    decreases s.len() - i,
{
    if i < s.len() && s[i].control != control {
        lemma_control_index(s, control, i + 1);
    }
}

/// The server of the settings is remembered with its address and control URL; what a
/// known one with that URL is called and says of itself is kept.
pub proof fn servers_of_settings_keep_their_names(
    s: AppSettings,
    last: Option<u64>,
    r: MobileServerProfile,
    k: int,
    address: String,
    name: &str,
    control: &str,
    id: String,
)
    requires
        call_ensures(native_profile_for_settings, (&s, last), r),
        call_ensures(SocketAddress::to_text, (&s.server,), address),
        name@ == "Manual server"@ && control@ == s.control@,
        call_ensures(mobile_profile_id, (name, control), id),
    ensures
        r.server@ == address@ && r.control@ == s.control@ && r.last_connected_ms == last
            && !r.discovered,
        0 <= k < s.server_profiles@.len() && s.server_profiles@[k].control@ == s.control@ && (
        forall|j: int|
            0 <= j < k ==> (#[trigger] s.server_profiles@[j]).control@ != s.control@) ==> {
            let known = s.server_profiles@[k];
            &&& !all_space(known.name@) ==> r.name@ == known.name@
            &&& all_space(known.name@) ==> r.name@ == "Manual server"@
            &&& !all_space(known.id@) ==> r.id@ == known.id@
            &&& r.auth is Some <==> known.auth is Some
            &&& r.auth is Some ==> r.auth->Some_0@ == known.auth->Some_0@
            &&& r.version is Some <==> known.version is Some
            &&& r.version is Some ==> r.version->Some_0@ == known.version->Some_0@
            &&& r.admin is Some <==> known.admin is Some
            &&& r.admin is Some ==> r.admin->Some_0@ == known.admin->Some_0@
        },
        (forall|j: int|
            0 <= j < s.server_profiles@.len() ==> (#[trigger] s.server_profiles@[j]).control@
                != s.control@) ==> r.name@ == "Manual server"@ && r.id@ == id@ && r.auth is None
            && r.admin is None,
{
    let p = profiles(s.server_profiles@);
    lemma_control_index(p, s.control@, 0);
    let n = control_index(p, s.control@, 0);
    assert forall|j: int| 0 <= j < p.len() implies (#[trigger] p[j]).control
        == s.server_profiles@[j].control@ by {
        assert(p[j] == s.server_profiles@[j]@);
    }
    assert(r@.id == r.id@ && r@.name == r.name@ && r@.server == r.server@ && r@.control
        == r.control@);
    assert(r@.version == crate::endpoint::opt_text(r.version));
    assert(r@.auth == crate::endpoint::opt_text(r.auth) && r@.admin == crate::endpoint::opt_text(
        r.admin,
    ));
    if 0 <= k < p.len() && s.server_profiles@[k].control@ == s.control@ && (forall|j: int|
        0 <= j < k ==> (#[trigger] s.server_profiles@[j]).control@ != s.control@) {
        if n < k {
            assert(s.server_profiles@[n].control@ != s.control@);
        }
        if n > k {
            assert(p[k].control != s.control@);
        }
        assert(p[k] == s.server_profiles@[k]@);
        lemma_blank(s.server_profiles@[k].name@);
        lemma_blank(s.server_profiles@[k].id@);
    }
    if forall|j: int|
        0 <= j < s.server_profiles@.len() ==> (#[trigger] s.server_profiles@[j]).control@
            != s.control@ {
        if n < p.len() {
            assert(s.server_profiles@[n].control@ != s.control@);
        }
    }
}

/// On a phone the server of the settings is remembered with its host, the server in
/// effect and the control URL in effect.
pub proof fn servers_of_settings_are_those_in_effect(
    s: AppSettings,
    last: Option<u64>,
    found: Option<SocketAddress>,
    r: MobileServerProfile,
    o: (ClientEndpointOverrides, Option<ClientServerEndpoint>),
    made: Result<ClientServerEndpoint, EndpointError>,
    control: Result<String, EndpointError>,
    own: String,
    there: String,
    given: String,
)
    requires
        call_ensures(mobile_profile_for_settings, (&s, last, found), r),
        call_ensures(AppSettings::endpoint_overrides, (&s,), o),
        call_ensures(ClientEndpointOverrides::endpoint, (&o.0,), made),
        call_ensures(ClientEndpointOverrides::effective_control, (&o.0,), control),
        call_ensures(SocketAddress::to_text, (&o.0.server,), own),
        call_ensures(SocketAddress::to_text, (&s.server,), given),
        found is Some ==> call_ensures(SocketAddress::to_text, (&found->Some_0,), there),
    ensures
        r.server_host@ == o.0.server_host@,
        o.0.advanced_endpoints ==> r.server@ == own@,
        !o.0.advanced_endpoints && made is Ok && found is Some ==> r.server@ == there@,
        !o.0.advanced_endpoints && (made is Err || found is None) ==> r.server@ == given@,
        control is Ok ==> r.control@ == control->Ok_0@,
        control is Err ==> r.control@ == s.control@,
        r.last_connected_ms == last && !r.discovered,
{
    assert(r@.server_host == r.server_host@ && r@.server == r.server@ && r@.control == r.control@);
    assert(o.0@.server.0 == o.0.server.ip@ && o.0@.server.1 == o.0.server.port);
}

/// Remembering a server in the settings remembers it, in order, among the known ones,
/// and changes nothing else.
pub proof fn settings_remember_servers(
    s: &mut AppSettings,
    p: MobileServerProfile,
    at: ProfileAddresses,
    neat: MobileServerProfile,
    known: &mut Vec<MobileServerProfile>,
)
    requires
        call_ensures(remember_mobile_profile, (s, p, at), ()),
        call_ensures(normalize_mobile_profile, (p, at), neat),
        call_ensures(remember_profile, (known, neat), ()),
        *old(known) == old(s).server_profiles,
    ensures
        profiles(final(s).server_profiles@) == profiles(final(known)@),
        final(s).server == old(s).server && final(s).control == old(s).control && final(s).user_id
            == old(s).user_id && final(s).codec == old(s).codec,
{
}

/// A server can be selected where it has a control URL; it has that for a name where it
/// has none.
pub proof fn selected_servers_are_completed(
    p: MobileServerProfile,
    r: Result<MobileServerProfile, String>,
    name: &str,
    control: &str,
    id: String,
)
    requires
        call_ensures(complete_selected, (p,), r),
        r is Ok ==> name@ == r->Ok_0.name@,
        control@ == p.control@,
        call_ensures(mobile_profile_id, (name, control), id),
    ensures
        r is Ok <==> p.control@.len() > 0,
        r is Err ==> r->Err_0@ == "control WebSocket URL cannot be empty"@,
        r is Ok ==> {
            &&& r->Ok_0.control@ == p.control@ && r->Ok_0.server@ == p.server@
                && r->Ok_0.server_host@ == p.server_host@
            &&& p.name@.len() > 0 ==> r->Ok_0.name@ == p.name@
            &&& p.name@.len() == 0 ==> r->Ok_0.name@ == p.control@
            &&& p.id@.len() > 0 ==> r->Ok_0.id@ == p.id@
            &&& p.id@.len() == 0 ==> r->Ok_0.id@ == id@
        },
{
    if r is Ok {
        let q = r->Ok_0;
        assert(q@.id == q.id@ && q@.name == q.name@ && q@.server == q.server@ && q@.control
            == q.control@ && q@.server_host == q.server_host@);
    }
}

/// A selected server is the one that the settings have then; the known ones and all
/// else stay.
pub proof fn selected_servers_are_taken_over(
    a: &mut AppSettings,
    b: &mut AppSettings,
    p: MobileServerProfile,
    server: SocketAddress,
)
    requires
        call_ensures(select_mobile_server, (a, &p, server), ()),
        call_ensures(select_native_server, (b, &p, server), ()),
    ensures
        final(a).server.ip@ == server.ip@ && final(a).server.port == server.port,
        final(a).control@ == p.control@,
        final(a).admin is Some <==> p.admin is Some,
        final(a).admin is Some ==> final(a).admin->Some_0@ == p.admin->Some_0@,
        final(a).server_profiles == old(a).server_profiles && final(a).user_id == old(a).user_id,
        final(b).server == server && final(b).control@ == p.control@,
        final(b).server_profiles == old(b).server_profiles && final(b).user_id == old(b).user_id
            && final(b).server_host == old(b).server_host && final(b).admin == old(b).admin,
{
    let f = final(a).fields();
    assert(f.server.0 == final(a).server.ip@ && f.server.1 == final(a).server.port);
    assert(f.control == final(a).control@);
    assert(f.admin == crate::endpoint::opt_text(final(a).admin));
}

/// On a phone there is a native window and no local page; on a desktop the page is kept
/// with the settings and not run with them. A title that says nothing is replaced.
pub proof fn windows_are_prepared(
    a: &mut AppSettings,
    at: Vec<ProfileAddresses>,
    r: Option<ClientServerEndpoint>,
    b: &mut AppSettings,
    c: &mut AppSettings,
)
    requires
        call_ensures(prepare_mobile_settings, (a, at), r),
        call_ensures(prepare_native_saved_settings, (b,), ()),
        call_ensures(prepare_native_runtime_settings, (c,), ()),
    ensures
        final(a).window_mode == AppWindowMode::Native && final(a).disable_local_ui,
        final(b).window_mode == AppWindowMode::Native && !final(b).disable_local_ui,
        final(c).window_mode == AppWindowMode::Native && final(c).disable_local_ui,
        all_space(old(b).app_title@) ==> final(b).app_title@ == "RedLine"@,
        !all_space(old(b).app_title@) ==> final(b).app_title@ == trim(old(b).app_title@),
        all_space(old(c).app_title@) ==> final(c).app_title@ == "RedLine"@,
        !all_space(old(c).app_title@) ==> final(c).app_title@ == trim(old(c).app_title@),
        final(a).user_id == old(a).user_id && final(b).user_id == old(b).user_id
            && final(c).user_id == old(c).user_id,
        final(b).server == old(b).server && final(c).server == old(c).server,
{
    lemma_blank(old(b).app_title@);
    lemma_blank(old(c).app_title@);
}

/// A file is first written beside itself, under a name that the process has to itself.
pub proof fn files_are_written_beside_themselves(
    name: &str,
    otherwise: &str,
    process: u32,
    r: String,
    s: String,
)
    requires
        call_ensures(temp_file_name, (Some(name), otherwise, process), r),
        call_ensures(temp_file_name, (None::<&str>, otherwise, process), s),
    ensures
        r@ == name@ + "."@ + decimal(process as nat) + ".tmp"@,
        s@ == otherwise@ + "."@ + decimal(process as nat) + ".tmp"@,
{
}

} // verus!
