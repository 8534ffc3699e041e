//! Bridges between a device and the intercom.

use vstd::prelude::*;

use crate::bridge::{
    bridge_config, bridge_status_snapshot, plan_capture, plan_playback, report_outcome,
    validate_route_endpoint_kinds, BridgeArgs, BridgeCliMode, BridgeEndpointKind, BridgeInputKind,
    BridgeMode, BridgeOutputKind, BridgeStartError, BridgeStatus, BridgeStatusConfig, CapturePlan,
    EndpointRuntimeTelemetry, EndpointTelemetrySnapshot, PlaybackPlan, ReportOutcome,
};
use crate::config::ClientConfig;
use crate::laws::telemetry::one_more;
use crate::laws::text::{all_space, lemma_blank};
use crate::protocol::{
    ClientCapabilities, ClientRole, Codec, ControlResponse, OpusProfile, TalkMode,
};
use crate::session::{SharedDefaults, WireCodec, WireOpusProfile};
use crate::text::trim;

verus! {

/// A name is given, and is more than white space.
pub open spec fn named(o: Option<String>) -> bool {
    o is Some && !all_space(o->Some_0@)
}

proof fn lemma_named(o: Option<String>)
    ensures
        crate::endpoint::filled(crate::endpoint::opt_text(o)) is Some <==> named(o),
        named(o) ==> crate::endpoint::filled(crate::endpoint::opt_text(o)) == Some(
            trim(o->Some_0@),
        ),
{
    if o is Some {
        lemma_blank(o->Some_0@);
    }
}

/// A bridge captures unless it only plays, plays unless it only captures, and is
/// reported as what it is.
pub proof fn bridges_go_one_way_or_both(
    mode: BridgeCliMode,
    captures: bool,
    plays: bool,
    reported: BridgeMode,
)
    requires
        call_ensures(BridgeCliMode::captures, (mode,), captures),
        call_ensures(BridgeCliMode::plays, (mode,), plays),
        call_ensures(BridgeCliMode::status_mode, (mode,), reported),
    ensures
        captures <==> mode == BridgeCliMode::Input || mode == BridgeCliMode::Duplex,
        plays <==> mode == BridgeCliMode::Output || mode == BridgeCliMode::Duplex,
        reported == BridgeMode::Input <==> captures && !plays,
        reported == BridgeMode::Output <==> plays && !captures,
        reported == BridgeMode::Duplex <==> captures && plays,
{
}

/// The kinds of the two ends are reported as what they are.
pub proof fn ends_are_reported_by_their_kind(
    input: BridgeInputKind,
    i: BridgeEndpointKind,
    output: BridgeOutputKind,
    o: BridgeEndpointKind,
)
    requires
        call_ensures(BridgeInputKind::status_kind, (input,), i),
        call_ensures(BridgeOutputKind::status_kind, (output,), o),
    ensures
        i == BridgeEndpointKind::NdiSource <==> input == BridgeInputKind::NdiSource,
        i == BridgeEndpointKind::AudioDevice <==> input == BridgeInputKind::AudioDevice,
        o == BridgeEndpointKind::AudioDevice <==> output == BridgeOutputKind::AudioDevice,
        o == BridgeEndpointKind::NdiOutput <==> output == BridgeOutputKind::NdiOutput,
        o == BridgeEndpointKind::VmixBrowserSource <==> output
            == BridgeOutputKind::VmixBrowserSource,
{
}

/// A bridge can be started where each end that it uses is named as its kind asks, and a
/// browser source is served elsewhere.
pub proof fn used_ends_must_be_named(args: BridgeArgs, r: Result<(), BridgeStartError>)
    requires
        call_ensures(validate_route_endpoint_kinds, (&args,), r),
    ensures
        ({
            let captures = args.mode != BridgeCliMode::Output;
            let plays = args.mode != BridgeCliMode::Input;
            r is Ok <==> {
                &&& captures && args.input_kind == BridgeInputKind::NdiSource ==> named(
                    args.ndi_source,
                )
                &&& plays && args.output_kind == BridgeOutputKind::NdiOutput ==> named(
                    args.ndi_output_name,
                )
                &&& plays ==> args.output_kind != BridgeOutputKind::VmixBrowserSource
            }
        }),
{
    lemma_named(args.ndi_source);
    lemma_named(args.ndi_output_name);
}

/// A bridge takes audio from where it is told: from nowhere where it only plays, from
/// the device, or from the NDI source of that name.
pub proof fn audio_comes_from_where_told(args: BridgeArgs, r: Result<CapturePlan, BridgeStartError>)
    requires
        call_ensures(plan_capture, (&args,), r),
    ensures
        args.mode == BridgeCliMode::Output ==> r is Ok && r->Ok_0 is Nothing,
        args.mode != BridgeCliMode::Output && args.input_kind == BridgeInputKind::AudioDevice
            ==> r is Ok && r->Ok_0 is Device,
        args.mode != BridgeCliMode::Output && args.input_kind == BridgeInputKind::NdiSource ==> (
        named(args.ndi_source) <==> r is Ok) && (r is Ok ==> (r->Ok_0 matches CapturePlan::Ndi(n)
            && n@ == trim(args.ndi_source->Some_0@))),
{
    lemma_named(args.ndi_source);
}

/// A bridge gives audio to where it is told: to nowhere where it only captures or is
/// served as a browser source, to the device, or to the NDI output of that name.
pub proof fn audio_goes_to_where_told(
    args: BridgeArgs,
    r: Result<PlaybackPlan, BridgeStartError>,
)
    requires
        call_ensures(plan_playback, (&args,), r),
    ensures
        args.mode == BridgeCliMode::Input || args.output_kind
            == BridgeOutputKind::VmixBrowserSource ==> r is Ok && r->Ok_0 is Nothing,
        args.mode != BridgeCliMode::Input && args.output_kind == BridgeOutputKind::AudioDevice
            ==> r is Ok && r->Ok_0 is Device,
        args.mode != BridgeCliMode::Input && args.output_kind == BridgeOutputKind::NdiOutput ==> (
        named(args.ndi_output_name) <==> r is Ok) && (r is Ok ==> (
        r->Ok_0 matches PlaybackPlan::Ndi(n) && n@ == trim(args.ndi_output_name->Some_0@))),
{
    lemma_named(args.ndi_output_name);
}

/// A bridge has a number. It transmits on its channels, with an open microphone, where it
/// captures, and listens on its channels where it plays.
pub proof fn bridges_use_the_channels_of_their_direction(
    args: BridgeArgs,
    client_uid: String,
    defaults: SharedDefaults,
    r: Result<ClientConfig, BridgeStartError>,
)
    requires
        call_ensures(bridge_config, (&args, client_uid, defaults), r),
    ensures
        r is Ok <==> args.user_id is Some,
        r is Ok ==> ({
            let c = r->Ok_0;
            let captures = args.mode != BridgeCliMode::Output;
            let plays = args.mode != BridgeCliMode::Input;
            &&& c.user_id == args.user_id->Some_0 && c.client_uid == client_uid && c.name
                == args.name
            &&& c.role == ClientRole::Bridge
            &&& plays ==> c.listen@ == args.listen_channels@
            &&& !plays ==> c.listen@.len() == 0
            &&& captures ==> c.tx@ == args.tx_channels@ && c.talk_mode == TalkMode::Open
            &&& !captures ==> c.tx@.len() == 0 && c.talk_mode == TalkMode::Muted
            &&& c.last_non_muted_talk_mode == TalkMode::Open
            &&& c.stereo.enabled == args.stereo
            &&& c.capabilities == Some(ClientCapabilities::Bridge) && c.tally == Some(
                defaults.tally,
            )
            &&& c.advertised_buttons@.len() == 0
            &&& c.codec == Codec::Opus <==> args.codec == WireCodec::Opus
            &&& c.codec == Codec::Pcm48 <==> args.codec == WireCodec::Pcm48
            &&& c.codec == Codec::Pcm24 <==> args.codec == WireCodec::Pcm24
            &&& c.codec == Codec::Pcm16 <==> args.codec == WireCodec::Pcm16
            &&& c.opus_profile == OpusProfile::Music48 <==> args.opus_profile
                == WireOpusProfile::Music48
            &&& c.opus_profile == OpusProfile::Speech48High <==> args.opus_profile
                == WireOpusProfile::Speech48High
            &&& c.opus_profile == OpusProfile::Speech24Standard <==> args.opus_profile
                == WireOpusProfile::Speech24Standard
            &&& !c.regular_talk_active && c.active_buttons@.len() == 0
                && c.active_direct_calls@.len() == 0
        }),
{
}

/// A report is taken, put off while the connection is being made again, or rejected with
/// the server's words.
pub proof fn reports_are_answered(
    response: ControlResponse,
    r: ReportOutcome,
    message: &str,
    deferred: bool,
)
    requires
        call_ensures(report_outcome, (response,), r),
        response is Error ==> message@ == response->message@ && call_ensures(
            crate::control::is_deferred,
            (message,),
            deferred,
        ),
    ensures
        r is Taken <==> response is Ack,
        r is Unexpected <==> response is Hello,
        response is Error && deferred ==> r == ReportOutcome::Deferred(response->message),
        response is Error && !deferred ==> r == ReportOutcome::Rejected(response->message),
{
}

// ---------------------------------------------------------------------------
// Telemetry
// ---------------------------------------------------------------------------

/// What happens at an end is counted as such, once, and as nothing else.
pub proof fn ends_count_what_happens(
    a: &mut EndpointRuntimeTelemetry,
    level_ppm: u32,
    now_ms: u64,
    b: &mut EndpointRuntimeTelemetry,
    c: &mut EndpointRuntimeTelemetry,
    d: &mut EndpointRuntimeTelemetry,
)
    requires
        call_ensures(
            EndpointRuntimeTelemetry::record_audio_level,
            (a, level_ppm, now_ms),
            (),
        ),
        call_ensures(EndpointRuntimeTelemetry::record_underflow, (b,), ()),
        call_ensures(EndpointRuntimeTelemetry::record_drop, (c,), ()),
        call_ensures(EndpointRuntimeTelemetry::record_reconnect, (d,), ()),
    ensures
        final(a).audio_level_ppm == level_ppm && final(a).last_audio_ms == now_ms && one_more(
            old(a).frames,
            final(a).frames,
        ) && final(a).underflows == old(a).underflows && final(a).drops == old(a).drops
            && final(a).reconnects == old(a).reconnects,
        one_more(old(b).underflows, final(b).underflows) && final(b).frames == old(b).frames
            && final(b).drops == old(b).drops && final(b).reconnects == old(b).reconnects
            && final(b).last_audio_ms == old(b).last_audio_ms,
        one_more(old(c).drops, final(c).drops) && final(c).frames == old(c).frames
            && final(c).underflows == old(c).underflows && final(c).reconnects == old(c).reconnects
            && final(c).last_audio_ms == old(c).last_audio_ms,
        one_more(old(d).reconnects, final(d).reconnects) && final(d).frames == old(d).frames
            && final(d).underflows == old(d).underflows && final(d).drops == old(d).drops
            && final(d).last_audio_ms == old(d).last_audio_ms,
{
}

/// The runtime and the warning of an end are those last given.
pub proof fn ends_keep_what_is_said_of_them(
    a: &mut EndpointRuntimeTelemetry,
    runtime: &str,
    b: &mut EndpointRuntimeTelemetry,
    warning: Option<String>,
)
    requires
        call_ensures(EndpointRuntimeTelemetry::set_runtime, (a, runtime), ()),
        call_ensures(EndpointRuntimeTelemetry::set_warning, (b, warning), ()),
    ensures
        final(a).runtime is Some && final(a).runtime->Some_0@ == runtime@,
        final(a).warning == old(a).warning && final(a).frames == old(a).frames,
        final(b).warning == warning,
        final(b).runtime == old(b).runtime && final(b).frames == old(b).frames,
{
}

/// An end is stale before its first audio, and again when two seconds have passed
/// since its last.
pub proof fn ends_go_stale(t: EndpointRuntimeTelemetry, now_ms: u64, r: EndpointTelemetrySnapshot)
    requires
        call_ensures(EndpointRuntimeTelemetry::snapshot, (&t, now_ms), r),
    ensures
        t.frames == 0 ==> r.stale && r.audio_level_ppm is None,
        t.frames > 0 ==> r.audio_level_ppm == Some(t.audio_level_ppm),
        t.frames > 0 && t.last_audio_ms > 0 && now_ms >= t.last_audio_ms ==> (r.stale <==> now_ms
            - t.last_audio_ms > 2000),
        t.frames > 0 && (t.last_audio_ms == 0 || now_ms < t.last_audio_ms) ==> !r.stale,
        t.last_audio_ms > 0 && now_ms >= t.last_audio_ms ==> r.last_audio_ms_ago is Some
            && r.last_audio_ms_ago->Some_0 == now_ms - t.last_audio_ms,
        t.last_audio_ms > 0 && now_ms < t.last_audio_ms ==> r.last_audio_ms_ago == Some(0u64),
        t.last_audio_ms == 0 ==> r.last_audio_ms_ago is None,
        r.frames == t.frames && r.underflows == t.underflows && r.drops == t.drops && r.reconnects
            == t.reconnects && r.runtime == t.runtime && r.warning == t.warning,
{
}

/// The status of a bridge shows the ends that it uses, its channels and its gains.
pub proof fn the_status_shows_the_used_ends(
    config: ClientConfig,
    b: BridgeStatusConfig,
    now_ms: u64,
    r: BridgeStatus,
    i: EndpointTelemetrySnapshot,
    o: EndpointTelemetrySnapshot,
)
    requires
        call_ensures(bridge_status_snapshot, (&config, b, now_ms), r),
        call_ensures(EndpointRuntimeTelemetry::snapshot, (&b.input_telemetry, now_ms), i),
        call_ensures(EndpointRuntimeTelemetry::snapshot, (&b.output_telemetry, now_ms), o),
    ensures
        r.input is Some <==> b.mode != BridgeCliMode::Output,
        r.output is Some <==> b.mode != BridgeCliMode::Input,
        r.mode == BridgeMode::Duplex <==> r.input is Some && r.output is Some,
        r.tx@ == config.tx@ && r.listen@ == config.listen@,
        r.input_gain == b.input_gain && r.output_gain == b.output_gain && r.note == b.note
            && r.input_device == b.input_device && r.output_device == b.output_device,
        r.input is Some ==> ({
            let e = r.input->Some_0;
            &&& e.kind == BridgeEndpointKind::NdiSource <==> b.input_kind
                == BridgeInputKind::NdiSource
            &&& e.url is None
            &&& b.input_kind == BridgeInputKind::AudioDevice ==> e.stale is None
            &&& b.input_kind == BridgeInputKind::AudioDevice ==> e.name == b.input_device
            &&& b.input_kind == BridgeInputKind::NdiSource ==> e.name == b.ndi_source && e.stale
                == Some(i.stale)
            &&& e.audio_level_ppm == i.audio_level_ppm && e.last_audio_ms_ago
                == i.last_audio_ms_ago && e.warning == i.warning && e.runtime == i.runtime
            &&& i.frames > 0 ==> e.frames == Some(i.frames)
            &&& i.frames == 0 ==> e.frames is None
            &&& i.drops > 0 ==> e.drops == Some(i.drops)
            &&& i.underflows > 0 ==> e.underflows == Some(i.underflows)
            &&& i.reconnects > 0 ==> e.reconnects == Some(i.reconnects)
            &&& e.available == Some(true)
        }),
        r.output is Some ==> ({
            let e = r.output->Some_0;
            &&& e.kind == BridgeEndpointKind::NdiOutput <==> b.output_kind
                == BridgeOutputKind::NdiOutput
            &&& e.kind == BridgeEndpointKind::VmixBrowserSource <==> b.output_kind
                == BridgeOutputKind::VmixBrowserSource
            &&& b.output_kind != BridgeOutputKind::NdiOutput ==> e.stale is None
            &&& b.output_kind == BridgeOutputKind::VmixBrowserSource ==> e.name is Some
                && e.warning is Some && e.warning->Some_0@
                == "vMix browser sources are served by bridge-app"@
            &&& b.output_kind == BridgeOutputKind::VmixBrowserSource && b.ndi_output_name is Some
                ==> e.name->Some_0@ == b.ndi_output_name->Some_0@
            &&& b.output_kind == BridgeOutputKind::VmixBrowserSource && b.ndi_output_name is None
                ==> e.name->Some_0@ == "vMix Browser Source"@
            &&& b.output_kind == BridgeOutputKind::AudioDevice ==> e.name == b.output_device
            &&& b.output_kind == BridgeOutputKind::NdiOutput ==> e.name == b.ndi_output_name
                && e.stale == Some(o.stale)
            &&& e.available == Some(b.output_kind != BridgeOutputKind::VmixBrowserSource)
            &&& b.output_kind != BridgeOutputKind::VmixBrowserSource ==> e.warning == o.warning
            &&& e.audio_level_ppm == o.audio_level_ppm && e.last_audio_ms_ago
                == o.last_audio_ms_ago && e.runtime == o.runtime && e.url == b.vmix_source_url
            &&& o.frames > 0 ==> e.frames == Some(o.frames)
            &&& o.frames == 0 ==> e.frames is None
            &&& o.drops > 0 ==> e.drops == Some(o.drops)
            &&& o.underflows > 0 ==> e.underflows == Some(o.underflows)
            &&& o.reconnects > 0 ==> e.reconnects == Some(o.reconnects)
        }),
{
}

/// What hinders a bridge from starting is said.
pub proof fn hindrances_are_said(e: BridgeStartError, r: String)
    requires
        call_ensures(BridgeStartError::message, (&e,), r),
    ensures
        e == BridgeStartError::UserIdMissing ==> r@ == "--user-id is required"@,
        e == BridgeStartError::NdiSourceMissing ==> r@
            == "NDI receive routes require --ndi-source"@,
        e == BridgeStartError::NdiOutputNameMissing ==> r@
            == "NDI output routes require --ndi-output-name"@,
{
}

} // verus!
