//! Sending frames, receiving packets and passing audio on.

use vstd::prelude::*;

use crate::bridge::{BridgeArgs, BridgeCliMode, BridgeOutputKind, EndpointRuntimeTelemetry};
use crate::bridge_app::BrowserSourceTelemetry;
use crate::config::ClientConfig;
use crate::control::HelloError;
use crate::laws::telemetry::{one_more, others_kept};
use crate::playback::PlaybackBuffer;
use crate::protocol::{Codec, ControlMessage, ControlResponse, EnrollmentStatus, OpusProfile};
use crate::pump::{
    bridge_playback, greet, ndi_packet_received, ndi_payload_decoded, ndi_runtime_name,
    ndi_send_failed, ndi_sender_made, operator_input, packet_received, payload_decoded,
    reports_health, source_greet, source_packet_received, source_payload_decoded, NdiCapture,
    NdiCaptureAction, NdiCaptureEvent, OperatorInput, ReceivePlan, TransmitAction, Transmitter,
};
use crate::session::{receive_channels, Args, TransmitSnapshot};
use crate::telemetry::{ClientTelemetryCounters, TelemetryStore};

verus! {

// ---------------------------------------------------------------------------
// Starting
// ---------------------------------------------------------------------------

/// A client that is admitted tells the server its routing, unless the server has one
/// for it already; one that is not admitted tells nothing.
pub proof fn routing_is_told_unless_it_is_known(
    config: &mut ClientConfig,
    response: ControlResponse,
    r: Result<Option<ControlMessage>, HelloError>,
)
    requires
        call_ensures(greet, (config, response), r),
    ensures
        match response {
            ControlResponse::Hello { preconfigured, user_id, enrollment, .. } => {
                &&& r is Ok <==> enrollment == EnrollmentStatus::Enrolled
                &&& r is Ok ==> final(config).user_id == user_id && (r->Ok_0 is None
                    <==> preconfigured)
            },
            ControlResponse::Ack => r is Ok && r->Ok_0 is Some && *final(config) == *old(config),
            ControlResponse::Error { message } => r is Err && r->Err_0 == HelloError::Refused(
                message,
            ),
        },
        r is Err ==> *final(config) == *old(config),
        r is Ok && r->Ok_0 is Some ==> (r->Ok_0->Some_0 matches ControlMessage::Config(m)
            && m.user_id == final(config).user_id && m.listen@ == old(config).listen@ && m.tx@
            == old(config).tx@ && m.talk_mode == Some(old(config).talk_mode)),
{
}

/// A browser source tells the server its routing whenever it is let in.
pub proof fn sources_tell_their_routing(
    config: &mut ClientConfig,
    response: ControlResponse,
    r: Result<ControlMessage, HelloError>,
)
    requires
        call_ensures(source_greet, (config, response), r),
    ensures
        r is Ok <==> response is Ack || (response is Hello && response->enrollment
            == EnrollmentStatus::Enrolled),
        r is Ok ==> (r->Ok_0 matches ControlMessage::Config(m) && m.user_id
            == final(config).user_id && m.listen@ == old(config).listen@ && m.tx@ == old(
            config,
        ).tx@),
        r is Ok && response is Hello ==> final(config).user_id == response->user_id,
        r is Err ==> *final(config) == *old(config),
{
}

/// Keys drive a client where some are bound, and commands where none are; nothing does
/// where that is switched off. Health is reported once the client has a number.
pub proof fn operators_drive_by_keys_or_commands(
    args: Args,
    r: OperatorInput,
    config: ClientConfig,
    reported: bool,
)
    requires
        call_ensures(operator_input, (&args,), r),
        call_ensures(reports_health, (&config,), reported),
    ensures
        r == OperatorInput::Nothing <==> args.disable_command_loop,
        r == OperatorInput::Hotkeys <==> !args.disable_command_loop && args.button_keys@.len() > 0,
        reported <==> config.user_id > 0,
{
}

/// The buffer of a bridge holds twenty frames, and waits for four of them only where it
/// feeds a device.
pub proof fn bridges_wait_for_their_device(args: BridgeArgs, b: PlaybackBuffer)
    requires
        call_ensures(bridge_playback, (&args,), b),
    ensures
        b@.capacity == 20 * 960,
        b@.queue.len() == 0 && b@.channels == 1,
        b@.prebuffer == 4 * 960 || b@.prebuffer == 0,
        b@.prebuffer > 0 <==> args.mode != BridgeCliMode::Input && args.output_kind
            == BridgeOutputKind::AudioDevice,
        b@.started <==> b@.prebuffer == 0,
{
}

// ---------------------------------------------------------------------------
// Sending
// ---------------------------------------------------------------------------

/// A frame that is for nobody is passed over; another one is encoded, after an encoder
/// was made where the codec or its profile has changed.
pub proof fn frames_are_encoded_as_asked(
    t: &mut Transmitter,
    snapshot: Option<TransmitSnapshot>,
    r: TransmitAction,
)
    requires
        call_ensures(Transmitter::frame, (t, snapshot), r),
    ensures
        snapshot is None ==> r == TransmitAction::NextFrame && *final(t) == *old(t),
        snapshot matches Some(s) ==> {
            &&& final(t).user_id == s.user_id && final(t).targets@ == s.targets@ && final(t).next
                == 0
            &&& s.codec == old(t).sender.codec && s.opus_profile == old(t).sender.opus_profile
                <==> r == TransmitAction::Encode
            &&& r != TransmitAction::Encode ==> r == TransmitAction::MakeEncoder(
                s.codec,
                s.opus_profile,
            )
            &&& final(t).sender == old(t).sender && final(t).log == old(t).log
        },
{
}

/// An encoder that was made is the one asked for: the frame that asked for it is encoded
/// with it, and the next one with the same needs no other.
pub proof fn encoders_are_made_once(
    t: &mut Transmitter,
    s: TransmitSnapshot,
    asked: TransmitAction,
    made: &mut Transmitter,
    r: TransmitAction,
    next: &mut Transmitter,
    same: TransmitSnapshot,
    again: TransmitAction,
)
    requires
        call_ensures(Transmitter::frame, (t, Some(s)), asked),
        call_ensures(Transmitter::encoder_made, (made,), r),
        *old(made) == *final(t),
        call_ensures(Transmitter::frame, (next, Some(same)), again),
        *old(next) == *final(made),
        same.codec == s.codec && same.opus_profile == s.opus_profile,
    ensures
        r == TransmitAction::Encode,
        again == TransmitAction::Encode,
        final(made).sender.seq == old(t).sender.seq && final(made).sender.timestamp == old(
            t,
        ).sender.timestamp,
        final(made).targets == final(t).targets && final(made).next == final(t).next,
{
}

/// An encoded frame goes to its targets one after the other: the packets carry one
/// timestamp and numbers in a row, and after the last one the next frame comes.
pub proof fn encoded_frames_go_to_their_targets(
    t: &mut Transmitter,
    first: TransmitAction,
    then: &mut Transmitter,
    telemetry: ClientTelemetryCounters,
    store: &mut TelemetryStore,
    second: (TransmitAction, bool),
)
    requires
        call_ensures(Transmitter::encoded, (t,), first),
        old(t).next == 0,
        call_ensures(Transmitter::sent, (then, &telemetry, store), second),
        *old(then) == *final(t),
        telemetry.is_in(*old(store)),
    ensures
        old(t).targets@.len() == 0 ==> first == TransmitAction::NextFrame,
        old(t).targets@.len() > 0 ==> (first matches TransmitAction::Send(h) && h.target == old(
            t,
        ).targets@[0] && h.user_id == old(t).user_id && h.codec == old(t).sender.codec && h.seq
            == old(t).sender.seq && h.timestamp == old(t).sender.timestamp),
        old(t).targets@.len() == 1 ==> second.0 == TransmitAction::NextFrame,
        old(t).targets@.len() > 1 ==> (first matches TransmitAction::Send(h) && (
        second.0 matches TransmitAction::Send(g) && g.target == old(t).targets@[1] && g.seq as int
            == (h.seq + 1) % 65_536 && g.timestamp == h.timestamp && g.user_id == h.user_id
            && g.codec == h.codec)),
        second.1 == old(t).log.reported,
        !final(then).log.reported,
        others_kept(old(store)@, final(store)@, telemetry.set()),
        one_more(
            old(store)@[telemetry.set()].transport.tx_packets,
            final(store)@[telemetry.set()].transport.tx_packets,
        ),
{
}

/// The next frame has a timestamp that is later by a frame.
pub proof fn frames_have_their_time(t: &mut Transmitter, r: TransmitAction)
    requires
        call_ensures(Transmitter::encoded, (t,), r),
    ensures
        final(t).timestamp == old(t).sender.timestamp,
        final(t).sender.timestamp as int == (old(t).sender.timestamp + (match old(t).sender.codec {
            Codec::Pcm16 => 320int,
            Codec::Pcm24 => 480,
            _ => 960,
        })) % 0x1_0000_0000,
        final(t).targets == old(t).targets && final(t).user_id == old(t).user_id,
{
}

/// A fault ends sending, unless it is to go on: then only the frame or the target is
/// lost. Each is counted as what it is.
pub proof fn faults_end_sending_unless_it_goes_on(
    t: Transmitter,
    unmade: TransmitAction,
    telemetry: ClientTelemetryCounters,
    store: &mut TelemetryStore,
    unencoded: TransmitAction,
)
    requires
        call_ensures(Transmitter::encoder_failed, (&t,), unmade),
        telemetry.is_in(*old(store)),
        call_ensures(Transmitter::encode_failed, (&t, &telemetry, store), unencoded),
    ensures
        t.persistent ==> unmade == TransmitAction::NextFrame && unencoded
            == TransmitAction::NextFrame,
        !t.persistent ==> unmade == TransmitAction::Stop && unencoded == TransmitAction::Stop,
        others_kept(old(store)@, final(store)@, telemetry.set()),
        one_more(
            old(store)@[telemetry.set()].transport.codec_drops,
            final(store)@[telemetry.set()].transport.codec_drops,
        ),
        final(store)@[telemetry.set()].transport.tx_packets == old(
            store,
        )@[telemetry.set()].transport.tx_packets,
{
}

/// A packet that cannot be written is passed over for the next target; one that cannot
/// be sent ends the frame, and sending rests a quarter of a second. Only the first
/// failure in a row is reported.
pub proof fn lost_packets_are_counted(
    t: &mut Transmitter,
    telemetry: ClientTelemetryCounters,
    a: &mut TelemetryStore,
    unwritable: TransmitAction,
    u: &mut Transmitter,
    b: &mut TelemetryStore,
    failed: (TransmitAction, bool),
)
    requires
        telemetry.is_in(*old(a)),
        telemetry.is_in(*old(b)),
        call_ensures(Transmitter::packet_unwritable, (t, &telemetry, a), unwritable),
        call_ensures(Transmitter::send_failed, (u, &telemetry, b), failed),
    ensures
        !old(t).persistent ==> unwritable == TransmitAction::Stop && *final(t) == *old(t),
        old(t).persistent && old(t).next < old(t).targets@.len() ==> (
        unwritable matches TransmitAction::Send(h) && h.target == old(t).targets@[old(
            t,
        ).next as int] && final(t).next == old(t).next + 1),
        old(t).persistent && old(t).next >= old(t).targets@.len() ==> unwritable
            == TransmitAction::NextFrame,
        one_more(
            old(a)@[telemetry.set()].packet_encode_errors,
            final(a)@[telemetry.set()].packet_encode_errors,
        ),
        final(a)@[telemetry.set()].transport == old(a)@[telemetry.set()].transport,
        !old(u).persistent ==> failed == (TransmitAction::Stop, true),
        old(u).persistent ==> failed.0 == TransmitAction::Pause(250) && failed.1 == !old(
            u,
        ).log.reported && final(u).log.reported,
        final(u).sender == old(u).sender && final(u).next == old(u).next,
        one_more(
            old(b)@[telemetry.set()].transport.tx_send_failures,
            final(b)@[telemetry.set()].transport.tx_send_failures,
        ),
        others_kept(old(a)@, final(a)@, telemetry.set()),
        others_kept(old(b)@, final(b)@, telemetry.set()),
{
    assert(old(t).targets.len() == old(t).targets@.len());
}

/// Sending starts with nothing under way, from number and time zero.
pub proof fn sending_starts_from_zero(
    codec: Codec,
    profile: OpusProfile,
    persistent: bool,
    t: Transmitter,
)
    requires
        call_ensures(Transmitter::new, (codec, profile, persistent), t),
    ensures
        t.sender.codec == codec && t.sender.opus_profile == profile && t.sender.seq == 0
            && t.sender.timestamp == 0,
        t.persistent == persistent && !t.log.reported,
        t.next >= t.targets@.len(),
{
}

// ---------------------------------------------------------------------------
// Receiving
// ---------------------------------------------------------------------------

/// A packet that could be read is counted as received and decoded for the channels that
/// the client receives with; another one is counted as malformed and dropped.
pub proof fn packets_are_counted_as_they_come(
    telemetry: ClientTelemetryCounters,
    store: &mut TelemetryStore,
    config: ClientConfig,
    codec: Option<Codec>,
    r: Option<ReceivePlan>,
    channels: usize,
)
    requires
        telemetry.is_in(*old(store)),
        call_ensures(packet_received, (&telemetry, store, &config, codec), r),
        codec is Some ==> call_ensures(receive_channels, (&config, codec->Some_0), channels),
    ensures
        r is Some <==> codec is Some,
        r is Some ==> r->Some_0.channels == channels && r->Some_0.opus_profile
            == config.opus_profile,
        others_kept(old(store)@, final(store)@, telemetry.set()),
        ({
            let before = old(store)@[telemetry.set()].transport;
            let after = final(store)@[telemetry.set()].transport;
            &&& codec is Some ==> one_more(before.udp_rx_packets, after.udp_rx_packets)
                && after.malformed_packets == before.malformed_packets
            &&& codec is None ==> one_more(before.malformed_packets, after.malformed_packets)
                && after.udp_rx_packets == before.udp_rx_packets
        }),
{
}

/// Audio that could not be decoded is counted and dropped; other audio is not.
pub proof fn undecoded_audio_is_counted(
    telemetry: ClientTelemetryCounters,
    store: &mut TelemetryStore,
    decoded: bool,
    r: bool,
)
    requires
        telemetry.is_in(*old(store)),
        call_ensures(payload_decoded, (&telemetry, store, decoded), r),
    ensures
        r <==> decoded,
        decoded ==> final(store)@ == old(store)@,
        !decoded ==> one_more(
            old(store)@[telemetry.set()].transport.decode_errors,
            final(store)@[telemetry.set()].transport.decode_errors,
        ),
        others_kept(old(store)@, final(store)@, telemetry.set()),
{
}

// ---------------------------------------------------------------------------
// NDI and browsers
// ---------------------------------------------------------------------------

/// Audio from NDI is taken as it comes. What takes it is made anew exactly where the
/// form of the audio is not the one before.
pub proof fn ndi_audio_is_taken_in_its_form(
    c: &mut NdiCapture,
    t: &mut EndpointRuntimeTelemetry,
    sample_rate_hz: u32,
    channels: usize,
    level_ppm: u32,
    now_ms: u64,
    r: NdiCaptureAction,
)
    requires
        call_ensures(
            NdiCapture::step,
            (c, t, NdiCaptureEvent::Frame { sample_rate_hz, channels, level_ppm, now_ms }),
            r,
        ),
    ensures
        r matches NdiCaptureAction::Take { sample_rate_hz: s, channels: n, changed } && s
            == sample_rate_hz && n == channels && (!changed <==> old(c).ready && old(
            c,
        ).sample_rate_hz == sample_rate_hz && old(c).channels == channels),
        final(c).ready && final(c).sample_rate_hz == sample_rate_hz && final(c).channels
            == channels,
        final(t).audio_level_ppm == level_ppm && final(t).last_audio_ms == now_ms,
        one_more(old(t).frames, final(t).frames),
        final(t).underflows == old(t).underflows && final(t).drops == old(t).drops
            && final(t).reconnects == old(t).reconnects && final(t).warning == old(t).warning,
{
}

/// A connection to NDI that was made clears the warning; one that fails is counted and
/// warned of, and tried again after its time. A silent one is counted as running empty.
pub proof fn ndi_connections_are_watched(
    c: &mut NdiCapture,
    t: &mut EndpointRuntimeTelemetry,
    event: NdiCaptureEvent,
    r: NdiCaptureAction,
)
    requires
        call_ensures(NdiCapture::step, (c, t, event), r),
    ensures
        event is Connected ==> r == NdiCaptureAction::Receive && !final(c).ready
            && final(t).warning is None && final(t).reconnects == old(t).reconnects,
        event matches NdiCaptureEvent::ConnectFailed(e) ==> r is Retry && final(t).warning is Some
            && final(t).warning->Some_0@ == "NDI source unavailable: "@ + e@ && one_more(
            old(t).reconnects,
            final(t).reconnects,
        ),
        event is NoFrame ==> r == NdiCaptureAction::Receive && one_more(
            old(t).underflows,
            final(t).underflows,
        ) && final(t).reconnects == old(t).reconnects && final(t).warning == old(t).warning,
        event matches NdiCaptureEvent::ReceiveFailed(e) ==> r == NdiCaptureAction::Connect
            && final(t).warning is Some && final(t).warning->Some_0@
            == "NDI receive reconnecting: "@ + e@ && one_more(
            old(t).reconnects,
            final(t).reconnects,
        ),
        !(event is Frame) ==> final(t).frames == old(t).frames && final(t).audio_level_ppm == old(
            t,
        ).audio_level_ppm,
        !(event is Frame) && !(event is Connected) ==> *final(c) == *old(c),
{
}

/// Audio to NDI is counted by the client and by the endpoint: what is lost as a drop,
/// what is played as a frame with its level.
pub proof fn ndi_output_is_counted(
    telemetry: ClientTelemetryCounters,
    a: &mut TelemetryStore,
    e: &mut EndpointRuntimeTelemetry,
    config: ClientConfig,
    codec: Option<Codec>,
    r: Option<ReceivePlan>,
    b: &mut TelemetryStore,
    f: &mut EndpointRuntimeTelemetry,
    decoded: Option<(u32, u64)>,
    played: bool,
)
    requires
        telemetry.is_in(*old(a)),
        telemetry.is_in(*old(b)),
        call_ensures(ndi_packet_received, (&telemetry, a, e, &config, codec), r),
        call_ensures(ndi_payload_decoded, (&telemetry, b, f, decoded), played),
    ensures
        r is Some <==> codec is Some,
        r is Some ==> *final(e) == *old(e) && r->Some_0.opus_profile == config.opus_profile,
        r is None ==> one_more(old(e).drops, final(e).drops) && final(e).frames == old(e).frames,
        codec is Some ==> one_more(
            old(a)@[telemetry.set()].transport.udp_rx_packets,
            final(a)@[telemetry.set()].transport.udp_rx_packets,
        ),
        codec is None ==> one_more(
            old(a)@[telemetry.set()].transport.malformed_packets,
            final(a)@[telemetry.set()].transport.malformed_packets,
        ),
        played <==> decoded is Some,
        decoded matches Some((level, now)) ==> final(f).audio_level_ppm == level
            && final(f).last_audio_ms == now && one_more(old(f).frames, final(f).frames)
            && final(f).drops == old(f).drops && final(b)@ == old(b)@,
        decoded is None ==> one_more(old(f).drops, final(f).drops) && final(f).frames == old(
            f,
        ).frames && one_more(
            old(b)@[telemetry.set()].transport.decode_errors,
            final(b)@[telemetry.set()].transport.decode_errors,
        ),
{
}

/// A sender to NDI that was made clears the warning; one that fails is counted and
/// warned of.
pub proof fn ndi_senders_are_watched(
    a: &mut EndpointRuntimeTelemetry,
    b: &mut EndpointRuntimeTelemetry,
    error: &str,
)
    requires
        call_ensures(ndi_sender_made, (a,), ()),
        call_ensures(ndi_send_failed, (b, error), ()),
    ensures
        final(a).warning is None && final(a).reconnects == old(a).reconnects && final(a).frames
            == old(a).frames,
        final(b).warning is Some && final(b).warning->Some_0@ == "NDI output send failed: "@
            + error@,
        one_more(old(b).reconnects, final(b).reconnects),
        final(b).frames == old(b).frames && final(b).drops == old(b).drops,
{
}

/// The runtime of NDI is named by its library, where one is known.
pub proof fn ndi_runtimes_are_named(path: Option<String>, r: String)
    requires
        call_ensures(ndi_runtime_name, (path,), r),
    ensures
        path is Some ==> r@ == path->Some_0@,
        path is None ==> r@ == "system NDI runtime"@,
{
}

/// A browser source counts what it cannot read, decode or pass on as a drop, and what it
/// plays as a frame with its level.
pub proof fn sources_count_what_they_play(
    a: &mut BrowserSourceTelemetry,
    config: ClientConfig,
    codec: Option<Codec>,
    r: Option<ReceivePlan>,
    b: &mut BrowserSourceTelemetry,
    decoded: Option<(u32, u64)>,
    heard: bool,
)
    requires
        call_ensures(source_packet_received, (a, &config, codec), r),
        call_ensures(source_payload_decoded, (b, decoded, heard), ()),
    ensures
        r is Some <==> codec is Some,
        r is Some ==> *final(a) == *old(a) && r->Some_0.opus_profile == config.opus_profile,
        r is None ==> one_more(old(a).drops, final(a).drops) && final(a).audio_frames == old(
            a,
        ).audio_frames,
        decoded matches Some((level, now)) ==> final(b).audio_level_ppm == level
            && final(b).last_audio_ms == now && one_more(old(b).audio_frames, final(b).audio_frames)
            && (heard ==> final(b).drops == old(b).drops) && (!heard ==> one_more(
            old(b).drops,
            final(b).drops,
        )),
        decoded is None ==> one_more(old(b).drops, final(b).drops) && final(b).audio_frames == old(
            b,
        ).audio_frames && final(b).last_audio_ms == old(b).last_audio_ms,
        final(b).underflows == old(b).underflows,
{
}

} // verus!
