//! What a client counts and reports.

use vstd::prelude::*;

use crate::playback::PlaybackStats;
use crate::telemetry::{
    basic_client_telemetry, capture_health_with_client_telemetry, desktop_capture_audio_telemetry,
    playback_telemetry_from_stats, CaptureHealthStatus, ClientTelemetryAudioStatus,
    ClientTelemetryCounters, ClientTelemetryPlaybackStatus, ClientTelemetryTransportStatus,
    DesktopCaptureHealthStatus, ReportedGain, TelemetryCounts, TelemetryStore,
};

verus! {

/// A count after one more, going back to zero when it is full.
pub open spec fn one_more(before: u64, after: u64) -> bool {
    if before == u64::MAX {
        after == 0
    } else {
        after == before + 1
    }
}

/// All sets of counts but one are as they were.
pub open spec fn others_kept(
    before: Seq<TelemetryCounts>,
    after: Seq<TelemetryCounts>,
    set: int,
) -> bool {
    &&& after.len() == before.len()
    &&& forall|i: int| 0 <= i < before.len() && i != set ==> #[trigger] after[i] == before[i]
}

/// A packet that came is counted as such, once, and as nothing else.
pub proof fn udp_rx_packets_are_counted(t: ClientTelemetryCounters, store: &mut TelemetryStore)
    requires
        t.is_in(*old(store)),
        call_ensures(ClientTelemetryCounters::record_udp_rx_packet, (&t, store), ()),
    ensures
        others_kept(old(store)@, final(store)@, t.set()),
        one_more(old(store)@[t.set()].transport.udp_rx_packets, final(store)@[t.set()].transport.udp_rx_packets),
        final(store)@[t.set()].transport.malformed_packets == old(store)@[t.set()].transport.malformed_packets,
        final(store)@[t.set()].transport.decode_errors == old(store)@[t.set()].transport.decode_errors,
        final(store)@[t.set()].transport.codec_drops == old(store)@[t.set()].transport.codec_drops,
        final(store)@[t.set()].transport.payload_decode_errors == old(store)@[t.set()].transport.payload_decode_errors,
        final(store)@[t.set()].transport.tx_packets == old(store)@[t.set()].transport.tx_packets,
        final(store)@[t.set()].transport.tx_send_failures == old(store)@[t.set()].transport.tx_send_failures,
        final(store)@[t.set()].transport.tx_queue_drops == old(store)@[t.set()].transport.tx_queue_drops,
        final(store)@[t.set()].packet_encode_errors == old(store)@[t.set()].packet_encode_errors,
{
}

/// A packet that could not be read is counted as such, once, and as nothing else.
pub proof fn malformed_packets_are_counted(t: ClientTelemetryCounters, store: &mut TelemetryStore)
    requires
        t.is_in(*old(store)),
        call_ensures(ClientTelemetryCounters::record_malformed_packet, (&t, store), ()),
    ensures
        others_kept(old(store)@, final(store)@, t.set()),
        final(store)@[t.set()].transport.udp_rx_packets == old(store)@[t.set()].transport.udp_rx_packets,
        one_more(old(store)@[t.set()].transport.malformed_packets, final(store)@[t.set()].transport.malformed_packets),
        final(store)@[t.set()].transport.decode_errors == old(store)@[t.set()].transport.decode_errors,
        final(store)@[t.set()].transport.codec_drops == old(store)@[t.set()].transport.codec_drops,
        final(store)@[t.set()].transport.payload_decode_errors == old(store)@[t.set()].transport.payload_decode_errors,
        final(store)@[t.set()].transport.tx_packets == old(store)@[t.set()].transport.tx_packets,
        final(store)@[t.set()].transport.tx_send_failures == old(store)@[t.set()].transport.tx_send_failures,
        final(store)@[t.set()].transport.tx_queue_drops == old(store)@[t.set()].transport.tx_queue_drops,
        final(store)@[t.set()].packet_encode_errors == old(store)@[t.set()].packet_encode_errors,
{
}

/// Audio that could not be decoded is counted as such, once, and as nothing else.
pub proof fn decode_errors_are_counted(t: ClientTelemetryCounters, store: &mut TelemetryStore)
    requires
        t.is_in(*old(store)),
        call_ensures(ClientTelemetryCounters::record_decode_error, (&t, store), ()),
    ensures
        others_kept(old(store)@, final(store)@, t.set()),
        final(store)@[t.set()].transport.udp_rx_packets == old(store)@[t.set()].transport.udp_rx_packets,
        final(store)@[t.set()].transport.malformed_packets == old(store)@[t.set()].transport.malformed_packets,
        one_more(old(store)@[t.set()].transport.decode_errors, final(store)@[t.set()].transport.decode_errors),
        final(store)@[t.set()].transport.codec_drops == old(store)@[t.set()].transport.codec_drops,
        final(store)@[t.set()].transport.payload_decode_errors == old(store)@[t.set()].transport.payload_decode_errors,
        final(store)@[t.set()].transport.tx_packets == old(store)@[t.set()].transport.tx_packets,
        final(store)@[t.set()].transport.tx_send_failures == old(store)@[t.set()].transport.tx_send_failures,
        final(store)@[t.set()].transport.tx_queue_drops == old(store)@[t.set()].transport.tx_queue_drops,
        final(store)@[t.set()].packet_encode_errors == old(store)@[t.set()].packet_encode_errors,
{
}

/// A frame that could not be encoded is counted as such, once, and as nothing else.
pub proof fn codec_drops_are_counted(t: ClientTelemetryCounters, store: &mut TelemetryStore)
    requires
        t.is_in(*old(store)),
        call_ensures(ClientTelemetryCounters::record_codec_drop, (&t, store), ()),
    ensures
        others_kept(old(store)@, final(store)@, t.set()),
        final(store)@[t.set()].transport.udp_rx_packets == old(store)@[t.set()].transport.udp_rx_packets,
        final(store)@[t.set()].transport.malformed_packets == old(store)@[t.set()].transport.malformed_packets,
        final(store)@[t.set()].transport.decode_errors == old(store)@[t.set()].transport.decode_errors,
        one_more(old(store)@[t.set()].transport.codec_drops, final(store)@[t.set()].transport.codec_drops),
        final(store)@[t.set()].transport.payload_decode_errors == old(store)@[t.set()].transport.payload_decode_errors,
        final(store)@[t.set()].transport.tx_packets == old(store)@[t.set()].transport.tx_packets,
        final(store)@[t.set()].transport.tx_send_failures == old(store)@[t.set()].transport.tx_send_failures,
        final(store)@[t.set()].transport.tx_queue_drops == old(store)@[t.set()].transport.tx_queue_drops,
        final(store)@[t.set()].packet_encode_errors == old(store)@[t.set()].packet_encode_errors,
{
}

/// A payload that could not be decoded is counted as such, once, and as nothing else.
pub proof fn payload_decode_errors_are_counted(t: ClientTelemetryCounters, store: &mut TelemetryStore)
    requires
        t.is_in(*old(store)),
        call_ensures(ClientTelemetryCounters::record_payload_decode_error, (&t, store), ()),
    ensures
        others_kept(old(store)@, final(store)@, t.set()),
        final(store)@[t.set()].transport.udp_rx_packets == old(store)@[t.set()].transport.udp_rx_packets,
        final(store)@[t.set()].transport.malformed_packets == old(store)@[t.set()].transport.malformed_packets,
        final(store)@[t.set()].transport.decode_errors == old(store)@[t.set()].transport.decode_errors,
        final(store)@[t.set()].transport.codec_drops == old(store)@[t.set()].transport.codec_drops,
        one_more(old(store)@[t.set()].transport.payload_decode_errors, final(store)@[t.set()].transport.payload_decode_errors),
        final(store)@[t.set()].transport.tx_packets == old(store)@[t.set()].transport.tx_packets,
        final(store)@[t.set()].transport.tx_send_failures == old(store)@[t.set()].transport.tx_send_failures,
        final(store)@[t.set()].transport.tx_queue_drops == old(store)@[t.set()].transport.tx_queue_drops,
        final(store)@[t.set()].packet_encode_errors == old(store)@[t.set()].packet_encode_errors,
{
}

/// A packet that was sent is counted as such, once, and as nothing else.
pub proof fn tx_packets_are_counted(t: ClientTelemetryCounters, store: &mut TelemetryStore)
    requires
        t.is_in(*old(store)),
        call_ensures(ClientTelemetryCounters::record_tx_packet, (&t, store), ()),
    ensures
        others_kept(old(store)@, final(store)@, t.set()),
        final(store)@[t.set()].transport.udp_rx_packets == old(store)@[t.set()].transport.udp_rx_packets,
        final(store)@[t.set()].transport.malformed_packets == old(store)@[t.set()].transport.malformed_packets,
        final(store)@[t.set()].transport.decode_errors == old(store)@[t.set()].transport.decode_errors,
        final(store)@[t.set()].transport.codec_drops == old(store)@[t.set()].transport.codec_drops,
        final(store)@[t.set()].transport.payload_decode_errors == old(store)@[t.set()].transport.payload_decode_errors,
        one_more(old(store)@[t.set()].transport.tx_packets, final(store)@[t.set()].transport.tx_packets),
        final(store)@[t.set()].transport.tx_send_failures == old(store)@[t.set()].transport.tx_send_failures,
        final(store)@[t.set()].transport.tx_queue_drops == old(store)@[t.set()].transport.tx_queue_drops,
        final(store)@[t.set()].packet_encode_errors == old(store)@[t.set()].packet_encode_errors,
{
}

/// A packet that could not be sent is counted as such, once, and as nothing else.
pub proof fn tx_send_failures_are_counted(t: ClientTelemetryCounters, store: &mut TelemetryStore)
    requires
        t.is_in(*old(store)),
        call_ensures(ClientTelemetryCounters::record_tx_send_failure, (&t, store), ()),
    ensures
        others_kept(old(store)@, final(store)@, t.set()),
        final(store)@[t.set()].transport.udp_rx_packets == old(store)@[t.set()].transport.udp_rx_packets,
        final(store)@[t.set()].transport.malformed_packets == old(store)@[t.set()].transport.malformed_packets,
        final(store)@[t.set()].transport.decode_errors == old(store)@[t.set()].transport.decode_errors,
        final(store)@[t.set()].transport.codec_drops == old(store)@[t.set()].transport.codec_drops,
        final(store)@[t.set()].transport.payload_decode_errors == old(store)@[t.set()].transport.payload_decode_errors,
        final(store)@[t.set()].transport.tx_packets == old(store)@[t.set()].transport.tx_packets,
        one_more(old(store)@[t.set()].transport.tx_send_failures, final(store)@[t.set()].transport.tx_send_failures),
        final(store)@[t.set()].transport.tx_queue_drops == old(store)@[t.set()].transport.tx_queue_drops,
        final(store)@[t.set()].packet_encode_errors == old(store)@[t.set()].packet_encode_errors,
{
}

/// A frame that was dropped before it was sent is counted as such, once, and as nothing else.
pub proof fn tx_queue_drops_are_counted(t: ClientTelemetryCounters, store: &mut TelemetryStore)
    requires
        t.is_in(*old(store)),
        call_ensures(ClientTelemetryCounters::record_tx_queue_drop, (&t, store), ()),
    ensures
        others_kept(old(store)@, final(store)@, t.set()),
        final(store)@[t.set()].transport.udp_rx_packets == old(store)@[t.set()].transport.udp_rx_packets,
        final(store)@[t.set()].transport.malformed_packets == old(store)@[t.set()].transport.malformed_packets,
        final(store)@[t.set()].transport.decode_errors == old(store)@[t.set()].transport.decode_errors,
        final(store)@[t.set()].transport.codec_drops == old(store)@[t.set()].transport.codec_drops,
        final(store)@[t.set()].transport.payload_decode_errors == old(store)@[t.set()].transport.payload_decode_errors,
        final(store)@[t.set()].transport.tx_packets == old(store)@[t.set()].transport.tx_packets,
        final(store)@[t.set()].transport.tx_send_failures == old(store)@[t.set()].transport.tx_send_failures,
        one_more(old(store)@[t.set()].transport.tx_queue_drops, final(store)@[t.set()].transport.tx_queue_drops),
        final(store)@[t.set()].packet_encode_errors == old(store)@[t.set()].packet_encode_errors,
{
}

/// A packet that could not be written is counted as such, once, and as nothing else.
pub proof fn packet_encode_errors_are_counted(t: ClientTelemetryCounters, store: &mut TelemetryStore)
    requires
        t.is_in(*old(store)),
        call_ensures(ClientTelemetryCounters::record_packet_encode_error, (&t, store), ()),
    ensures
        others_kept(old(store)@, final(store)@, t.set()),
        final(store)@[t.set()].transport.udp_rx_packets == old(store)@[t.set()].transport.udp_rx_packets,
        final(store)@[t.set()].transport.malformed_packets == old(store)@[t.set()].transport.malformed_packets,
        final(store)@[t.set()].transport.decode_errors == old(store)@[t.set()].transport.decode_errors,
        final(store)@[t.set()].transport.codec_drops == old(store)@[t.set()].transport.codec_drops,
        final(store)@[t.set()].transport.payload_decode_errors == old(store)@[t.set()].transport.payload_decode_errors,
        final(store)@[t.set()].transport.tx_packets == old(store)@[t.set()].transport.tx_packets,
        final(store)@[t.set()].transport.tx_send_failures == old(store)@[t.set()].transport.tx_send_failures,
        final(store)@[t.set()].transport.tx_queue_drops == old(store)@[t.set()].transport.tx_queue_drops,
        one_more(old(store)@[t.set()].packet_encode_errors, final(store)@[t.set()].packet_encode_errors),
{
}

/// A client counts in a set of its own, from zero, and reports it; counters made of
/// one another count in the same set.
pub proof fn counters_start_at_zero(
    store: &mut TelemetryStore,
    t: ClientTelemetryCounters,
    known: bool,
    shown: ClientTelemetryTransportStatus,
    unwritten: u64,
)
    requires
        call_ensures(ClientTelemetryCounters::new, (store,), t),
        call_ensures(ClientTelemetryCounters::belongs_to, (&t, final(store)), known),
        call_ensures(ClientTelemetryCounters::snapshot, (&t, final(store)), shown),
        call_ensures(ClientTelemetryCounters::packet_encode_errors, (&t, final(store)), unwritten),
    ensures
        known,
        t.set() == old(store)@.len(),
        others_kept(old(store)@.push(final(store)@[t.set()]), final(store)@, t.set()),
        shown.udp_rx_packets == 0 && shown.malformed_packets == 0 && shown.decode_errors == 0
            && shown.codec_drops == 0 && shown.payload_decode_errors == 0 && shown.tx_packets == 0
            && shown.tx_send_failures == 0 && shown.tx_queue_drops == 0,
        unwritten == 0,
{
}

/// What is reported is what was counted.
pub proof fn counts_are_reported(
    t: ClientTelemetryCounters,
    store: TelemetryStore,
    shown: ClientTelemetryTransportStatus,
    unwritten: u64,
    known: bool,
)
    requires
        t.is_in(store),
        call_ensures(ClientTelemetryCounters::snapshot, (&t, &store), shown),
        call_ensures(ClientTelemetryCounters::packet_encode_errors, (&t, &store), unwritten),
        call_ensures(ClientTelemetryCounters::belongs_to, (&t, &store), known),
    ensures
        shown == store@[t.set()].transport,
        unwritten == store@[t.set()].packet_encode_errors,
        known,
{
}

/// The playback is reported as it is; a number of channels that is too large for the
/// report is cut off.
pub proof fn playback_is_reported(stats: PlaybackStats, r: ClientTelemetryPlaybackStatus)
    requires
        call_ensures(playback_telemetry_from_stats, (stats,), r),
    ensures
        r.available_samples == stats.available_samples,
        r.queue_depth == stats.available_samples,
        r.capacity_samples == stats.capacity_samples,
        r.prebuffer_samples == stats.prebuffer_samples,
        stats.channels <= u16::MAX ==> r.channels == stats.channels,
        stats.channels > u16::MAX ==> r.channels == u16::MAX,
        r.started == stats.started,
        r.underflows == stats.underflows,
        r.overflows == stats.overflows,
        r.dropped_samples == stats.dropped_samples,
{
}

/// The audio of a desktop client is reported as it was captured; its input level is
/// the one after the gain.
pub proof fn desktop_audio_is_reported(
    d: DesktopCaptureHealthStatus,
    r: ClientTelemetryAudioStatus,
)
    requires
        call_ensures(desktop_capture_audio_telemetry, (&d,), r),
    ensures
        r.backend == d.backend,
        d.device@.len() == 0 ==> r.input_device is None,
        d.device@.len() > 0 ==> r.input_device == Some(d.device),
        r.output_device is None && r.speaker_gain is None,
        r.sample_format == d.sample_format,
        r.sample_rate_hz == d.sample_rate_hz,
        r.channels == d.channels,
        r.channel_mode == d.channel_mode,
        r.mic_gain == Some(ReportedGain::Factor(d.mic_gain)),
        r.input == d.post_gain,
        r.pre_gain == d.pre_gain,
        r.post_gain == d.post_gain,
        r.pre_gain_clipped_samples == d.pre_gain_clipped_samples,
        r.post_gain_clipped_samples == d.post_gain_clipped_samples,
        r.dropped_frames == d.dropped_frames,
{
}

/// A report on the health of a client is completed with what the client is, how its
/// playback does and what went over the network. Audio that is reported already stays.
pub proof fn health_is_completed(
    health: CaptureHealthStatus,
    kind: &str,
    playback: PlaybackStats,
    transport: ClientTelemetryTransportStatus,
    phase: &str,
    last_error: Option<String>,
    r: CaptureHealthStatus,
    shown: ClientTelemetryPlaybackStatus,
)
    requires
        call_ensures(
            capture_health_with_client_telemetry,
            (health, kind, playback, transport, phase, last_error),
            r,
        ),
        call_ensures(playback_telemetry_from_stats, (playback,), shown),
    ensures
        r.runtime is Some && r.runtime->Some_0.client_kind@ == kind@ && r.runtime->Some_0.phase@
            == phase@ && r.runtime->Some_0.last_error == last_error,
        r.playback == Some(shown),
        r.client_transport == Some(transport),
        playback.available_samples <= u16::MAX ==> r.playback_queue_depth
            == playback.available_samples,
        playback.available_samples > u16::MAX ==> r.playback_queue_depth == u16::MAX,
        playback.underflows <= u32::MAX ==> r.playback_underflows == playback.underflows,
        playback.underflows > u32::MAX ==> r.playback_underflows == u32::MAX,
        playback.overflows <= u32::MAX ==> r.playback_overflows == playback.overflows,
        playback.overflows > u32::MAX ==> r.playback_overflows == u32::MAX,
        r.audio is Some,
        health.audio is Some ==> r.audio == health.audio,
        r.codec_config == health.codec_config && r.desktop == health.desktop && r.adc_input
            == health.adc_input && r.capture_channel == health.capture_channel
            && r.software_gain_percent == health.software_gain_percent && r.selected
            == health.selected && r.raw_clipped_samples == health.raw_clipped_samples
            && r.software_clipped_samples == health.software_clipped_samples && r.uptime_ms
            == health.uptime_ms,
{
}

/// Where no audio is reported yet it is that of the desktop, or else that of the
/// hardware.
pub proof fn audio_is_reported_by_its_source(
    health: CaptureHealthStatus,
    kind: &str,
    playback: PlaybackStats,
    transport: ClientTelemetryTransportStatus,
    phase: &str,
    last_error: Option<String>,
    r: CaptureHealthStatus,
)
    requires
        call_ensures(
            capture_health_with_client_telemetry,
            (health, kind, playback, transport, phase, last_error),
            r,
        ),
        health.audio is None,
    ensures
        r.audio is Some,
        health.desktop is Some ==> r.audio->Some_0.input == health.desktop->Some_0.post_gain
            && r.audio->Some_0.backend == health.desktop->Some_0.backend
            && r.audio->Some_0.sample_rate_hz == health.desktop->Some_0.sample_rate_hz,
        health.desktop is None ==> r.audio->Some_0.input == health.selected
            && r.audio->Some_0.channel_mode == health.capture_channel && r.audio->Some_0.mic_gain
            == Some(ReportedGain::Percent(health.software_gain_percent))
            && r.audio->Some_0.pre_gain_clipped_samples == health.raw_clipped_samples
            && r.audio->Some_0.post_gain_clipped_samples == health.software_clipped_samples
            && r.audio->Some_0.pre_gain == health.selected && r.audio->Some_0.post_gain
            == health.selected && r.audio->Some_0.speaker_gain is None
            && r.audio->Some_0.input_device is None && r.audio->Some_0.output_device is None
            && r.audio->Some_0.sample_format@.len() == 0 && r.audio->Some_0.dropped_frames == 0,
        health.desktop is None && health.codec_config is Some && (
        health.codec_config->Some_0.audio_backend@.len() == 0) ==> r.audio->Some_0.backend
            == health.adc_input,
        health.desktop is None && health.codec_config is Some
            ==> r.audio->Some_0.sample_rate_hz
            == health.codec_config->Some_0.hardware_sample_rate_hz && (
        health.codec_config->Some_0.audio_backend@.len() > 0 ==> r.audio->Some_0.backend
            == health.codec_config->Some_0.audio_backend),
        health.desktop is None && health.codec_config is None ==> r.audio->Some_0.backend
            == health.adc_input && r.audio->Some_0.sample_rate_hz == 0 && r.audio->Some_0.channels
            == 0,
{
}

/// A client without a report of its capture reports that it runs, as what it is, and
/// the rest as any other.
pub proof fn basic_reports_name_the_client(
    kind: &str,
    playback: PlaybackStats,
    transport: ClientTelemetryTransportStatus,
    r: CaptureHealthStatus,
)
    requires
        call_ensures(basic_client_telemetry, (kind, playback, transport), r),
    ensures
        r.runtime is Some && r.runtime->Some_0.client_kind@ == kind@ && r.runtime->Some_0.phase@
            == "running"@ && r.runtime->Some_0.last_error is None,
        r.client_transport == Some(transport),
        r.playback is Some && r.playback->Some_0.available_samples == playback.available_samples
            && r.playback->Some_0.underflows == playback.underflows,
        r.adc_input@ == kind@ && r.capture_channel@ == "mono"@,
        r.desktop is None && r.codec_config is None,
        r.audio is Some && r.audio->Some_0.backend@ == kind@,
        r.software_gain_percent == 0 && r.raw_clipped_samples == 0 && r.software_clipped_samples
            == 0 && r.uptime_ms == 0,
{
}

} // verus!
