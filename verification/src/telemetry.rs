//! What a client reports of its own health.

use vstd::prelude::*;
use crate::gain::Gain;
use crate::playback::PlaybackStats;
use crate::text::owned;

verus! {

/// Counts of what went over the network, each going back to zero when it is full.
#[derive(Debug, Clone, Copy, PartialEq, Eq, Structural)]
pub struct ClientTelemetryTransportStatus {
    pub udp_rx_packets: u64,
    pub malformed_packets: u64,
    pub decode_errors: u64,
    pub codec_drops: u64,
    pub payload_decode_errors: u64,
    pub tx_packets: u64,
    pub tx_send_failures: u64,
    pub tx_queue_drops: u64,
}

/// What a client counts.
#[derive(Debug, Clone, Copy, PartialEq, Eq, Structural)]
pub enum Counter {
    /// A packet came.
    UdpRxPacket,
    /// A packet came that could not be read.
    MalformedPacket,
    /// The audio of a packet could not be decoded.
    DecodeError,
    /// A frame could not be encoded.
    CodecDrop,
    /// A payload could not be decoded.
    PayloadDecodeError,
    /// A packet was sent.
    TxPacket,
    /// A packet could not be sent.
    TxSendFailure,
    /// A frame was dropped before it was sent.
    TxQueueDrop,
    /// A packet could not be written.
    PacketEncodeError,
}

/// All that a client counts: what it reports, and the packets that it could not
/// write, which its reports leave out.
#[derive(Debug, Clone, Copy, PartialEq, Eq, Structural)]
pub struct TelemetryCounts {
    pub transport: ClientTelemetryTransportStatus,
    pub packet_encode_errors: u64,
}

/// Nothing has been counted.
pub open spec fn no_counts() -> TelemetryCounts {
    TelemetryCounts {
        transport: ClientTelemetryTransportStatus {
            udp_rx_packets: 0,
            malformed_packets: 0,
            decode_errors: 0,
            codec_drops: 0,
            payload_decode_errors: 0,
            tx_packets: 0,
            tx_send_failures: 0,
            tx_queue_drops: 0,
        },
        packet_encode_errors: 0,
    }
}

/// The counts after one more of `what`: that count is one higher, or zero after the
/// largest, and the others are as they were.
pub open spec fn counted(counts: TelemetryCounts, what: Counter) -> TelemetryCounts {
    let t = counts.transport;
    match what {
        Counter::UdpRxPacket => TelemetryCounts {
            transport: ClientTelemetryTransportStatus {
                udp_rx_packets: t.udp_rx_packets.wrapping_add(1),
                ..t
            },
            ..counts
        },
        Counter::MalformedPacket => TelemetryCounts {
            transport: ClientTelemetryTransportStatus {
                malformed_packets: t.malformed_packets.wrapping_add(1),
                ..t
            },
            ..counts
        },
        Counter::DecodeError => TelemetryCounts {
            transport: ClientTelemetryTransportStatus {
                decode_errors: t.decode_errors.wrapping_add(1),
                ..t
            },
            ..counts
        },
        Counter::CodecDrop => TelemetryCounts {
            transport: ClientTelemetryTransportStatus {
                codec_drops: t.codec_drops.wrapping_add(1),
                ..t
            },
            ..counts
        },
        Counter::PayloadDecodeError => TelemetryCounts {
            transport: ClientTelemetryTransportStatus {
                payload_decode_errors: t.payload_decode_errors.wrapping_add(1),
                ..t
            },
            ..counts
        },
        Counter::TxPacket => TelemetryCounts {
            transport: ClientTelemetryTransportStatus {
                tx_packets: t.tx_packets.wrapping_add(1),
                ..t
            },
            ..counts
        },
        Counter::TxSendFailure => TelemetryCounts {
            transport: ClientTelemetryTransportStatus {
                tx_send_failures: t.tx_send_failures.wrapping_add(1),
                ..t
            },
            ..counts
        },
        Counter::TxQueueDrop => TelemetryCounts {
            transport: ClientTelemetryTransportStatus {
                tx_queue_drops: t.tx_queue_drops.wrapping_add(1),
                ..t
            },
            ..counts
        },
        Counter::PacketEncodeError => TelemetryCounts {
            packet_encode_errors: counts.packet_encode_errors.wrapping_add(1),
            ..counts
        },
    }
}

/// All sets of counts after one more of `what` in one of them.
pub open spec fn counted_in(
    sets: Seq<TelemetryCounts>,
    set: int,
    what: Counter,
) -> Seq<TelemetryCounts> {
    sets.update(set, counted(sets[set], what))
}

/// The sets of counts of the clients that run.
#[derive(Debug)]
pub struct TelemetryStore {
    sets: Vec<TelemetryCounts>,
}

impl View for TelemetryStore {
    type V = Seq<TelemetryCounts>;

    closed spec fn view(&self) -> Seq<TelemetryCounts> {
        self.sets@
    }
}

impl Default for TelemetryStore {
    fn default() -> (r: Self)
        ensures
            r@.len() == 0,
    {
        TelemetryStore { sets: Vec::new() }
    }
}

/// The counters of a running client: a handle on one set of counts in a store. A
/// clone is a handle on the same set.
#[derive(Debug)]
pub struct ClientTelemetryCounters {
    set: usize,
}

impl Clone for ClientTelemetryCounters {
    fn clone(&self) -> (r: Self)
        ensures
            r == *self,
    {
        ClientTelemetryCounters { set: self.set }
    }
}

impl ClientTelemetryCounters {
    /// The place of the set in the store.
    pub closed spec fn set(self) -> int {
        self.set as int
    }

    /// The set stands in that store.
    pub open spec fn is_in(self, store: TelemetryStore) -> bool {
        0 <= self.set() < store@.len()
    }

    /// The counts that stand behind the handle.
    pub open spec fn counts(self, store: TelemetryStore) -> TelemetryCounts {
        store@[self.set()]
    }

    /// Adds a set of counts to the store. Nothing has been counted in it.
    pub fn new(store: &mut TelemetryStore) -> (r: Self)
        ensures
            final(store)@ == old(store)@.push(no_counts()),
            r.set() == old(store)@.len(),
            r.is_in(*final(store)),
    {
        let set: usize = store.sets.len();
        store.sets.push(
            TelemetryCounts {
                transport: ClientTelemetryTransportStatus {
                    udp_rx_packets: 0,
                    malformed_packets: 0,
                    decode_errors: 0,
                    codec_drops: 0,
                    payload_decode_errors: 0,
                    tx_packets: 0,
                    tx_send_failures: 0,
                    tx_queue_drops: 0,
                },
                packet_encode_errors: 0,
            },
        );
        ClientTelemetryCounters { set }
    }

    /// Whether the set stands in that store.
    pub fn belongs_to(&self, store: &TelemetryStore) -> (r: bool)
        ensures
            r == self.is_in(*store),
    {
        self.set < store.sets.len()
    }

    pub fn record_udp_rx_packet(&self, store: &mut TelemetryStore)
        requires
            self.is_in(*old(store)),
        ensures
            final(store)@ == counted_in(old(store)@, self.set(), Counter::UdpRxPacket),
    {
        let mut counts = store.sets[self.set];
        let seen: u64 = counts.transport.udp_rx_packets;
        counts.transport.udp_rx_packets = seen.wrapping_add(1);
        store.sets.set(self.set, counts);
    }

    pub fn record_malformed_packet(&self, store: &mut TelemetryStore)
        requires
            self.is_in(*old(store)),
        ensures
            final(store)@ == counted_in(old(store)@, self.set(), Counter::MalformedPacket),
    {
        let mut counts = store.sets[self.set];
        let seen: u64 = counts.transport.malformed_packets;
        counts.transport.malformed_packets = seen.wrapping_add(1);
        store.sets.set(self.set, counts);
    }

    pub fn record_decode_error(&self, store: &mut TelemetryStore)
        requires
            self.is_in(*old(store)),
        ensures
            final(store)@ == counted_in(old(store)@, self.set(), Counter::DecodeError),
    {
        let mut counts = store.sets[self.set];
        let seen: u64 = counts.transport.decode_errors;
        counts.transport.decode_errors = seen.wrapping_add(1);
        store.sets.set(self.set, counts);
    }

    pub fn record_codec_drop(&self, store: &mut TelemetryStore)
        requires
            self.is_in(*old(store)),
        ensures
            final(store)@ == counted_in(old(store)@, self.set(), Counter::CodecDrop),
    {
        let mut counts = store.sets[self.set];
        let seen: u64 = counts.transport.codec_drops;
        counts.transport.codec_drops = seen.wrapping_add(1);
        store.sets.set(self.set, counts);
    }

    pub fn record_payload_decode_error(&self, store: &mut TelemetryStore)
        requires
            self.is_in(*old(store)),
        ensures
            final(store)@ == counted_in(old(store)@, self.set(), Counter::PayloadDecodeError),
    {
        let mut counts = store.sets[self.set];
        let seen: u64 = counts.transport.payload_decode_errors;
        counts.transport.payload_decode_errors = seen.wrapping_add(1);
        store.sets.set(self.set, counts);
    }

    pub fn record_tx_packet(&self, store: &mut TelemetryStore)
        requires
            self.is_in(*old(store)),
        ensures
            final(store)@ == counted_in(old(store)@, self.set(), Counter::TxPacket),
    {
        let mut counts = store.sets[self.set];
        let seen: u64 = counts.transport.tx_packets;
        counts.transport.tx_packets = seen.wrapping_add(1);
        store.sets.set(self.set, counts);
    }

    pub fn record_tx_send_failure(&self, store: &mut TelemetryStore)
        requires
            self.is_in(*old(store)),
        ensures
            final(store)@ == counted_in(old(store)@, self.set(), Counter::TxSendFailure),
    {
        let mut counts = store.sets[self.set];
        let seen: u64 = counts.transport.tx_send_failures;
        counts.transport.tx_send_failures = seen.wrapping_add(1);
        store.sets.set(self.set, counts);
    }

    pub fn record_tx_queue_drop(&self, store: &mut TelemetryStore)
        requires
            self.is_in(*old(store)),
        ensures
            final(store)@ == counted_in(old(store)@, self.set(), Counter::TxQueueDrop),
    {
        let mut counts = store.sets[self.set];
        let seen: u64 = counts.transport.tx_queue_drops;
        counts.transport.tx_queue_drops = seen.wrapping_add(1);
        store.sets.set(self.set, counts);
    }

    pub fn record_packet_encode_error(&self, store: &mut TelemetryStore)
        requires
            self.is_in(*old(store)),
        ensures
            final(store)@ == counted_in(old(store)@, self.set(), Counter::PacketEncodeError),
    {
        let mut counts = store.sets[self.set];
        counts.packet_encode_errors = counts.packet_encode_errors.wrapping_add(1);
        store.sets.set(self.set, counts);
    }

    /// The counts at this moment, as they are reported.
    pub fn snapshot(&self, store: &TelemetryStore) -> (r: ClientTelemetryTransportStatus)
        requires
            self.is_in(*store),
        ensures
            r == self.counts(*store).transport,
    {
        store.sets[self.set].transport
    }

    /// How many packets could not be written.
    pub fn packet_encode_errors(&self, store: &TelemetryStore) -> (r: u64)
        requires
            self.is_in(*store),
        ensures
            r == self.counts(*store).packet_encode_errors,
    {
        store.sets[self.set].packet_encode_errors
    }
}

/// Clones share one set of counters. What is counted through a clone shows through
/// the handle that it was cloned from: that one count is higher by one, no other
/// count moves, and neither does any count of another set.
pub proof fn clones_share_counters(
    c: ClientTelemetryCounters,
    d: ClientTelemetryCounters,
    what: Counter,
    before: TelemetryStore,
    after: TelemetryStore,
)
    requires
        cloned(c, d),
        c.is_in(before),
        after@ == counted_in(before@, d.set(), what),
    ensures
        c.is_in(after),
        c.counts(after) == counted(c.counts(before), what),
        d.counts(after) == c.counts(after),
        forall|e: ClientTelemetryCounters|
            e.is_in(before) && e.set() != c.set() ==> e.is_in(after) && #[trigger] e.counts(after)
                == e.counts(before),
{
}

/// A decoding error that is counted through a clone is one more decoding error of a
/// payload in the next snapshot through the handle it was cloned from, and no other
/// count of the snapshot is another.
pub proof fn payload_errors_show_through_clones(
    c: ClientTelemetryCounters,
    d: ClientTelemetryCounters,
    before: TelemetryStore,
    after: TelemetryStore,
)
    requires
        cloned(c, d),
        c.is_in(before),
        after@ == counted_in(before@, d.set(), Counter::PayloadDecodeError),
    ensures
        c.counts(after).transport == (ClientTelemetryTransportStatus {
            payload_decode_errors: c.counts(
                before,
            ).transport.payload_decode_errors.wrapping_add(1),
            ..c.counts(before).transport
        }),
{
    clones_share_counters(c, d, Counter::PayloadDecodeError, before, after);
}

/// The state of the playback buffer in a report.
#[derive(Debug, Clone, Copy, PartialEq, Eq, Structural)]
pub struct ClientTelemetryPlaybackStatus {
    pub available_samples: u64,
    pub capacity_samples: u64,
    pub prebuffer_samples: u64,
    pub queue_depth: u64,
    pub channels: u16,
    pub started: bool,
    pub underflows: u64,
    pub overflows: u64,
    pub dropped_samples: u64,
}

/// A count in 16 bits, the largest of them for more.
pub open spec fn capped16(n: nat) -> u16 {
    if n <= u16::MAX {
        n as u16
    } else {
        u16::MAX
    }
}

/// A count in 32 bits, the largest of them for more.
pub open spec fn capped32(n: nat) -> u32 {
    if n <= u32::MAX {
        n as u32
    } else {
        u32::MAX
    }
}

fn cap16(n: u64) -> (r: u16)
    ensures
        r == capped16(n as nat),
{
    if n <= u16::MAX as u64 {
        n as u16
    } else {
        u16::MAX
    }
}

fn cap32(n: u64) -> (r: u32)
    ensures
        r == capped32(n as nat),
{
    if n <= u32::MAX as u64 {
        n as u32
    } else {
        u32::MAX
    }
}

/// The report on the playback buffer.
pub open spec fn playback_report(stats: PlaybackStats) -> ClientTelemetryPlaybackStatus {
    ClientTelemetryPlaybackStatus {
        available_samples: stats.available_samples as u64,
        capacity_samples: stats.capacity_samples as u64,
        prebuffer_samples: stats.prebuffer_samples as u64,
        queue_depth: stats.available_samples as u64,
        channels: capped16(stats.channels as nat),
        started: stats.started,
        underflows: stats.underflows,
        overflows: stats.overflows,
        dropped_samples: stats.dropped_samples,
    }
}

/// The report on the playback buffer.
pub fn playback_telemetry_from_stats(stats: PlaybackStats) -> (r: ClientTelemetryPlaybackStatus)
    ensures
        r == playback_report(stats),
{
    ClientTelemetryPlaybackStatus {
        available_samples: stats.available_samples as u64,
        capacity_samples: stats.capacity_samples as u64,
        prebuffer_samples: stats.prebuffer_samples as u64,
        queue_depth: stats.available_samples as u64,
        channels: cap16(stats.channels as u64),
        started: stats.started,
        underflows: stats.underflows,
        overflows: stats.overflows,
        dropped_samples: stats.dropped_samples,
    }
}

/// The levels of one channel, in the form in which they go into a report.
#[derive(Debug, Clone, PartialEq, Eq)]
pub struct ChannelHealth {
    pub encoded: String,
}

impl ChannelHealth {
    fn copy(&self) -> (r: Self)
        ensures
            r == *self,
    {
        ChannelHealth { encoded: self.encoded.clone() }
    }
}

/// The gain of a microphone: a factor, or a whole percentage.
#[derive(Debug, Clone, Copy, PartialEq, Eq, Structural)]
pub enum ReportedGain {
    Factor(Gain),
    Percent(u16),
}

/// How a client runs.
#[derive(Debug, Clone, PartialEq, Eq)]
pub struct ClientTelemetryRuntimeStatus {
    pub client_kind: String,
    pub phase: String,
    pub last_error: Option<String>,
}

/// The audio path of a client.
#[derive(Debug, Clone, PartialEq, Eq)]
pub struct ClientTelemetryAudioStatus {
    pub backend: String,
    pub input_device: Option<String>,
    pub output_device: Option<String>,
    pub sample_format: String,
    pub sample_rate_hz: u32,
    pub channels: u16,
    pub channel_mode: String,
    pub mic_gain: Option<ReportedGain>,
    pub speaker_gain: Option<ReportedGain>,
    pub input: ChannelHealth,
    pub pre_gain: ChannelHealth,
    pub post_gain: ChannelHealth,
    pub pre_gain_clipped_samples: u32,
    pub post_gain_clipped_samples: u32,
    pub dropped_frames: u32,
}

/// The capture path of a desktop client.
#[derive(Debug, Clone, PartialEq, Eq)]
pub struct DesktopCaptureHealthStatus {
    pub backend: String,
    pub device: String,
    pub sample_format: String,
    pub sample_rate_hz: u32,
    pub channels: u16,
    pub channel_mode: String,
    pub mic_gain: Gain,
    pub pre_gain: ChannelHealth,
    pub post_gain: ChannelHealth,
    pub pre_gain_clipped_samples: u32,
    pub post_gain_clipped_samples: u32,
    pub dropped_frames: u32,
}

/// The audio hardware of a client.
#[derive(Debug, Clone, PartialEq, Eq)]
pub struct CodecHardwareConfig {
    pub audio_backend: String,
    pub hardware_sample_rate_hz: u32,
    pub hardware_channels: u8,
}

/// A client's report on its capture, with what is known of the rest.
#[derive(Debug, Clone, PartialEq, Eq)]
pub struct CaptureHealthStatus {
    pub runtime: Option<ClientTelemetryRuntimeStatus>,
    pub audio: Option<ClientTelemetryAudioStatus>,
    pub playback: Option<ClientTelemetryPlaybackStatus>,
    pub client_transport: Option<ClientTelemetryTransportStatus>,
    pub codec_config: Option<CodecHardwareConfig>,
    pub desktop: Option<DesktopCaptureHealthStatus>,
    pub playback_queue_depth: u16,
    pub playback_underflows: u32,
    pub playback_overflows: u32,
    pub adc_input: String,
    pub capture_channel: String,
    pub software_gain_percent: u16,
    pub selected: ChannelHealth,
    pub raw_clipped_samples: u32,
    pub software_clipped_samples: u32,
    /// For how long the client has been running.
    pub uptime_ms: u64,
}

/// The audio status is that of a desktop capture.
pub open spec fn describes_desktop(
    a: ClientTelemetryAudioStatus,
    d: DesktopCaptureHealthStatus,
) -> bool {
    &&& a.backend == d.backend
    &&& a.input_device == if d.device@.len() == 0 {
        None
    } else {
        Some(d.device)
    }
    &&& a.output_device is None
    &&& a.sample_format == d.sample_format
    &&& a.sample_rate_hz == d.sample_rate_hz
    &&& a.channels == d.channels
    &&& a.channel_mode == d.channel_mode
    &&& a.mic_gain == Some(ReportedGain::Factor(d.mic_gain))
    &&& a.speaker_gain is None
    &&& a.input == d.post_gain
    &&& a.pre_gain == d.pre_gain
    &&& a.post_gain == d.post_gain
    &&& a.pre_gain_clipped_samples == d.pre_gain_clipped_samples
    &&& a.post_gain_clipped_samples == d.post_gain_clipped_samples
    &&& a.dropped_frames == d.dropped_frames
}

/// The audio status is what the hardware and the capture counters tell.
pub open spec fn describes_hardware(a: ClientTelemetryAudioStatus, h: CaptureHealthStatus) -> bool {
    &&& a.backend == match h.codec_config {
        Some(c) => if c.audio_backend@.len() == 0 {
            h.adc_input
        } else {
            c.audio_backend
        },
        None => h.adc_input,
    }
    &&& a.input_device is None
    &&& a.output_device is None
    &&& a.sample_format@.len() == 0
    &&& a.sample_rate_hz == match h.codec_config {
        Some(c) => c.hardware_sample_rate_hz,
        None => 0,
    }
    &&& a.channels == match h.codec_config {
        Some(c) => c.hardware_channels as u16,
        None => 0,
    }
    &&& a.channel_mode == h.capture_channel
    &&& a.mic_gain == Some(ReportedGain::Percent(h.software_gain_percent))
    &&& a.speaker_gain is None
    &&& a.input == h.selected
    &&& a.pre_gain == h.selected
    &&& a.post_gain == h.selected
    &&& a.pre_gain_clipped_samples == h.raw_clipped_samples
    &&& a.post_gain_clipped_samples == h.software_clipped_samples
    &&& a.dropped_frames == 0
}

/// The audio status of a desktop capture.
pub fn desktop_capture_audio_telemetry(desktop: &DesktopCaptureHealthStatus) -> (r:
    ClientTelemetryAudioStatus)
    ensures
        describes_desktop(r, *desktop),
{
    let input_device = if desktop.device.as_str().is_empty() {
        None
    } else {
        Some(desktop.device.clone())
    };
    ClientTelemetryAudioStatus {
        backend: desktop.backend.clone(),
        input_device,
        output_device: None,
        sample_format: desktop.sample_format.clone(),
        sample_rate_hz: desktop.sample_rate_hz,
        channels: desktop.channels,
        channel_mode: desktop.channel_mode.clone(),
        mic_gain: Some(ReportedGain::Factor(desktop.mic_gain)),
        speaker_gain: None,
        input: desktop.post_gain.copy(),
        pre_gain: desktop.pre_gain.copy(),
        post_gain: desktop.post_gain.copy(),
        pre_gain_clipped_samples: desktop.pre_gain_clipped_samples,
        post_gain_clipped_samples: desktop.post_gain_clipped_samples,
        dropped_frames: desktop.dropped_frames,
    }
}

fn hardware_audio_telemetry(health: &CaptureHealthStatus) -> (r: ClientTelemetryAudioStatus)
    ensures
        describes_hardware(r, *health),
{
    let (backend, sample_rate_hz, channels) = match &health.codec_config {
        Some(c) => (
            if c.audio_backend.as_str().is_empty() {
                health.adc_input.clone()
            } else {
                c.audio_backend.clone()
            },
            c.hardware_sample_rate_hz,
            c.hardware_channels as u16,
        ),
        None => (health.adc_input.clone(), 0u32, 0u16),
    };
    ClientTelemetryAudioStatus {
        backend,
        input_device: None,
        output_device: None,
        sample_format: String::new(),
        sample_rate_hz,
        channels,
        channel_mode: health.capture_channel.clone(),
        mic_gain: Some(ReportedGain::Percent(health.software_gain_percent)),
        speaker_gain: None,
        input: health.selected.copy(),
        pre_gain: health.selected.copy(),
        post_gain: health.selected.copy(),
        pre_gain_clipped_samples: health.raw_clipped_samples,
        post_gain_clipped_samples: health.software_clipped_samples,
        dropped_frames: 0,
    }
}

/// The report `r` is `health` with the state of the running client filled in.
pub open spec fn completes(
    r: CaptureHealthStatus,
    health: CaptureHealthStatus,
    client_kind: Seq<char>,
    playback: PlaybackStats,
    transport: ClientTelemetryTransportStatus,
    phase: Seq<char>,
    last_error: Option<String>,
) -> bool {
    &&& r.runtime matches Some(run) && run.client_kind@ == client_kind && run.phase@ == phase
        && run.last_error == last_error
    &&& r.playback == Some(playback_report(playback))
    &&& r.client_transport == Some(transport)
    &&& r.playback_queue_depth == capped16(playback.available_samples as nat)
    &&& r.playback_underflows == capped32(playback.underflows as nat)
    &&& r.playback_overflows == capped32(playback.overflows as nat)
    &&& match health.audio {
        Some(_) => r.audio == health.audio,
        None => match health.desktop {
            Some(d) => r.audio is Some && describes_desktop(r.audio->Some_0, d),
            None => r.audio is Some && describes_hardware(r.audio->Some_0, health),
        },
    }
    &&& r.codec_config == health.codec_config
    &&& r.desktop == health.desktop
    &&& r.adc_input == health.adc_input
    &&& r.capture_channel == health.capture_channel
    &&& r.software_gain_percent == health.software_gain_percent
    &&& r.selected == health.selected
    &&& r.raw_clipped_samples == health.raw_clipped_samples
    &&& r.software_clipped_samples == health.software_clipped_samples
    &&& r.uptime_ms == health.uptime_ms
}

/// Fills the state of the running client into a report. An audio status that is
/// there already stays, else the capture gives it.
pub fn capture_health_with_client_telemetry(
    health: CaptureHealthStatus,
    client_kind: &str,
    playback: PlaybackStats,
    transport: ClientTelemetryTransportStatus,
    phase: &str,
    last_error: Option<String>,
) -> (r: CaptureHealthStatus)
    ensures
        completes(r, health, client_kind@, playback, transport, phase@, last_error),
{
    let mut health = health;
    let report = playback_telemetry_from_stats(playback);
    health.runtime =
    Some(
        ClientTelemetryRuntimeStatus {
            client_kind: owned(client_kind),
            phase: owned(phase),
            last_error,
        },
    );
    health.playback_queue_depth = cap16(report.queue_depth);
    health.playback_underflows = cap32(report.underflows);
    health.playback_overflows = cap32(report.overflows);
    health.playback = Some(report);
    health.client_transport = Some(transport);
    if health.audio.is_none() {
        let audio = match &health.desktop {
            Some(d) => desktop_capture_audio_telemetry(d),
            None => hardware_audio_telemetry(&health),
        };
        health.audio = Some(audio);
    }
    health
}

/// The report of a client without capture hardware of its own to tell of.
pub fn basic_client_telemetry(
    client_kind: &str,
    playback: PlaybackStats,
    transport: ClientTelemetryTransportStatus,
) -> (r: CaptureHealthStatus)
    ensures
        exists|health: CaptureHealthStatus| #[trigger]
            completes(r, health, client_kind@, playback, transport, "running"@, None) && {
                &&& health.adc_input@ == client_kind@
                &&& health.capture_channel@ == "mono"@
                &&& health.audio is None && health.desktop is None && health.codec_config is None
                &&& health.software_gain_percent == 0
                &&& health.selected.encoded@.len() == 0
                &&& health.raw_clipped_samples == 0 && health.software_clipped_samples == 0
                &&& health.uptime_ms == 0
            },
{
    let health = CaptureHealthStatus {
        runtime: None,
        audio: None,
        playback: None,
        client_transport: None,
        codec_config: None,
        desktop: None,
        playback_queue_depth: 0,
        playback_underflows: 0,
        playback_overflows: 0,
        adc_input: owned(client_kind),
        capture_channel: owned("mono"),
        software_gain_percent: 0,
        selected: ChannelHealth { encoded: String::new() },
        raw_clipped_samples: 0,
        software_clipped_samples: 0,
        uptime_ms: 0,
    };
    let r = capture_health_with_client_telemetry(
        health,
        client_kind,
        playback,
        transport,
        "running",
        None,
    );
    r
}

} // verus!
