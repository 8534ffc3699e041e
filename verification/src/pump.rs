//! Moving audio: what follows each step of sending, receiving, and passing audio
//! to browsers and to and from NDI.

use vstd::prelude::*;

use crate::bridge::{BridgeArgs, BridgeOutputKind, EndpointRuntimeTelemetry};
use crate::bridge_app::BrowserSourceTelemetry;
use crate::config::ClientConfig;
use crate::control::{accept_hello, HelloError};
use crate::playback::{Playback, PlaybackBuffer};
use crate::protocol::{
    AudioTarget, Codec, ControlMessage, ControlResponse, EnrollmentStatus, OpusProfile,
    MIX_SAMPLES_PER_FRAME,
};
use crate::session::{
    channels_received, numbered, receive_channels, Args, FailureLog, PacketHeader, PacketSender,
    TransmitSnapshot,
};
use crate::telemetry::{counted_in, ClientTelemetryCounters, Counter, TelemetryStore};
use crate::text::{concat2, owned};

verus! {

// ---------------------------------------------------------------------------
// Starting

/// What the server is told after the introduction: the routing, where the server
/// has none for the client.
pub fn greet(config: &mut ClientConfig, response: ControlResponse) -> (r: Result<
    Option<ControlMessage>,
    HelloError,
>)
    ensures
        match response {
            ControlResponse::Hello { preconfigured, user_id, client_uid, enrollment } => if enrollment
                == EnrollmentStatus::Enrolled {
                *final(config) == (ClientConfig {
                    user_id,
                    client_uid: if client_uid@.len() == 0 {
                        old(config).client_uid
                    } else {
                        client_uid
                    },
                    ..*old(config)
                }) && (r matches Ok(m) && match m {
                    Some(message) => !preconfigured && final(config).told_by(message),
                    None => preconfigured,
                })
            } else {
                r == Err::<Option<ControlMessage>, HelloError>(HelloError::NotEnrolled(enrollment))
                    && *final(config) == *old(config)
            },
            ControlResponse::Ack => *final(config) == *old(config) && (r matches Ok(Some(message))
                && final(config).told_by(message)),
            ControlResponse::Error { message } => r == Err::<Option<ControlMessage>, HelloError>(
                HelloError::Refused(message),
            ) && *final(config) == *old(config),
        },
{
    match accept_hello(config, response) {
        Err(e) => Err(e),
        Ok(preconfigured) => if preconfigured {
            Ok(None)
        } else {
            Ok(Some(config.control_message()))
        },
    }
}

/// What an operator drives a client with.
#[derive(Debug, Clone, Copy, PartialEq, Eq, Structural)]
pub enum OperatorInput {
    Nothing,
    Commands,
    Hotkeys,
}

/// What an operator drives a client with: keys, where some are bound.
pub fn operator_input(args: &Args) -> (r: OperatorInput)
    ensures
        r == (if args.disable_command_loop {
            OperatorInput::Nothing
        } else if args.button_keys@.len() == 0 {
            OperatorInput::Commands
        } else {
            OperatorInput::Hotkeys
        }),
{
    if args.disable_command_loop {
        OperatorInput::Nothing
    } else if args.button_keys.len() == 0 {
        OperatorInput::Commands
    } else {
        OperatorInput::Hotkeys
    }
}

/// Tells whether the health of a client is reported: not before the server has
/// given it a number.
pub fn reports_health(config: &ClientConfig) -> (r: bool)
    ensures
        r == (config.user_id != 0),
{
    config.user_id != 0
}

/// The playback buffer of a bridge: it waits for some frames where it feeds a
/// device.
pub fn bridge_playback(args: &BridgeArgs) -> (r: PlaybackBuffer)
    ensures
        r.wf(),
        ({
            let waits = args.mode.gives_out() && args.output_kind == BridgeOutputKind::AudioDevice;
            r@ == (Playback {
                queue: Seq::empty(),
                capacity: (20 * MIX_SAMPLES_PER_FRAME) as nat,
                prebuffer: if waits {
                    (4 * MIX_SAMPLES_PER_FRAME) as nat
                } else {
                    0
                },
                channels: 1,
                started: !waits,
                underflows: 0,
                overflows: 0,
                dropped: 0,
            })
        }),
{
    if args.mode.plays() && args.output_kind == BridgeOutputKind::AudioDevice {
        PlaybackBuffer::new(20 * MIX_SAMPLES_PER_FRAME, 4 * MIX_SAMPLES_PER_FRAME)
    } else {
        PlaybackBuffer::new(20 * MIX_SAMPLES_PER_FRAME, 0)
    }
}

// ---------------------------------------------------------------------------
// Sending

/// How long sending rests after a failure.
pub const SEND_PAUSE_MS: u64 = 250;

/// What comes next in sending.
#[derive(Debug, Clone, Copy, PartialEq, Eq, Structural)]
pub enum TransmitAction {
    /// Wait for the next frame.
    NextFrame,
    /// Make an encoder.
    MakeEncoder(Codec, OpusProfile),
    /// Encode the frame.
    Encode,
    /// Send the encoded frame under this header.
    Send(PacketHeader),
    /// Rest for so many milliseconds, then wait for the next frame.
    Pause(u64),
    /// Stop sending.
    Stop,
}

/// The sending of frames, one after the other.
#[derive(Debug)]
pub struct Transmitter {
    pub sender: PacketSender,
    pub log: FailureLog,
    /// Sending goes on after a fault.
    pub persistent: bool,
    /// What the frame under way is sent with.
    pub user_id: u16,
    pub wanted_codec: Codec,
    pub wanted_profile: OpusProfile,
    pub targets: Vec<AudioTarget>,
    /// The targets that the frame was handed out for.
    pub next: usize,
    pub timestamp: u32,
}

impl Transmitter {
    /// The frame under way has a target left.
    pub open spec fn has_target(self) -> bool {
        self.next < self.targets@.len()
    }

    /// The header for the next target.
    pub open spec fn next_header(self) -> PacketHeader {
        PacketHeader {
            user_id: self.user_id,
            target: self.targets@[self.next as int],
            codec: self.sender.codec,
            seq: self.sender.seq,
            timestamp: self.timestamp,
        }
    }

    /// What comes next for the frame under way.
    pub open spec fn next_action(self) -> TransmitAction {
        if self.has_target() {
            TransmitAction::Send(self.next_header())
        } else {
            TransmitAction::NextFrame
        }
    }

    /// The sending after the next target was handed out.
    pub open spec fn handed_out(self) -> Transmitter {
        if self.has_target() {
            Transmitter {
                next: (self.next + 1) as usize,
                sender: PacketSender { seq: self.sender.seq.wrapping_add(1), ..self.sender },
                ..self
            }
        } else {
            self
        }
    }

    /// What follows a fault.
    pub open spec fn after_fault(self) -> TransmitAction {
        if self.persistent {
            TransmitAction::NextFrame
        } else {
            TransmitAction::Stop
        }
    }

    /// Sending starts with the encoder for a codec.
    pub fn new(codec: Codec, opus_profile: OpusProfile, persistent: bool) -> (r: Self)
        ensures
            r.sender == (PacketSender { codec, opus_profile, seq: 0, timestamp: 0 }),
            !r.log.reported,
            r.persistent == persistent,
            !r.has_target(),
    {
        Transmitter {
            sender: PacketSender::new(codec, opus_profile),
            log: FailureLog::new(),
            persistent,
            user_id: 0,
            wanted_codec: codec,
            wanted_profile: opus_profile,
            targets: Vec::new(),
            next: 0,
            timestamp: 0,
        }
    }

    /// A frame was captured: `snapshot` is what it is sent with, if to anybody.
    pub fn frame(&mut self, snapshot: Option<TransmitSnapshot>) -> (r: TransmitAction)
        ensures
            match snapshot {
                None => r == TransmitAction::NextFrame && *final(self) == *old(self),
                Some(s) => *final(self) == (Transmitter {
                    user_id: s.user_id,
                    wanted_codec: s.codec,
                    wanted_profile: s.opus_profile,
                    targets: s.targets,
                    next: 0,
                    ..*old(self)
                }) && r == (if s.codec != old(self).sender.codec || s.opus_profile != old(
                    self,
                ).sender.opus_profile {
                    TransmitAction::MakeEncoder(s.codec, s.opus_profile)
                } else {
                    TransmitAction::Encode
                }),
            },
    {
        match snapshot {
            None => TransmitAction::NextFrame,
            Some(s) => {
                let needs = self.sender.needs_encoder(&s);
                self.user_id = s.user_id;
                self.wanted_codec = s.codec;
                self.wanted_profile = s.opus_profile;
                self.targets = s.targets;
                self.next = 0;
                if needs {
                    TransmitAction::MakeEncoder(self.wanted_codec, self.wanted_profile)
                } else {
                    TransmitAction::Encode
                }
            },
        }
    }

    /// The encoder was made.
    pub fn encoder_made(&mut self) -> (r: TransmitAction)
        ensures
            r == TransmitAction::Encode,
            *final(self) == (Transmitter {
                sender: PacketSender {
                    codec: old(self).wanted_codec,
                    opus_profile: old(self).wanted_profile,
                    ..old(self).sender
                },
                ..*old(self)
            }),
    {
        self.sender.codec = self.wanted_codec;
        self.sender.opus_profile = self.wanted_profile;
        TransmitAction::Encode
    }

    /// The encoder could not be made: the frame is lost.
    pub fn encoder_failed(&self) -> (r: TransmitAction)
        ensures
            r == self.after_fault(),
    {
        if self.persistent {
            TransmitAction::NextFrame
        } else {
            TransmitAction::Stop
        }
    }

    fn hand_out(&mut self) -> (r: TransmitAction)
        ensures
            r == old(self).next_action(),
            *final(self) == old(self).handed_out(),
    {
        if self.next < self.targets.len() {
            let target = self.targets[self.next];
            let header = self.sender.next_packet(self.user_id, target, self.timestamp);
            self.next = self.next + 1;
            TransmitAction::Send(header)
        } else {
            TransmitAction::NextFrame
        }
    }

    /// The frame was encoded: it gets its timestamp, and goes to its first target.
    pub fn encoded(&mut self) -> (r: TransmitAction)
        ensures
            ({
                let stamped = Transmitter {
                    timestamp: old(self).sender.timestamp,
                    sender: PacketSender {
                        timestamp: old(self).sender.timestamp.wrapping_add(
                            crate::protocol::frame_len(
                                crate::protocol::codec_rate(old(self).sender.codec),
                            ) as u32,
                        ),
                        ..old(self).sender
                    },
                    ..*old(self)
                };
                r == stamped.next_action() && *final(self) == stamped.handed_out()
            }),
    {
        self.timestamp = self.sender.next_timestamp();
        self.hand_out()
    }

    /// The frame could not be encoded: it is lost.
    pub fn encode_failed(
        &self,
        telemetry: &ClientTelemetryCounters,
        store: &mut TelemetryStore,
    ) -> (r: TransmitAction)
        requires
            telemetry.is_in(*old(store)),
        ensures
            r == self.after_fault(),
            final(store)@ == counted_in(old(store)@, telemetry.set(), Counter::CodecDrop),
    {
        telemetry.record_codec_drop(store);
        self.encoder_failed()
    }

    /// The packet could not be written: that target is passed over.
    pub fn packet_unwritable(
        &mut self,
        telemetry: &ClientTelemetryCounters,
        store: &mut TelemetryStore,
    ) -> (r: TransmitAction)
        requires
            telemetry.is_in(*old(store)),
        ensures
            final(store)@ == counted_in(old(store)@, telemetry.set(), Counter::PacketEncodeError),
            if old(self).persistent {
                r == old(self).next_action() && *final(self) == old(self).handed_out()
            } else {
                r == TransmitAction::Stop && *final(self) == *old(self)
            },
    {
        telemetry.record_packet_encode_error(store);
        if self.persistent {
            self.hand_out()
        } else {
            TransmitAction::Stop
        }
    }

    /// The packet was sent. The second result tells whether to report that sending
    /// works again.
    pub fn sent(
        &mut self,
        telemetry: &ClientTelemetryCounters,
        store: &mut TelemetryStore,
    ) -> (r: (TransmitAction, bool))
        requires
            telemetry.is_in(*old(store)),
        ensures
            r.0 == old(self).next_action(),
            r.1 == old(self).log.reported,
            *final(self) == (Transmitter {
                log: FailureLog { reported: false },
                ..old(self).handed_out()
            }),
            final(store)@ == counted_in(old(store)@, telemetry.set(), Counter::TxPacket),
    {
        telemetry.record_tx_packet(store);
        let recovered = self.log.succeeded();
        (self.hand_out(), recovered)
    }

    /// The packet could not be sent: the other targets of the frame are given up.
    /// The second result tells whether to report the failure.
    pub fn send_failed(
        &mut self,
        telemetry: &ClientTelemetryCounters,
        store: &mut TelemetryStore,
    ) -> (r: (TransmitAction, bool))
        requires
            telemetry.is_in(*old(store)),
        ensures
            final(store)@ == counted_in(old(store)@, telemetry.set(), Counter::TxSendFailure),
            if old(self).persistent {
                r == (TransmitAction::Pause(SEND_PAUSE_MS), !old(self).log.reported)
                    && *final(self) == (Transmitter {
                    log: FailureLog { reported: true },
                    ..*old(self)
                })
            } else {
                r == (TransmitAction::Stop, true) && *final(self) == *old(self)
            },
    {
        telemetry.record_tx_send_failure(store);
        if self.persistent {
            let report = self.log.failed();
            (TransmitAction::Pause(SEND_PAUSE_MS), report)
        } else {
            (TransmitAction::Stop, true)
        }
    }
}

/// Sending after `k` more targets were handed out.
pub open spec fn handed_out_times(t: Transmitter, k: nat) -> Transmitter
    decreases k,
{
    if k == 0 {
        t
    } else {
        handed_out_times(t, (k - 1) as nat).handed_out()
    }
}

/// A frame goes to each of its targets once, in their order: the packets carry
/// one timestamp and numbers in a row, and after the last one the next frame is
/// waited for.
pub proof fn frames_reach_every_target(t: Transmitter, k: nat)
    requires
        t.next == 0,
        k <= t.targets@.len(),
        k < 65_536,
    ensures
        handed_out_times(t, k).next == k,
        handed_out_times(t, k).targets == t.targets,
        handed_out_times(t, k).sender.seq == numbered(t.sender.seq, k),
        k < t.targets@.len() ==> handed_out_times(t, k).next_action() == TransmitAction::Send(
            PacketHeader {
                user_id: t.user_id,
                target: t.targets@[k as int],
                codec: t.sender.codec,
                seq: numbered(t.sender.seq, k),
                timestamp: t.timestamp,
            },
        ),
        k == t.targets@.len() ==> handed_out_times(t, k).next_action() == TransmitAction::NextFrame,
    decreases k,
{
    lemma_handed_out(t, k);
}

proof fn lemma_handed_out(t: Transmitter, k: nat)
    requires
        t.next == 0,
        k <= t.targets@.len(),
        k < 65_536,
    ensures
        ({
            let s = handed_out_times(t, k);
            &&& s.next == k
            &&& s.targets == t.targets
            &&& s.user_id == t.user_id
            &&& s.timestamp == t.timestamp
            &&& s.sender.codec == t.sender.codec
            &&& s.sender.seq == numbered(t.sender.seq, k)
        }),
    decreases k,
{
    if k > 0 {
        lemma_handed_out(t, (k - 1) as nat);
    }
}

// ---------------------------------------------------------------------------
// Receiving

/// How a packet is decoded.
#[derive(Debug, Clone, Copy, PartialEq, Eq, Structural)]
pub struct ReceivePlan {
    pub channels: usize,
    pub opus_profile: OpusProfile,
}

/// Plans how a packet is decoded: `codec` is that of the packet, where it could
/// be read. A packet that could not be read is dropped.
pub fn packet_received(
    telemetry: &ClientTelemetryCounters,
    store: &mut TelemetryStore,
    config: &ClientConfig,
    codec: Option<Codec>,
) -> (r: Option<ReceivePlan>)
    requires
        telemetry.is_in(*old(store)),
    ensures
        match codec {
            Some(c) => r == Some(
                ReceivePlan {
                    channels: channels_received(*config, c),
                    opus_profile: config.opus_profile,
                },
            ) && final(store)@ == counted_in(old(store)@, telemetry.set(), Counter::UdpRxPacket),
            None => r is None && final(store)@ == counted_in(
                old(store)@,
                telemetry.set(),
                Counter::MalformedPacket,
            ),
        },
{
    match codec {
        Some(c) => {
            telemetry.record_udp_rx_packet(store);
            Some(
                ReceivePlan {
                    channels: receive_channels(config, c),
                    opus_profile: config.opus_profile,
                },
            )
        },
        None => {
            telemetry.record_malformed_packet(store);
            None
        },
    }
}

/// Takes what a packet was decoded to, where it could be decoded. The result
/// tells whether there is audio to play.
pub fn payload_decoded(
    telemetry: &ClientTelemetryCounters,
    store: &mut TelemetryStore,
    decoded: bool,
) -> (r: bool)
    requires
        telemetry.is_in(*old(store)),
    ensures
        r == decoded,
        final(store)@ == if decoded {
            old(store)@
        } else {
            counted_in(old(store)@, telemetry.set(), Counter::DecodeError)
        },
{
    if !decoded {
        telemetry.record_decode_error(store);
    }
    decoded
}

// ---------------------------------------------------------------------------
// Audio from NDI

/// How long a source that cannot be reached is left alone.
pub const NDI_RETRY_MS: u64 = 1000;

/// How long a frame is waited for.
pub const NDI_FRAME_WAIT_MS: u64 = 500;

/// What comes of connecting to a source, or of waiting for a frame of it.
#[derive(Debug)]
pub enum NdiCaptureEvent {
    Connected,
    ConnectFailed(String),
    /// A frame of that form and level came, at that time.
    Frame { sample_rate_hz: u32, channels: usize, level_ppm: u32, now_ms: u64 },
    NoFrame,
    ReceiveFailed(String),
}

/// What comes next in taking audio from NDI.
#[derive(Debug, Clone, Copy, PartialEq, Eq, Structural)]
pub enum NdiCaptureAction {
    /// Wait for a frame.
    Receive,
    /// Rest for so many milliseconds, then connect.
    Retry(u64),
    /// Connect.
    Connect,
    /// Take the audio of the frame, after making what suits its form where that
    /// is told.
    Take { sample_rate_hz: u32, channels: usize, changed: bool },
}

/// The form of audio that is taken.
#[derive(Debug, Clone, Copy, PartialEq, Eq, Structural)]
pub struct NdiCapture {
    pub sample_rate_hz: u32,
    pub channels: usize,
    /// Audio of that form is being taken.
    pub ready: bool,
}

impl NdiCapture {
    /// No audio has come.
    pub fn new() -> (r: Self)
        ensures
            !r.ready,
    {
        NdiCapture { sample_rate_hz: 0, channels: 0, ready: false }
    }

    /// Takes what came, and tells what comes next.
    pub fn step(&mut self, telemetry: &mut EndpointRuntimeTelemetry, event: NdiCaptureEvent) -> (r:
        NdiCaptureAction)
        ensures
            match event {
                NdiCaptureEvent::Connected => r == NdiCaptureAction::Receive && !final(self).ready
                    && *final(telemetry) == (EndpointRuntimeTelemetry {
                    warning: None,
                    ..*old(telemetry)
                }),
                NdiCaptureEvent::ConnectFailed(e) => r == NdiCaptureAction::Retry(NDI_RETRY_MS)
                    && *final(self) == *old(self) && failed_over(
                    *old(telemetry),
                    *final(telemetry),
                    "NDI source unavailable: "@ + e@,
                ),
                NdiCaptureEvent::Frame { sample_rate_hz, channels, level_ppm, now_ms } => r
                    == NdiCaptureAction::Take {
                    sample_rate_hz,
                    channels,
                    changed: !(old(self).ready && old(self).sample_rate_hz == sample_rate_hz && old(
                        self,
                    ).channels == channels),
                } && *final(self) == (NdiCapture { sample_rate_hz, channels, ready: true })
                    && *final(telemetry) == (EndpointRuntimeTelemetry {
                    audio_level_ppm: level_ppm,
                    frames: old(telemetry).frames.wrapping_add(1),
                    last_audio_ms: now_ms,
                    ..*old(telemetry)
                }),
                NdiCaptureEvent::NoFrame => r == NdiCaptureAction::Receive && *final(self) == *old(
                    self,
                ) && *final(telemetry) == (EndpointRuntimeTelemetry {
                    underflows: old(telemetry).underflows.wrapping_add(1),
                    ..*old(telemetry)
                }),
                NdiCaptureEvent::ReceiveFailed(e) => r == NdiCaptureAction::Connect && *final(self)
                    == *old(self) && failed_over(
                    *old(telemetry),
                    *final(telemetry),
                    "NDI receive reconnecting: "@ + e@,
                ),
            },
    {
        match event {
            NdiCaptureEvent::Connected => {
                telemetry.set_warning(None);
                self.ready = false;
                NdiCaptureAction::Receive
            },
            NdiCaptureEvent::ConnectFailed(e) => {
                telemetry.record_reconnect();
                telemetry.set_warning(Some(concat2("NDI source unavailable: ", e.as_str())));
                NdiCaptureAction::Retry(NDI_RETRY_MS)
            },
            NdiCaptureEvent::Frame { sample_rate_hz, channels, level_ppm, now_ms } => {
                telemetry.record_audio_level(level_ppm, now_ms);
                let changed = !(self.ready && self.sample_rate_hz == sample_rate_hz
                    && self.channels == channels);
                self.sample_rate_hz = sample_rate_hz;
                self.channels = channels;
                self.ready = true;
                NdiCaptureAction::Take { sample_rate_hz, channels, changed }
            },
            NdiCaptureEvent::NoFrame => {
                telemetry.record_underflow();
                NdiCaptureAction::Receive
            },
            NdiCaptureEvent::ReceiveFailed(e) => {
                telemetry.record_reconnect();
                telemetry.set_warning(Some(concat2("NDI receive reconnecting: ", e.as_str())));
                NdiCaptureAction::Connect
            },
        }
    }
}

/// A connection was lost: it is counted, and the operator is warned.
pub open spec fn failed_over(
    before: EndpointRuntimeTelemetry,
    after: EndpointRuntimeTelemetry,
    warning: Seq<char>,
) -> bool {
    &&& after.warning is Some
    &&& after.warning->Some_0@ == warning
    &&& after == (EndpointRuntimeTelemetry {
        reconnects: before.reconnects.wrapping_add(1),
        warning: after.warning,
        ..before
    })
}

// ---------------------------------------------------------------------------
// Audio to NDI

/// Takes note of a packet for NDI: `codec` is that of the packet, where it could
/// be read. A packet that could not be read is dropped.
pub fn ndi_packet_received(
    telemetry: &ClientTelemetryCounters,
    store: &mut TelemetryStore,
    endpoint: &mut EndpointRuntimeTelemetry,
    config: &ClientConfig,
    codec: Option<Codec>,
) -> (r: Option<ReceivePlan>)
    requires
        telemetry.is_in(*old(store)),
    ensures
        match codec {
            Some(c) => r == Some(
                ReceivePlan {
                    channels: channels_received(*config, c),
                    opus_profile: config.opus_profile,
                },
            ) && *final(endpoint) == *old(endpoint) && final(store)@ == counted_in(
                old(store)@,
                telemetry.set(),
                Counter::UdpRxPacket,
            ),
            None => r is None && *final(endpoint) == (EndpointRuntimeTelemetry {
                drops: old(endpoint).drops.wrapping_add(1),
                ..*old(endpoint)
            }) && final(store)@ == counted_in(
                old(store)@,
                telemetry.set(),
                Counter::MalformedPacket,
            ),
        },
{
    if codec.is_none() {
        endpoint.record_drop();
    }
    packet_received(telemetry, store, config, codec)
}

/// Takes what a packet for NDI was decoded to: the level of its audio and the
/// time, where it could be decoded. The result tells whether there is audio to
/// send.
pub fn ndi_payload_decoded(
    telemetry: &ClientTelemetryCounters,
    store: &mut TelemetryStore,
    endpoint: &mut EndpointRuntimeTelemetry,
    decoded: Option<(u32, u64)>,
) -> (r: bool)
    requires
        telemetry.is_in(*old(store)),
    ensures
        match decoded {
            Some((level_ppm, now_ms)) => r && final(store)@ == old(store)@
                && *final(endpoint) == (EndpointRuntimeTelemetry {
                audio_level_ppm: level_ppm,
                frames: old(endpoint).frames.wrapping_add(1),
                last_audio_ms: now_ms,
                ..*old(endpoint)
            }),
            None => !r && *final(endpoint) == (EndpointRuntimeTelemetry {
                drops: old(endpoint).drops.wrapping_add(1),
                ..*old(endpoint)
            }) && final(store)@ == counted_in(old(store)@, telemetry.set(), Counter::DecodeError),
        },
{
    match decoded {
        Some((level_ppm, now_ms)) => {
            endpoint.record_audio_level(level_ppm, now_ms);
            true
        },
        None => {
            telemetry.record_decode_error(store);
            endpoint.record_drop();
            false
        },
    }
}

/// Audio could not be sent to NDI: another sender is to be made.
pub fn ndi_send_failed(endpoint: &mut EndpointRuntimeTelemetry, error: &str)
    ensures
        failed_over(*old(endpoint), *final(endpoint), "NDI output send failed: "@ + error@),
{
    endpoint.record_reconnect();
    endpoint.set_warning(Some(concat2("NDI output send failed: ", error)));
}

/// A sender for NDI was made.
pub fn ndi_sender_made(endpoint: &mut EndpointRuntimeTelemetry)
    ensures
        *final(endpoint) == (EndpointRuntimeTelemetry { warning: None, ..*old(endpoint) }),
{
    endpoint.set_warning(None);
}

/// The name of the runtime that NDI is used through.
pub fn ndi_runtime_name(library_path: Option<String>) -> (r: String)
    ensures
        r@ == (match library_path {
            Some(path) => path@,
            None => "system NDI runtime"@,
        }),
{
    match library_path {
        Some(path) => path,
        None => owned("system NDI runtime"),
    }
}

// ---------------------------------------------------------------------------
// Audio to browsers

/// What the server is told after a route for browsers has introduced itself: its
/// routing, whatever the server has for it.
pub fn source_greet(config: &mut ClientConfig, response: ControlResponse) -> (r: Result<
    ControlMessage,
    HelloError,
>)
    ensures
        match response {
            ControlResponse::Hello { preconfigured, user_id, client_uid, enrollment } => if enrollment
                == EnrollmentStatus::Enrolled {
                *final(config) == (ClientConfig {
                    user_id,
                    client_uid: if client_uid@.len() == 0 {
                        old(config).client_uid
                    } else {
                        client_uid
                    },
                    ..*old(config)
                }) && (r matches Ok(message) && final(config).told_by(message))
            } else {
                r == Err::<ControlMessage, HelloError>(HelloError::NotEnrolled(enrollment))
                    && *final(config) == *old(config)
            },
            ControlResponse::Ack => *final(config) == *old(config) && (r matches Ok(message)
                && final(config).told_by(message)),
            ControlResponse::Error { message } => r == Err::<ControlMessage, HelloError>(
                HelloError::Refused(message),
            ) && *final(config) == *old(config),
        },
{
    match accept_hello(config, response) {
        Err(e) => Err(e),
        Ok(_) => Ok(config.control_message()),
    }
}

/// Takes note of a packet for browsers: `codec` is that of the packet, where it
/// could be read. A packet that could not be read is dropped.
pub fn source_packet_received(
    telemetry: &mut BrowserSourceTelemetry,
    config: &ClientConfig,
    codec: Option<Codec>,
) -> (r: Option<ReceivePlan>)
    ensures
        match codec {
            Some(c) => r == Some(
                ReceivePlan {
                    channels: channels_received(*config, c),
                    opus_profile: config.opus_profile,
                },
            ) && *final(telemetry) == *old(telemetry),
            None => r is None && *final(telemetry) == (BrowserSourceTelemetry {
                drops: old(telemetry).drops.wrapping_add(1),
                ..*old(telemetry)
            }),
        },
{
    match codec {
        Some(c) => Some(
            ReceivePlan {
                channels: receive_channels(config, c),
                opus_profile: config.opus_profile,
            },
        ),
        None => {
            telemetry.record_drop();
            None
        },
    }
}

/// Takes what a packet for browsers was decoded to: the level of its audio and the
/// time, where it could be decoded, and whether a browser listens. Audio that is not
/// there or that nobody hears is lost.
pub fn source_payload_decoded(
    telemetry: &mut BrowserSourceTelemetry,
    decoded: Option<(u32, u64)>,
    heard: bool,
)
    ensures
        match decoded {
            Some((level_ppm, now_ms)) => *final(telemetry) == (BrowserSourceTelemetry {
                audio_level_ppm: level_ppm,
                audio_frames: old(telemetry).audio_frames.wrapping_add(1),
                last_audio_ms: now_ms,
                drops: if heard {
                    old(telemetry).drops
                } else {
                    old(telemetry).drops.wrapping_add(1)
                },
                ..*old(telemetry)
            }),
            None => *final(telemetry) == (BrowserSourceTelemetry {
                drops: old(telemetry).drops.wrapping_add(1),
                ..*old(telemetry)
            }),
        },
{
    match decoded {
        Some((level_ppm, now_ms)) => {
            telemetry.record_audio(level_ppm, now_ms);
            if !heard {
                telemetry.record_drop();
            }
        },
        None => telemetry.record_drop(),
    }
}

} // verus!
