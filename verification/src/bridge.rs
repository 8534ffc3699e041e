//! The bridge between the intercom and production audio: its routes, what it
//! reports of them, and how it starts.

use vstd::prelude::*;
use crate::config::ClientConfig;
use crate::endpoint::{filled, filled_text, opt_text};
use crate::gain::Gain;
use crate::net::SocketAddress;
use crate::protocol::{
    copy_ids, ClientCapabilities, ClientRole, Codec, ControlResponse, OpusProfile, TalkMode,
};
use crate::session::{
    fresh_config, is_fresh, wire_codec, wire_profile, ClientStart, SharedDefaults, WireCodec,
    WireOpusProfile,
};
use crate::text::{has_part, owned};

verus! {

/// The direction of a bridge, as it is reported.
#[derive(Debug, Clone, Copy, PartialEq, Eq, Structural)]
pub enum BridgeMode {
    Input,
    Output,
    Duplex,
}

/// What an endpoint of a bridge is, as it is reported.
#[derive(Debug, Clone, Copy, PartialEq, Eq, Structural)]
pub enum BridgeEndpointKind {
    AudioDevice,
    VmixBrowserSource,
    NdiSource,
    NdiOutput,
}

/// The direction of a bridge, as it is asked for.
#[derive(Debug, Clone, Copy, PartialEq, Eq, Structural)]
pub enum BridgeCliMode {
    Input,
    Output,
    Duplex,
}

impl BridgeCliMode {
    /// The bridge takes audio in.
    pub open spec fn takes_in(self) -> bool {
        self != BridgeCliMode::Output
    }

    /// The bridge gives audio out.
    pub open spec fn gives_out(self) -> bool {
        self != BridgeCliMode::Input
    }

    pub open spec fn reported(self) -> BridgeMode {
        match self {
            BridgeCliMode::Input => BridgeMode::Input,
            BridgeCliMode::Output => BridgeMode::Output,
            BridgeCliMode::Duplex => BridgeMode::Duplex,
        }
    }

    /// Tells whether the bridge takes audio in.
    pub fn captures(self) -> (r: bool)
        ensures
            r == self.takes_in(),
    {
        match self {
            BridgeCliMode::Output => false,
            _ => true,
        }
    }

    /// Tells whether the bridge gives audio out.
    pub fn plays(self) -> (r: bool)
        ensures
            r == self.gives_out(),
    {
        match self {
            BridgeCliMode::Input => false,
            _ => true,
        }
    }

    /// The direction as it is reported.
    pub fn status_mode(self) -> (r: BridgeMode)
        ensures
            r == self.reported(),
    {
        match self {
            BridgeCliMode::Input => BridgeMode::Input,
            BridgeCliMode::Output => BridgeMode::Output,
            BridgeCliMode::Duplex => BridgeMode::Duplex,
        }
    }
}

/// Where a bridge takes audio from.
#[derive(Debug, Clone, Copy, PartialEq, Eq, Structural)]
pub enum BridgeInputKind {
    AudioDevice,
    NdiSource,
}

impl BridgeInputKind {
    pub open spec fn reported(self) -> BridgeEndpointKind {
        match self {
            BridgeInputKind::AudioDevice => BridgeEndpointKind::AudioDevice,
            BridgeInputKind::NdiSource => BridgeEndpointKind::NdiSource,
        }
    }

    pub fn status_kind(self) -> (r: BridgeEndpointKind)
        ensures
            r == self.reported(),
    {
        match self {
            BridgeInputKind::AudioDevice => BridgeEndpointKind::AudioDevice,
            BridgeInputKind::NdiSource => BridgeEndpointKind::NdiSource,
        }
    }
}

/// Where a bridge gives audio to.
#[derive(Debug, Clone, Copy, PartialEq, Eq, Structural)]
pub enum BridgeOutputKind {
    AudioDevice,
    VmixBrowserSource,
    NdiOutput,
}

impl BridgeOutputKind {
    pub open spec fn reported(self) -> BridgeEndpointKind {
        match self {
            BridgeOutputKind::AudioDevice => BridgeEndpointKind::AudioDevice,
            BridgeOutputKind::VmixBrowserSource => BridgeEndpointKind::VmixBrowserSource,
            BridgeOutputKind::NdiOutput => BridgeEndpointKind::NdiOutput,
        }
    }

    pub fn status_kind(self) -> (r: BridgeEndpointKind)
        ensures
            r == self.reported(),
    {
        match self {
            BridgeOutputKind::AudioDevice => BridgeEndpointKind::AudioDevice,
            BridgeOutputKind::VmixBrowserSource => BridgeEndpointKind::VmixBrowserSource,
            BridgeOutputKind::NdiOutput => BridgeEndpointKind::NdiOutput,
        }
    }
}

/// The settings that a bridge is started with.
#[derive(Debug, Clone)]
pub struct BridgeArgs {
    pub server_host: Option<String>,
    pub server: SocketAddress,
    pub control: String,
    pub user_id: Option<u16>,
    pub client_uid: Option<String>,
    pub identity_file: Option<String>,
    pub name: String,
    pub mode: BridgeCliMode,
    pub tx_channels: Vec<u16>,
    pub listen_channels: Vec<u16>,
    pub codec: WireCodec,
    pub opus_profile: WireOpusProfile,
    pub stereo: bool,
    pub input_device: Option<String>,
    pub output_device: Option<String>,
    pub input_kind: BridgeInputKind,
    pub output_kind: BridgeOutputKind,
    pub ndi_source: Option<String>,
    pub ndi_output_name: Option<String>,
    pub ndi_groups: Option<String>,
    pub vmix_source_url: Option<String>,
    pub input_gain: Gain,
    pub output_gain: Gain,
    pub note: String,
    pub list_devices: bool,
    pub list_ndi_sources: bool,
}

/// Why a bridge cannot be started.
#[derive(Debug, Clone, Copy, PartialEq, Eq, Structural)]
pub enum BridgeStartError {
    UserIdMissing,
    NdiSourceMissing,
    NdiOutputNameMissing,
    VmixServedElsewhere,
}

impl BridgeStartError {
    pub open spec fn text(self) -> Seq<char> {
        match self {
            BridgeStartError::UserIdMissing => "--user-id is required"@,
            BridgeStartError::NdiSourceMissing => "NDI receive routes require --ndi-source"@,
            BridgeStartError::NdiOutputNameMissing =>
                "NDI output routes require --ndi-output-name"@,
            BridgeStartError::VmixServedElsewhere =>
                "vMix Browser Source output routes must be run by bridge-app so it can serve the local browser-source URL"@,
        }
    }

    /// The message for the operator.
    pub fn message(&self) -> (r: String)
        ensures
            r@ == self.text(),
    {
        match self {
            BridgeStartError::UserIdMissing => owned("--user-id is required"),
            BridgeStartError::NdiSourceMissing => owned("NDI receive routes require --ndi-source"),
            BridgeStartError::NdiOutputNameMissing => owned(
                "NDI output routes require --ndi-output-name",
            ),
            BridgeStartError::VmixServedElsewhere => owned(
                "vMix Browser Source output routes must be run by bridge-app so it can serve the local browser-source URL",
            ),
        }
    }
}

/// What is missing for the endpoints that are asked for, if anything.
pub open spec fn endpoint_fault(args: BridgeArgs) -> Option<BridgeStartError> {
    if args.mode.takes_in() && args.input_kind == BridgeInputKind::NdiSource && filled(
        opt_text(args.ndi_source),
    ) is None {
        Some(BridgeStartError::NdiSourceMissing)
    } else if args.mode.gives_out() && args.output_kind == BridgeOutputKind::NdiOutput && filled(
        opt_text(args.ndi_output_name),
    ) is None {
        Some(BridgeStartError::NdiOutputNameMissing)
    } else if args.mode.gives_out() && args.output_kind == BridgeOutputKind::VmixBrowserSource {
        Some(BridgeStartError::VmixServedElsewhere)
    } else {
        None
    }
}

/// Checks that nothing is missing for the endpoints that are asked for.
pub fn validate_route_endpoint_kinds(args: &BridgeArgs) -> (r: Result<(), BridgeStartError>)
    ensures
        r == match endpoint_fault(*args) {
            Some(e) => Err::<(), BridgeStartError>(e),
            None => Ok(()),
        },
{
    if args.mode.captures() && args.input_kind == BridgeInputKind::NdiSource && filled_text(
        &args.ndi_source,
    ).is_none() {
        return Err(BridgeStartError::NdiSourceMissing);
    }
    if args.mode.plays() && args.output_kind == BridgeOutputKind::NdiOutput && filled_text(
        &args.ndi_output_name,
    ).is_none() {
        return Err(BridgeStartError::NdiOutputNameMissing);
    }
    if args.mode.plays() && args.output_kind == BridgeOutputKind::VmixBrowserSource {
        return Err(BridgeStartError::VmixServedElsewhere);
    }
    Ok(())
}

// ---------------------------------------------------------------------------
// Starting
// ---------------------------------------------------------------------------

/// The configuration that a bridge starts with: it listens where it plays, and
/// transmits all the time where it captures.
pub fn bridge_config(args: &BridgeArgs, client_uid: String, defaults: SharedDefaults) -> (r: Result<
    ClientConfig,
    BridgeStartError,
>)
    ensures
        match args.user_id {
            None => r == Err::<ClientConfig, BridgeStartError>(BridgeStartError::UserIdMissing),
            Some(id) => r is Ok && {
                let c = r->Ok_0;
                &&& c.user_id == id
                &&& c.client_uid == client_uid
                &&& c.role == ClientRole::Bridge
                &&& c.name == args.name
                &&& c.listen@ == (if args.mode.gives_out() {
                    args.listen_channels@
                } else {
                    Seq::<u16>::empty()
                })
                &&& c.tx@ == (if args.mode.takes_in() {
                    args.tx_channels@
                } else {
                    Seq::<u16>::empty()
                })
                &&& c.codec == wire_codec(args.codec)
                &&& c.opus_profile == wire_profile(args.opus_profile)
                &&& c.talk_mode == (if args.mode.takes_in() {
                    TalkMode::Open
                } else {
                    TalkMode::Muted
                })
                &&& c.last_non_muted_talk_mode == TalkMode::Open
                &&& c.advertised_buttons@.len() == 0
                &&& c.stereo.enabled == args.stereo
                &&& c.capabilities == Some(ClientCapabilities::Bridge)
                &&& c.tally == Some(defaults.tally)
                &&& exists|s: ClientStart| #[trigger] is_fresh(c, s, defaults)
            },
        },
{
    let user_id = match args.user_id {
        Some(id) => id,
        None => {
            return Err(BridgeStartError::UserIdMissing);
        },
    };
    let listen = if args.mode.plays() {
        copy_ids(&args.listen_channels)
    } else {
        Vec::new()
    };
    let tx = if args.mode.captures() {
        copy_ids(&args.tx_channels)
    } else {
        Vec::new()
    };
    let start = ClientStart {
        user_id,
        client_uid,
        role: ClientRole::Bridge,
        name: args.name.clone(),
        listen,
        tx,
        codec: Codec::from(args.codec),
        opus_profile: OpusProfile::from(args.opus_profile),
        talk_mode: if args.mode.captures() {
            TalkMode::Open
        } else {
            TalkMode::Muted
        },
        last_non_muted_talk_mode: TalkMode::Open,
        advertised_buttons: Vec::new(),
        stereo: args.stereo,
    };
    proof {
        if !args.mode.gives_out() {
            assert(start.listen@ =~= Seq::<u16>::empty());
        }
        if !args.mode.takes_in() {
            assert(start.tx@ =~= Seq::<u16>::empty());
        }
    }
    Ok(fresh_config(start, defaults))
}

/// Where audio comes from.
#[derive(Debug)]
pub enum CapturePlan {
    Nothing,
    Device,
    Ndi(String),
}

/// Plans where audio comes from.
pub fn plan_capture(args: &BridgeArgs) -> (r: Result<CapturePlan, BridgeStartError>)
    ensures
        if !args.mode.takes_in() {
            r is Ok && r->Ok_0 is Nothing
        } else {
            match args.input_kind {
                BridgeInputKind::AudioDevice => r is Ok && r->Ok_0 is Device,
                BridgeInputKind::NdiSource => match filled(opt_text(args.ndi_source)) {
                    Some(name) => r is Ok && (r->Ok_0 matches CapturePlan::Ndi(n) && n@ == name),
                    None => r == Err::<CapturePlan, BridgeStartError>(
                        BridgeStartError::NdiSourceMissing,
                    ),
                },
            }
        },
{
    if !args.mode.captures() {
        return Ok(CapturePlan::Nothing);
    }
    match args.input_kind {
        BridgeInputKind::AudioDevice => Ok(CapturePlan::Device),
        BridgeInputKind::NdiSource => match filled_text(&args.ndi_source) {
            Some(name) => Ok(CapturePlan::Ndi(name)),
            None => Err(BridgeStartError::NdiSourceMissing),
        },
    }
}

/// Where audio goes.
#[derive(Debug)]
pub enum PlaybackPlan {
    Nothing,
    Device,
    Ndi(String),
}

/// Plans where audio goes. A browser source is served by another program.
pub fn plan_playback(args: &BridgeArgs) -> (r: Result<PlaybackPlan, BridgeStartError>)
    ensures
        if !args.mode.gives_out() {
            r is Ok && r->Ok_0 is Nothing
        } else {
            match args.output_kind {
                BridgeOutputKind::AudioDevice => r is Ok && r->Ok_0 is Device,
                BridgeOutputKind::VmixBrowserSource => r is Ok && r->Ok_0 is Nothing,
                BridgeOutputKind::NdiOutput => match filled(opt_text(args.ndi_output_name)) {
                    Some(name) => r is Ok && (r->Ok_0 matches PlaybackPlan::Ndi(n) && n@ == name),
                    None => r == Err::<PlaybackPlan, BridgeStartError>(
                        BridgeStartError::NdiOutputNameMissing,
                    ),
                },
            }
        },
{
    if !args.mode.plays() {
        return Ok(PlaybackPlan::Nothing);
    }
    match args.output_kind {
        BridgeOutputKind::AudioDevice => Ok(PlaybackPlan::Device),
        BridgeOutputKind::VmixBrowserSource => Ok(PlaybackPlan::Nothing),
        BridgeOutputKind::NdiOutput => match filled_text(&args.ndi_output_name) {
            Some(name) => Ok(PlaybackPlan::Ndi(name)),
            None => Err(BridgeStartError::NdiOutputNameMissing),
        },
    }
}

/// What became of a report to the server.
#[derive(Debug)]
pub enum ReportOutcome {
    Taken,
    /// The connection is being made again.
    Deferred(String),
    Rejected(String),
    Unexpected,
}

/// Reads the answer to a report.
pub fn report_outcome(response: ControlResponse) -> (r: ReportOutcome)
    ensures
        match response {
            ControlResponse::Ack => r is Taken,
            ControlResponse::Error { message } => if has_part(
                message@,
                "control connection unavailable"@,
            ) {
                r == ReportOutcome::Deferred(message)
            } else {
                r == ReportOutcome::Rejected(message)
            },
            ControlResponse::Hello { .. } => r is Unexpected,
        },
{
    match response {
        ControlResponse::Ack => ReportOutcome::Taken,
        ControlResponse::Error { message } => if crate::control::is_deferred(message.as_str()) {
            ReportOutcome::Deferred(message)
        } else {
            ReportOutcome::Rejected(message)
        },
        ControlResponse::Hello { .. } => ReportOutcome::Unexpected,
    }
}

// ---------------------------------------------------------------------------
// Telemetry
// ---------------------------------------------------------------------------

/// An endpoint without audio for longer than this many milliseconds is stale.
pub const STALE_AFTER_MS: u64 = 2000;

/// What has happened at an endpoint.
#[derive(Debug, Clone)]
pub struct EndpointRuntimeTelemetry {
    /// The last level of the audio, in millionths of the loudest.
    pub audio_level_ppm: u32,
    pub frames: u64,
    pub underflows: u64,
    pub drops: u64,
    pub reconnects: u64,
    /// When audio was last seen, in milliseconds since the start.
    pub last_audio_ms: u64,
    pub runtime: Option<String>,
    pub warning: Option<String>,
}

impl Default for EndpointRuntimeTelemetry {
    fn default() -> (r: Self)
        ensures
            r == (EndpointRuntimeTelemetry {
                audio_level_ppm: 0,
                frames: 0,
                underflows: 0,
                drops: 0,
                reconnects: 0,
                last_audio_ms: 0,
                runtime: None,
                warning: None,
            }),
    {
        EndpointRuntimeTelemetry {
            audio_level_ppm: 0,
            frames: 0,
            underflows: 0,
            drops: 0,
            reconnects: 0,
            last_audio_ms: 0,
            runtime: None,
            warning: None,
        }
    }
}

/// What is known of an endpoint at a moment.
#[derive(Debug, Clone)]
pub struct EndpointTelemetrySnapshot {
    pub audio_level_ppm: Option<u32>,
    pub frames: u64,
    pub underflows: u64,
    pub drops: u64,
    pub reconnects: u64,
    pub stale: bool,
    pub last_audio_ms_ago: Option<u64>,
    pub runtime: Option<String>,
    pub warning: Option<String>,
}

impl Default for EndpointTelemetrySnapshot {
    fn default() -> (r: Self)
        ensures
            r == (EndpointTelemetrySnapshot {
                audio_level_ppm: None,
                frames: 0,
                underflows: 0,
                drops: 0,
                reconnects: 0,
                stale: false,
                last_audio_ms_ago: None,
                runtime: None,
                warning: None,
            }),
    {
        EndpointTelemetrySnapshot {
            audio_level_ppm: None,
            frames: 0,
            underflows: 0,
            drops: 0,
            reconnects: 0,
            stale: false,
            last_audio_ms_ago: None,
            runtime: None,
            warning: None,
        }
    }
}

fn copy_opt(n: &Option<String>) -> (r: Option<String>)
    ensures
        r == *n,
{
    match n {
        Some(s) => Some(s.clone()),
        None => None,
    }
}

impl EndpointRuntimeTelemetry {
    /// Notes audio of some level at some time since the start.
    pub fn record_audio_level(&mut self, level_ppm: u32, now_ms: u64)
        ensures
            *final(self) == (EndpointRuntimeTelemetry {
                audio_level_ppm: level_ppm,
                frames: old(self).frames.wrapping_add(1),
                last_audio_ms: now_ms,
                ..*old(self)
            }),
    {
        self.audio_level_ppm = level_ppm;
        self.frames = self.frames.wrapping_add(1);
        self.last_audio_ms = now_ms;
    }

    pub fn record_underflow(&mut self)
        ensures
            *final(self) == (EndpointRuntimeTelemetry {
                underflows: old(self).underflows.wrapping_add(1),
                ..*old(self)
            }),
    {
        self.underflows = self.underflows.wrapping_add(1);
    }

    pub fn record_drop(&mut self)
        ensures
            *final(self) == (EndpointRuntimeTelemetry {
                drops: old(self).drops.wrapping_add(1),
                ..*old(self)
            }),
    {
        self.drops = self.drops.wrapping_add(1);
    }

    pub fn record_reconnect(&mut self)
        ensures
            *final(self) == (EndpointRuntimeTelemetry {
                reconnects: old(self).reconnects.wrapping_add(1),
                ..*old(self)
            }),
    {
        self.reconnects = self.reconnects.wrapping_add(1);
    }

    pub fn set_runtime(&mut self, runtime: &str)
        ensures
            final(self).runtime is Some,
            final(self).runtime->Some_0@ == runtime@,
            *final(self) == (EndpointRuntimeTelemetry {
                runtime: final(self).runtime,
                ..*old(self)
            }),
    {
        self.runtime = Some(owned(runtime));
    }

    pub fn set_warning(&mut self, warning: Option<String>)
        ensures
            *final(self) == (EndpointRuntimeTelemetry { warning, ..*old(self) }),
    {
        self.warning = warning;
    }

    /// How long ago audio was seen, in milliseconds.
    pub open spec fn silent_for(self, now_ms: u64) -> Option<u64> {
        if self.last_audio_ms == 0 {
            None
        } else if now_ms >= self.last_audio_ms {
            Some((now_ms - self.last_audio_ms) as u64)
        } else {
            Some(0)
        }
    }

    /// There has been no audio, or none for too long.
    pub open spec fn is_stale(self, now_ms: u64) -> bool {
        self.frames == 0 || match self.silent_for(now_ms) {
            Some(age) => age > STALE_AFTER_MS,
            None => false,
        }
    }

    /// What is known of the endpoint at a time since the start.
    pub fn snapshot(&self, now_ms: u64) -> (r: EndpointTelemetrySnapshot)
        ensures
            r == (EndpointTelemetrySnapshot {
                audio_level_ppm: if self.frames > 0 {
                    Some(self.audio_level_ppm)
                } else {
                    None
                },
                frames: self.frames,
                underflows: self.underflows,
                drops: self.drops,
                reconnects: self.reconnects,
                stale: self.is_stale(now_ms),
                last_audio_ms_ago: self.silent_for(now_ms),
                runtime: self.runtime,
                warning: self.warning,
            }),
    {
        let last_audio_ms_ago: Option<u64> = if self.last_audio_ms == 0 {
            None
        } else if now_ms >= self.last_audio_ms {
            Some(now_ms - self.last_audio_ms)
        } else {
            Some(0)
        };
        let old_audio = match last_audio_ms_ago {
            Some(age) => age > STALE_AFTER_MS,
            None => false,
        };
        EndpointTelemetrySnapshot {
            audio_level_ppm: if self.frames > 0 {
                Some(self.audio_level_ppm)
            } else {
                None
            },
            frames: self.frames,
            underflows: self.underflows,
            drops: self.drops,
            reconnects: self.reconnects,
            stale: self.frames == 0 || old_audio,
            last_audio_ms_ago,
            runtime: copy_opt(&self.runtime),
            warning: copy_opt(&self.warning),
        }
    }
}

// ---------------------------------------------------------------------------
// The report on a bridge
// ---------------------------------------------------------------------------

/// What a bridge reports of an endpoint.
#[derive(Debug, Clone)]
pub struct BridgeEndpointStatus {
    pub kind: BridgeEndpointKind,
    pub name: Option<String>,
    pub url: Option<String>,
    pub connected_clients: Option<u64>,
    pub available: Option<bool>,
    pub warning: Option<String>,
    pub runtime: Option<String>,
    pub audio_level_ppm: Option<u32>,
    pub frames: Option<u64>,
    pub underflows: Option<u64>,
    pub drops: Option<u64>,
    pub reconnects: Option<u64>,
    pub stale: Option<bool>,
    pub last_audio_ms_ago: Option<u64>,
}

/// What a bridge reports of itself.
#[derive(Debug, Clone)]
pub struct BridgeStatus {
    pub mode: BridgeMode,
    pub input_device: Option<String>,
    pub output_device: Option<String>,
    pub input: Option<BridgeEndpointStatus>,
    pub output: Option<BridgeEndpointStatus>,
    pub input_gain: Gain,
    pub output_gain: Gain,
    pub tx: Vec<u16>,
    pub listen: Vec<u16>,
    pub note: String,
}

/// What a bridge is set up as.
#[derive(Debug, Clone)]
pub struct BridgeStatusConfig {
    pub mode: BridgeCliMode,
    pub input_kind: BridgeInputKind,
    pub output_kind: BridgeOutputKind,
    pub input_device: Option<String>,
    pub output_device: Option<String>,
    pub ndi_source: Option<String>,
    pub ndi_output_name: Option<String>,
    pub vmix_source_url: Option<String>,
    pub input_gain: Gain,
    pub output_gain: Gain,
    pub note: String,
    pub input_telemetry: EndpointRuntimeTelemetry,
    pub output_telemetry: EndpointRuntimeTelemetry,
}

/// A count, where it is not zero.
pub open spec fn nonzero(n: u64) -> Option<u64> {
    if n > 0 {
        Some(n)
    } else {
        None
    }
}

fn some_if_nonzero(n: u64) -> (r: Option<u64>)
    ensures
        r == nonzero(n),
{
    if n > 0 {
        Some(n)
    } else {
        None
    }
}

/// The report holds the counts of the endpoint.
pub open spec fn counts_shown(
    e: BridgeEndpointStatus,
    t: EndpointRuntimeTelemetry,
    now_ms: u64,
) -> bool {
    &&& e.connected_clients is None
    &&& e.runtime == t.runtime
    &&& e.audio_level_ppm == (if t.frames > 0 {
        Some(t.audio_level_ppm)
    } else {
        None
    })
    &&& e.frames == nonzero(t.frames)
    &&& e.underflows == nonzero(t.underflows)
    &&& e.drops == nonzero(t.drops)
    &&& e.reconnects == nonzero(t.reconnects)
    &&& e.last_audio_ms_ago == t.silent_for(now_ms)
}

/// The report on the endpoint that audio comes from.
pub open spec fn input_shown(e: BridgeEndpointStatus, b: BridgeStatusConfig, now_ms: u64) -> bool {
    &&& counts_shown(e, b.input_telemetry, now_ms)
    &&& e.kind == b.input_kind.reported()
    &&& e.name == match b.input_kind {
        BridgeInputKind::AudioDevice => b.input_device,
        BridgeInputKind::NdiSource => b.ndi_source,
    }
    &&& e.url is None
    &&& e.available == Some(true)
    &&& e.warning == b.input_telemetry.warning
    &&& e.stale == (if b.input_kind == BridgeInputKind::NdiSource {
        Some(b.input_telemetry.is_stale(now_ms))
    } else {
        None
    })
}

/// The report on the endpoint that audio goes to.
pub open spec fn output_shown(e: BridgeEndpointStatus, b: BridgeStatusConfig, now_ms: u64) -> bool {
    &&& counts_shown(e, b.output_telemetry, now_ms)
    &&& e.kind == b.output_kind.reported()
    &&& match b.output_kind {
        BridgeOutputKind::AudioDevice => e.name == b.output_device,
        BridgeOutputKind::NdiOutput => e.name == b.ndi_output_name,
        BridgeOutputKind::VmixBrowserSource => opt_text(e.name) == Some(
            match b.ndi_output_name {
                Some(name) => name@,
                None => "vMix Browser Source"@,
            },
        ),
    }
    &&& e.url == b.vmix_source_url
    &&& e.available == Some(b.output_kind != BridgeOutputKind::VmixBrowserSource)
    &&& if b.output_kind == BridgeOutputKind::VmixBrowserSource {
        opt_text(e.warning) == Some("vMix browser sources are served by bridge-app"@)
    } else {
        e.warning == b.output_telemetry.warning
    }
    &&& e.stale == (if b.output_kind == BridgeOutputKind::NdiOutput {
        Some(b.output_telemetry.is_stale(now_ms))
    } else {
        None
    })
}

fn input_status(b: &BridgeStatusConfig, now_ms: u64) -> (r: BridgeEndpointStatus)
    ensures
        input_shown(r, *b, now_ms),
{
    let t = b.input_telemetry.snapshot(now_ms);
    let name = match b.input_kind {
        BridgeInputKind::AudioDevice => copy_opt(&b.input_device),
        BridgeInputKind::NdiSource => copy_opt(&b.ndi_source),
    };
    let stale = match b.input_kind {
        BridgeInputKind::NdiSource => Some(t.stale),
        BridgeInputKind::AudioDevice => None,
    };
    BridgeEndpointStatus {
        kind: b.input_kind.status_kind(),
        name,
        url: None,
        connected_clients: None,
        available: Some(true),
        warning: t.warning,
        runtime: t.runtime,
        audio_level_ppm: t.audio_level_ppm,
        frames: some_if_nonzero(t.frames),
        underflows: some_if_nonzero(t.underflows),
        drops: some_if_nonzero(t.drops),
        reconnects: some_if_nonzero(t.reconnects),
        stale,
        last_audio_ms_ago: t.last_audio_ms_ago,
    }
}

fn output_status(b: &BridgeStatusConfig, now_ms: u64) -> (r: BridgeEndpointStatus)
    ensures
        output_shown(r, *b, now_ms),
{
    let t = b.output_telemetry.snapshot(now_ms);
    let name = match b.output_kind {
        BridgeOutputKind::AudioDevice => copy_opt(&b.output_device),
        BridgeOutputKind::NdiOutput => copy_opt(&b.ndi_output_name),
        BridgeOutputKind::VmixBrowserSource => match &b.ndi_output_name {
            Some(name) => Some(name.clone()),
            None => Some(owned("vMix Browser Source")),
        },
    };
    let warning = match b.output_kind {
        BridgeOutputKind::VmixBrowserSource => Some(
            owned("vMix browser sources are served by bridge-app"),
        ),
        _ => t.warning,
    };
    let stale = match b.output_kind {
        BridgeOutputKind::NdiOutput => Some(t.stale),
        _ => None,
    };
    BridgeEndpointStatus {
        kind: b.output_kind.status_kind(),
        name,
        url: copy_opt(&b.vmix_source_url),
        connected_clients: None,
        available: Some(b.output_kind != BridgeOutputKind::VmixBrowserSource),
        warning,
        runtime: t.runtime,
        audio_level_ppm: t.audio_level_ppm,
        frames: some_if_nonzero(t.frames),
        underflows: some_if_nonzero(t.underflows),
        drops: some_if_nonzero(t.drops),
        reconnects: some_if_nonzero(t.reconnects),
        stale,
        last_audio_ms_ago: t.last_audio_ms_ago,
    }
}

/// What a bridge reports of itself, at a time since its start.
pub fn bridge_status_snapshot(config: &ClientConfig, bridge: BridgeStatusConfig, now_ms: u64) -> (r:
    BridgeStatus)
    ensures
        r.mode == bridge.mode.reported(),
        r.input_device == bridge.input_device,
        r.output_device == bridge.output_device,
        if bridge.mode.takes_in() {
            r.input is Some && input_shown(r.input->Some_0, bridge, now_ms)
        } else {
            r.input is None
        },
        if bridge.mode.gives_out() {
            r.output is Some && output_shown(r.output->Some_0, bridge, now_ms)
        } else {
            r.output is None
        },
        r.input_gain == bridge.input_gain,
        r.output_gain == bridge.output_gain,
        r.tx@ == config.tx@,
        r.listen@ == config.listen@,
        r.note == bridge.note,
{
    let input = if bridge.mode.captures() {
        Some(input_status(&bridge, now_ms))
    } else {
        None
    };
    let output = if bridge.mode.plays() {
        Some(output_status(&bridge, now_ms))
    } else {
        None
    };
    BridgeStatus {
        mode: bridge.mode.status_mode(),
        input_device: bridge.input_device,
        output_device: bridge.output_device,
        input,
        output,
        input_gain: bridge.input_gain,
        output_gain: bridge.output_gain,
        tx: copy_ids(&config.tx),
        listen: copy_ids(&config.listen),
        note: bridge.note,
    }
}

// ---------------------------------------------------------------------------
// Laws
// ---------------------------------------------------------------------------

/// Where the endpoints are in order, planning them succeeds.
pub proof fn checked_endpoints_can_be_planned(args: BridgeArgs)
    requires
        endpoint_fault(args) is None,
    ensures
        args.mode.takes_in() && args.input_kind == BridgeInputKind::NdiSource ==> filled(
            opt_text(args.ndi_source),
        ) is Some,
        args.mode.gives_out() && args.output_kind == BridgeOutputKind::NdiOutput ==> filled(
            opt_text(args.ndi_output_name),
        ) is Some,
{
}

/// An endpoint goes stale when no audio comes, and stays so until some does.
pub proof fn stale_until_audio_comes(t: EndpointRuntimeTelemetry, now_ms: u64, later_ms: u64)
    requires
        t.is_stale(now_ms),
        now_ms <= later_ms,
    ensures
        t.is_stale(later_ms),
{
}

} // verus!
