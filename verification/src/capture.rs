//! Capturing audio: which channel is used, when processing applies, when gates
//! open and close, and how samples are gathered into frames. The levels that
//! decide are measured outside and come in as verdicts.

use vstd::prelude::*;
use crate::playback::{popped_pair, Playback, PlaybackBuffer};
use crate::protocol::{
    frame_len, frame_len_for_rate, ProcessingConfig, ProcessingMode, ProcessingProfile,
    MIX_SAMPLES_PER_FRAME,
};

verus! {

/// Which channel of a microphone is used.
#[derive(Debug, Clone, Copy, PartialEq, Eq, Structural)]
pub enum InputChannelMode {
    Average,
    Left,
    Right,
}

impl Default for InputChannelMode {
    fn default() -> (r: Self)
        ensures
            r == InputChannelMode::Average,
    {
        InputChannelMode::Average
    }
}

/// What becomes of the samples of one moment.
#[derive(Debug, Clone, Copy, PartialEq, Eq, Structural)]
pub enum ChannelPick {
    /// There are none.
    Silence,
    /// Their mean counts.
    Mean,
    /// The one at that position counts.
    Sample(usize),
}

impl InputChannelMode {
    /// The name of the mode.
    pub fn as_str(self) -> (r: &'static str)
        ensures
            r@ == match self {
                InputChannelMode::Average => "average"@,
                InputChannelMode::Left => "left"@,
                InputChannelMode::Right => "right"@,
            },
    {
        match self {
            InputChannelMode::Average => "average",
            InputChannelMode::Left => "left",
            InputChannelMode::Right => "right",
        }
    }

    /// What becomes of the samples of `channels` channels. A missing right channel
    /// is replaced by the left one.
    pub fn select(self, channels: usize) -> (r: ChannelPick)
        ensures
            r == if channels == 0 {
                ChannelPick::Silence
            } else {
                match self {
                    InputChannelMode::Average => ChannelPick::Mean,
                    InputChannelMode::Left => ChannelPick::Sample(0),
                    InputChannelMode::Right => ChannelPick::Sample(
                        if channels > 1 {
                            1
                        } else {
                            0
                        },
                    ),
                }
            },
            r matches ChannelPick::Sample(i) ==> i < channels,
    {
        if channels == 0 {
            return ChannelPick::Silence;
        }
        match self {
            InputChannelMode::Average => ChannelPick::Mean,
            InputChannelMode::Left => ChannelPick::Sample(0),
            InputChannelMode::Right => ChannelPick::Sample(
                if channels > 1 {
                    1
                } else {
                    0
                },
            ),
        }
    }
}

// ---------------------------------------------------------------------------
// Processing settings, as shared with the audio thread
// ---------------------------------------------------------------------------

/// The code of a processing profile.
pub fn processing_profile_to_u8(profile: ProcessingProfile) -> (r: u8)
    ensures
        r == profile_code(profile),
{
    match profile {
        ProcessingProfile::Raw => 0,
        ProcessingProfile::Voice => 1,
        ProcessingProfile::VoiceIsolation => 2,
        ProcessingProfile::Broadcast => 3,
    }
}

pub open spec fn profile_code(profile: ProcessingProfile) -> u8 {
    match profile {
        ProcessingProfile::Raw => 0,
        ProcessingProfile::Voice => 1,
        ProcessingProfile::VoiceIsolation => 2,
        ProcessingProfile::Broadcast => 3,
    }
}

/// The processing profile with that code; voice for codes that stand for none.
pub fn u8_to_processing_profile(value: u8) -> (r: ProcessingProfile)
    ensures
        r == coded_profile(value),
{
    match value {
        0 => ProcessingProfile::Raw,
        2 => ProcessingProfile::VoiceIsolation,
        3 => ProcessingProfile::Broadcast,
        _ => ProcessingProfile::Voice,
    }
}

pub open spec fn coded_profile(value: u8) -> ProcessingProfile {
    if value == 0 {
        ProcessingProfile::Raw
    } else if value == 2 {
        ProcessingProfile::VoiceIsolation
    } else if value == 3 {
        ProcessingProfile::Broadcast
    } else {
        ProcessingProfile::Voice
    }
}

/// The code of a processing mode.
pub fn processing_mode_to_u8(mode: ProcessingMode) -> (r: u8)
    ensures
        r == mode_code(mode),
{
    match mode {
        ProcessingMode::Auto => 0,
        ProcessingMode::Enabled => 1,
        ProcessingMode::Disabled => 2,
    }
}

pub open spec fn mode_code(mode: ProcessingMode) -> u8 {
    match mode {
        ProcessingMode::Auto => 0,
        ProcessingMode::Enabled => 1,
        ProcessingMode::Disabled => 2,
    }
}

/// The processing mode with that code; automatic for codes that stand for none.
pub fn u8_to_processing_mode(value: u8) -> (r: ProcessingMode)
    ensures
        r == coded_mode(value),
{
    match value {
        1 => ProcessingMode::Enabled,
        2 => ProcessingMode::Disabled,
        _ => ProcessingMode::Auto,
    }
}

pub open spec fn coded_mode(value: u8) -> ProcessingMode {
    if value == 1 {
        ProcessingMode::Enabled
    } else if value == 2 {
        ProcessingMode::Disabled
    } else {
        ProcessingMode::Auto
    }
}

/// Processing settings as single bytes.
#[derive(Debug, Clone, Copy, PartialEq, Eq, Structural)]
pub struct CaptureProcessingSettings {
    pub profile: u8,
    pub mode: u8,
    pub vad: u8,
    pub transient_suppression: u8,
    pub native_voice_processing: u8,
}

fn flag(b: bool) -> (r: u8)
    ensures
        r == if b {
            1u8
        } else {
            0
        },
{
    if b {
        1
    } else {
        0
    }
}

/// The bytes of processing settings.
pub open spec fn coded_settings(c: ProcessingConfig) -> CaptureProcessingSettings {
    CaptureProcessingSettings {
        profile: profile_code(c.profile),
        mode: mode_code(c.mode),
        vad: if c.vad {
            1
        } else {
            0
        },
        transient_suppression: if c.transient_suppression {
            1
        } else {
            0
        },
        native_voice_processing: if c.native_voice_processing {
            1
        } else {
            0
        },
    }
}

impl CaptureProcessingSettings {
    pub fn new(config: &ProcessingConfig) -> (r: Self)
        ensures
            r == coded_settings(*config),
    {
        CaptureProcessingSettings {
            profile: processing_profile_to_u8(config.profile),
            mode: processing_mode_to_u8(config.mode),
            vad: flag(config.vad),
            transient_suppression: flag(config.transient_suppression),
            native_voice_processing: flag(config.native_voice_processing),
        }
    }

    /// Takes over other settings.
    pub fn store(&mut self, config: &ProcessingConfig)
        ensures
            *final(self) == coded_settings(*config),
    {
        *self = CaptureProcessingSettings::new(config);
    }

    /// The settings that the bytes stand for.
    pub open spec fn settings(self) -> ProcessingConfig {
        ProcessingConfig {
            profile: coded_profile(self.profile),
            mode: coded_mode(self.mode),
            vad: self.vad != 0,
            transient_suppression: self.transient_suppression != 0,
            native_voice_processing: self.native_voice_processing != 0,
        }
    }

    /// The settings that the bytes stand for.
    pub fn snapshot(&self) -> (r: ProcessingConfig)
        ensures
            r == self.settings(),
    {
        ProcessingConfig {
            profile: u8_to_processing_profile(self.profile),
            mode: u8_to_processing_mode(self.mode),
            vad: self.vad != 0,
            transient_suppression: self.transient_suppression != 0,
            native_voice_processing: self.native_voice_processing != 0,
        }
    }
}

/// Settings survive the way through bytes.
pub proof fn settings_round_trip(c: ProcessingConfig)
    ensures
        coded_settings(c).settings() == c,
{
}

/// Captured audio is processed: neither switched off nor raw.
pub open spec fn processes(c: ProcessingConfig) -> bool {
    c.mode != ProcessingMode::Disabled && c.profile != ProcessingProfile::Raw
}

/// Tells whether captured audio is processed.
pub fn capture_processing_active(processing: ProcessingConfig) -> (r: bool)
    ensures
        r == processes(processing),
{
    match processing.mode {
        ProcessingMode::Disabled => false,
        _ => match processing.profile {
            ProcessingProfile::Raw => false,
            _ => true,
        },
    }
}

/// What is done to a captured frame.
#[derive(Debug, Clone, Copy, PartialEq, Eq, Structural)]
pub struct FramePlan {
    pub suppress_transients: bool,
    pub gate_speech: bool,
}

/// Plans what is done to a captured frame.
pub fn plan_frame(processing: ProcessingConfig) -> (r: FramePlan)
    ensures
        r == (FramePlan {
            suppress_transients: processes(processing) && processing.transient_suppression,
            gate_speech: processes(processing) && processing.vad,
        }),
{
    let active = capture_processing_active(processing);
    FramePlan {
        suppress_transients: active && processing.transient_suppression,
        gate_speech: active && processing.vad,
    }
}

// ---------------------------------------------------------------------------
// Gates
// ---------------------------------------------------------------------------

/// After how many frames of speech a gate opens, and for how many it stays open.
#[derive(Debug, Clone, Copy, PartialEq, Eq, Structural)]
pub struct GateTimes {
    pub open_frames: usize,
    pub hold_frames: usize,
}

/// The times of a gate for a profile.
pub open spec fn times_for(profile: ProcessingProfile) -> GateTimes {
    match profile {
        ProcessingProfile::Raw => GateTimes { open_frames: 1, hold_frames: 0 },
        ProcessingProfile::Broadcast => GateTimes { open_frames: 1, hold_frames: 20 },
        ProcessingProfile::Voice => GateTimes { open_frames: 2, hold_frames: 14 },
        ProcessingProfile::VoiceIsolation => GateTimes { open_frames: 3, hold_frames: 10 },
    }
}

/// The times of a gate for a profile.
pub fn capture_gate_times(profile: ProcessingProfile) -> (r: GateTimes)
    ensures
        r == times_for(profile),
{
    match profile {
        ProcessingProfile::Raw => GateTimes { open_frames: 1, hold_frames: 0 },
        ProcessingProfile::Broadcast => GateTimes { open_frames: 1, hold_frames: 20 },
        ProcessingProfile::Voice => GateTimes { open_frames: 2, hold_frames: 14 },
        ProcessingProfile::VoiceIsolation => GateTimes { open_frames: 3, hold_frames: 10 },
    }
}

/// A gate that lets speech through.
#[derive(Debug, Clone, Copy, PartialEq, Eq, Structural)]
pub struct CaptureSpeechGate {
    pub open: bool,
    /// Frames of speech in a row, as far as they are counted.
    pub speech_frames: usize,
    /// Frames without speech that still pass.
    pub hold_frames: usize,
}

/// What a frame makes of a speech gate. `speech` tells whether the frame sounds like speech,
/// `loud` whether it is loud enough for an open gate to stay open.
pub open spec fn gate_after(
    g: CaptureSpeechGate,
    times: GateTimes,
    speech: bool,
    loud: bool,
) -> CaptureSpeechGate {
    if speech {
        let n: usize = if g.speech_frames == usize::MAX {
            usize::MAX
        } else {
            (g.speech_frames + 1) as usize
        };
        if n >= times.open_frames {
            CaptureSpeechGate { open: true, speech_frames: n, hold_frames: times.hold_frames }
        } else {
            CaptureSpeechGate { speech_frames: n, ..g }
        }
    } else if loud {
        CaptureSpeechGate {
            speech_frames: 0,
            hold_frames: if g.hold_frames > 0 {
                (g.hold_frames - 1) as usize
            } else {
                0
            },
            ..g
        }
    } else {
        CaptureSpeechGate { speech_frames: 0, open: false, ..g }
    }
}

impl Default for CaptureSpeechGate {
    fn default() -> (r: Self)
        ensures
            r == (CaptureSpeechGate { open: false, speech_frames: 0, hold_frames: 0 }),
    {
        CaptureSpeechGate { open: false, speech_frames: 0, hold_frames: 0 }
    }
}

impl CaptureSpeechGate {
    /// Takes a frame, and tells whether it passes.
    pub fn step(&mut self, profile: ProcessingProfile, speech: bool, loud: bool) -> (r: bool)
        ensures
            *final(self) == gate_after(*old(self), times_for(profile), speech, loud),
            r == final(self).open,
    {
        let times = capture_gate_times(profile);
        if speech {
            if self.speech_frames < usize::MAX {
                self.speech_frames = self.speech_frames + 1;
            }
            if self.speech_frames >= times.open_frames {
                self.open = true;
                self.hold_frames = times.hold_frames;
            }
        } else {
            self.speech_frames = 0;
            if self.hold_frames > 0 && loud {
                self.hold_frames = self.hold_frames - 1;
            } else if !loud {
                self.open = false;
            }
        }
        self.open
    }
}

/// A gate opens for speech no later than the profile says, and closes with the
/// first frame that is neither speech nor loud.
pub proof fn speech_gates_open_and_close(g: CaptureSpeechGate, profile: ProcessingProfile, loud: bool)
    ensures
        g.speech_frames + 1 >= times_for(profile).open_frames ==> gate_after(
            g,
            times_for(profile),
            true,
            loud,
        ).open,
        !gate_after(g, times_for(profile), false, false).open,
        g.open ==> gate_after(g, times_for(profile), false, true).open,
{
}

/// Samples that a gate for silence stays open after the last loud one.
pub const SILENCE_HOLD_SAMPLES: usize = 4000;

/// Samples that a suppressed transient is held down.
pub const TRANSIENT_HOLD_SAMPLES: usize = 2400;

/// A gate that keeps out what is left of silence.
#[derive(Debug, Clone, Copy, PartialEq, Eq, Structural)]
pub struct SilenceGate {
    pub open: bool,
    pub hold_samples: usize,
}

/// What a sample makes of a silence gate. `loud` tells whether the level is high enough to open
/// it, `quiet` whether it is low enough to close it.
pub open spec fn silence_after(g: SilenceGate, loud: bool, quiet: bool) -> SilenceGate {
    if loud {
        SilenceGate { open: true, hold_samples: SILENCE_HOLD_SAMPLES }
    } else if g.hold_samples > 0 {
        SilenceGate { hold_samples: (g.hold_samples - 1) as usize, ..g }
    } else if quiet {
        SilenceGate { open: false, ..g }
    } else {
        g
    }
}

impl SilenceGate {
    pub fn new() -> (r: Self)
        ensures
            r == (SilenceGate { open: false, hold_samples: 0 }),
    {
        SilenceGate { open: false, hold_samples: 0 }
    }

    /// Takes a sample, and tells whether it passes.
    pub fn step(&mut self, loud: bool, quiet: bool) -> (r: bool)
        ensures
            *final(self) == silence_after(*old(self), loud, quiet),
            r == final(self).open,
    {
        if loud {
            self.open = true;
            self.hold_samples = SILENCE_HOLD_SAMPLES;
        } else if self.hold_samples > 0 {
            self.hold_samples = self.hold_samples - 1;
        } else if quiet {
            self.open = false;
        }
        self.open
    }
}

/// What is done to the gain of a suppressed transient.
#[derive(Debug, Clone, Copy, PartialEq, Eq, Structural)]
pub enum TransientStep {
    /// Lower it.
    Duck,
    /// Keep it.
    Hold,
    /// Let it come back.
    Recover,
}

/// How long a suppressed transient is still held down.
#[derive(Debug, Clone, Copy, PartialEq, Eq, Structural)]
pub struct TransientHold {
    pub samples: usize,
}

impl TransientHold {
    /// Takes a sample, and tells what is done to the gain.
    pub fn step(&mut self, sudden: bool) -> (r: TransientStep)
        ensures
            (final(self).samples, r) == (if sudden {
                (TRANSIENT_HOLD_SAMPLES, TransientStep::Duck)
            } else if old(self).samples > 0 {
                ((old(self).samples - 1) as usize, TransientStep::Hold)
            } else {
                (0usize, TransientStep::Recover)
            }),
    {
        if sudden {
            self.samples = TRANSIENT_HOLD_SAMPLES;
            TransientStep::Duck
        } else if self.samples > 0 {
            self.samples = self.samples - 1;
            TransientStep::Hold
        } else {
            TransientStep::Recover
        }
    }
}

/// Two samples lie on different sides of zero.
pub open spec fn crosses(a: i16, b: i16) -> bool {
    (a >= 0) != (b >= 0)
}

/// How often the first `n` samples cross zero.
pub open spec fn crossings(s: Seq<i16>, n: int) -> nat
    decreases n,
{
    if n < 2 {
        0
    } else {
        crossings(s, n - 1) + (if crosses(s[n - 2], s[n - 1]) {
            1nat
        } else {
            0
        })
    }
}

/// How often samples cross zero.
pub fn zero_crossings(samples: &[i16]) -> (r: usize)
    ensures
        r == crossings(samples@, samples@.len() as int),
{
    let mut n: usize = 0;
    let mut i: usize = 1;
    if samples.len() < 2 {
        return 0;
    }
    while i < samples.len()
        invariant
            1 <= i <= samples@.len(),
            n < i,
            n == crossings(samples@, i as int),
        decreases samples@.len() - i,
    {
        if (samples[i - 1] >= 0) != (samples[i] >= 0) {
            n = n + 1;
        }
        i = i + 1;
    }
    n
}

// ---------------------------------------------------------------------------
// Frames
// ---------------------------------------------------------------------------

/// Gathers captured samples into frames.
#[derive(Debug)]
pub struct FrameCollector {
    samples: Vec<i16>,
}

impl View for FrameCollector {
    type V = Seq<i16>;

    closed spec fn view(&self) -> Seq<i16> {
        self.samples@
    }
}

impl FrameCollector {
    /// Less than a frame is gathered.
    pub open spec fn wf(self) -> bool {
        self@.len() < MIX_SAMPLES_PER_FRAME
    }

    pub fn new() -> (r: Self)
        ensures
            r.wf(),
            r@ == Seq::<i16>::empty(),
    {
        FrameCollector { samples: Vec::new() }
    }

    /// Takes a sample, and gives the frame that it completes.
    pub fn push(&mut self, sample: i16) -> (r: Option<Vec<i16>>)
        requires
            old(self).wf(),
        ensures
            final(self).wf(),
            if old(self)@.len() + 1 == MIX_SAMPLES_PER_FRAME {
                r is Some && r->Some_0@ == old(self)@.push(sample) && final(self)@ == Seq::<
                    i16,
                >::empty()
            } else {
                r is None && final(self)@ == old(self)@.push(sample)
            },
    {
        self.samples.push(sample);
        if self.samples.len() == MIX_SAMPLES_PER_FRAME {
            let mut full: Vec<i16> = Vec::new();
            std::mem::swap(&mut full, &mut self.samples);
            Some(full)
        } else {
            None
        }
    }
}

/// The first of every `channels` samples.
pub open spec fn first_channel(samples: Seq<i16>, channels: nat) -> Seq<i16>
    recommends
        channels > 0,
{
    Seq::new(
        ((samples.len() + channels - 1) / channels as int) as nat,
        |i: int| samples[i * channels],
    )
}

/// The frame with number `k` of samples that are cut into frames of `len`.
pub open spec fn cut_frame(samples: Seq<i16>, len: nat, k: int) -> Seq<i16> {
    samples.subrange(k * len, (k + 1) * len)
}

/// `frames` are the whole frames of `len` samples in `samples`, and `rest` is what
/// is left over.
pub open spec fn cut_into(
    samples: Seq<i16>,
    len: nat,
    frames: Seq<Vec<i16>>,
    rest: Seq<i16>,
) -> bool {
    &&& rest.len() < len
    &&& samples.len() == frames.len() * len + rest.len()
    &&& rest == samples.skip((frames.len() * len) as int)
    &&& forall|k: int|
        0 <= k < frames.len() ==> (#[trigger] frames[k])@ == cut_frame(samples, len, k)
}

proof fn cut_grows(
    samples: Seq<i16>,
    len: nat,
    frames: Seq<Vec<i16>>,
    rest: Seq<i16>,
    sample: i16,
)
    requires
        cut_into(samples, len, frames, rest),
    ensures
        rest.len() + 1 < len ==> cut_into(samples.push(sample), len, frames, rest.push(sample)),
        rest.len() + 1 == len ==> forall|full: Vec<i16>| #[trigger]
            full@ == rest.push(sample) ==> cut_into(
                samples.push(sample),
                len,
                frames.push(full),
                Seq::empty(),
            ),
{
    let n = frames.len() as int;
    let l = len as int;
    let all = samples.push(sample);
    assert((n + 1) * l == n * l + l) by (nonlinear_arith);
    assert(n * l >= 0) by (nonlinear_arith)
        requires
            n >= 0,
            l >= 0,
    ;
    assert forall|k: int| 0 <= k < n implies #[trigger] cut_frame(all, len, k) == cut_frame(
        samples,
        len,
        k,
    ) by {
        assert(0 <= k * l && (k + 1) * l <= n * l && k * l <= (k + 1) * l) by (nonlinear_arith)
            requires
                0 <= k < n,
                l >= 0,
        ;
        assert(all.subrange(k * l, (k + 1) * l) =~= samples.subrange(k * l, (k + 1) * l));
    }
    if rest.len() + 1 < len {
        assert(rest.push(sample) =~= all.skip(n * l));
    } else {
        assert forall|full: Vec<i16>| #[trigger]
            full@ == rest.push(sample) implies cut_into(all, len, frames.push(full), Seq::empty()) by {
            assert(full@ =~= cut_frame(all, len, n));
            assert(Seq::<i16>::empty() =~= all.skip((n + 1) * l));
            let grown = frames.push(full);
            assert forall|k: int| 0 <= k < grown.len() implies (#[trigger] grown[k])@ == cut_frame(
                all,
                len,
                k,
            ) by {
                if k < n {
                    assert(grown[k] == frames[k]);
                }
            }
        }
    }
}

/// Cuts what an audio device or a network source captures into frames, at the rate
/// at which it comes in.
#[derive(Debug)]
pub struct InputCutter {
    samples: Vec<i16>,
    len: usize,
}

impl InputCutter {
    /// Less than a frame waits for more, where frames hold samples at all.
    pub closed spec fn wf(self) -> bool {
        self.len > 0 ==> self.samples@.len() < self.len
    }

    /// The samples of a frame.
    pub closed spec fn frame(self) -> nat {
        self.len as nat
    }

    /// The samples that wait for more.
    pub closed spec fn waiting(self) -> Seq<i16> {
        self.samples@
    }

    pub fn new(rate: u32) -> (r: Self)
        ensures
            r.wf(),
            r.frame() == frame_len(rate),
            r.waiting() == Seq::<i16>::empty(),
    {
        InputCutter { samples: Vec::new(), len: frame_len_for_rate(rate) }
    }

    /// Takes the first channel of interleaved samples, and gives the frames that it
    /// completes. At a rate so low that a frame holds no sample, each sample comes with
    /// an empty frame.
    pub fn push_interleaved(&mut self, samples: &[i16], channels: usize) -> (r: Vec<Vec<i16>>)
        requires
            old(self).wf(),
            channels > 0,
        ensures
            final(self).wf(),
            final(self).frame() == old(self).frame(),
            old(self).frame() > 0 ==> cut_into(
                old(self).waiting() + first_channel(samples@, channels as nat),
                old(self).frame(),
                r@,
                final(self).waiting(),
            ),
            old(self).frame() == 0 ==> {
                &&& r@.len() == samples@.len()
                &&& forall|k: int| 0 <= k < r@.len() ==> (#[trigger] r@[k])@.len() == 0
                &&& final(self).waiting() == old(self).waiting() + first_channel(
                    samples@,
                    channels as nat,
                )
            },
    {
        if self.len == 0 {
            return self.push_unframed(samples, channels);
        }
        let ghost before = self.samples@;
        let ghost picked = first_channel(samples@, channels as nat);
        let ghost len = self.len as nat;
        let mut frames: Vec<Vec<i16>> = Vec::new();
        let mut i: usize = 0;
        let ghost mut taken: int = 0;
        proof {
            assert(before + picked.take(0) =~= before);
            assert(before =~= before.skip(0));
            assert(0 * len == 0);
            assert(0 * channels == 0) by (nonlinear_arith);
            if samples.len() == 0 {
                assert((channels - 1) / channels as int == 0) by (nonlinear_arith)
                    requires
                        channels > 0,
                ;
            }
        }
        while i < samples.len()
            invariant
                channels > 0,
                self.len == len,
                len > 0,
                picked == first_channel(samples@, channels as nat),
                samples@.len() == samples.len(),
                0 <= taken <= picked.len(),
                i < samples.len() ==> i == taken * channels,
                i >= samples.len() ==> taken == picked.len(),
                cut_into(before + picked.take(taken), len, frames@, self.samples@),
            decreases samples.len() - i,
        {
            let sample = samples[i];
            proof {
                let n = samples@.len() as int;
                let c = channels as int;
                picks(n, c, taken);
                assert(picked[taken] == sample);
                assert((before + picked.take(taken)).push(sample) =~= before + picked.take(
                    taken + 1,
                ));
                cut_grows(before + picked.take(taken), len, frames@, self.samples@, sample);
            }
            self.samples.push(sample);
            if self.samples.len() == self.len {
                let mut full: Vec<i16> = Vec::new();
                std::mem::swap(&mut full, &mut self.samples);
                frames.push(full);
            }
            proof {
                taken = taken + 1;
            }
            if channels < samples.len() - i {
                i = i + channels;
            } else {
                i = samples.len();
            }
        }
        proof {
            assert(picked.take(taken) =~= picked);
        }
        frames
    }

    fn push_unframed(&mut self, samples: &[i16], channels: usize) -> (r: Vec<Vec<i16>>)
        requires
            old(self).wf(),
            old(self).len == 0,
            channels > 0,
        ensures
            final(self).len == 0,
            r@.len() == samples@.len(),
            forall|k: int| 0 <= k < r@.len() ==> (#[trigger] r@[k])@.len() == 0,
            final(self).samples@ == old(self).samples@ + first_channel(samples@, channels as nat),
    {
        let ghost before = self.samples@;
        let ghost picked = first_channel(samples@, channels as nat);
        let mut frames: Vec<Vec<i16>> = Vec::new();
        let mut i: usize = 0;
        let mut next: usize = 0;
        let ghost mut taken: int = 0;
        proof {
            assert(before + picked.take(0) =~= before);
            assert(0 * channels == 0) by (nonlinear_arith);
        }
        while i < samples.len()
            invariant
                channels > 0,
                self.len == 0,
                picked == first_channel(samples@, channels as nat),
                samples@.len() == samples.len(),
                i <= samples.len(),
                i <= next <= samples.len(),
                0 <= taken <= picked.len(),
                next < samples.len() ==> next == taken * channels,
                next >= samples.len() && samples.len() > 0 ==> taken == picked.len(),
                frames@.len() == i,
                forall|k: int| 0 <= k < frames@.len() ==> (#[trigger] frames@[k])@.len() == 0,
                self.samples@ == before + picked.take(taken),
            decreases samples.len() - i,
        {
            if i == next {
                let sample = samples[i];
                proof {
                    picks(samples@.len() as int, channels as int, taken);
                    assert(picked[taken] == sample);
                    assert((before + picked.take(taken)).push(sample) =~= before + picked.take(
                        taken + 1,
                    ));
                    taken = taken + 1;
                }
                self.samples.push(sample);
                if channels < samples.len() - i {
                    next = i + channels;
                } else {
                    next = samples.len();
                }
            }
            frames.push(Vec::new());
            i = i + 1;
        }
        proof {
            if samples.len() == 0 {
                assert((channels - 1) / channels as int == 0) by (nonlinear_arith)
                    requires
                        channels > 0,
                ;
            }
            assert(picked.take(taken) =~= picked);
        }
        frames
    }
}

/// The sample with number `t` of the first of `c` channels comes at `t * c`, and is
/// the last one where less than a whole step is left.
proof fn picks(n: int, c: int, t: int)
    requires
        c > 0,
        t >= 0,
        t * c < n,
    ensures
        t < (n + c - 1) / c,
        (t + 1) * c == t * c + c,
        t * c + c >= n ==> t + 1 == (n + c - 1) / c,
        t * c + c < n ==> t + 1 < (n + c - 1) / c,
{
    let q = (n + c - 1) / c;
    vstd::arithmetic::div_mod::lemma_fundamental_div_mod(n + c - 1, c);
    let r = (n + c - 1) % c;
    assert(n + c - 1 == c * q + r);
    assert((t + 1) * c == t * c + c) by (nonlinear_arith);
    assert(t < q) by (nonlinear_arith)
        requires
            t * c < n,
            n + c - 1 == c * q + r,
            0 <= r < c,
            c > 0,
    ;
    if t * c + c >= n {
        assert(t + 1 >= q) by (nonlinear_arith)
            requires
                t * c + c >= n,
                n + c - 1 == c * q + r,
                0 <= r < c,
                c > 0,
        ;
    } else {
        assert(t + 1 < q) by (nonlinear_arith)
            requires
                t * c + c < n,
                n + c - 1 == c * q + r,
                0 <= r < c,
                c > 0,
        ;
    }
}

// ---------------------------------------------------------------------------
// Output
// ---------------------------------------------------------------------------

/// The mean of two samples, rounded towards zero.
pub open spec fn mean(left: i16, right: i16) -> i16 {
    let sum = left as int + right as int;
    if sum >= 0 {
        (sum / 2) as i16
    } else {
        (-((-sum) / 2)) as i16
    }
}

/// What the channels of an output device get: the mean where there is one, else
/// left and right, and silence on all further ones.
pub open spec fn output_frame(left: i16, right: i16, channels: nat) -> Seq<i16> {
    if channels == 1 {
        seq![mean(left, right)]
    } else {
        Seq::new(
            channels,
            |i: int|
                if i == 0 {
                    left
                } else if i == 1 {
                    right
                } else {
                    0i16
                },
        )
    }
}

fn mean_of(left: i16, right: i16) -> (r: i16)
    ensures
        r == mean(left, right),
{
    let sum: i32 = left as i32 + right as i32;
    if sum >= 0 {
        (sum / 2) as i16
    } else {
        let magnitude: i32 = -sum;
        let half: i32 = magnitude / 2;
        (-half) as i16
    }
}

/// What the channels of an output device get, at least one of them.
pub fn fill_frame(left: i16, right: i16, channels: usize) -> (r: Vec<i16>)
    ensures
        r@ == output_frame(
            left,
            right,
            if channels == 0 {
                1
            } else {
                channels as nat
            },
        ),
{
    let mut out: Vec<i16> = Vec::new();
    if channels <= 1 {
        out.push(mean_of(left, right));
        proof {
            assert(out@ =~= seq![mean(left, right)]);
        }
        return out;
    }
    let mut i: usize = 0;
    while i < channels
        invariant
            channels > 1,
            0 <= i <= channels,
            out@.len() == i,
            forall|k: int|
                0 <= k < i ==> #[trigger] out@[k] == output_frame(left, right, channels as nat)[k],
        decreases channels - i,
    {
        if i == 0 {
            out.push(left);
        } else if i == 1 {
            out.push(right);
        } else {
            out.push(0);
        }
        i = i + 1;
    }
    proof {
        assert(out@ =~= output_frame(left, right, channels as nat));
    }
    out
}

/// The two samples that the output is interpolated between, for each side.
#[derive(Debug, Clone, Copy)]
pub struct OutputWindow {
    pub current: (i16, i16),
    pub next: (i16, i16),
    pub initialized: bool,
}

/// The next pair of samples, or else `other`.
pub open spec fn pair_or(p: Playback, other: (i16, i16)) -> (i16, i16) {
    match popped_pair(p).0 {
        Some(pair) => pair,
        None => other,
    }
}

impl OutputWindow {
    pub fn new() -> (r: Self)
        ensures
            r == (OutputWindow { current: (0, 0), next: (0, 0), initialized: false }),
    {
        OutputWindow { current: (0, 0), next: (0, 0), initialized: false }
    }

    /// Fills the window with the first two pairs of samples, once. Where none wait
    /// there is silence, and where only one waits it stays.
    pub fn start(&mut self, playback: &mut PlaybackBuffer)
        requires
            old(playback).wf(),
            old(playback)@.underflows + 4 <= u64::MAX,
        ensures
            final(playback).wf(),
            old(self).initialized ==> *final(self) == *old(self) && final(playback)@ == old(
                playback,
            )@,
            !old(self).initialized ==> {
                let first = pair_or(old(playback)@, (0, 0));
                let rest = popped_pair(old(playback)@).1;
                &&& *final(self) == (OutputWindow {
                    current: first,
                    next: pair_or(rest, first),
                    initialized: true,
                })
                &&& final(playback)@ == popped_pair(rest).1
            },
    {
        if !self.initialized {
            let first = match playback.pop_stereo() {
                Some(pair) => pair,
                None => (0, 0),
            };
            let second = match playback.pop_stereo() {
                Some(pair) => pair,
                None => first,
            };
            self.current = first;
            self.next = second;
            self.initialized = true;
        }
    }

    /// Moves the window by one pair of samples. Where none waits the last one stays.
    pub fn advance(&mut self, playback: &mut PlaybackBuffer)
        requires
            old(playback).wf(),
            old(playback)@.underflows + 2 <= u64::MAX,
        ensures
            final(playback).wf(),
            final(self).current == old(self).next,
            final(self).next == pair_or(old(playback)@, old(self).next),
            final(self).initialized == old(self).initialized,
            final(playback)@ == popped_pair(old(playback)@).1,
    {
        self.current = self.next;
        self.next =
        match playback.pop_stereo() {
            Some(pair) => pair,
            None => self.current,
        };
    }
}

/// The buffer after `n` pairs of samples were taken.
pub open spec fn after_pairs(p: Playback, n: nat) -> Playback
    decreases n,
{
    if n == 0 {
        p
    } else {
        popped_pair(after_pairs(p, (n - 1) as nat)).1
    }
}

/// The sample with number `k` that a single speaker gets: the mean of the pair, or
/// silence where none waits.
pub open spec fn mono_sample(p: Playback, k: nat) -> i16 {
    let pair = pair_or(after_pairs(p, k), (0, 0));
    mean(pair.0, pair.1)
}

/// Takes a frame for a single speaker.
pub fn mono_frame(playback: &mut PlaybackBuffer) -> (r: Vec<i16>)
    requires
        old(playback).wf(),
        old(playback)@.underflows + MIX_SAMPLES_PER_FRAME <= u64::MAX,
    ensures
        final(playback).wf(),
        final(playback)@ == after_pairs(old(playback)@, MIX_SAMPLES_PER_FRAME as nat),
        r@ == Seq::new(MIX_SAMPLES_PER_FRAME as nat, |k: int| mono_sample(old(playback)@, k as nat)),
{
    let ghost before = playback@;
    let mut frame: Vec<i16> = Vec::new();
    while frame.len() < MIX_SAMPLES_PER_FRAME
        invariant
            playback.wf(),
            frame@.len() <= MIX_SAMPLES_PER_FRAME,
            playback@ == after_pairs(before, frame@.len()),
            before.underflows + MIX_SAMPLES_PER_FRAME <= u64::MAX,
            playback@.underflows <= before.underflows + frame@.len(),
            forall|k: int|
                0 <= k < frame@.len() ==> #[trigger] frame@[k] == mono_sample(before, k as nat),
        decreases MIX_SAMPLES_PER_FRAME - frame@.len(),
    {
        let pair = match playback.pop_stereo() {
            Some(pair) => pair,
            None => (0, 0),
        };
        frame.push(mean_of(pair.0, pair.1));
    }
    frame
}

/// The loudest sample counts: the peak of samples, as their magnitude.
pub open spec fn peak(s: Seq<i16>) -> nat
    decreases s.len(),
{
    if s.len() == 0 {
        0
    } else {
        let rest = peak(s.drop_last());
        let m = magnitude(s.last());
        if m > rest {
            m
        } else {
            rest
        }
    }
}

/// The distance of a sample from zero.
pub open spec fn magnitude(s: i16) -> nat {
    if s >= 0 {
        s as nat
    } else {
        (-(s as int)) as nat
    }
}

/// The peak of samples, as their magnitude: up to 32768.
pub fn sample_peak(samples: &[i16]) -> (r: u16)
    ensures
        r == peak(samples@),
{
    let mut top: u16 = 0;
    let mut i: usize = 0;
    proof {
        assert(samples@.take(0) =~= Seq::<i16>::empty());
    }
    while i < samples.len()
        invariant
            0 <= i <= samples@.len(),
            top == peak(samples@.take(i as int)),
        decreases samples@.len() - i,
    {
        let s = samples[i];
        proof {
            assert(samples@.take(i + 1).drop_last() =~= samples@.take(i as int));
            assert(samples@.take(i + 1).last() == s);
        }
        let m: u16 = if s >= 0 {
            s as u16
        } else {
            (-(s as i32)) as u16
        };
        if m > top {
            top = m;
        }
        i = i + 1;
    }
    proof {
        assert(samples@.take(samples@.len() as int) =~= samples@);
    }
    top
}

} // verus!
