//! Capturing and playing frames.

use vstd::prelude::*;

use crate::capture::{
    capture_gate_times, capture_processing_active, crossings, cut_frame, fill_frame, first_channel,
    mean, mono_frame, peak, plan_frame, processing_mode_to_u8, processing_profile_to_u8,
    sample_peak, u8_to_processing_mode, u8_to_processing_profile, zero_crossings,
    CaptureProcessingSettings, CaptureSpeechGate, ChannelPick, FrameCollector, FramePlan,
    GateTimes, InputChannelMode, InputCutter, OutputWindow, SilenceGate, TransientHold,
    TransientStep,
};
use crate::playback::{Playback, PlaybackBuffer};
use crate::protocol::{ProcessingConfig, ProcessingMode, ProcessingProfile};

verus! {

// ---------------------------------------------------------------------------
// Channels and processing
// ---------------------------------------------------------------------------

/// The channel that was chosen is used: both as their mean, the left one, or the right
/// one, which is the left one where there is only one. Without channels there is silence.
pub proof fn the_chosen_channel_is_used(
    mode: InputChannelMode,
    channels: usize,
    r: ChannelPick,
    name: &'static str,
)
    requires
        call_ensures(InputChannelMode::select, (mode, channels), r),
        call_ensures(InputChannelMode::as_str, (mode,), name),
    ensures
        r == ChannelPick::Silence <==> channels == 0,
        channels > 0 ==> (r == ChannelPick::Mean <==> mode == InputChannelMode::Average),
        channels > 0 && mode == InputChannelMode::Left ==> r == ChannelPick::Sample(0),
        channels == 1 && mode == InputChannelMode::Right ==> r == ChannelPick::Sample(0),
        channels > 1 && mode == InputChannelMode::Right ==> r == ChannelPick::Sample(1),
        mode == InputChannelMode::Average ==> name@ == "average"@,
        mode == InputChannelMode::Left ==> name@ == "left"@,
        mode == InputChannelMode::Right ==> name@ == "right"@,
{
}

/// Settings survive the way through bytes, whether they are new or stored later.
pub proof fn settings_survive_as_bytes(
    config: ProcessingConfig,
    s: CaptureProcessingSettings,
    t: &mut CaptureProcessingSettings,
    a: ProcessingConfig,
    b: ProcessingConfig,
)
    requires
        call_ensures(CaptureProcessingSettings::new, (&config,), s),
        call_ensures(CaptureProcessingSettings::store, (t, &config), ()),
        call_ensures(CaptureProcessingSettings::snapshot, (&s,), a),
        call_ensures(CaptureProcessingSettings::snapshot, (final(t),), b),
    ensures
        a == config,
        b == config,
{
}

/// Codes stand for one profile and one mode each; a code that stands for none is read as
/// the profile for voice and the automatic mode.
pub proof fn codes_stand_for_their_setting(
    profile: ProcessingProfile,
    pc: u8,
    p: ProcessingProfile,
    mode: ProcessingMode,
    mc: u8,
    m: ProcessingMode,
    other: u8,
    op: ProcessingProfile,
    om: ProcessingMode,
)
    requires
        call_ensures(processing_profile_to_u8, (profile,), pc),
        call_ensures(u8_to_processing_profile, (pc,), p),
        call_ensures(processing_mode_to_u8, (mode,), mc),
        call_ensures(u8_to_processing_mode, (mc,), m),
        call_ensures(u8_to_processing_profile, (other,), op),
        call_ensures(u8_to_processing_mode, (other,), om),
    ensures
        p == profile,
        m == mode,
        pc <= 3 && mc <= 2,
        other > 3 ==> op == ProcessingProfile::Voice,
        other > 2 ==> om == ProcessingMode::Auto,
{
}

/// Audio is processed unless that is switched off or the audio is to be raw. Only then
/// are transients suppressed and speech gated, where each is asked for.
pub proof fn processing_can_be_switched_off(
    config: ProcessingConfig,
    active: bool,
    plan: FramePlan,
)
    requires
        call_ensures(capture_processing_active, (config,), active),
        call_ensures(plan_frame, (config,), plan),
    ensures
        !active <==> config.mode == ProcessingMode::Disabled || config.profile
            == ProcessingProfile::Raw,
        plan.suppress_transients <==> active && config.transient_suppression,
        plan.gate_speech <==> active && config.vad,
{
}

// ---------------------------------------------------------------------------
// Gates
// ---------------------------------------------------------------------------

/// The stricter a profile, the longer speech takes to open its gate and the sooner the
/// gate stops holding.
pub proof fn gates_are_as_strict_as_their_profile(
    broadcast: GateTimes,
    voice: GateTimes,
    isolation: GateTimes,
    raw: GateTimes,
)
    requires
        call_ensures(capture_gate_times, (ProcessingProfile::Broadcast,), broadcast),
        call_ensures(capture_gate_times, (ProcessingProfile::Voice,), voice),
        call_ensures(capture_gate_times, (ProcessingProfile::VoiceIsolation,), isolation),
        call_ensures(capture_gate_times, (ProcessingProfile::Raw,), raw),
    ensures
        raw.open_frames == 1 && raw.hold_frames == 0,
        broadcast.open_frames == 1 && broadcast.hold_frames == 20,
        voice.open_frames == 2 && voice.hold_frames == 14,
        isolation.open_frames == 3 && isolation.hold_frames == 10,
{
}

/// A gate opens with the frame of speech that makes its number full, and is then held; a
/// frame that is neither speech nor loud closes it, and one that is loud leaves it.
pub proof fn gates_open_for_speech(
    g: &mut CaptureSpeechGate,
    profile: ProcessingProfile,
    speech: bool,
    loud: bool,
    r: bool,
    times: GateTimes,
)
    requires
        call_ensures(CaptureSpeechGate::step, (g, profile, speech, loud), r),
        call_ensures(capture_gate_times, (profile,), times),
        old(g).speech_frames < usize::MAX,
    ensures
        r <==> final(g).open,
        speech ==> final(g).speech_frames == old(g).speech_frames + 1,
        !speech ==> final(g).speech_frames == 0,
        speech && old(g).speech_frames + 1 >= times.open_frames ==> r && final(g).hold_frames
            == times.hold_frames,
        speech && old(g).speech_frames + 1 < times.open_frames ==> r == old(g).open
            && final(g).hold_frames == old(g).hold_frames,
        speech && old(g).speech_frames < usize::MAX ==> final(g).speech_frames
            == old(g).speech_frames + 1,
        speech && old(g).speech_frames == usize::MAX ==> final(g).speech_frames == usize::MAX,
        !speech ==> final(g).speech_frames == 0,
        !speech && !loud ==> !r,
        !speech && loud ==> r == old(g).open && (old(g).hold_frames > 0 ==> final(g).hold_frames
            == old(g).hold_frames - 1),
{
}

/// A loud sample lets sound through for 4000 samples; only a quiet one after that shuts
/// it out.
pub proof fn silence_gates_stay_open_for_a_while(
    fresh: SilenceGate,
    g: &mut SilenceGate,
    loud: bool,
    quiet: bool,
    r: bool,
)
    requires
        call_ensures(SilenceGate::new, (), fresh),
        call_ensures(SilenceGate::step, (g, loud, quiet), r),
    ensures
        !fresh.open && fresh.hold_samples == 0,
        r <==> final(g).open,
        loud ==> r && final(g).hold_samples == 4000,
        !loud && old(g).hold_samples > 0 ==> r == old(g).open && final(g).hold_samples == old(
            g,
        ).hold_samples - 1,
        !loud && old(g).hold_samples == 0 ==> final(g).hold_samples == 0 && (quiet ==> !r) && (
        !quiet ==> r == old(g).open),
{
}

/// A sudden sample is ducked, and the gain is then held for 2400 samples before it comes
/// back.
pub proof fn transients_are_held_down(t: &mut TransientHold, sudden: bool, r: TransientStep)
    requires
        call_ensures(TransientHold::step, (t, sudden), r),
    ensures
        r == TransientStep::Duck <==> sudden,
        sudden ==> final(t).samples == 2400,
        !sudden ==> (r == TransientStep::Hold <==> old(t).samples > 0),
        r == TransientStep::Hold ==> final(t).samples == old(t).samples - 1,
        r == TransientStep::Recover ==> final(t).samples == 0,
{
}

/// One sample more crosses zero exactly where it is on another side than the one before.
pub proof fn crossings_are_counted_one_by_one(
    s: &[i16],
    longer: &[i16],
    n: usize,
    m: usize,
)
    requires
        call_ensures(zero_crossings, (s,), n),
        call_ensures(zero_crossings, (longer,), m),
        longer@.len() == s@.len() + 1,
        forall|i: int| 0 <= i < s@.len() ==> #[trigger] longer@[i] == s@[i],
    ensures
        s@.len() == 0 ==> n == 0 && m == 0,
        s@.len() > 0 ==> ({
            let a = s@[s@.len() - 1];
            let b = longer@[s@.len() as int];
            m == n + (if (a < 0 && b >= 0) || (a >= 0 && b < 0) {
                1int
            } else {
                0
            })
        }),
{
    lemma_crossings_prefix(s@, longer@, s@.len() as int);
}

proof fn lemma_crossings_prefix(s: Seq<i16>, t: Seq<i16>, n: int)
    requires
        0 <= n <= s.len() <= t.len(),
        forall|i: int| 0 <= i < s.len() ==> #[trigger] t[i] == s[i],
    ensures
        crossings(s, n) == crossings(t, n),
    decreases n,
{
    if n >= 2 {
        lemma_crossings_prefix(s, t, n - 1);
    }
}

// ---------------------------------------------------------------------------
// Frames
// ---------------------------------------------------------------------------

/// Samples are gathered in their order until a frame of 960 is full.
pub proof fn frames_are_gathered_in_order(
    fresh: FrameCollector,
    c: &mut FrameCollector,
    sample: i16,
    r: Option<Vec<i16>>,
)
    requires
        call_ensures(FrameCollector::new, (), fresh),
        call_ensures(FrameCollector::push, (c, sample), r),
    ensures
        fresh@.len() == 0,
        r is Some <==> old(c)@.len() == 959,
        r is Some ==> r->Some_0@ == old(c)@.push(sample) && final(c)@.len() == 0,
        r is None ==> final(c)@ == old(c)@.push(sample),
{
}

/// A device's samples are cut into frames at its rate without losing any: the frames and
/// what waits are, in their order, what waited and the first channel of what came.
pub proof fn cutting_keeps_every_sample(
    c: &mut InputCutter,
    samples: &[i16],
    channels: usize,
    r: Vec<Vec<i16>>,
    all: Seq<i16>,
    i: int,
    k: int,
    j: int,
)
    requires
        call_ensures(InputCutter::push_interleaved, (c, samples, channels), r),
        channels > 0,
        old(c).frame() > 0,
        all == old(c).waiting() + first_channel(samples@, channels as nat),
    ensures
        0 <= i && i * channels < samples@.len() ==> old(c).waiting().len() + i < all.len()
            && all[old(c).waiting().len() + i] == samples@[i * channels],
        all.len() == r@.len() * old(c).frame() + final(c).waiting().len(),
        final(c).waiting().len() < old(c).frame(),
        0 <= k < r@.len() && 0 <= j < old(c).frame() ==> r@[k]@.len() == old(c).frame()
            && r@[k]@[j] == all[k * old(c).frame() + j],
        0 <= j < final(c).waiting().len() ==> final(c).waiting()[j] == all[r@.len() * old(
            c,
        ).frame() + j],
        final(c).frame() == old(c).frame(),
{
    let n = samples@.len() as int;
    let ch = channels as int;
    let f = old(c).frame() as int;
    if 0 <= i && i * channels < samples@.len() {
        let q = (n + ch - 1) / ch;
        vstd::arithmetic::div_mod::lemma_fundamental_div_mod(n + ch - 1, ch);
        let m = (n + ch - 1) % ch;
        assert(i < q) by (nonlinear_arith)
            requires
                i * ch < n,
                n + ch - 1 == ch * q + m,
                0 <= m < ch,
                ch > 0,
        ;
    }
    assert(r@.len() * f >= 0) by (nonlinear_arith)
        requires
            r@.len() >= 0,
            f >= 0,
    ;
    if 0 <= k < r@.len() && 0 <= j < f {
        assert(r@[k]@ == cut_frame(all, f as nat, k));
        assert((k + 1) * f == k * f + f) by (nonlinear_arith);
        assert(0 <= k * f && (k + 1) * f <= r@.len() * f) by (nonlinear_arith)
            requires
                0 <= k < r@.len(),
                f > 0,
        ;
    }
}

/// What an output device gets: left and right on its first two channels and silence on
/// the others, or their mean where it has one channel alone.
pub proof fn output_frames_are_filled(
    left: i16,
    right: i16,
    channels: usize,
    r: Vec<i16>,
    i: int,
)
    requires
        call_ensures(fill_frame, (left, right, channels), r),
    ensures
        channels <= 1 ==> r@.len() == 1 && ({
            let rest = left + right - 2 * r@[0];
            &&& -1 <= rest <= 1
            &&& rest > 0 ==> r@[0] >= 0
            &&& rest < 0 ==> r@[0] <= 0
        }),
        channels > 1 ==> r@.len() == channels && r@[0] == left && r@[1] == right,
        channels > 1 && 2 <= i < channels ==> r@[i] == 0,
{
}

/// The window over the samples starts with the first two pairs that wait, and moves on
/// by one pair; where none waits the last one stays.
pub proof fn windows_move_by_one_pair(
    w: &mut OutputWindow,
    p: &mut PlaybackBuffer,
    q: &mut PlaybackBuffer,
    pair: Option<(i16, i16)>,
)
    requires
        call_ensures(OutputWindow::advance, (w, p), ()),
        call_ensures(PlaybackBuffer::pop_stereo, (q,), pair),
        old(q)@ == old(p)@,
    ensures
        final(w).current == old(w).next,
        pair is Some ==> final(w).next == pair->Some_0,
        pair is None ==> final(w).next == old(w).next,
        final(w).initialized == old(w).initialized,
        final(p)@ == final(q)@,
{
}

/// A window is filled once: with the two oldest pairs, with one of them twice where no
/// other waits, and with silence where none does.
pub proof fn windows_are_filled_once(
    fresh: OutputWindow,
    w: &mut OutputWindow,
    p: &mut PlaybackBuffer,
    q: &mut PlaybackBuffer,
    first: Option<(i16, i16)>,
    s: &mut PlaybackBuffer,
    second: Option<(i16, i16)>,
)
    requires
        call_ensures(OutputWindow::new, (), fresh),
        call_ensures(OutputWindow::start, (w, p), ()),
        call_ensures(PlaybackBuffer::pop_stereo, (q,), first),
        call_ensures(PlaybackBuffer::pop_stereo, (s,), second),
        old(q)@ == old(p)@,
        old(s)@ == final(q)@,
    ensures
        !fresh.initialized && fresh.current == (0i16, 0i16) && fresh.next == (0i16, 0i16),
        old(w).initialized ==> *final(w) == *old(w) && final(p)@ == old(p)@,
        !old(w).initialized ==> final(w).initialized && final(p)@ == final(s)@,
        !old(w).initialized && first is Some ==> final(w).current == first->Some_0,
        !old(w).initialized && first is None ==> final(w).current == (0i16, 0i16),
        !old(w).initialized && second is Some ==> final(w).next == second->Some_0,
        !old(w).initialized && second is None ==> final(w).next == final(w).current,
{
}

/// A frame for one speaker begins with the mean of the oldest pair, or with silence where
/// none waits, and is always whole.
pub proof fn speakers_get_whole_frames(
    p: &mut PlaybackBuffer,
    r: Vec<i16>,
    q: &mut PlaybackBuffer,
    first: Option<(i16, i16)>,
)
    requires
        call_ensures(mono_frame, (p,), r),
        call_ensures(PlaybackBuffer::pop_stereo, (q,), first),
        old(q)@ == old(p)@,
    ensures
        r@.len() == 960,
        first is None ==> r@[0] == 0,
        first is Some ==> ({
            let sum = first->Some_0.0 + first->Some_0.1;
            let rest = sum - 2 * r@[0];
            &&& -1 <= rest <= 1
            &&& rest > 0 ==> r@[0] >= 0
            &&& rest < 0 ==> r@[0] <= 0
        }),
{
    assert(r@[0] == crate::capture::mono_sample(old(p)@, 0));
    assert(crate::capture::after_pairs(old(p)@, 0) == old(p)@);
    assert(mean(0, 0) == 0);
}

proof fn lemma_after_pairs(p: Playback, n: nat)
    requires
        p.started,
        p.channels == 1 || p.channels == 2,
        n * p.channels <= p.queue.len(),
    ensures
        crate::capture::after_pairs(p, n) == (Playback {
            queue: p.queue.skip((n * p.channels) as int),
            ..p
        }),
    decreases n,
{
    if n == 0 {
        assert(p.queue.skip(0) =~= p.queue);
    } else {
        let m = (n - 1) as nat;
        let c = p.channels as int;
        assert(m * c + c == n * c) by (nonlinear_arith)
            requires
                m == n - 1,
        ;
        lemma_after_pairs(p, m);
        let q = p.queue.skip((m * p.channels) as int);
        assert(q.len() >= c);
        if c == 2 {
            assert(q.drop_first().drop_first() =~= p.queue.skip((n * p.channels) as int));
        } else {
            assert(q.drop_first() =~= p.queue.skip((n * p.channels) as int));
        }
    }
}

/// A frame for one speaker takes the pairs that wait in turn: each of its samples is
/// the mean of the next pair, or the next sample of mono audio, and the rest waits on.
pub proof fn speakers_get_the_pairs_in_turn(p: &mut PlaybackBuffer, r: Vec<i16>, k: int)
    requires
        call_ensures(mono_frame, (p,), r),
        old(p)@.started,
        old(p)@.channels == 1 || old(p)@.channels == 2,
        old(p)@.queue.len() >= 960 * old(p)@.channels,
        0 <= k < 960,
    ensures
        r@.len() == 960,
        final(p)@.queue == old(p)@.queue.skip((960 * old(p)@.channels) as int),
        final(p)@.underflows == old(p)@.underflows && final(p)@.started,
        old(p)@.channels == 1 ==> r@[k] == old(p)@.queue[k],
        old(p)@.channels == 2 ==> ({
            let sum = old(p)@.queue[2 * k] + old(p)@.queue[2 * k + 1];
            let rest = sum - 2 * r@[k];
            &&& -1 <= rest <= 1
            &&& rest > 0 ==> r@[k] >= 0
            &&& rest < 0 ==> r@[k] <= 0
        }),
{
    let b = old(p)@;
    lemma_after_pairs(b, 960);
    let n = k as nat;
    assert(n * b.channels <= b.queue.len()) by (nonlinear_arith)
        requires
            n < 960,
            960 * b.channels <= b.queue.len(),
            b.channels >= 1,
    ;
    lemma_after_pairs(b, n);
    assert(r@[k] == crate::capture::mono_sample(b, n));
}

/// The peak is the loudest of the samples: none is louder, and one is as loud.
pub proof fn peaks_are_the_loudest_sample(samples: &[i16], r: u16, i: int)
    requires
        call_ensures(sample_peak, (samples,), r),
    ensures
        samples@.len() == 0 ==> r == 0,
        0 <= i < samples@.len() ==> -r <= samples@[i] <= r,
        samples@.len() > 0 ==> exists|k: int|
            0 <= k < samples@.len() && (#[trigger] samples@[k] == r || samples@[k] == -r),
{
    lemma_peak(samples@);
    if 0 <= i < samples@.len() {
        let x = samples@[i];
    }
}

proof fn lemma_peak(s: Seq<i16>)
    ensures
        forall|i: int| 0 <= i < s.len() ==> -peak(s) <= #[trigger] s[i] <= peak(s),
        s.len() > 0 ==> exists|k: int|
            0 <= k < s.len() && (#[trigger] s[k] == peak(s) || s[k] == -peak(s)),
        s.len() == 0 ==> peak(s) == 0,
    decreases s.len(),
{
    if s.len() > 0 {
        let t = s.drop_last();
        lemma_peak(t);
        assert forall|i: int| 0 <= i < s.len() implies -peak(s) <= #[trigger] s[i] <= peak(s) by {
            if i < t.len() {
                assert(t[i] == s[i]);
            }
        }
        let n = s.len() - 1;
        if peak(s) == peak(t) && t.len() > 0 {
            let k = choose|k: int|
                0 <= k < t.len() && (#[trigger] t[k] == peak(t) || t[k] == -peak(t));
            assert(s[k] == peak(s) || s[k] == -peak(s));
        } else {
            assert(s[n] == peak(s) || s[n] == -peak(s));
        }
    }
}

} // verus!
