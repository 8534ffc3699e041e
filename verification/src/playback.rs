//! The buffer between received audio and the output device, and the cues that
//! announce changes of the connection.

use vstd::prelude::*;
use crate::protocol::{FRAME_MS, MIX_SAMPLES_PER_FRAME};

verus! {

/// The playback buffer as mathematical values.
pub struct Playback {
    /// The samples waiting to be played.
    pub queue: Seq<i16>,
    pub capacity: nat,
    /// Playing starts when this many samples wait.
    pub prebuffer: nat,
    pub channels: nat,
    pub started: bool,
    pub underflows: nat,
    pub overflows: nat,
    pub dropped: nat,
}

/// Received samples on their way to the output device.
#[derive(Debug)]
pub struct PlaybackBuffer {
    samples: Vec<i16>,
    read: usize,
    capacity: usize,
    prebuffer_samples: usize,
    channels: usize,
    started: bool,
    underflows: u64,
    overflows: u64,
    dropped_samples: u64,
}

/// What the playback buffer reports of itself.
#[derive(Debug, Clone, Copy, PartialEq, Eq, Structural)]
pub struct PlaybackStats {
    pub available_samples: usize,
    pub capacity_samples: usize,
    pub prebuffer_samples: usize,
    pub channels: usize,
    pub started: bool,
    pub underflows: u64,
    pub overflows: u64,
    pub dropped_samples: u64,
}

/// The last `n` items of `s`, or all of them where there are fewer.
pub open spec fn keep_last(s: Seq<i16>, n: nat) -> Seq<i16> {
    if s.len() > n {
        s.skip(s.len() - n)
    } else {
        s
    }
}

/// At least one channel.
pub open spec fn at_least_one(channels: nat) -> nat {
    if channels == 0 {
        1
    } else {
        channels
    }
}

/// The buffer emptied: playing waits for the prebuffer again.
pub open spec fn cleared(p: Playback) -> Playback {
    Playback { queue: Seq::empty(), started: p.prebuffer == 0, ..p }
}

/// The buffer set to a number of channels: another number empties it.
pub open spec fn laid_out(p: Playback, channels: nat) -> Playback {
    if p.channels == at_least_one(channels) {
        p
    } else {
        Playback { channels: at_least_one(channels), ..cleared(p) }
    }
}

/// The buffer with samples put behind those waiting. Where there are too many
/// then, the oldest are dropped.
pub open spec fn pushed(p: Playback, samples: Seq<i16>, channels: nat) -> Playback {
    let q = laid_out(p, channels);
    let all = q.queue + samples;
    if all.len() > q.capacity {
        Playback {
            queue: keep_last(all, q.capacity),
            overflows: q.overflows + 1,
            dropped: (q.dropped + (all.len() - q.capacity)) as nat,
            ..q
        }
    } else {
        Playback { queue: all, ..q }
    }
}

/// The next sample, and the buffer without it. Nothing comes before the prebuffer
/// is filled. Running empty counts as an underflow and waits for the prebuffer
/// again.
pub open spec fn popped(p: Playback) -> (Option<i16>, Playback) {
    if !p.started && p.queue.len() < p.prebuffer {
        (None, p)
    } else if p.queue.len() > 0 {
        (Some(p.queue[0]), Playback { queue: p.queue.drop_first(), started: true, ..p })
    } else {
        (None, Playback { underflows: p.underflows + 1, started: p.prebuffer == 0, ..p })
    }
}

/// The next pair of samples, and the buffer without them. Mono audio goes to both
/// sides, and so does the last sample of an odd number.
pub open spec fn popped_pair(p: Playback) -> (Option<(i16, i16)>, Playback) {
    let (first, rest) = popped(p);
    match first {
        None => (None, rest),
        Some(left) => if p.channels == 2 {
            let (second, end) = popped(rest);
            match second {
                Some(right) => (Some((left, right)), end),
                None => (Some((left, left)), end),
            }
        } else {
            (Some((left, left)), rest)
        },
    }
}

impl View for PlaybackBuffer {
    type V = Playback;

    closed spec fn view(&self) -> Playback {
        Playback {
            queue: self.samples@.skip(self.read as int),
            capacity: self.capacity as nat,
            prebuffer: self.prebuffer_samples as nat,
            channels: self.channels as nat,
            started: self.started,
            underflows: self.underflows as nat,
            overflows: self.overflows as nat,
            dropped: self.dropped_samples as nat,
        }
    }
}

impl PlaybackBuffer {
    /// What has been read lies inside the buffer, which has a channel.
    pub closed spec fn wf(self) -> bool {
        self.read <= self.samples@.len() && self.channels >= 1
    }

    pub fn new(capacity: usize, prebuffer_samples: usize) -> (r: Self)
        ensures
            r.wf(),
            r@ == (Playback {
                queue: Seq::empty(),
                capacity: capacity as nat,
                prebuffer: prebuffer_samples as nat,
                channels: 1,
                started: prebuffer_samples == 0,
                underflows: 0,
                overflows: 0,
                dropped: 0,
            }),
    {
        let r = PlaybackBuffer {
            samples: Vec::with_capacity(capacity),
            read: 0,
            capacity,
            prebuffer_samples,
            channels: 1,
            started: prebuffer_samples == 0,
            underflows: 0,
            overflows: 0,
            dropped_samples: 0,
        };
        proof {
            assert(r@.queue =~= Seq::<i16>::empty());
        }
        r
    }

    /// Puts mono samples behind those waiting.
    pub fn push(&mut self, samples: &[i16])
        requires
            old(self).wf(),
            old(self)@.overflows < u64::MAX,
            old(self)@.dropped + old(self)@.queue.len() + samples@.len() <= u64::MAX,
        ensures
            final(self).wf(),
            final(self)@ == pushed(old(self)@, samples@, 1),
    {
        self.push_frame(samples, 1);
    }

    /// Puts interleaved samples of some channels behind those waiting.
    pub fn push_frame(&mut self, samples: &[i16], channels: usize)
        requires
            old(self).wf(),
            old(self)@.overflows < u64::MAX,
            old(self)@.dropped + old(self)@.queue.len() + samples@.len() <= u64::MAX,
        ensures
            final(self).wf(),
            final(self)@ == pushed(old(self)@, samples@, channels as nat),
    {
        self.set_channels(channels);
        let ghost q = self@;
        self.compact_consumed();
        self.samples.extend_from_slice(samples);
        let ghost all = q.queue + samples@;
        proof {
            assert(self.samples@ =~= all);
        }
        if self.samples.len() > self.capacity {
            let excess: usize = self.samples.len() - self.capacity;
            let kept = self.samples.split_off(excess);
            self.samples = kept;
            self.overflows = self.overflows + 1;
            self.dropped_samples = self.dropped_samples + excess as u64;
            proof {
                assert(self.samples@ =~= all.skip(excess as int));
            }
        }
        proof {
            assert(self.samples@.skip(0) =~= self.samples@);
        }
    }

    /// Sets the number of channels, at least one. Another number empties the buffer.
    pub fn set_channels(&mut self, channels: usize)
        requires
            old(self).wf(),
        ensures
            final(self).wf(),
            final(self)@ == laid_out(old(self)@, channels as nat),
    {
        let channels: usize = if channels == 0 {
            1
        } else {
            channels
        };
        if self.channels != channels {
            self.clear();
            self.channels = channels;
        }
    }

    /// Empties the buffer.
    pub fn clear(&mut self)
        requires
            old(self).wf(),
        ensures
            final(self).wf(),
            final(self)@ == cleared(old(self)@),
    {
        self.samples.clear();
        self.read = 0;
        self.started = self.prebuffer_samples == 0;
        proof {
            assert(self@.queue =~= Seq::<i16>::empty());
        }
    }

    /// Takes the next sample.
    pub fn pop(&mut self) -> (r: Option<i16>)
        requires
            old(self).wf(),
            old(self)@.underflows < u64::MAX,
        ensures
            final(self).wf(),
            (r, final(self)@) == popped(old(self)@),
    {
        self.pop_sample()
    }

    /// Takes the next samples for the left and the right side.
    pub fn pop_stereo(&mut self) -> (r: Option<(i16, i16)>)
        requires
            old(self).wf(),
            old(self)@.underflows < u64::MAX,
        ensures
            final(self).wf(),
            (r, final(self)@) == popped_pair(old(self)@),
    {
        if self.channels == 2 {
            let left = match self.pop_sample() {
                Some(s) => s,
                None => {
                    return None;
                },
            };
            let right = match self.pop_sample() {
                Some(s) => s,
                None => left,
            };
            Some((left, right))
        } else {
            match self.pop_sample() {
                Some(s) => Some((s, s)),
                None => None,
            }
        }
    }

    /// The number of interleaved channels.
    pub fn channels(&self) -> (r: usize)
        requires
            self.wf(),
        ensures
            r == self@.channels,
            r >= 1,
    {
        self.channels
    }

    fn pop_sample(&mut self) -> (r: Option<i16>)
        requires
            old(self).wf(),
            old(self)@.underflows < u64::MAX,
        ensures
            final(self).wf(),
            (r, final(self)@) == popped(old(self)@),
            r is Some ==> final(self)@.underflows == old(self)@.underflows,
    {
        let ghost before = self@;
        if !self.started {
            if self.available_samples() < self.prebuffer_samples {
                return None;
            }
            self.started = true;
        }
        if self.read < self.samples.len() {
            let sample = self.samples[self.read];
            self.read = self.read + 1;
            proof {
                assert(self@.queue =~= before.queue.drop_first());
                assert(before.queue[0] == sample);
            }
            Some(sample)
        } else {
            self.underflows = self.underflows + 1;
            self.started = self.prebuffer_samples == 0;
            None
        }
    }

    /// How many samples wait.
    pub fn available_samples(&self) -> (r: usize)
        requires
            self.wf(),
        ensures
            r == self@.queue.len(),
    {
        self.samples.len() - self.read
    }

    /// What the buffer reports of itself.
    pub fn stats(&self) -> (r: PlaybackStats)
        requires
            self.wf(),
        ensures
            r.available_samples == self@.queue.len(),
            r.capacity_samples == self@.capacity,
            r.prebuffer_samples == self@.prebuffer,
            r.channels == self@.channels,
            r.started == self@.started,
            r.underflows == self@.underflows,
            r.overflows == self@.overflows,
            r.dropped_samples == self@.dropped,
    {
        PlaybackStats {
            available_samples: self.available_samples(),
            capacity_samples: self.capacity,
            prebuffer_samples: self.prebuffer_samples,
            channels: self.channels,
            started: self.started,
            underflows: self.underflows,
            overflows: self.overflows,
            dropped_samples: self.dropped_samples,
        }
    }

    fn compact_consumed(&mut self)
        requires
            old(self).wf(),
        ensures
            final(self).wf(),
            final(self)@ == old(self)@,
            final(self).read == 0,
            final(self).samples@ == old(self)@.queue,
    {
        let ghost queue = self@.queue;
        if self.read > 0 {
            let rest = self.samples.split_off(self.read);
            self.samples = rest;
            self.read = 0;
            proof {
                assert(self.samples@ =~= queue);
            }
        }
        proof {
            assert(self.samples@.skip(0) =~= self.samples@);
        }
    }
}

// ---------------------------------------------------------------------------
// Durations in samples
// ---------------------------------------------------------------------------

/// Samples of the frames that a duration takes, the last of them whole.
pub open spec fn samples_in(ms: u32) -> int {
    ((ms + FRAME_MS - 1) / FRAME_MS as int) * MIX_SAMPLES_PER_FRAME
}

/// Samples of the frames that a duration takes.
pub fn samples_for_ms(ms: u32) -> (r: usize)
    requires
        samples_in(ms) <= usize::MAX,
    ensures
        r == samples_in(ms),
{
    if ms == 0 {
        return 0;
    }
    let frames: u64 = (ms as u64 + FRAME_MS as u64 - 1) / FRAME_MS as u64;
    (frames * MIX_SAMPLES_PER_FRAME as u64) as usize
}

/// A duration takes the least number of whole frames that covers it.
pub proof fn samples_cover_the_duration(ms: u32)
    ensures
        samples_in(ms) * 1000 >= ms * 48_000,
        (samples_in(ms) - MIX_SAMPLES_PER_FRAME) * 1000 < ms * 48_000,
        samples_in(ms) % MIX_SAMPLES_PER_FRAME as int == 0,
{
    let f = (ms + FRAME_MS - 1) / FRAME_MS as int;
    assert(f * 20 >= ms && (f - 1) * 20 < ms);
    assert((f * 960) % 960 == 0) by (nonlinear_arith);
}

// ---------------------------------------------------------------------------
// Connection cues
// ---------------------------------------------------------------------------

/// What happens to the control connection.
#[derive(Debug, Clone, Copy, PartialEq, Eq, Structural)]
pub enum ClientConnectionEvent {
    Connected,
    Disconnected,
    Reconnecting,
}

/// Milliseconds after which the cue for a lost connection is played again.
pub const RECONNECTING_CUE_REPEAT_MS: u64 = 4000;

/// The tones of a cue: pairs of a frequency in hertz, zero for silence, and a
/// duration in milliseconds.
pub open spec fn cue_tones(event: ClientConnectionEvent) -> Seq<(u32, u32)> {
    match event {
        ClientConnectionEvent::Connected => seq![(660, 70), (0, 30), (880, 90)],
        ClientConnectionEvent::Disconnected => seq![(440, 90), (0, 30), (220, 130)],
        ClientConnectionEvent::Reconnecting => seq![(523, 60), (0, 20), (659, 70)],
    }
}

/// The tones of a cue.
pub fn cue_segments(event: ClientConnectionEvent) -> (r: Vec<(u32, u32)>)
    ensures
        r@ == cue_tones(event),
{
    let mut v: Vec<(u32, u32)> = Vec::new();
    match event {
        ClientConnectionEvent::Connected => {
            v.push((660, 70));
            v.push((0, 30));
            v.push((880, 90));
        },
        ClientConnectionEvent::Disconnected => {
            v.push((440, 90));
            v.push((0, 30));
            v.push((220, 130));
        },
        ClientConnectionEvent::Reconnecting => {
            v.push((523, 60));
            v.push((0, 20));
            v.push((659, 70));
        },
    }
    v
}

/// The loudness of a cue: the cue for a lost connection, which repeats, is softer.
pub fn cue_amplitude(event: ClientConnectionEvent) -> (r: i16)
    ensures
        r == if event == ClientConnectionEvent::Reconnecting {
            700
        } else {
            1800i16
        },
{
    match event {
        ClientConnectionEvent::Reconnecting => 700,
        _ => 1800,
    }
}

/// How many samples a tone fades in and out over.
pub open spec fn cue_fade(total: usize) -> int {
    if total / 10 < 16 {
        16
    } else {
        total as int / 10
    }
}

/// The loudness of a tone at one of its samples, as a fraction: it fades in at
/// the beginning and out at the end.
pub fn cue_envelope(sample: usize, total: usize) -> (r: (usize, usize))
    ensures
        total == 0 ==> r == (0usize, 1usize),
        total > 0 && sample < cue_fade(total) ==> r.0 == sample && r.1 == cue_fade(total),
        total > 0 && cue_fade(total) <= sample && sample + cue_fade(total) >= total ==> r.1
            == cue_fade(total) && r.0 == if sample < total {
            total - sample
        } else {
            0
        },
        total > 0 && cue_fade(total) <= sample && sample + cue_fade(total) < total ==> r == (
            1usize,
            1usize,
        ),
        r.1 > 0,
{
    if total == 0 {
        return (0, 1);
    }
    let tenth: usize = total / 10;
    let fade: usize = if tenth < 16 {
        16
    } else {
        tenth
    };
    if sample < fade {
        (sample, fade)
    } else if sample >= total {
        (0, fade)
    } else if total - sample <= fade {
        (total - sample, fade)
    } else {
        (1, 1)
    }
}

/// A mono signal for one channel, or with each sample twice for two.
pub open spec fn spread(mono: Seq<i16>, channels: nat) -> Seq<i16> {
    if channels == 2 {
        Seq::new(2 * mono.len(), |i: int| mono[i / 2])
    } else {
        mono
    }
}

/// One or two channels.
pub open spec fn cue_channels(channels: nat) -> nat {
    if channels >= 2 {
        2
    } else {
        1
    }
}

fn spread_mono(mono: &Vec<i16>, channels: usize) -> (r: Vec<i16>)
    requires
        channels == 1 || channels == 2,
    ensures
        r@ == spread(mono@, channels as nat),
{
    let mut out: Vec<i16> = Vec::new();
    let mut i: usize = 0;
    while i < mono.len()
        invariant
            channels == 1 || channels == 2,
            0 <= i <= mono@.len(),
            out@ == spread(mono@.take(i as int), channels as nat),
        decreases mono@.len() - i,
    {
        let ghost before = out@;
        out.push(mono[i]);
        if channels == 2 {
            out.push(mono[i]);
        }
        proof {
            let t = mono@.take(i + 1);
            let want = spread(t, channels as nat);
            assert forall|k: int| 0 <= k < want.len() implies out@[k] == want[k] by {
                if k < before.len() {
                    assert(before[k] == spread(mono@.take(i as int), channels as nat)[k]);
                }
            }
            assert(out@ =~= want);
        }
        i = i + 1;
    }
    proof {
        assert(mono@.take(mono@.len() as int) =~= mono@);
    }
    out
}

/// Puts a cue behind the samples that wait, without a change of their layout
/// where it is mono or stereo. `mono` holds the tones of the cue.
pub fn enqueue_connection_cue(playback: &mut PlaybackBuffer, mono: &Vec<i16>)
    requires
        old(playback).wf(),
        old(playback)@.overflows < u64::MAX,
        old(playback)@.dropped + old(playback)@.queue.len() + 2 * mono@.len() <= u64::MAX,
    ensures
        final(playback).wf(),
        final(playback)@ == pushed(
            old(playback)@,
            spread(mono@, cue_channels(old(playback)@.channels)),
            cue_channels(old(playback)@.channels),
        ),
{
    let channels: usize = if playback.channels() >= 2 {
        2
    } else {
        1
    };
    let cue = spread_mono(mono, channels);
    playback.push_frame(cue.as_slice(), channels);
}

/// Tells whether an event is to be announced, and whether the connection counts
/// as being restored from then on. Repeated news of that are not announced.
pub fn connection_cue_step(event: ClientConnectionEvent, reconnecting: bool) -> (r: (bool, bool))
    ensures
        r.0 == !(event == ClientConnectionEvent::Reconnecting && reconnecting),
        r.1 == (event == ClientConnectionEvent::Reconnecting),
{
    match event {
        ClientConnectionEvent::Connected => (true, false),
        ClientConnectionEvent::Disconnected => (true, false),
        ClientConnectionEvent::Reconnecting => (!reconnecting, true),
    }
}

// ---------------------------------------------------------------------------
// Laws
// ---------------------------------------------------------------------------

/// After a push the buffer holds no more than its capacity, namely the newest of
/// the samples.
pub proof fn pushing_stays_within_capacity(p: Playback, samples: Seq<i16>, channels: nat)
    ensures
        pushed(p, samples, channels).queue.len() <= p.capacity,
        pushed(p, samples, channels).channels == at_least_one(channels),
        pushed(p, samples, channels).capacity == p.capacity,
        pushed(p, samples, channels).prebuffer == p.prebuffer,
        samples.len() >= p.capacity ==> pushed(p, samples, channels).queue == keep_last(
            samples,
            p.capacity,
        ),
{
    let q = laid_out(p, channels);
    let all = q.queue + samples;
    if samples.len() >= p.capacity {
        assert(keep_last(all, p.capacity) =~= keep_last(samples, p.capacity));
        if all.len() <= p.capacity {
            assert(all =~= samples);
        }
    }
}

/// What a push counts as dropped is what does not fit.
pub proof fn pushing_accounts_for_every_sample(p: Playback, samples: Seq<i16>, channels: nat)
    ensures
        ({
            let q = pushed(p, samples, channels);
            let kept = laid_out(p, channels).queue;
            q.queue.len() + (q.dropped - p.dropped) == kept.len() + samples.len()
        }),
{
}

/// The samples that `n` pops give.
pub open spec fn drained(p: Playback, n: nat) -> (Seq<Option<i16>>, Playback)
    decreases n,
{
    if n == 0 {
        (Seq::empty(), p)
    } else {
        let (head, q) = drained(p, (n - 1) as nat);
        let (s, r) = popped(q);
        (head.push(s), r)
    }
}

/// Once playing may start, samples come out in the order in which they went in.
pub proof fn samples_come_out_in_order(p: Playback, n: nat)
    requires
        p.started || p.queue.len() >= p.prebuffer,
        n <= p.queue.len(),
    ensures
        drained(p, n).0 == Seq::new(n, |i: int| Some(p.queue[i])),
        drained(p, n).1 == (Playback {
            queue: p.queue.skip(n as int),
            started: p.started || n > 0,
            ..p
        }),
    decreases n,
{
    if n > 0 {
        samples_come_out_in_order(p, (n - 1) as nat);
        let q = drained(p, (n - 1) as nat).1;
        assert(q.queue =~= p.queue.skip(n - 1));
        assert(q.queue[0] == p.queue[n - 1]);
        assert(q.queue.drop_first() =~= p.queue.skip(n as int));
        assert(drained(p, n).0 =~= Seq::new(n, |i: int| Some(p.queue[i])));
    } else {
        assert(p.queue.skip(0) =~= p.queue);
        assert(drained(p, 0).0 =~= Seq::new(0, |i: int| Some(p.queue[i])));
    }
}

/// Before the prebuffer is filled nothing comes out, and the buffer stays as it is.
pub proof fn nothing_comes_before_the_prebuffer(p: Playback)
    requires
        !p.started,
        p.queue.len() < p.prebuffer,
    ensures
        popped(p) == (None::<i16>, p),
        popped_pair(p) == (None::<(i16, i16)>, p),
{
}

/// Running empty is counted, and playing waits for the prebuffer again.
pub proof fn underflow_waits_for_the_prebuffer(p: Playback)
    requires
        p.started,
        p.queue.len() == 0,
    ensures
        popped(p).0 is None,
        popped(p).1.underflows == p.underflows + 1,
        p.prebuffer > 0 ==> popped(popped(p).1) == (None::<i16>, popped(p).1),
{
}

} // verus!
