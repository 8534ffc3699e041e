//! What comes out of the playback buffer, and the cues of the connection.

use vstd::prelude::*;

use crate::playback::{
    connection_cue_step, cue_amplitude, cue_envelope, cue_segments, enqueue_connection_cue,
    samples_cover_the_duration, samples_for_ms, ClientConnectionEvent, PlaybackBuffer,
    PlaybackStats,
};

verus! {

// ---------------------------------------------------------------------------
// Pushing
// ---------------------------------------------------------------------------

/// Samples that fit into the buffer are all in it after they were pushed, behind
/// whatever else is left there.
pub proof fn pushed_samples_come_last(b: &mut PlaybackBuffer, samples: &[i16], channels: usize)
    requires
        call_ensures(PlaybackBuffer::push_frame, (b, samples, channels), ()),
        samples@.len() <= old(b)@.capacity,
    ensures
        final(b)@.queue.len() >= samples@.len(),
        final(b)@.queue.skip(final(b)@.queue.len() - samples@.len()) == samples@,
{
    assert(final(b)@.queue.skip(final(b)@.queue.len() - samples@.len()) =~= samples@);
}

/// Where the layout stays the samples go behind those waiting, and only the oldest
/// make room: what is left is the end of both together, as much of it as fits.
pub proof fn only_the_oldest_make_room(b: &mut PlaybackBuffer, samples: &[i16], channels: usize)
    requires
        call_ensures(PlaybackBuffer::push_frame, (b, samples, channels), ()),
        old(b)@.channels == channels,
        channels > 0,
    ensures
        ({
            let all = old(b)@.queue + samples@;
            let left = final(b)@.queue;
            &&& left.len() <= all.len()
            &&& left == all.skip(all.len() - left.len())
            &&& all.len() <= old(b)@.capacity ==> left.len() == all.len()
            &&& all.len() > old(b)@.capacity ==> left.len() == old(b)@.capacity
        }),
        final(b)@.started == old(b)@.started,
{
    let all = old(b)@.queue + samples@;
    let left = final(b)@.queue;
    assert(left =~= all.skip(all.len() - left.len()));
}

/// Another layout throws away what waits: what is left is the end of the new samples,
/// and playing waits for the prebuffer again.
pub proof fn another_layout_starts_afresh(
    b: &mut PlaybackBuffer,
    samples: &[i16],
    channels: usize,
)
    requires
        call_ensures(PlaybackBuffer::push_frame, (b, samples, channels), ()),
        channels > 0,
        old(b)@.channels != channels,
    ensures
        final(b)@.queue.len() <= samples@.len(),
        final(b)@.queue == samples@.skip(samples@.len() - final(b)@.queue.len()),
        samples@.len() <= old(b)@.capacity ==> final(b)@.queue == samples@,
        samples@.len() > old(b)@.capacity ==> final(b)@.queue.len() == old(b)@.capacity,
        final(b)@.started <==> old(b)@.prebuffer == 0,
{
    assert(Seq::<i16>::empty() + samples@ =~= samples@);
    assert(final(b)@.queue =~= samples@.skip(samples@.len() - final(b)@.queue.len()));
}

/// Every sample that is lost to a full buffer is counted, and one overflow with them.
pub proof fn lost_samples_are_counted(b: &mut PlaybackBuffer, samples: &[i16], channels: usize)
    requires
        call_ensures(PlaybackBuffer::push_frame, (b, samples, channels), ()),
        old(b)@.channels == channels,
        channels > 0,
    ensures
        ({
            let lost = old(b)@.queue.len() + samples@.len() - final(b)@.queue.len();
            &&& final(b)@.dropped == old(b)@.dropped + lost
            &&& final(b)@.overflows == old(b)@.overflows + (if lost > 0 {
                1int
            } else {
                0
            })
        }),
{
}

/// Pushing changes the number of channels to the one given, at least one, and neither
/// the size of the buffer nor the count of its underflows. Mono samples are pushed
/// for one channel.
pub proof fn pushing_keeps_the_size(
    b: &mut PlaybackBuffer,
    c: &mut PlaybackBuffer,
    samples: &[i16],
    channels: usize,
)
    requires
        call_ensures(PlaybackBuffer::push_frame, (b, samples, channels), ()),
        call_ensures(PlaybackBuffer::push, (c, samples), ()),
    ensures
        channels > 0 ==> final(b)@.channels == channels,
        channels == 0 ==> final(b)@.channels == 1,
        final(b)@.capacity == old(b)@.capacity,
        final(b)@.prebuffer == old(b)@.prebuffer,
        final(b)@.underflows == old(b)@.underflows,
        old(b)@ == old(c)@ && channels == 1 ==> final(c)@ == final(b)@,
{
}

/// A buffer is made empty, for one channel, and waits for its prebuffer.
pub proof fn buffers_start_empty(capacity: usize, prebuffer: usize, b: PlaybackBuffer)
    requires
        call_ensures(PlaybackBuffer::new, (capacity, prebuffer), b),
    ensures
        b.wf(),
        b@.queue.len() == 0,
        b@.capacity == capacity,
        b@.prebuffer == prebuffer,
        b@.channels == 1,
        b@.started <==> prebuffer == 0,
        b@.underflows == 0 && b@.overflows == 0 && b@.dropped == 0,
{
}

/// Clearing takes all that waits, and so does another number of channels; the same
/// number takes nothing. The counts and the size stay.
pub proof fn clearing_takes_all(
    b: &mut PlaybackBuffer,
    c: &mut PlaybackBuffer,
    channels: usize,
)
    requires
        call_ensures(PlaybackBuffer::clear, (b,), ()),
        call_ensures(PlaybackBuffer::set_channels, (c, channels), ()),
        channels > 0,
    ensures
        final(b)@.queue.len() == 0,
        final(b)@.started <==> old(b)@.prebuffer == 0,
        final(b)@.channels == old(b)@.channels,
        final(b)@.capacity == old(b)@.capacity && final(b)@.prebuffer == old(b)@.prebuffer,
        final(b)@.underflows == old(b)@.underflows && final(b)@.overflows == old(b)@.overflows
            && final(b)@.dropped == old(b)@.dropped,
        final(c)@.channels == channels,
        old(c)@.channels == channels ==> final(c)@ == old(c)@,
        old(c)@.channels != channels ==> final(c)@.queue.len() == 0 && (final(c)@.started <==> old(
            c,
        )@.prebuffer == 0),
        final(c)@.capacity == old(c)@.capacity && final(c)@.prebuffer == old(c)@.prebuffer,
        final(c)@.underflows == old(c)@.underflows && final(c)@.overflows == old(c)@.overflows
            && final(c)@.dropped == old(c)@.dropped,
{
}

// ---------------------------------------------------------------------------
// Popping
// ---------------------------------------------------------------------------

/// A sample that comes out is the oldest one, and the others stay in their order.
pub proof fn the_oldest_comes_out(b: &mut PlaybackBuffer, r: Option<i16>)
    requires
        call_ensures(PlaybackBuffer::pop, (b,), r),
    ensures
        r is Some ==> old(b)@.queue == seq![r->Some_0] + final(b)@.queue,
        r is None ==> old(b)@.queue == final(b)@.queue,
        r is Some ==> final(b)@.started,
        final(b)@.capacity == old(b)@.capacity && final(b)@.prebuffer == old(b)@.prebuffer
            && final(b)@.channels == old(b)@.channels,
        final(b)@.overflows == old(b)@.overflows && final(b)@.dropped == old(b)@.dropped,
{
    if r is Some {
        assert(old(b)@.queue =~= seq![r->Some_0] + final(b)@.queue);
    }
}

/// A sample comes out exactly where there is one and playing has started or may
/// start: until the prebuffer is filled nothing comes.
pub proof fn samples_come_once_playing_may_start(b: &mut PlaybackBuffer, r: Option<i16>)
    requires
        call_ensures(PlaybackBuffer::pop, (b,), r),
    ensures
        r is Some <==> old(b)@.queue.len() > 0 && (old(b)@.started || old(b)@.queue.len() >= old(
            b,
        )@.prebuffer),
        !old(b)@.started && old(b)@.queue.len() < old(b)@.prebuffer ==> final(b)@ == old(b)@,
{
}

/// Running empty while playing is counted once, and playing waits for the prebuffer
/// again; nothing else is counted.
pub proof fn running_empty_is_counted(b: &mut PlaybackBuffer, r: Option<i16>)
    requires
        call_ensures(PlaybackBuffer::pop, (b,), r),
    ensures
        old(b)@.queue.len() == 0 && (old(b)@.started || old(b)@.prebuffer == 0)
            ==> final(b)@.underflows == old(b)@.underflows + 1 && (final(b)@.started <==> old(
            b,
        )@.prebuffer == 0),
        old(b)@.queue.len() > 0 || !old(b)@.started && old(b)@.prebuffer > 0
            ==> final(b)@.underflows == old(b)@.underflows,
{
}

/// Samples come out as they went in: what is pushed into an empty buffer that may
/// play comes out sample by sample.
pub proof fn samples_come_out_as_they_went_in(
    b: &mut PlaybackBuffer,
    samples: &[i16],
    c: &mut PlaybackBuffer,
    first: Option<i16>,
    d: &mut PlaybackBuffer,
    second: Option<i16>,
)
    requires
        call_ensures(PlaybackBuffer::push, (b, samples), ()),
        call_ensures(PlaybackBuffer::pop, (c,), first),
        call_ensures(PlaybackBuffer::pop, (d,), second),
        old(b)@.queue.len() == 0,
        old(b)@.prebuffer <= samples@.len() <= old(b)@.capacity,
        samples@.len() >= 2,
        old(c)@ == final(b)@,
        old(d)@ == final(c)@,
    ensures
        first == Some(samples@[0]),
        second == Some(samples@[1]),
        final(d)@.queue == samples@.skip(2),
{
    assert(old(b)@.queue + samples@ =~= samples@);
    assert(Seq::<i16>::empty() + samples@ =~= samples@);
    assert(final(d)@.queue =~= samples@.skip(2));
}

/// Stereo takes the two oldest samples for the two sides; mono, and the last sample
/// of an odd number, goes to both.
pub proof fn pairs_come_out(b: &mut PlaybackBuffer, r: Option<(i16, i16)>)
    requires
        call_ensures(PlaybackBuffer::pop_stereo, (b,), r),
        old(b)@.started || old(b)@.queue.len() >= old(b)@.prebuffer,
    ensures
        old(b)@.queue.len() == 0 ==> r is None,
        old(b)@.channels == 2 && old(b)@.queue.len() >= 2 ==> r == Some(
            (old(b)@.queue[0], old(b)@.queue[1]),
        ) && final(b)@.queue == old(b)@.queue.skip(2),
        old(b)@.channels == 2 && old(b)@.queue.len() == 1 ==> r == Some(
            (old(b)@.queue[0], old(b)@.queue[0]),
        ) && final(b)@.queue.len() == 0 && final(b)@.underflows == old(b)@.underflows + 1,
        old(b)@.channels != 2 && old(b)@.queue.len() >= 1 ==> r == Some(
            (old(b)@.queue[0], old(b)@.queue[0]),
        ) && final(b)@.queue == old(b)@.queue.skip(1),
        old(b)@.queue.len() >= 2 ==> final(b)@.underflows == old(b)@.underflows,
{
    if old(b)@.channels == 2 && old(b)@.queue.len() >= 2 {
        assert(old(b)@.queue.drop_first()[0] == old(b)@.queue[1]);
        assert(final(b)@.queue =~= old(b)@.queue.skip(2));
    }
    if old(b)@.channels != 2 && old(b)@.queue.len() >= 1 {
        assert(final(b)@.queue =~= old(b)@.queue.skip(1));
    }
}

/// No pair comes before the prebuffer is filled, and nothing changes by asking.
pub proof fn no_pair_comes_too_early(b: &mut PlaybackBuffer, r: Option<(i16, i16)>)
    requires
        call_ensures(PlaybackBuffer::pop_stereo, (b,), r),
        !old(b)@.started,
        old(b)@.queue.len() < old(b)@.prebuffer,
    ensures
        r is None,
        final(b)@ == old(b)@,
{
}

/// A buffer reports what it holds and what it has counted.
pub proof fn buffers_report_themselves(
    b: PlaybackBuffer,
    s: PlaybackStats,
    waiting: usize,
    channels: usize,
)
    requires
        call_ensures(PlaybackBuffer::stats, (&b,), s),
        call_ensures(PlaybackBuffer::available_samples, (&b,), waiting),
        call_ensures(PlaybackBuffer::channels, (&b,), channels),
    ensures
        s.available_samples == b@.queue.len() && waiting == b@.queue.len(),
        s.channels == b@.channels && channels == b@.channels,
        s.capacity_samples == b@.capacity,
        s.prebuffer_samples == b@.prebuffer,
        s.started == b@.started,
        s.underflows == b@.underflows,
        s.overflows == b@.overflows,
        s.dropped_samples == b@.dropped,
{
}

// ---------------------------------------------------------------------------
// Durations and cues
// ---------------------------------------------------------------------------

/// A duration takes the least number of whole frames of 20 ms at 48 kHz that covers
/// it.
pub proof fn durations_are_covered(ms: u32, samples: usize)
    requires
        call_ensures(samples_for_ms, (ms,), samples),
    ensures
        samples * 1000 >= ms * 48_000,
        (samples - 960) * 1000 < ms * 48_000,
        samples % 960 == 0,
{
    samples_cover_the_duration(ms);
}

/// A cue is two tones with silence between them. That of a connection that came up
/// or is being restored rises, that of a lost one falls; and each lasts its time.
pub proof fn cues_rise_and_fall(event: ClientConnectionEvent, tones: Vec<(u32, u32)>)
    requires
        call_ensures(cue_segments, (event,), tones),
    ensures
        tones@.len() == 3,
        tones@[0].0 > 0 && tones@[1].0 == 0 && tones@[2].0 > 0,
        match event {
            ClientConnectionEvent::Connected => tones@[0].0 == 660 && tones@[2].0 == 880
                && tones@[0].1 == 70 && tones@[1].1 == 30 && tones@[2].1 == 90,
            ClientConnectionEvent::Disconnected => tones@[0].0 == 440 && tones@[0].0
                == 2 * tones@[2].0 && tones@[0].1 == 90 && tones@[1].1 == 30 && tones@[2].1 == 130,
            ClientConnectionEvent::Reconnecting => tones@[0].0 == 523 && tones@[2].0 == 659
                && tones@[0].1 == 60 && tones@[1].1 == 20 && tones@[2].1 == 70,
        },
{
}

/// The cue that repeats while the connection is being restored is the softest.
pub proof fn repeated_cues_are_soft(event: ClientConnectionEvent, loud: i16)
    requires
        call_ensures(cue_amplitude, (event,), loud),
    ensures
        event == ClientConnectionEvent::Reconnecting <==> loud < 1800,
        event == ClientConnectionEvent::Reconnecting ==> loud == 700,
        700 <= loud <= 1800,
{
}

/// A tone begins and ends in silence, and in between it is never louder than whole.
pub proof fn tones_fade_in_and_out(sample: usize, total: usize, r: (usize, usize))
    requires
        call_ensures(cue_envelope, (sample, total), r),
    ensures
        r.1 > 0,
        r.0 <= r.1,
        sample == 0 ==> r.0 == 0,
        sample >= total >= 16 ==> r.0 == 0,
        0 < sample < total ==> r.0 > 0,
        total >= 160 && total <= 10 * sample <= 9 * total - 10 ==> r.0 == r.1,
{
}

/// A tone fades out as it faded in, step by step.
pub proof fn tones_fade_alike(
    sample: usize,
    mirror: usize,
    next: usize,
    total: usize,
    r: (usize, usize),
    m: (usize, usize),
    n: (usize, usize),
)
    requires
        call_ensures(cue_envelope, (sample, total), r),
        call_ensures(cue_envelope, (mirror, total), m),
        call_ensures(cue_envelope, (next, total), n),
        mirror == total - sample,
        next == sample + 1,
        0 < sample < total,
        total >= 160,
    ensures
        next < total / 10 ==> r.1 == n.1 && n.0 == r.0 + 1 && r.1 == total / 10,
        sample < total / 10 ==> m == r,
{
}

/// A cue is put behind what waits: each of its samples once where the layout is
/// mono, and for both sides where it is stereo.
pub proof fn cues_come_in_the_layout(b: &mut PlaybackBuffer, mono: Vec<i16>, i: int)
    requires
        call_ensures(enqueue_connection_cue, (b, &mono), ()),
        old(b)@.channels == 1 || old(b)@.channels == 2,
        0 <= i < mono@.len(),
        old(b)@.queue.len() + 2 * mono@.len() <= old(b)@.capacity,
    ensures
        final(b)@.channels == old(b)@.channels,
        final(b)@.queue.len() == old(b)@.queue.len() + old(b)@.channels * mono@.len(),
        final(b)@.queue.take(old(b)@.queue.len() as int) == old(b)@.queue,
        old(b)@.channels == 1 ==> final(b)@.queue[old(b)@.queue.len() + i] == mono@[i],
        old(b)@.channels == 2 ==> final(b)@.queue[old(b)@.queue.len() + 2 * i] == mono@[i]
            && final(b)@.queue[old(b)@.queue.len() + 2 * i + 1] == mono@[i],
        final(b)@.dropped == old(b)@.dropped && final(b)@.overflows == old(b)@.overflows,
{
    assert(final(b)@.queue.take(old(b)@.queue.len() as int) =~= old(b)@.queue);
    assert((2 * i) / 2 == i && (2 * i + 1) / 2 == i);
}

/// News of a connection that is being restored are announced once, until something
/// else happens; everything else is announced each time.
pub proof fn restoring_is_announced_once(
    event: ClientConnectionEvent,
    reconnecting: bool,
    r: (bool, bool),
    next: ClientConnectionEvent,
    s: (bool, bool),
)
    requires
        call_ensures(connection_cue_step, (event, reconnecting), r),
        call_ensures(connection_cue_step, (next, r.1), s),
    ensures
        event != ClientConnectionEvent::Reconnecting ==> r.0 && !r.1,
        event == ClientConnectionEvent::Reconnecting ==> r.1 && (r.0 <==> !reconnecting),
        event == ClientConnectionEvent::Reconnecting && next == event ==> !s.0,
        event != ClientConnectionEvent::Reconnecting ==> s.0,
{
}

} // verus!
