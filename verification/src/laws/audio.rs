//! Coding and decoding of audio.

use vstd::prelude::*;

use crate::audio::{
    channel_views, deinterleave, interleave, interleaved_admits, interleaving_keeps_channels,
    opus_tuning, pcm16_le_bytes_to_samples, pcm16_samples_to_le_bytes, samples_round_trip,
    AudioDecoder, AudioEncoder, AudioError, DecodePath, EncodePath, FrameResampler, OpusBandwidth,
    OpusTuning,
};
use crate::protocol::{Codec, OpusProfile};

verus! {

// ---------------------------------------------------------------------------
// Samples as bytes
// ---------------------------------------------------------------------------

/// A sample is two bytes, the lower one first, and is read back from them.
pub proof fn samples_are_read_back(
    samples: &[i16],
    bytes: Vec<u8>,
    payload: &[u8],
    back: Result<Vec<i16>, AudioError>,
    i: int,
)
    requires
        call_ensures(pcm16_samples_to_le_bytes, (samples,), bytes),
        payload@ == bytes@,
        call_ensures(pcm16_le_bytes_to_samples, (payload,), back),
    ensures
        bytes@.len() == 2 * samples@.len(),
        0 <= i < samples@.len() ==> (samples@[i] - (bytes@[2 * i] + 256 * bytes@[2 * i + 1]))
            % 65_536 == 0,
        back is Ok && back->Ok_0@ == samples@,
{
    samples_round_trip(samples@);
    if 0 <= i < samples@.len() {
        assert((2 * i) / 2 == i && (2 * i) % 2 == 0);
        assert((2 * i + 1) / 2 == i && (2 * i + 1) % 2 == 1);
        assert(bytes@[2 * i] == crate::audio::low_byte(samples@[i]));
        assert(bytes@[2 * i + 1] == crate::audio::high_byte(samples@[i]));
    }
}

/// An odd number of bytes is no row of samples, and an even one is.
pub proof fn samples_take_two_bytes(payload: &[u8], r: Result<Vec<i16>, AudioError>, i: int)
    requires
        call_ensures(pcm16_le_bytes_to_samples, (payload,), r),
    ensures
        r is Ok <==> payload@.len() % 2 == 0,
        r is Ok ==> r->Ok_0@.len() * 2 == payload@.len(),
        r is Ok && 0 <= i < r->Ok_0@.len() ==> (r->Ok_0@[i] - (payload@[2 * i] + 256 * payload@[2
            * i + 1])) % 65_536 == 0,
{
}

// ---------------------------------------------------------------------------
// Resampling and interleaving
// ---------------------------------------------------------------------------

/// A resampler takes a frame of 20 ms at one rate to one at the other; at one rate there
/// is nothing to do, and another length is refused.
pub proof fn resamplers_take_whole_frames(
    from_rate: u32,
    to_rate: u32,
    s: FrameResampler,
    input: usize,
    target: usize,
    len: usize,
    r: Result<bool, AudioError>,
)
    requires
        call_ensures(FrameResampler::new, (from_rate, to_rate), s),
        call_ensures(FrameResampler::input_len, (&s,), input),
        call_ensures(FrameResampler::target_len, (&s,), target),
        call_ensures(FrameResampler::admits, (&s, len), r),
    ensures
        input * 50 <= from_rate < (input + 1) * 50,
        target * 50 <= to_rate < (target + 1) * 50,
        from_rate == to_rate ==> r == Ok::<bool, AudioError>(false),
        from_rate != to_rate ==> (r is Ok <==> len == input),
        from_rate != to_rate && r is Ok ==> r->Ok_0,
        r is Err ==> r->Err_0 == (AudioError::ResamplerInput { got: len, expected: input }),
{
}

/// What was resampled is fitted to a frame: cut off where there is too much, and its
/// last sample repeated where there is too little.
pub proof fn frames_are_fitted(
    s: FrameResampler,
    written: Vec<i16>,
    r: Vec<i16>,
    target: usize,
    i: int,
)
    requires
        call_ensures(FrameResampler::finish, (&s, &written), r),
        call_ensures(FrameResampler::target_len, (&s,), target),
        0 <= i < target,
    ensures
        r@.len() == target,
        i < written@.len() ==> r@[i] == written@[i],
        i >= written@.len() && written@.len() > 0 ==> r@[i] == written@[written@.len() - 1],
        written@.len() == 0 ==> r@[i] == 0,
{
}

/// Interleaved audio is resampled where it is not at the rate of the mixer, and only as
/// a whole frame of all its channels.
pub proof fn interleaved_frames_are_whole(
    from_rate: u32,
    len: usize,
    channels: usize,
    r: Result<bool, AudioError>,
    s: FrameResampler,
    input: usize,
)
    requires
        call_ensures(interleaved_admits, (from_rate, len, channels), r),
        s.from_rate == from_rate,
        call_ensures(FrameResampler::input_len, (&s,), input),
    ensures
        from_rate == 48_000 ==> r == Ok::<bool, AudioError>(false),
        from_rate != 48_000 ==> (r is Ok <==> len == input * channels),
        from_rate != 48_000 && r is Ok ==> r->Ok_0,
{
}

/// Channels that are interleaved are found again one by one.
pub proof fn channels_are_found_again(
    channels: Vec<Vec<i16>>,
    len: usize,
    whole: Vec<i16>,
    samples: &[i16],
    n: usize,
    c: usize,
    r: Vec<i16>,
)
    requires
        call_ensures(interleave, (&channels, len), whole),
        n == channels@.len(),
        c < n,
        forall|k: int| 0 <= k < channels@.len() ==> (#[trigger] channels@[k])@.len() == len,
        samples@ == whole@,
        call_ensures(deinterleave, (samples, n, c), r),
    ensures
        whole@.len() == n * len,
        r@ == channels@[c as int]@,
{
    let v = channel_views(channels@);
    assert forall|k: int| 0 <= k < v.len() implies (#[trigger] v[k]).len() == len by {
        assert(v[k] == channels@[k]@);
    }
    interleaving_keeps_channels(v, len as nat, c as int);
    assert(len * n == n * len) by (nonlinear_arith);
}

/// The samples of a channel are those at its place in every group.
pub proof fn channels_have_their_place(
    samples: &[i16],
    channels: usize,
    channel: usize,
    r: Vec<i16>,
    i: int,
)
    requires
        call_ensures(deinterleave, (samples, channels, channel), r),
        channel < channels,
        0 <= i < r@.len(),
    ensures
        r@.len() == samples@.len() / channels as nat,
        r@[i] == samples@[i * channels + channel],
{
}

// ---------------------------------------------------------------------------
// Encoding and decoding
// ---------------------------------------------------------------------------

/// An encoder works at the rate of its codec, and one for Opus at that of its profile.
pub proof fn encoders_work_at_their_rate(
    codec: Codec,
    profile: OpusProfile,
    e: AudioEncoder,
    rate: u32,
    profile_rate: u32,
    s: FrameResampler,
)
    requires
        call_ensures(AudioEncoder::new, (codec, profile), e),
        call_ensures(AudioEncoder::edge_rate, (&e,), rate),
        call_ensures(OpusProfile::sample_rate_hz, (profile,), profile_rate),
        call_ensures(AudioEncoder::edge_resampler, (&e,), s),
    ensures
        codec == Codec::Opus ==> rate == profile_rate,
        codec == Codec::Pcm16 ==> rate == 16_000,
        codec == Codec::Pcm24 ==> rate == 24_000,
        codec == Codec::Pcm48 ==> rate == 48_000,
        s.from_rate == 48_000 && s.to_rate == rate,
{
}

/// Only whole frames of the mixer are encoded, and not with the codec that is missing.
pub proof fn only_whole_frames_are_encoded(
    e: AudioEncoder,
    len: usize,
    r: Result<EncodePath, AudioError>,
)
    requires
        call_ensures(AudioEncoder::path, (&e, len), r),
    ensures
        r is Ok <==> len == 960 && e.codec != Codec::Adpcm,
        r is Ok ==> (r->Ok_0 == EncodePath::Opus <==> e.codec == Codec::Opus),
        len != 960 ==> r->Err_0 == (AudioError::SampleCount { got: len, expected: 960 }),
{
}

/// Audio at the rate of the mixer survives the way over the wire: what is encoded as
/// 48 kHz samples is decoded as the same samples.
pub proof fn audio_survives_the_wire(
    e: AudioEncoder,
    samples: &[i16],
    resampled: Vec<i16>,
    bytes: Result<Vec<u8>, AudioError>,
    d: AudioDecoder,
    payload: &[u8],
    back: Vec<i16>,
    r: Result<Vec<i16>, AudioError>,
)
    requires
        e.codec == Codec::Pcm48,
        samples@.len() == 960,
        call_ensures(AudioEncoder::encode_pcm, (&e, samples, &resampled), bytes),
        bytes is Ok,
        payload@ == bytes->Ok_0@,
        call_ensures(AudioDecoder::decode_pcm, (&d, Codec::Pcm48, payload, 1usize, &back), r),
    ensures
        bytes->Ok_0@.len() == 1920,
        r is Ok && r->Ok_0@ == samples@,
{
    samples_round_trip(samples@);
    assert(2 * 960 * 1 == 1920) by (nonlinear_arith);
}

/// Audio for a narrower codec is sent as it was resampled, in a frame of that codec.
pub proof fn narrow_audio_is_resampled(
    e: AudioEncoder,
    samples: &[i16],
    resampled: Vec<i16>,
    bytes: Result<Vec<u8>, AudioError>,
    payload: &[u8],
    sent: Result<Vec<i16>, AudioError>,
    i: int,
)
    requires
        e.codec == Codec::Pcm16 || e.codec == Codec::Pcm24,
        samples@.len() == 960,
        call_ensures(AudioEncoder::encode_pcm, (&e, samples, &resampled), bytes),
        bytes is Ok ==> payload@ == bytes->Ok_0@,
        call_ensures(pcm16_le_bytes_to_samples, (payload,), sent),
    ensures
        bytes is Ok,
        sent is Ok,
        e.codec == Codec::Pcm16 ==> sent->Ok_0@.len() == 320,
        e.codec == Codec::Pcm24 ==> sent->Ok_0@.len() == 480,
        0 <= i < sent->Ok_0@.len() && i < resampled@.len() ==> sent->Ok_0@[i] == resampled@[i],
{
    let frame = crate::audio::fitted(
        resampled@,
        crate::protocol::frame_len(e.rate()) as nat,
    );
    samples_round_trip(frame);
}

/// A packet is decoded where its length is that of a frame of its codec for its
/// channels; two channels come only at the full rate or with Opus.
pub proof fn packets_are_decoded_by_their_length(
    d: AudioDecoder,
    codec: Codec,
    len: usize,
    channels: usize,
    r: Result<DecodePath, AudioError>,
)
    requires
        call_ensures(AudioDecoder::path, (&d, codec, len, channels), r),
        channels == 1 || channels == 2,
    ensures
        codec == Codec::Opus ==> r == Ok::<DecodePath, AudioError>(DecodePath::Opus(channels)),
        codec == Codec::Adpcm ==> r == Err::<DecodePath, AudioError>(
            AudioError::AdpcmNotImplemented,
        ),
        codec == Codec::Pcm16 && channels == 1 ==> (r is Ok <==> len == 640) && (r is Ok ==> r->Ok_0
            == DecodePath::PcmMono(16_000)),
        codec == Codec::Pcm24 && channels == 1 ==> (r is Ok <==> len == 960) && (r is Ok ==> r->Ok_0
            == DecodePath::PcmMono(24_000)),
        codec == Codec::Pcm48 && channels == 1 ==> (r is Ok <==> len == 1920) && (r is Ok
            ==> r->Ok_0 == DecodePath::PcmMono(48_000)),
        codec == Codec::Pcm48 && channels == 2 ==> (r is Ok <==> len == 3840) && (r is Ok
            ==> r->Ok_0 == DecodePath::PcmStereo),
        (codec == Codec::Pcm16 || codec == Codec::Pcm24) && channels == 2 ==> r == Err::<
            DecodePath,
            AudioError,
        >(AudioError::StereoNotSupported),
{
    assert(2 * 320 * 1 == 640 && 2 * 480 * 1 == 960 && 2 * 960 * 1 == 1920 && 2 * 960 * 2 == 3840)
        by (nonlinear_arith);
}

/// Narrower audio is decoded to a whole frame of the mixer, as it was resampled; stereo
/// is passed on as it came.
pub proof fn decoded_frames_are_whole(
    d: AudioDecoder,
    codec: Codec,
    payload: &[u8],
    channels: usize,
    resampled: Vec<i16>,
    r: Result<Vec<i16>, AudioError>,
    plain: Result<Vec<i16>, AudioError>,
    i: int,
)
    requires
        codec != Codec::Opus,
        channels == 1 || channels == 2,
        call_ensures(AudioDecoder::decode_pcm, (&d, codec, payload, channels, &resampled), r),
        call_ensures(pcm16_le_bytes_to_samples, (payload,), plain),
        payload@.len() <= usize::MAX,
    ensures
        r is Ok ==> r->Ok_0@.len() == 960 * channels,
        r is Ok && codec == Codec::Pcm48 ==> plain is Ok && r->Ok_0@ == plain->Ok_0@,
        r is Ok && codec != Codec::Pcm48 && 0 <= i < 960 && i < resampled@.len() ==> r->Ok_0@[i]
            == resampled@[i],
{
    assert(2 * 320 * 1 == 640 && 2 * 480 * 1 == 960 && 2 * 960 * 1 == 1920 && 2 * 960 * 2 == 3840)
        by (nonlinear_arith);
}

/// A decoder for Opus is made anew where there is none for the profile and the number of
/// channels, and once it was made it is kept; the one for the other number stays.
pub proof fn opus_decoders_are_kept(
    d: &mut AudioDecoder,
    profile: OpusProfile,
    channels: usize,
    needed: bool,
    other: usize,
    before: bool,
    after: bool,
    some: OpusProfile,
)
    requires
        call_ensures(AudioDecoder::made, (d, profile, channels), ()),
        call_ensures(AudioDecoder::needs_new, (final(d), profile, channels), needed),
        (channels > 1) != (other > 1),
        call_ensures(AudioDecoder::needs_new, (old(d), some, other), before),
        call_ensures(AudioDecoder::needs_new, (final(d), some, other), after),
    ensures
        !needed,
        before == after,
{
}

/// Each of the two decoders is for one profile.
pub proof fn opus_decoders_are_for_one_profile(
    d: AudioDecoder,
    profile: OpusProfile,
    channels: usize,
    needed: bool,
)
    requires
        call_ensures(AudioDecoder::needs_new, (&d, profile, channels), needed),
    ensures
        channels > 1 ==> (!needed <==> d.stereo == Some(profile)),
        channels <= 1 ==> (!needed <==> d.mono == Some(profile)),
{
}

/// A frame from Opus must have as many samples as its profile says; more than that are
/// not looked at.
pub proof fn opus_frames_are_whole(
    d: AudioDecoder,
    profile: OpusProfile,
    decoded: usize,
    channels: usize,
    r: Result<(), AudioError>,
    frame: usize,
)
    requires
        call_ensures(AudioDecoder::check_frame, (&d, profile, decoded, channels), r),
        channels > 0,
        call_ensures(OpusProfile::samples_per_frame, (profile,), frame),
    ensures
        r is Ok <==> decoded >= frame,
{
    let taken = if decoded <= frame {
        decoded as int
    } else {
        frame as int
    };
    if taken < frame {
        assert(taken * channels < frame * channels) by (nonlinear_arith)
            requires
                taken < frame,
                channels > 0,
        ;
    }
}

/// Opus is tuned for music only by the profile for music, keeps all that the rate of the
/// profile holds, and corrects errors at a varying rate without cutting silence.
pub proof fn opus_is_tuned_for_its_profile(profile: OpusProfile, r: OpusTuning)
    requires
        call_ensures(opus_tuning, (profile,), r),
    ensures
        r.music <==> profile == OpusProfile::Music48,
        r.max_bandwidth == OpusBandwidth::Wideband <==> profile == OpusProfile::Speech16Low,
        r.max_bandwidth == OpusBandwidth::Superwideband <==> profile
            == OpusProfile::Speech24Standard,
        r.variable_rate && r.constrained_rate && r.forward_correction && !r.silence_suppression,
{
}

/// What is wrong with audio is said, with the counts where it is about counts.
pub proof fn faults_of_audio_are_said(e: AudioError, r: String)
    requires
        call_ensures(AudioError::message, (&e,), r),
    ensures
        e is AdpcmNotImplemented ==> r@ == "ADPCM is not implemented"@,
        e is StereoNotSupported ==> r@ == "stereo receive is only supported for pcm48 and opus"@,
        e is OddPayload ==> r@ == "PCM16 payload has an odd number of bytes"@,
{
}

} // verus!
