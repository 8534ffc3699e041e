//! Audio frames: which path a frame takes through the codecs, and how samples
//! are laid out. The codecs themselves and the change of the sample rate are
//! outside: they are handed frames, and their results come back here.

use vstd::prelude::*;
use crate::protocol::{
    codec_pcm16_payload_bytes, codec_rate, codec_sample_rate, frame_len, frame_len_for_rate, Codec,
    OpusProfile, MIX_SAMPLES_PER_FRAME, MIX_SAMPLE_RATE,
};
use crate::text::{concat2, concat4, decimal, owned, u64_text};

verus! {

/// Why a frame cannot be coded or decoded.
#[derive(Debug, Clone, Copy, PartialEq, Eq, Structural)]
pub enum AudioError {
    SampleCount { got: usize, expected: usize },
    AdpcmNotImplemented,
    StereoNotSupported,
    PayloadLength { got: usize, expected: usize },
    OddPayload,
    OpusSampleCount { got: usize, expected: usize },
    InterleavedSampleCount { got: usize, expected: usize },
    ResamplerInput { got: usize, expected: usize },
}

/// Two counts behind what they count.
pub open spec fn counted(what: Seq<char>, got: usize, expected: usize) -> Seq<char> {
    what + ": got "@ + decimal(got as nat) + ", expected "@ + decimal(expected as nat)
}

fn count_text(what: &str, got: usize, expected: usize) -> (r: String)
    ensures
        r@ == counted(what@, got, expected),
{
    let head = concat4(what, ": got ", &u64_text(got as u64), ", expected ");
    let r = concat2(&head, &u64_text(expected as u64));
    assert(r@ =~= counted(what@, got, expected));
    r
}

impl AudioError {
    /// The error in words.
    pub open spec fn words(self) -> Seq<char> {
        match self {
            AudioError::SampleCount { got, expected } => counted(
                "unexpected sample count"@,
                got,
                expected,
            ),
            AudioError::AdpcmNotImplemented => "ADPCM is not implemented"@,
            AudioError::StereoNotSupported =>
                "stereo receive is only supported for pcm48 and opus"@,
            AudioError::PayloadLength { got, expected } => counted(
                "unexpected PCM16 payload length"@,
                got,
                expected,
            ),
            AudioError::OddPayload => "PCM16 payload has an odd number of bytes"@,
            AudioError::OpusSampleCount { got, expected } => counted(
                "unexpected Opus frame sample count"@,
                got,
                expected,
            ),
            AudioError::InterleavedSampleCount { got, expected } => counted(
                "unexpected interleaved sample count"@,
                got,
                expected,
            ),
            AudioError::ResamplerInput { got, expected } => counted(
                "unexpected resampler input length"@,
                got,
                expected,
            ),
        }
    }

    /// The error in words.
    pub fn message(&self) -> (r: String)
        ensures
            r@ == self.words(),
    {
        match *self {
            AudioError::SampleCount { got, expected } => count_text(
                "unexpected sample count",
                got,
                expected,
            ),
            AudioError::AdpcmNotImplemented => owned("ADPCM is not implemented"),
            AudioError::StereoNotSupported => owned(
                "stereo receive is only supported for pcm48 and opus",
            ),
            AudioError::PayloadLength { got, expected } => count_text(
                "unexpected PCM16 payload length",
                got,
                expected,
            ),
            AudioError::OddPayload => owned("PCM16 payload has an odd number of bytes"),
            AudioError::OpusSampleCount { got, expected } => count_text(
                "unexpected Opus frame sample count",
                got,
                expected,
            ),
            AudioError::InterleavedSampleCount { got, expected } => count_text(
                "unexpected interleaved sample count",
                got,
                expected,
            ),
            AudioError::ResamplerInput { got, expected } => count_text(
                "unexpected resampler input length",
                got,
                expected,
            ),
        }
    }
}

// ---------------------------------------------------------------------------
// 16-bit samples as bytes
// ---------------------------------------------------------------------------

/// The lower byte of a sample.
pub open spec fn low_byte(s: i16) -> u8 {
    (s as int % 256) as u8
}

/// The upper byte of a sample, in two's complement.
pub open spec fn high_byte(s: i16) -> u8 {
    ((s as int / 256) % 256) as u8
}

/// The sample of two bytes.
pub open spec fn sample_of(low: u8, high: u8) -> i16 {
    let n = low as int + 256 * high as int;
    if n >= 32_768 {
        (n - 65_536) as i16
    } else {
        n as i16
    }
}

/// Samples as bytes, the lower byte first.
pub open spec fn le_bytes(s: Seq<i16>) -> Seq<u8> {
    Seq::new(
        2 * s.len(),
        |i: int|
            if i % 2 == 0 {
                low_byte(s[i / 2])
            } else {
                high_byte(s[i / 2])
            },
    )
}

/// The samples of bytes, the lower byte first.
pub open spec fn le_samples(b: Seq<u8>) -> Seq<i16> {
    Seq::new(b.len() / 2, |i: int| sample_of(b[2 * i], b[2 * i + 1]))
}

/// Samples as bytes, the lower byte first.
pub fn pcm16_samples_to_le_bytes(samples: &[i16]) -> (r: Vec<u8>)
    ensures
        r@ == le_bytes(samples@),
{
    let mut out: Vec<u8> = Vec::new();
    let mut i: usize = 0;
    while i < samples.len()
        invariant
            0 <= i <= samples@.len(),
            out@.len() == 2 * i,
            forall|k: int| 0 <= k < 2 * i ==> #[trigger] out@[k] == le_bytes(samples@)[k],
        decreases samples@.len() - i,
    {
        let s = samples[i];
        let n: u32 = if s < 0 {
            (s as i32 + 65_536) as u32
        } else {
            s as u32
        };
        let low = (n % 256) as u8;
        let high = (n / 256) as u8;
        out.push(low);
        out.push(high);
        proof {
            assert(low == low_byte(s) && high == high_byte(s));
        }
        i = i + 1;
    }
    proof {
        assert(out@ =~= le_bytes(samples@));
    }
    out
}

/// The samples of bytes, the lower byte first. An odd number of bytes is refused.
pub fn pcm16_le_bytes_to_samples(bytes: &[u8]) -> (r: Result<Vec<i16>, AudioError>)
    ensures
        match r {
            Ok(v) => bytes@.len() % 2 == 0 && v@ == le_samples(bytes@),
            Err(e) => bytes@.len() % 2 != 0 && e == AudioError::OddPayload,
        },
{
    if bytes.len() % 2 != 0 {
        return Err(AudioError::OddPayload);
    }
    let n: usize = bytes.len() / 2;
    let mut out: Vec<i16> = Vec::new();
    let mut i: usize = 0;
    while i < n
        invariant
            n == bytes@.len() / 2,
            bytes@.len() % 2 == 0,
            2 * n == bytes.len(),
            0 <= i <= n,
            out@.len() == i,
            forall|k: int| 0 <= k < i ==> #[trigger] out@[k] == le_samples(bytes@)[k],
        decreases n - i,
    {
        let word: i32 = bytes[2 * i] as i32 + 256 * (bytes[2 * i + 1] as i32);
        let s: i16 = if word >= 32_768 {
            (word - 65_536) as i16
        } else {
            word as i16
        };
        out.push(s);
        i = i + 1;
    }
    proof {
        assert(out@ =~= le_samples(bytes@));
    }
    Ok(out)
}

/// Samples survive the way through bytes.
pub proof fn samples_round_trip(s: Seq<i16>)
    ensures
        le_samples(le_bytes(s)) == s,
        le_bytes(s).len() == 2 * s.len(),
{
    let b = le_bytes(s);
    assert forall|i: int| 0 <= i < s.len() implies #[trigger] le_samples(b)[i] == s[i] by {
        assert(b[2 * i] == low_byte(s[i]));
        assert((2 * i + 1) / 2 == i);
        assert(b[2 * i + 1] == high_byte(s[i]));
    }
    assert(le_samples(b) =~= s);
}

// ---------------------------------------------------------------------------
// Frames through a change of the sample rate
// ---------------------------------------------------------------------------

/// A frame cut or filled up to `len` samples, with its last sample repeated.
pub open spec fn fitted(s: Seq<i16>, len: nat) -> Seq<i16> {
    Seq::new(
        len,
        |i: int|
            if i < s.len() {
                s[i]
            } else if s.len() > 0 {
                s.last()
            } else {
                0i16
            },
    )
}

/// Which frames a change of the sample rate takes and gives.
#[derive(Debug, Clone, Copy, PartialEq, Eq, Structural)]
pub struct FrameResampler {
    pub from_rate: u32,
    pub to_rate: u32,
}

impl Default for FrameResampler {
    fn default() -> (r: Self)
        ensures
            r == (FrameResampler { from_rate: MIX_SAMPLE_RATE, to_rate: MIX_SAMPLE_RATE }),
    {
        FrameResampler::new(MIX_SAMPLE_RATE, MIX_SAMPLE_RATE)
    }
}

impl FrameResampler {
    pub fn new(from_rate: u32, to_rate: u32) -> (r: Self)
        ensures
            r == (FrameResampler { from_rate, to_rate }),
    {
        FrameResampler { from_rate, to_rate }
    }

    /// The samples of a frame that goes in.
    pub fn input_len(&self) -> (r: usize)
        ensures
            r == frame_len(self.from_rate),
    {
        frame_len_for_rate(self.from_rate)
    }

    /// The samples of a frame that comes out.
    pub fn target_len(&self) -> (r: usize)
        ensures
            r == frame_len(self.to_rate),
    {
        frame_len_for_rate(self.to_rate)
    }

    /// Tells whether a frame has to be resampled, or goes through as it is. One
    /// that has to be has the length of a frame.
    pub fn admits(&self, len: usize) -> (r: Result<bool, AudioError>)
        ensures
            self.from_rate == self.to_rate ==> r == Ok::<bool, AudioError>(false),
            self.from_rate != self.to_rate ==> r == if len == frame_len(self.from_rate) {
                Ok::<bool, AudioError>(true)
            } else {
                Err(
                    AudioError::ResamplerInput {
                        got: len,
                        expected: frame_len(self.from_rate) as usize,
                    },
                )
            },
    {
        if self.from_rate == self.to_rate {
            Ok(false)
        } else if len == self.input_len() {
            Ok(true)
        } else {
            Err(AudioError::ResamplerInput { got: len, expected: self.input_len() })
        }
    }

    /// The frame that comes out, from the samples that resampling gave.
    pub fn finish(&self, written: &Vec<i16>) -> (r: Vec<i16>)
        ensures
            r@ == fitted(written@, frame_len(self.to_rate) as nat),
    {
        let target = self.target_len();
        let mut out: Vec<i16> = Vec::new();
        let fill: i16 = if written.len() > 0 {
            written[written.len() - 1]
        } else {
            0
        };
        let mut i: usize = 0;
        while i < target
            invariant
                0 <= i <= target,
                target == frame_len(self.to_rate),
                fill == if written@.len() > 0 {
                    written@.last()
                } else {
                    0i16
                },
                out@.len() == i,
                forall|k: int|
                    0 <= k < i ==> #[trigger] out@[k] == fitted(written@, target as nat)[k],
            decreases target - i,
        {
            if i < written.len() {
                out.push(written[i]);
            } else {
                out.push(fill);
            }
            i = i + 1;
        }
        proof {
            assert(out@ =~= fitted(written@, target as nat));
        }
        out
    }
}

// ---------------------------------------------------------------------------
// Interleaved channels
// ---------------------------------------------------------------------------

/// Tells whether an interleaved frame of `len` samples at `from_rate` has to be
/// resampled for the mix; one that has to be must be whole.
pub fn interleaved_admits(from_rate: u32, len: usize, channels: usize) -> (r: Result<
    bool,
    AudioError,
>)
    requires
        frame_len(from_rate) * channels <= usize::MAX,
    ensures
        r == if from_rate == MIX_SAMPLE_RATE {
            Ok::<bool, AudioError>(false)
        } else if len == frame_len(from_rate) * channels {
            Ok(true)
        } else {
            Err(
                AudioError::InterleavedSampleCount {
                    got: len,
                    expected: (frame_len(from_rate) * channels) as usize,
                },
            )
        },
{
    if from_rate == MIX_SAMPLE_RATE {
        return Ok(false);
    }
    let expected: usize = frame_len_for_rate(from_rate) * channels;
    if len == expected {
        Ok(true)
    } else {
        Err(AudioError::InterleavedSampleCount { got: len, expected })
    }
}

/// The samples of one channel out of interleaved ones.
pub open spec fn channel_of(samples: Seq<i16>, channels: nat, channel: int) -> Seq<i16> {
    Seq::new(samples.len() / channels, |i: int| samples[i * channels + channel])
}

/// The samples of one channel out of interleaved ones. Samples at the end that do
/// not make a whole frame are left out.
pub fn deinterleave(samples: &[i16], channels: usize, channel: usize) -> (r: Vec<i16>)
    requires
        channel < channels,
    ensures
        r@ == channel_of(samples@, channels as nat, channel as int),
{
    let frames: usize = samples.len() / channels;
    let mut out: Vec<i16> = Vec::new();
    let mut i: usize = 0;
    while i < frames
        invariant
            channel < channels,
            frames == samples@.len() / channels as nat,
            0 <= i <= frames,
            samples.len() == samples@.len(),
            out@.len() == i,
            forall|k: int|
                0 <= k < i ==> #[trigger] out@[k] == channel_of(
                    samples@,
                    channels as nat,
                    channel as int,
                )[k],
        decreases frames - i,
    {
        proof {
            lemma_frame_index(samples@.len() as int, channels as int, i as int, channel as int);
        }
        out.push(samples[i * channels + channel]);
        i = i + 1;
    }
    proof {
        assert(out@ =~= channel_of(samples@, channels as nat, channel as int));
    }
    out
}

proof fn lemma_frame_index(len: int, channels: int, i: int, channel: int)
    by (nonlinear_arith)
    requires
        len >= 0,
        0 <= channel < channels,
        0 <= i < len / channels,
    ensures
        0 <= i * channels,
        i * channels + channel < len,
{
    assert((len / channels) * channels <= len);
    assert((i + 1) * channels <= (len / channels) * channels);
}

/// Interleaved samples of channels of `len` samples each.
pub open spec fn interleaved(channels: Seq<Seq<i16>>, len: nat) -> Seq<i16> {
    Seq::new(
        len * channels.len(),
        |i: int| channels[i % channels.len() as int][i / channels.len() as int],
    )
}

/// The sample sequences of channels.
pub open spec fn channel_views(channels: Seq<Vec<i16>>) -> Seq<Seq<i16>> {
    Seq::new(channels.len(), |i: int| channels[i]@)
}

/// Interleaves channels of `len` samples each.
pub fn interleave(channels: &Vec<Vec<i16>>, len: usize) -> (r: Vec<i16>)
    requires
        channels@.len() > 0,
        forall|c: int| 0 <= c < channels@.len() ==> (#[trigger] channels@[c])@.len() >= len,
    ensures
        r@ == interleaved(channel_views(channels@), len as nat),
{
    let ghost views = channel_views(channels@);
    let n = channels.len();
    let mut out: Vec<i16> = Vec::new();
    let mut i: usize = 0;
    while i < len
        invariant
            n == channels@.len(),
            n > 0,
            views == channel_views(channels@),
            forall|c: int| 0 <= c < channels@.len() ==> (#[trigger] channels@[c])@.len() >= len,
            0 <= i <= len,
            out@.len() == i * n,
            forall|k: int|
                0 <= k < out@.len() ==> #[trigger] out@[k] == views[k % n as int][k / n as int],
        decreases len - i,
    {
        let mut c: usize = 0;
        while c < n
            invariant
                n == channels@.len(),
                n > 0,
                views == channel_views(channels@),
                forall|c: int| 0 <= c < channels@.len() ==> (#[trigger] channels@[c])@.len() >= len,
                0 <= i < len,
                0 <= c <= n,
                out@.len() == i * n + c,
                forall|k: int|
                    0 <= k < out@.len() ==> #[trigger] out@[k] == views[k % n as int][k / n as int],
            decreases n - c,
        {
            let s = channels[c][i];
            out.push(s);
            proof {
                lemma_split_index(i as int, n as int, c as int);
            }
            c = c + 1;
        }
        proof {
            assert((i + 1) * n == i * n + n) by (nonlinear_arith);
        }
        i = i + 1;
    }
    proof {
        assert(out@ =~= interleaved(views, len as nat));
    }
    out
}

proof fn lemma_split_index(i: int, n: int, c: int)
    requires
        0 <= i,
        0 <= c < n,
    ensures
        (i * n + c) % n == c,
        (i * n + c) / n == i,
{
    vstd::arithmetic::div_mod::lemma_fundamental_div_mod_converse(i * n + c, n, i, c);
}

/// Taking a channel out of interleaved channels gives that channel.
pub proof fn interleaving_keeps_channels(channels: Seq<Seq<i16>>, len: nat, c: int)
    requires
        0 <= c < channels.len(),
        forall|i: int| 0 <= i < channels.len() ==> (#[trigger] channels[i]).len() == len,
    ensures
        channel_of(interleaved(channels, len), channels.len(), c) == channels[c],
{
    let n = channels.len() as int;
    let s = interleaved(channels, len);
    assert(s.len() / n as nat == len) by {
        vstd::arithmetic::div_mod::lemma_div_multiples_vanish(len as int, n);
        assert(len * n == n * len) by (nonlinear_arith);
    }
    let r = channel_of(s, n as nat, c);
    assert forall|i: int| 0 <= i < len implies #[trigger] r[i] == channels[c][i] by {
        lemma_split_index(i, n, c);
        assert(0 <= i * n + c < len * n) by (nonlinear_arith)
            requires
                0 <= i < len,
                0 <= c < n,
        ;
    }
    assert(r =~= channels[c]);
}

// ---------------------------------------------------------------------------
// Coding
// ---------------------------------------------------------------------------

/// The path of a frame that is coded.
#[derive(Debug, Clone, Copy, PartialEq, Eq, Structural)]
pub enum EncodePath {
    /// Resampled to the rate of the codec, then as bytes.
    Pcm,
    /// Resampled to the rate of the profile, then through the Opus encoder.
    Opus,
}

/// How frames of the mixer are coded for the wire.
#[derive(Debug, Clone, Copy, PartialEq, Eq, Structural)]
pub struct AudioEncoder {
    pub codec: Codec,
    pub opus_profile: OpusProfile,
}

impl AudioEncoder {
    /// The sample rate that the codec works at.
    pub open spec fn rate(self) -> u32 {
        if self.codec == Codec::Opus {
            self.opus_profile.rate()
        } else {
            codec_rate(self.codec)
        }
    }

    pub fn new(codec: Codec, opus_profile: OpusProfile) -> (r: Self)
        ensures
            r == (AudioEncoder { codec, opus_profile }),
    {
        AudioEncoder { codec, opus_profile }
    }

    /// The sample rate that the codec works at.
    pub fn edge_rate(&self) -> (r: u32)
        ensures
            r == self.rate(),
    {
        if self.codec == Codec::Opus {
            self.opus_profile.sample_rate_hz()
        } else {
            codec_sample_rate(self.codec)
        }
    }

    /// The change of the sample rate from the mixer to the codec.
    pub fn edge_resampler(&self) -> (r: FrameResampler)
        ensures
            r == (FrameResampler { from_rate: MIX_SAMPLE_RATE, to_rate: self.rate() }),
    {
        FrameResampler::new(MIX_SAMPLE_RATE, self.edge_rate())
    }

    /// The path of a frame of `len` samples.
    pub fn path(&self, len: usize) -> (r: Result<EncodePath, AudioError>)
        ensures
            r == if len != MIX_SAMPLES_PER_FRAME {
                Err::<EncodePath, AudioError>(
                    AudioError::SampleCount { got: len, expected: MIX_SAMPLES_PER_FRAME },
                )
            } else if self.codec == Codec::Adpcm {
                Err(AudioError::AdpcmNotImplemented)
            } else if self.codec == Codec::Opus {
                Ok(EncodePath::Opus)
            } else {
                Ok(EncodePath::Pcm)
            },
    {
        if len != MIX_SAMPLES_PER_FRAME {
            return Err(AudioError::SampleCount { got: len, expected: MIX_SAMPLES_PER_FRAME });
        }
        match self.codec {
            Codec::Pcm16 => Ok(EncodePath::Pcm),
            Codec::Pcm24 => Ok(EncodePath::Pcm),
            Codec::Pcm48 => Ok(EncodePath::Pcm),
            Codec::Opus => Ok(EncodePath::Opus),
            Codec::Adpcm => Err(AudioError::AdpcmNotImplemented),
        }
    }

    /// Codes a frame of the mixer as PCM, from the samples that resampling it gave.
    pub fn encode_pcm(&self, samples: &[i16], resampled: &Vec<i16>) -> (r: Result<
        Vec<u8>,
        AudioError,
    >)
        requires
            self.codec != Codec::Opus,
        ensures
            match r {
                Ok(bytes) => samples@.len() == MIX_SAMPLES_PER_FRAME && self.codec != Codec::Adpcm
                    && bytes@ == le_bytes(
                    if self.rate() == MIX_SAMPLE_RATE {
                        samples@
                    } else {
                        fitted(resampled@, frame_len(self.rate()) as nat)
                    },
                ),
                Err(e) => (samples@.len() != MIX_SAMPLES_PER_FRAME && e == AudioError::SampleCount {
                    got: samples@.len() as usize,
                    expected: MIX_SAMPLES_PER_FRAME,
                }) || (samples@.len() == MIX_SAMPLES_PER_FRAME && self.codec == Codec::Adpcm && e
                    == AudioError::AdpcmNotImplemented),
            },
    {
        match self.path(samples.len()) {
            Err(e) => Err(e),
            Ok(_) => {
                let resampler = self.edge_resampler();
                if resampler.from_rate == resampler.to_rate {
                    Ok(pcm16_samples_to_le_bytes(samples))
                } else {
                    let frame = resampler.finish(resampled);
                    Ok(pcm16_samples_to_le_bytes(frame.as_slice()))
                }
            },
        }
    }
}

// ---------------------------------------------------------------------------
// Decoding
// ---------------------------------------------------------------------------

/// The path of a payload that is decoded.
#[derive(Debug, Clone, Copy, PartialEq, Eq, Structural)]
pub enum DecodePath {
    /// Interleaved samples for the mixer as they are.
    PcmStereo,
    /// Mono samples at that rate, to be resampled for the mixer.
    PcmMono(u32),
    /// Through the Opus decoder, with that number of channels.
    Opus(usize),
}

/// At least one channel.
pub open spec fn one_or_more(channels: usize) -> usize {
    if channels == 0 {
        1
    } else {
        channels
    }
}

/// The path of a payload, or why there is none.
pub open spec fn decode_path(codec: Codec, len: usize, channels: usize) -> Result<
    DecodePath,
    AudioError,
> {
    let n = one_or_more(channels);
    match codec {
        Codec::Opus => Ok(DecodePath::Opus(n)),
        Codec::Adpcm => Err(AudioError::AdpcmNotImplemented),
        _ => {
            let expected = 2 * frame_len(codec_rate(codec)) * n;
            if n > 1 && codec != Codec::Pcm48 {
                Err(AudioError::StereoNotSupported)
            } else if len != expected {
                Err(AudioError::PayloadLength { got: len, expected: expected as usize })
            } else if n == 2 {
                Ok(DecodePath::PcmStereo)
            } else {
                Ok(DecodePath::PcmMono(codec_rate(codec)))
            }
        },
    }
}

/// What a payload of PCM is decoded to, or why it is not: the samples in it, where
/// they are stereo or at the rate of the mixer, and else the frame that resampling
/// them gave.
pub open spec fn pcm_decoded(
    codec: Codec,
    payload: Seq<u8>,
    channels: usize,
    resampled: Seq<i16>,
) -> Result<Seq<i16>, AudioError> {
    match decode_path(codec, payload.len() as usize, channels) {
        Err(e) => Err(e),
        Ok(DecodePath::PcmMono(rate)) => Ok(
            if rate == MIX_SAMPLE_RATE {
                le_samples(payload)
            } else {
                fitted(resampled, MIX_SAMPLES_PER_FRAME as nat)
            },
        ),
        Ok(_) => Ok(le_samples(payload)),
    }
}

/// Which Opus decoders are there, and for which profile.
#[derive(Debug, Clone, Copy, PartialEq, Eq, Structural)]
pub struct AudioDecoder {
    pub mono: Option<OpusProfile>,
    pub stereo: Option<OpusProfile>,
}

impl Default for AudioDecoder {
    fn default() -> (r: Self)
        ensures
            r == (AudioDecoder { mono: None, stereo: None }),
    {
        AudioDecoder { mono: None, stereo: None }
    }
}

impl AudioDecoder {
    /// The path of a payload of `len` bytes with that number of channels.
    pub fn path(&self, codec: Codec, len: usize, channels: usize) -> (r: Result<
        DecodePath,
        AudioError,
    >)
        requires
            channels <= usize::MAX / 1920,
        ensures
            r == decode_path(codec, len, channels),
    {
        let n: usize = if channels == 0 {
            1
        } else {
            channels
        };
        match codec {
            Codec::Opus => Ok(DecodePath::Opus(n)),
            Codec::Adpcm => Err(AudioError::AdpcmNotImplemented),
            _ => {
                if n > 1 && codec != Codec::Pcm48 {
                    return Err(AudioError::StereoNotSupported);
                }
                let frame = codec_pcm16_payload_bytes(codec);
                proof {
                    assert(frame * n <= usize::MAX) by (nonlinear_arith)
                        requires
                            frame <= 1920,
                            n <= usize::MAX / 1920 || n == 1,
                    ;
                }
                let expected: usize = frame * n;
                if len != expected {
                    Err(AudioError::PayloadLength { got: len, expected })
                } else if n == 2 {
                    Ok(DecodePath::PcmStereo)
                } else {
                    Ok(DecodePath::PcmMono(codec_sample_rate(codec)))
                }
            },
        }
    }

    /// Decodes a payload of PCM for the mixer, from the samples that resampling those
    /// of the payload gave.
    pub fn decode_pcm(
        &self,
        codec: Codec,
        payload: &[u8],
        channels: usize,
        resampled: &Vec<i16>,
    ) -> (r: Result<Vec<i16>, AudioError>)
        requires
            codec != Codec::Opus,
            channels <= usize::MAX / 1920,
        ensures
            match r {
                Ok(samples) => pcm_decoded(codec, payload@, channels, resampled@) == Ok::<
                    Seq<i16>,
                    AudioError,
                >(samples@),
                Err(e) => pcm_decoded(codec, payload@, channels, resampled@) == Err::<
                    Seq<i16>,
                    AudioError,
                >(e),
            },
    {
        match self.path(codec, payload.len(), channels) {
            Err(e) => Err(e),
            Ok(DecodePath::PcmMono(rate)) if rate != MIX_SAMPLE_RATE => {
                let resampler = FrameResampler::new(rate, MIX_SAMPLE_RATE);
                Ok(resampler.finish(resampled))
            },
            Ok(_) => {
                proof {
                    let frame = frame_len(codec_rate(codec));
                    let n = one_or_more(channels);
                    assert(2 * frame * n == 2 * (frame * n)) by (nonlinear_arith);
                }
                pcm16_le_bytes_to_samples(payload)
            },
        }
    }

    /// The decoder for that number of channels is for the profile.
    pub open spec fn ready(self, profile: OpusProfile, channels: usize) -> bool {
        if channels > 1 {
            self.stereo == Some(profile)
        } else {
            self.mono == Some(profile)
        }
    }

    /// Tells whether an Opus decoder has to be made before a payload is decoded.
    pub fn needs_new(&self, profile: OpusProfile, channels: usize) -> (r: bool)
        ensures
            r == !self.ready(profile, channels),
    {
        let have = if channels > 1 {
            self.stereo
        } else {
            self.mono
        };
        match have {
            Some(p) => p != profile,
            None => true,
        }
    }

    /// Notes that the decoder for that number of channels was made for the profile.
    pub fn made(&mut self, profile: OpusProfile, channels: usize)
        ensures
            final(self).ready(profile, channels),
            *final(self) == (if channels > 1 {
                AudioDecoder { stereo: Some(profile), ..*old(self) }
            } else {
                AudioDecoder { mono: Some(profile), ..*old(self) }
            }),
    {
        if channels > 1 {
            self.stereo = Some(profile);
        } else {
            self.mono = Some(profile);
        }
    }

    /// Checks that the Opus decoder gave a whole frame: `decoded` samples per channel,
    /// of which no more than a frame count.
    pub fn check_frame(&self, profile: OpusProfile, decoded: usize, channels: usize) -> (r: Result<
        (),
        AudioError,
    >)
        requires
            channels <= usize::MAX / 960,
        ensures
            ({
                let frame = frame_len(profile.rate());
                let taken = if decoded <= frame {
                    decoded as int
                } else {
                    frame
                };
                r == if taken * channels == frame * channels {
                    Ok::<(), AudioError>(())
                } else {
                    Err(
                        AudioError::OpusSampleCount {
                            got: (taken * channels) as usize,
                            expected: (frame * channels) as usize,
                        },
                    )
                }
            }),
    {
        let frame = profile.samples_per_frame();
        let taken = if decoded <= frame {
            decoded
        } else {
            frame
        };
        proof {
            assert(frame <= 960);
            assert(frame * channels <= usize::MAX && taken * channels <= usize::MAX)
                by (nonlinear_arith)
                requires
                    frame <= 960,
                    taken <= frame,
                    channels <= usize::MAX / 960,
            ;
        }
        let got: usize = taken * channels;
        let expected: usize = frame * channels;
        if got == expected {
            Ok(())
        } else {
            Err(AudioError::OpusSampleCount { got, expected })
        }
    }
}

/// A frame of the mixer that was coded as PCM is decoded as mono to a frame of the
/// mixer: to the same one, where the codec works at the rate of the mixer, and else to
/// what `back`, the payload's samples after resampling, gives.
pub proof fn pcm_payloads_decode(
    encoder: AudioEncoder,
    samples: Seq<i16>,
    resampled: Seq<i16>,
    back: Seq<i16>,
)
    requires
        encoder.codec == Codec::Pcm16 || encoder.codec == Codec::Pcm24 || encoder.codec
            == Codec::Pcm48,
        samples.len() == MIX_SAMPLES_PER_FRAME,
    ensures
        ({
            let frame = if encoder.rate() == MIX_SAMPLE_RATE {
                samples
            } else {
                fitted(resampled, frame_len(encoder.rate()) as nat)
            };
            let payload = le_bytes(frame);
            &&& decode_path(encoder.codec, payload.len() as usize, 1) == Ok::<
                DecodePath,
                AudioError,
            >(DecodePath::PcmMono(encoder.rate()))
            &&& le_samples(payload) == frame
            &&& pcm_decoded(encoder.codec, payload, 1, back) matches Ok(decoded) && decoded.len()
                == MIX_SAMPLES_PER_FRAME && decoded == if encoder.rate() == MIX_SAMPLE_RATE {
                samples
            } else {
                fitted(back, MIX_SAMPLES_PER_FRAME as nat)
            }
        }),
{
    let frame = if encoder.rate() == MIX_SAMPLE_RATE {
        samples
    } else {
        fitted(resampled, frame_len(encoder.rate()) as nat)
    };
    samples_round_trip(frame);
    let n: int = frame_len(encoder.rate());
    assert(n == 320 || n == 480 || n == 960);
    assert(2 * n * one_or_more(1) == 2 * n) by (nonlinear_arith);
    assert(frame.len() == n);
}

// ---------------------------------------------------------------------------
// How Opus is set up
// ---------------------------------------------------------------------------

/// How much of the audible range is kept.
#[derive(Debug, Clone, Copy, PartialEq, Eq, Structural)]
pub enum OpusBandwidth {
    Wideband,
    Superwideband,
    Fullband,
}

/// How an Opus encoder is set up, but for its rates.
#[derive(Debug, Clone, Copy, PartialEq, Eq, Structural)]
pub struct OpusTuning {
    /// The encoder is made for music, not for voice.
    pub music: bool,
    pub max_bandwidth: OpusBandwidth,
    pub variable_rate: bool,
    pub constrained_rate: bool,
    pub forward_correction: bool,
    pub silence_suppression: bool,
}

/// The range that a profile keeps: all that its sample rate holds.
pub open spec fn bandwidth_of(profile: OpusProfile) -> OpusBandwidth {
    match profile {
        OpusProfile::Speech16Low => OpusBandwidth::Wideband,
        OpusProfile::Speech24Standard => OpusBandwidth::Superwideband,
        OpusProfile::Speech48High => OpusBandwidth::Fullband,
        OpusProfile::Music48 => OpusBandwidth::Fullband,
    }
}

/// How an Opus encoder is set up for a profile.
pub fn opus_tuning(profile: OpusProfile) -> (r: OpusTuning)
    ensures
        r == (OpusTuning {
            music: profile == OpusProfile::Music48,
            max_bandwidth: bandwidth_of(profile),
            variable_rate: true,
            constrained_rate: true,
            forward_correction: true,
            silence_suppression: false,
        }),
{
    OpusTuning {
        music: profile.is_music(),
        max_bandwidth: match profile {
            OpusProfile::Speech16Low => OpusBandwidth::Wideband,
            OpusProfile::Speech24Standard => OpusBandwidth::Superwideband,
            OpusProfile::Speech48High => OpusBandwidth::Fullband,
            OpusProfile::Music48 => OpusBandwidth::Fullband,
        },
        variable_rate: true,
        constrained_rate: true,
        forward_correction: true,
        silence_suppression: false,
    }
}

} // verus!
