//! Audio formats, and values that are exchanged with the server.

use vstd::prelude::*;

use crate::protocol::{
    codec_pcm16_payload_bytes, codec_sample_rate, codec_supported, copy_ids, format_codec,
    frame_len_for_rate, same_ids, supported_codecs, talk_mode_text, Codec, IfbConfig, OpusProfile,
    StereoConfig, TalkMode,
};

verus! {

/// A frame lasts 20 ms: fifty frames hold no more than a second of samples, and one
/// sample more in each would be too many.
pub proof fn frames_last_their_time(rate: u32, r: usize)
    requires
        call_ensures(frame_len_for_rate, (rate,), r),
    ensures
        r * 50 <= rate,
        rate < (r + 1) * 50,
{
}

/// Each codec has its rate, and a frame of it is two bytes for each sample.
pub proof fn codecs_have_their_rate(codec: Codec, rate: u32, frame: usize, bytes: usize)
    requires
        call_ensures(codec_sample_rate, (codec,), rate),
        call_ensures(frame_len_for_rate, (rate,), frame),
        call_ensures(codec_pcm16_payload_bytes, (codec,), bytes),
    ensures
        codec == Codec::Pcm16 ==> rate == 16_000,
        codec == Codec::Pcm24 ==> rate == 24_000,
        codec != Codec::Pcm16 && codec != Codec::Pcm24 ==> rate == 48_000,
        bytes == 2 * frame,
        frame * 50 == rate,
{
}

/// A profile says its rate in its name, a frame of it lasts 20 ms, and one of them is
/// for music.
pub proof fn profiles_have_their_rate(
    profile: OpusProfile,
    rate: u32,
    frame: usize,
    music: bool,
)
    requires
        call_ensures(OpusProfile::sample_rate_hz, (profile,), rate),
        call_ensures(OpusProfile::samples_per_frame, (profile,), frame),
        call_ensures(OpusProfile::is_music, (profile,), music),
    ensures
        match profile {
            OpusProfile::Speech16Low => rate == 16_000,
            OpusProfile::Speech24Standard => rate == 24_000,
            OpusProfile::Speech48High => rate == 48_000,
            OpusProfile::Music48 => rate == 48_000,
        },
        frame * 50 == rate,
        music <==> profile == OpusProfile::Music48,
{
}

/// A client offers exactly the codecs that it can decode, each once.
pub proof fn offered_codecs_can_be_decoded(codec: Codec, r: bool, offered: Vec<Codec>)
    requires
        call_ensures(codec_supported, (codec,), r),
        call_ensures(supported_codecs, (), offered),
    ensures
        r <==> codec != Codec::Adpcm,
        offered@.contains(codec) <==> r,
        offered@.no_duplicates(),
{
    crate::protocol::offered_codecs_are_the_supported_ones(codec);
}

/// No two codecs have one name, and no two talk modes.
pub proof fn names_tell_apart(
    a: Codec,
    b: Codec,
    na: &'static str,
    nb: &'static str,
    m: TalkMode,
    n: TalkMode,
    lm: &'static str,
    ln: &'static str,
)
    requires
        call_ensures(format_codec, (a,), na),
        call_ensures(format_codec, (b,), nb),
        call_ensures(talk_mode_text, (m,), lm),
        call_ensures(talk_mode_text, (n,), ln),
    ensures
        na@ == nb@ ==> a == b,
        lm@ == ln@ ==> m == n,
        a == Codec::Opus ==> na@ == "opus"@,
        a == Codec::Pcm48 ==> na@ == "pcm48"@,
        a == Codec::Pcm24 ==> na@ == "pcm24"@,
        a == Codec::Pcm16 ==> na@ == "pcm16"@,
        a == Codec::Adpcm ==> na@ == "adpcm"@,
        m == TalkMode::Open ==> lm@ == "Open"@,
        m == TalkMode::Ptt ==> lm@ == "Ptt"@,
        m == TalkMode::Muted ==> lm@ == "Muted"@,
{
    reveal_strlit("opus");
    reveal_strlit("pcm48");
    reveal_strlit("pcm24");
    reveal_strlit("pcm16");
    reveal_strlit("adpcm");
    reveal_strlit("Open");
    reveal_strlit("Ptt");
    reveal_strlit("Muted");
    assert("opus"@.len() == 4 && "pcm48"@.len() == 5 && "pcm24"@.len() == 5 && "pcm16"@.len() == 5
        && "adpcm"@.len() == 5);
    assert("pcm48"@[3] == '4' && "pcm24"@[3] == '2' && "pcm16"@[3] == '1' && "adpcm"@[3] == 'c');
    assert("Open"@.len() == 4 && "Ptt"@.len() == 3 && "Muted"@.len() == 5);
}

/// Numbers are copied and compared one by one.
pub proof fn numbers_are_copied(v: Vec<u16>, r: Vec<u16>, w: Vec<u16>, equal: bool)
    requires
        call_ensures(copy_ids, (&v,), r),
        call_ensures(same_ids, (&v, &w), equal),
    ensures
        r@ == v@,
        equal <==> v@.len() == w@.len() && forall|i: int|
            0 <= i < v@.len() ==> #[trigger] v@[i] == w@[i],
{
    if v@.len() == w@.len() && forall|i: int| 0 <= i < v@.len() ==> #[trigger] v@[i] == w@[i] {
        assert(v@ =~= w@);
    }
}

/// The settings for interruption are copied as they are; two of them are equal where
/// every part is, the gain as a number.
pub proof fn interruption_is_copied(a: IfbConfig, r: IfbConfig, b: IfbConfig, equal: bool)
    requires
        call_ensures(IfbConfig::copy, (&a,), r),
        call_ensures(IfbConfig::is_equal, (&a, &b), equal),
    ensures
        r.enabled == a.enabled && r.program@ == a.program@ && r.interrupt@ == a.interrupt@
            && r.duck_gain == a.duck_gain,
        equal ==> a.enabled == b.enabled && a.program@ == b.program@ && a.interrupt@
            == b.interrupt@,
        equal ==> a.duck_gain.bits == b.duck_gain.bits || (a.duck_gain.magnitude() == 0
            && b.duck_gain.magnitude() == 0),
        a.enabled == b.enabled && a.program@ == b.program@ && a.interrupt@ == b.interrupt@
            && a.duck_gain == b.duck_gain && !a.duck_gain.nan() ==> equal,
{
}

/// Stereo is carried by two codecs, and used where it is wanted.
pub proof fn stereo_is_carried_by_two_codecs(s: StereoConfig, codec: Codec, r: bool)
    requires
        call_ensures(StereoConfig::active_for_codec, (&s, codec), r),
    ensures
        r <==> s.enabled && (codec == Codec::Pcm48 || codec == Codec::Opus),
{
}

} // verus!
