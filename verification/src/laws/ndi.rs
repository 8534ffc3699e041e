//! Audio over NDI.

use vstd::prelude::*;

use crate::gain::Gain;
use crate::launch::HostPlatform;
use crate::laws::bridge::named;
use crate::laws::text::lemma_blank;
use crate::ndi::{
    c_text, copy_audio_samples, dedupe, dedupe_keeps_each_once, firsts, fixed_libraries,
    frame_shape, library_candidates, listed_sources, millis_u32, optional_c_text,
    planar_keeps_channels, planarize, raw_sources, received_kind, send_shape, sources, FrameHeader,
    FrameShape, NdiReceived, NdiSource, SendShape,
};
use crate::text::{texts, trim};

verus! {

/// A source that is listed with a name is one more source, behind those before it; one
/// without a name is passed over.
pub proof fn sources_with_a_name_are_listed(
    fewer: Vec<(Option<String>, Option<String>)>,
    more: Vec<(Option<String>, Option<String>)>,
    one: (Option<String>, Option<String>),
    a: Vec<NdiSource>,
    b: Vec<NdiSource>,
)
    requires
        more@ == fewer@.push(one),
        call_ensures(listed_sources, (fewer,), a),
        call_ensures(listed_sources, (more,), b),
    ensures
        fewer@.len() == 0 ==> a@.len() == 0,
        !named(one.0) ==> sources(b@) == sources(a@),
        named(one.0) ==> {
            &&& b@.len() == a@.len() + 1 && sources(b@).drop_last() == sources(a@)
            &&& b@.last().name@ == trim(one.0->Some_0@)
            &&& b@.last().url is Some <==> named(one.1)
            &&& named(one.1) ==> b@.last().url->Some_0@ == trim(one.1->Some_0@)
        },
{
    let s = raw_sources(fewer@);
    let t = raw_sources(more@);
    assert(t.drop_last() =~= s);
    assert(t.last() == (crate::endpoint::opt_text(one.0), crate::endpoint::opt_text(one.1)));
    if one.0 is Some {
        lemma_blank(one.0->Some_0@);
    }
    if one.1 is Some {
        lemma_blank(one.1->Some_0@);
    }
    assert(sources(a@).len() == a@.len() && sources(b@).len() == b@.len());
    if named(one.0) {
        assert(sources(b@).drop_last() =~= sources(a@));
        assert(sources(b@)[b@.len() - 1] == (
            b@.last().name@,
            crate::endpoint::opt_text(b@.last().url),
        ));
    }
}

/// A text is handed on without the white space around it, and not at all where it holds
/// a null.
pub proof fn texts_are_handed_on_without_nulls(
    value: &str,
    refusal: &str,
    r: Result<String, String>,
    o: Option<String>,
    s: Result<Option<String>, String>,
)
    requires
        call_ensures(c_text, (value, refusal), r),
        call_ensures(optional_c_text, (o,), s),
    ensures
        r is Ok <==> !trim(value@).contains('\0'),
        r is Ok ==> r->Ok_0@ == trim(value@),
        r is Err ==> r->Err_0@ == refusal@,
        !named(o) ==> s == Ok::<Option<String>, String>(None),
        named(o) ==> (s is Ok <==> !trim(o->Some_0@).contains('\0')),
        named(o) && s is Ok ==> s->Ok_0 is Some && s->Ok_0->Some_0@ == trim(o->Some_0@),
{
    if o is Some {
        lemma_blank(o->Some_0@);
    }
}

/// A time is counted in milliseconds as far as they can be counted.
pub proof fn times_are_counted_in_milliseconds(millis: u128, r: u32)
    requires
        call_ensures(millis_u32, (millis,), r),
    ensures
        millis <= u32::MAX ==> r == millis,
        millis > u32::MAX ==> r == u32::MAX,
{
}

// ---------------------------------------------------------------------------
// The runtime library
// ---------------------------------------------------------------------------

proof fn lemma_firsts_prefix(s: Seq<Seq<char>>, t: Seq<Seq<char>>, n: int)
    requires
        0 <= n <= s.len(),
        n <= t.len(),
        s.take(n) == t.take(n),
    ensures
        firsts(s, n) == firsts(t, n),
        forall|x: Seq<char>| #[trigger] firsts(s, n).contains(x) <==> s.take(n).contains(x),
    decreases n,
{
    if n > 0 {
        assert(s.take(n - 1) =~= s.take(n).take(n - 1));
        assert(t.take(n - 1) =~= t.take(n).take(n - 1));
        lemma_firsts_prefix(s, t, n - 1);
        assert forall|i: int| 0 <= i < n implies s[i] == t[i] by {
            assert(s.take(n)[i] == t.take(n)[i]);
        }
        let a = s[n - 1];
        if crate::ndi::seen_before(s, n - 1) {
            let k = choose|k: int| 0 <= k < n - 1 && #[trigger] s[k] == s[n - 1];
            assert(t[k] == t[n - 1]);
            assert(s.take(n - 1)[k] == a);
            assert(s.take(n - 1).contains(a));
        }
        if crate::ndi::seen_before(t, n - 1) {
            let k = choose|k: int| 0 <= k < n - 1 && #[trigger] t[k] == t[n - 1];
            assert(s[k] == s[n - 1]);
        }
        let f = firsts(s, n - 1);
        let g = firsts(s, n);
        assert forall|x: Seq<char>| #[trigger] g.contains(x) <==> s.take(n).contains(x) by {
            if s.take(n).contains(x) {
                let k = choose|k: int| 0 <= k < n && s.take(n)[k] == x;
                if k < n - 1 {
                    assert(s.take(n - 1)[k] == x);
                    assert(f.contains(x));
                    let m = choose|m: int| 0 <= m < f.len() && f[m] == x;
                    assert(g[m] == x);
                } else if crate::ndi::seen_before(s, n - 1) {
                    assert(f.contains(x));
                } else {
                    assert(g[g.len() - 1] == x);
                }
            }
            if g.contains(x) {
                let m = choose|m: int| 0 <= m < g.len() && g[m] == x;
                if m < f.len() {
                    assert(f[m] == x);
                    assert(f.contains(x));
                    let u = s.take(n - 1);
                    let k = choose|k: int| 0 <= k < u.len() && u[k] == x;
                    assert(s.take(n)[k] == x);
                } else {
                    assert(s.take(n)[n - 1] == x);
                }
            }
        }
    } else {
        assert(s.take(0) =~= Seq::<Seq<char>>::empty());
    }
}

/// Each text stays once, where it first stood; one more text comes last, unless it is
/// there already.
pub proof fn repeated_texts_are_dropped(
    fewer: Vec<String>,
    more: Vec<String>,
    one: String,
    a: Vec<String>,
    b: Vec<String>,
    i: int,
    j: int,
)
    requires
        more@ == fewer@.push(one),
        call_ensures(dedupe, (fewer,), a),
        call_ensures(dedupe, (more,), b),
    ensures
        fewer@.len() == 0 ==> a@.len() == 0,
        texts(fewer@).contains(one@) ==> texts(b@) == texts(a@),
        !texts(fewer@).contains(one@) ==> texts(b@) == texts(a@).push(one@),
        0 <= i < j < b@.len() ==> b@[i]@ != b@[j]@,
{
    let s = texts(fewer@);
    let t = texts(more@);
    let n = s.len() as int;
    assert(t =~= s.push(one@));
    assert(t.take(n) =~= s);
    assert(s.take(n) =~= s);
    lemma_firsts_prefix(t, s, n);
    assert(t[n] == one@);
    assert(texts(a@).len() == a@.len());
    if s.contains(one@) {
        let k = choose|k: int| 0 <= k < n && s[k] == one@;
        assert(t[k] == t[n]);
        assert(crate::ndi::seen_before(t, n));
    } else if crate::ndi::seen_before(t, n) {
        let k = choose|k: int| 0 <= k < n && #[trigger] t[k] == t[n];
        assert(s[k] == one@);
    }
    if 0 <= i < j < b@.len() {
        assert(texts(b@).len() == b@.len());
        dedupe_keeps_each_once(t, t.len() as int, i, j);
        assert(texts(b@)[i] == b@[i]@ && texts(b@)[j] == b@[j]@);
    }
}

/// The library is looked for in the directories first, on Windows along the path then,
/// and in the usual places last, in each place once.
pub proof fn libraries_are_looked_for_in_turn(
    platform: HostPlatform,
    in_dirs: Vec<String>,
    on_path: Vec<String>,
    r: Vec<String>,
    usual: Vec<String>,
    all: Vec<String>,
    once: Vec<String>,
)
    requires
        call_ensures(library_candidates, (platform, in_dirs, on_path), r),
        call_ensures(fixed_libraries, (platform,), usual),
        platform == HostPlatform::Windows ==> all@ == in_dirs@ + on_path@ + usual@,
        platform != HostPlatform::Windows ==> all@ == in_dirs@ + usual@,
        call_ensures(dedupe, (all,), once),
    ensures
        texts(r@) == texts(once@),
{
    let d = texts(in_dirs@);
    let p = texts(on_path@);
    let u = texts(usual@);
    if platform == HostPlatform::Windows {
        assert(texts(all@) =~= d + p + u);
    } else {
        assert(texts(all@) =~= d + Seq::<Seq<char>>::empty() + u);
    }
    assert(texts(all@).len() == all@.len());
}

// ---------------------------------------------------------------------------
// Frames
// ---------------------------------------------------------------------------

/// The samples of each channel come one after the other, channel by channel. A sample
/// that is no louder than full scale is kept, and a louder one is full scale with its
/// sign.
pub proof fn channels_come_one_after_the_other(
    samples: &[Gain],
    channels: usize,
    r: Vec<Gain>,
    c: int,
    i: int,
)
    requires
        call_ensures(planarize, (samples, channels), r),
        0 <= c < channels,
        0 <= i < samples@.len() as int / channels as int,
    ensures
        ({
            let n = samples@.len() as int / channels as int;
            let from = samples@[i * channels + c];
            let to = r@[c * n + i];
            &&& r@.len() == n * channels
            &&& from.bits <= 0x3f80_0000 ==> to == from
            &&& 0x3f80_0000 < from.bits <= 0x7f80_0000 ==> to.bits == 0x3f80_0000
            &&& 0x8000_0000 <= from.bits <= 0xbf80_0000 ==> to == from
            &&& 0xbf80_0000 < from.bits <= 0xff80_0000 ==> to.bits == 0xbf80_0000
        }),
{
    let n = samples@.len() as int / channels as int;
    planar_keeps_channels(samples@, channels as int, c, i);
    assert(n * channels as int >= 0) by (nonlinear_arith)
        requires
            n >= 0,
            channels > 0,
    ;
}

/// A frame that is sent has its rate, its channels and as many samples as each channel
/// has; without channels nothing can be sent, and less than one sample for each is
/// nothing to send.
pub proof fn sent_frames_have_their_shape(
    rate: u32,
    channels: usize,
    samples: usize,
    r: Result<Option<SendShape>, String>,
)
    requires
        call_ensures(send_shape, (rate, channels, samples), r),
    ensures
        r is Err <==> channels == 0,
        channels > 0 && samples < channels ==> r == Ok::<Option<SendShape>, String>(None),
        channels > 0 && samples >= channels ==> r is Ok && r->Ok_0 is Some,
        channels > 0 && samples >= channels && rate <= i32::MAX && 4 * samples <= i32::MAX ==> ({
            let s = r->Ok_0->Some_0;
            &&& s.sample_rate == rate
            &&& s.no_channels == channels
            &&& s.no_samples == samples as int / channels as int
            &&& s.channel_stride_in_bytes == 4 * s.no_samples
        }),
{
    if channels > 0 && samples >= channels {
        let n = samples as int / channels as int;
        assert(n <= samples) by (nonlinear_arith)
            requires
                channels > 0,
                n == samples as int / channels as int,
        ;
    }
}

/// What was received is audio, a fault, or nothing of either.
pub proof fn received_frames_are_told_apart(frame_type: i32, r: NdiReceived)
    requires
        call_ensures(received_kind, (frame_type,), r),
    ensures
        r == NdiReceived::Audio <==> frame_type == 2,
        r == NdiReceived::Fault <==> frame_type == 4,
        r == NdiReceived::Nothing <==> frame_type != 2 && frame_type != 4,
{
}

/// A frame is accepted where it has data, sizes above zero and the format of planar
/// floating point; its channels lie as far apart as it says, or else close together.
pub proof fn received_frames_have_their_shape(h: FrameHeader, r: Result<FrameShape, String>)
    requires
        call_ensures(frame_shape, (h,), r),
        4 * h.no_samples <= usize::MAX,
    ensures
        r is Ok <==> h.has_data && h.no_channels > 0 && h.no_samples > 0 && h.sample_rate > 0
            && h.four_cc == 0x7054_4c46,
        r is Ok ==> ({
            let s = r->Ok_0;
            &&& s.sample_rate_hz == h.sample_rate && s.channels == h.no_channels
                && s.samples_per_channel == h.no_samples
            &&& h.channel_stride_in_bytes > 0 ==> s.stride == h.channel_stride_in_bytes
            &&& h.channel_stride_in_bytes <= 0 ==> s.stride == 4 * h.no_samples
        }),
        !h.has_data ==> r->Err_0@ == "NDI audio frame had no data"@,
        h.has_data && (h.no_channels <= 0 || h.no_samples <= 0 || h.sample_rate <= 0)
            ==> r->Err_0@ == "NDI audio frame had invalid dimensions"@,
{
}

/// The samples of a frame are read channel by channel from its bytes, lowest byte first,
/// and come interleaved.
pub proof fn samples_are_read_from_the_bytes(
    data: &[u8],
    shape: FrameShape,
    r: Vec<Gain>,
    c: int,
    i: int,
    at: int,
)
    requires
        call_ensures(copy_audio_samples, (data, shape), r),
        0 <= c < shape.channels,
        0 <= i < shape.samples_per_channel,
        at == c * shape.stride + 4 * i,
    ensures
        r@.len() == shape.channels * shape.samples_per_channel,
        r@[i * shape.channels + c].bits == data@[at] + 256 * data@[at + 1] + 65_536 * data@[at + 2]
            + 16_777_216 * data@[at + 3],
{
    let n = shape.channels as int;
    let k = i * n + c;
    let m = shape.samples_per_channel as int;
    assert(0 <= k < m * n) by (nonlinear_arith)
        requires
            0 <= c < n,
            0 <= i < m,
            k == i * n + c,
    ;
    vstd::arithmetic::div_mod::lemma_fundamental_div_mod_converse(k, n, i, c);
    vstd::arithmetic::mul::lemma_mul_is_commutative(m, n);
    assert(data@[at] <= 255 && data@[at + 1] <= 255 && data@[at + 2] <= 255 && data@[at + 3] <= 255);
}

} // verus!
