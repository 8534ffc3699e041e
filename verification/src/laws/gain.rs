//! Gains and volumes.

use vstd::prelude::*;

use crate::gain::{clamp_runtime_gain, AudioSettings, Gain, Volumes};

verus! {

/// A gain in use is between nothing and eight times: what is given where it is, nothing
/// for less, eight times for more, and once for what is no finite number.
pub proof fn gains_are_kept_in_bounds(gain: Gain, r: Gain)
    requires
        call_ensures(clamp_runtime_gain, (gain,), r),
    ensures
        r.bits <= 0x4100_0000 || r.bits == 0x8000_0000,
        gain.bits <= 0x4100_0000 ==> r == gain,
        0x4100_0000 < gain.bits < 0x7f80_0000 ==> r.bits == 0x4100_0000,
        0x7f80_0000 <= gain.bits < 0x8000_0000 ==> r.bits == 0x3f80_0000,
        0x8000_0000 < gain.bits < 0xff80_0000 ==> r.bits == 0,
        gain.bits >= 0xff80_0000 ==> r.bits == 0x3f80_0000,
{
}

/// A gain is finite, no number, or between bounds by its bits; two gains are equal where
/// they are one number, and nothing equals nothing whatever its sign.
pub proof fn gains_are_read_by_their_bits(
    a: Gain,
    b: Gain,
    top: u32,
    finite: bool,
    nan: bool,
    within: bool,
    equal: bool,
)
    requires
        call_ensures(Gain::is_finite, (a,), finite),
        call_ensures(Gain::is_nan, (a,), nan),
        call_ensures(Gain::is_within, (a, top), within),
        call_ensures(Gain::is_equal, (a, b), equal),
    ensures
        finite <==> a.bits < 0x7f80_0000 || 0x8000_0000 <= a.bits < 0xff80_0000,
        nan <==> 0x7f80_0000 < a.bits < 0x8000_0000 || a.bits > 0xff80_0000,
        within <==> a.bits <= top || a.bits == 0x8000_0000,
        nan ==> !equal,
        !nan && a == b ==> equal,
        (a.bits == 0 || a.bits == 0x8000_0000) && (b.bits == 0 || b.bits == 0x8000_0000) ==> equal,
        equal ==> a == b || ((a.bits == 0 || a.bits == 0x8000_0000) && (b.bits == 0 || b.bits
            == 0x8000_0000)),
{
}

/// The gains of a client are those that were last given, each for its own side.
pub proof fn settings_keep_the_gains_given(
    mic: Gain,
    speaker: Gain,
    s: AudioSettings,
    m: &mut AudioSettings,
    p: &mut AudioSettings,
    gain: Gain,
    used: Gain,
    got_mic: Gain,
    got_speaker: Gain,
    used_mic: Gain,
    used_speaker: Gain,
)
    requires
        call_ensures(AudioSettings::new, (mic, speaker), s),
        call_ensures(clamp_runtime_gain, (mic,), used_mic),
        call_ensures(clamp_runtime_gain, (speaker,), used_speaker),
        call_ensures(AudioSettings::mic_gain, (&s,), got_mic),
        call_ensures(AudioSettings::speaker_gain, (&s,), got_speaker),
        call_ensures(AudioSettings::set_mic_gain, (m, gain), ()),
        call_ensures(AudioSettings::set_speaker_gain, (p, gain), ()),
        call_ensures(clamp_runtime_gain, (gain,), used),
    ensures
        got_mic == used_mic,
        got_speaker == used_speaker,
        final(m).mic() == used && final(m).speaker() == old(m).speaker(),
        final(p).speaker() == used && final(p).mic() == old(p).mic(),
{
}

/// A volume that was set is found again, and the others stay; at first there is none.
pub proof fn volumes_are_found_as_set(
    fresh: Volumes,
    v: &mut Volumes,
    key: u16,
    gain: Gain,
    found: Option<Gain>,
    other: u16,
    before: Option<Gain>,
    after: Option<Gain>,
    none: Option<Gain>,
)
    requires
        call_ensures(Volumes::new, (), fresh),
        call_ensures(Volumes::get, (&fresh, other), none),
        call_ensures(Volumes::insert, (v, key, gain), ()),
        call_ensures(Volumes::get, (final(v), key), found),
        call_ensures(Volumes::get, (old(v), other), before),
        call_ensures(Volumes::get, (final(v), other), after),
        other != key,
    ensures
        none is None,
        found == Some(gain),
        after == before,
{
}

/// Volumes are equal where they are for the same channels and each is equal as a number.
pub proof fn volumes_are_compared_by_channel(
    a: Volumes,
    b: Volumes,
    equal: bool,
    key: u16,
    x: Option<Gain>,
    y: Option<Gain>,
    c: Volumes,
)
    requires
        call_ensures(Volumes::is_equal, (&a, &b), equal),
        call_ensures(Volumes::get, (&a, key), x),
        call_ensures(Volumes::get, (&b, key), y),
        call_ensures(Volumes::copy, (&a,), c),
    ensures
        equal ==> (x is Some <==> y is Some),
        equal && x is Some ==> x->Some_0 == y->Some_0 || (x->Some_0.magnitude() == 0
            && y->Some_0.magnitude() == 0),
        c@ == a@ && c.entries@ == a.entries@,
{
}

} // verus!
