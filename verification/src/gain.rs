//! Audio gains, held as the bits of an IEEE 754 single-precision number.
//!
//! The bit patterns from zero up to that of infinity stand for the
//! non-negative numbers in their own order, so bounds on a gain are bounds on
//! its bits.

use vstd::prelude::*;

verus! {

/// A gain factor, as the bits of a single-precision number.
#[derive(Debug, Clone, Copy, PartialEq, Eq, Structural)]
pub struct Gain {
    pub bits: u32,
}

/// The bits of 1.
pub const GAIN_ONE: u32 = 0x3f80_0000;

/// The bits of 2.
pub const GAIN_TWO: u32 = 0x4000_0000;

/// The bits of 8.
pub const GAIN_EIGHT: u32 = 0x4100_0000;

/// The bits of negative zero.
pub const NEGATIVE_ZERO: u32 = 0x8000_0000;

/// The bits of infinity.
pub const INFINITY: u32 = 0x7f80_0000;

impl Gain {
    /// The bits without the sign.
    pub open spec fn magnitude(self) -> int {
        if self.bits >= NEGATIVE_ZERO {
            self.bits - NEGATIVE_ZERO
        } else {
            self.bits as int
        }
    }

    /// Neither infinite nor not a number.
    pub open spec fn finite(self) -> bool {
        self.magnitude() < INFINITY
    }

    /// Not a number.
    pub open spec fn nan(self) -> bool {
        self.magnitude() > INFINITY
    }

    /// Below zero.
    pub open spec fn negative(self) -> bool {
        self.bits > NEGATIVE_ZERO && !self.nan()
    }

    /// A number from zero up to the one whose bits are `top`.
    pub open spec fn within(self, top: u32) -> bool {
        self.bits <= top || self.bits == NEGATIVE_ZERO
    }

    /// The two gains compare as equal numbers.
    pub open spec fn equals(self, other: Gain) -> bool {
        !self.nan() && !other.nan() && (self.bits == other.bits || (self.magnitude() == 0
            && other.magnitude() == 0))
    }

    pub fn is_finite(self) -> (r: bool)
        ensures
            r == self.finite(),
    {
        if self.bits >= NEGATIVE_ZERO {
            self.bits - NEGATIVE_ZERO < INFINITY
        } else {
            self.bits < INFINITY
        }
    }

    pub fn is_nan(self) -> (r: bool)
        ensures
            r == self.nan(),
    {
        if self.bits >= NEGATIVE_ZERO {
            self.bits - NEGATIVE_ZERO > INFINITY
        } else {
            self.bits > INFINITY
        }
    }

    /// Tells whether the gain is a number from zero up to the one whose bits are `top`.
    pub fn is_within(self, top: u32) -> (r: bool)
        ensures
            r == self.within(top),
    {
        self.bits <= top || self.bits == NEGATIVE_ZERO
    }

    /// Tells whether the two gains compare as equal numbers.
    pub fn is_equal(self, other: Gain) -> (r: bool)
        ensures
            r == self.equals(other),
    {
        let zero = (self.bits == 0 || self.bits == NEGATIVE_ZERO) && (other.bits == 0 || other.bits
            == NEGATIVE_ZERO);
        !self.is_nan() && !other.is_nan() && (self.bits == other.bits || zero)
    }
}

/// The gain that is used for `gain` at run time: between zero and eight, and one
/// for what is not a finite number.
pub open spec fn runtime_gain(gain: Gain) -> Gain {
    if !gain.finite() {
        Gain { bits: GAIN_ONE }
    } else if gain.negative() {
        Gain { bits: 0 }
    } else if gain.within(GAIN_EIGHT) {
        gain
    } else {
        Gain { bits: GAIN_EIGHT }
    }
}

/// The gain that is used for `gain` at run time.
pub fn clamp_runtime_gain(gain: Gain) -> (r: Gain)
    ensures
        r == runtime_gain(gain),
{
    if !gain.is_finite() {
        Gain { bits: GAIN_ONE }
    } else if gain.bits > NEGATIVE_ZERO {
        Gain { bits: 0 }
    } else if gain.is_within(GAIN_EIGHT) {
        gain
    } else {
        Gain { bits: GAIN_EIGHT }
    }
}

/// The gains of a running client.
#[derive(Debug, Clone, Copy)]
pub struct AudioSettings {
    mic_gain: Gain,
    speaker_gain: Gain,
}

impl AudioSettings {
    /// The gain of the microphone.
    pub closed spec fn mic(self) -> Gain {
        self.mic_gain
    }

    /// The gain of the speaker.
    pub closed spec fn speaker(self) -> Gain {
        self.speaker_gain
    }

    pub fn new(mic_gain: Gain, speaker_gain: Gain) -> (r: Self)
        ensures
            r.mic() == runtime_gain(mic_gain),
            r.speaker() == runtime_gain(speaker_gain),
    {
        AudioSettings {
            mic_gain: clamp_runtime_gain(mic_gain),
            speaker_gain: clamp_runtime_gain(speaker_gain),
        }
    }

    pub fn mic_gain(&self) -> (r: Gain)
        ensures
            r == self.mic(),
    {
        self.mic_gain
    }

    pub fn speaker_gain(&self) -> (r: Gain)
        ensures
            r == self.speaker(),
    {
        self.speaker_gain
    }

    pub fn set_mic_gain(&mut self, gain: Gain)
        ensures
            final(self).mic() == runtime_gain(gain),
            final(self).speaker() == old(self).speaker(),
    {
        self.mic_gain = clamp_runtime_gain(gain);
    }

    pub fn set_speaker_gain(&mut self, gain: Gain)
        ensures
            final(self).speaker() == runtime_gain(gain),
            final(self).mic() == old(self).mic(),
    {
        self.speaker_gain = clamp_runtime_gain(gain);
    }
}

/// A gain at run time lies between zero and eight, and is left alone by clamping
/// it once more.
pub proof fn runtime_gain_is_bounded(gain: Gain)
    ensures
        runtime_gain(gain).within(GAIN_EIGHT),
        runtime_gain(runtime_gain(gain)) == runtime_gain(gain),
        gain.within(GAIN_EIGHT) ==> runtime_gain(gain) == gain,
{
}

// ---------------------------------------------------------------------------
// Volumes
// ---------------------------------------------------------------------------

/// The keys stand in increasing order.
pub open spec fn keys_increase(s: Seq<(u16, Gain)>) -> bool {
    forall|i: int, j: int| 0 <= i < j < s.len() ==> (#[trigger] s[i]).0 < (#[trigger] s[j]).0
}

/// The map that a sequence of entries makes, the later ones counting.
pub open spec fn entries_map(s: Seq<(u16, Gain)>) -> Map<u16, Gain>
    decreases s.len(),
{
    if s.len() == 0 {
        Map::empty()
    } else {
        entries_map(s.drop_last()).insert(s.last().0, s.last().1)
    }
}

/// One gain per channel or user, in the order of their numbers.
#[derive(Debug, Clone, PartialEq, Eq)]
pub struct Volumes {
    pub entries: Vec<(u16, Gain)>,
}

impl View for Volumes {
    type V = Map<u16, Gain>;

    open spec fn view(&self) -> Map<u16, Gain> {
        entries_map(self.entries@)
    }
}

proof fn lemma_entries_map(s: Seq<(u16, Gain)>)
    requires
        keys_increase(s),
    ensures
        forall|k: u16| #[trigger]
            entries_map(s).dom().contains(k) <==> exists|i: int|
                0 <= i < s.len() && (#[trigger] s[i]).0 == k,
        forall|i: int|
            0 <= i < s.len() ==> entries_map(s).dom().contains((#[trigger] s[i]).0) && entries_map(
                s,
            )[s[i].0] == s[i].1,
    decreases s.len(),
{
    if s.len() > 0 {
        let t = s.drop_last();
        lemma_entries_map(t);
        assert forall|i: int| 0 <= i < s.len() implies entries_map(s).dom().contains(
            (#[trigger] s[i]).0,
        ) && entries_map(s)[s[i].0] == s[i].1 by {
            if i < t.len() {
                assert(t[i] == s[i]);
            }
        }
        assert forall|k: u16| #[trigger] entries_map(s).dom().contains(k) implies exists|i: int|
            0 <= i < s.len() && (#[trigger] s[i]).0 == k by {
            if k == s.last().0 {
                assert(s[s.len() - 1].0 == k);
            } else {
                assert(entries_map(t).dom().contains(k));
                let i = choose|i: int| 0 <= i < t.len() && (#[trigger] t[i]).0 == k;
                assert(s[i].0 == k);
            }
        }
    }
}

impl Volumes {
    /// The entries stand in order, one per number.
    pub open spec fn wf(self) -> bool {
        keys_increase(self.entries@)
    }

    pub fn new() -> (r: Self)
        ensures
            r.wf(),
            r@ == Map::<u16, Gain>::empty(),
    {
        Volumes { entries: Vec::new() }
    }

    /// A copy of the volumes.
    pub fn copy(&self) -> (r: Self)
        ensures
            r.entries@ == self.entries@,
            r@ == self@,
            self.wf() ==> r.wf(),
    {
        let mut entries: Vec<(u16, Gain)> = Vec::new();
        let mut i: usize = 0;
        while i < self.entries.len()
            invariant
                0 <= i <= self.entries@.len(),
                entries@ == self.entries@.take(i as int),
            decreases self.entries@.len() - i,
        {
            let e = self.entries[i];
            entries.push(e);
            proof {
                assert(self.entries@.take(i + 1) =~= self.entries@.take(i as int).push(
                    self.entries@[i as int],
                ));
            }
            i = i + 1;
        }
        proof {
            assert(self.entries@.take(self.entries@.len() as int) =~= self.entries@);
        }
        Volumes { entries }
    }

    /// The gain for `key`, if there is one.
    pub fn get(&self, key: u16) -> (r: Option<Gain>)
        requires
            self.wf(),
        ensures
            r == if self@.dom().contains(key) {
                Some(self@[key])
            } else {
                None
            },
    {
        proof {
            lemma_entries_map(self.entries@);
        }
        let mut i: usize = 0;
        while i < self.entries.len()
            invariant
                self.wf(),
                0 <= i <= self.entries@.len(),
                forall|j: int| 0 <= j < i ==> (#[trigger] self.entries@[j]).0 != key,
            decreases self.entries@.len() - i,
        {
            let e = self.entries[i];
            if e.0 == key {
                proof {
                    lemma_entries_map(self.entries@);
                    assert(self.entries@[i as int] == e);
                }
                return Some(e.1);
            }
            i = i + 1;
        }
        None
    }

    /// Sets the gain for `key`.
    pub fn insert(&mut self, key: u16, gain: Gain)
        requires
            old(self).wf(),
        ensures
            final(self).wf(),
            final(self)@ == old(self)@.insert(key, gain),
    {
        let ghost s = self.entries@;
        let mut i: usize = 0;
        while i < self.entries.len() && self.entries[i].0 < key
            invariant
                0 <= i <= self.entries@.len(),
                self.entries@ == s,
                forall|j: int| 0 <= j < i ==> (#[trigger] s[j]).0 < key,
            decreases self.entries@.len() - i,
        {
            i = i + 1;
        }
        if i < self.entries.len() && self.entries[i].0 == key {
            self.entries.set(i, (key, gain));
            let ghost t = self.entries@;
            proof {
                assert(keys_increase(t));
                lemma_entries_map(s);
                lemma_entries_map(t);
                assert(entries_map(t) =~= entries_map(s).insert(key, gain)) by {
                    assert forall|k: u16| #[trigger]
                        entries_map(t).dom().contains(k) == entries_map(s).insert(
                            key,
                            gain,
                        ).dom().contains(k) by {
                        if entries_map(t).dom().contains(k) {
                            let j = choose|j: int| 0 <= j < t.len() && (#[trigger] t[j]).0 == k;
                            assert(s[j].0 == k);
                        }
                        if entries_map(s).dom().contains(k) {
                            let j = choose|j: int| 0 <= j < s.len() && (#[trigger] s[j]).0 == k;
                            assert(t[j].0 == k);
                        }
                        assert(t[i as int].0 == key);
                    }
                    assert forall|k: u16| #[trigger]
                        entries_map(t).dom().contains(k) implies entries_map(t)[k] == entries_map(
                        s,
                    ).insert(key, gain)[k] by {
                        let j = choose|j: int| 0 <= j < t.len() && (#[trigger] t[j]).0 == k;
                        assert(t[j].0 == k);
                        if j != i {
                            assert(s[j] == t[j]);
                        }
                    }
                }
            }
        } else {
            proof {
                if i < s.len() {
                    assert(s[i as int].0 > key);
                }
                assert forall|j: int| i <= j < s.len() implies (#[trigger] s[j]).0 > key by {
                    if j > i {
                        assert(s[i as int].0 < s[j].0);
                    }
                }
            }
            self.entries.insert(i, (key, gain));
            let ghost t = self.entries@;
            proof {
                assert(t =~= s.insert(i as int, (key, gain)));
                assert forall|a: int, b: int| 0 <= a < b < t.len() implies (#[trigger] t[a]).0 < (
                #[trigger] t[b]).0 by {
                    let sa = if a < i {
                        a
                    } else {
                        a - 1
                    };
                    let sb = if b < i {
                        b
                    } else {
                        b - 1
                    };
                    if a != i {
                        assert(t[a] == s[sa]);
                    }
                    if b != i {
                        assert(t[b] == s[sb]);
                    }
                }
                lemma_entries_map(s);
                lemma_entries_map(t);
                assert(entries_map(t) =~= entries_map(s).insert(key, gain)) by {
                    assert forall|k: u16| #[trigger]
                        entries_map(t).dom().contains(k) == entries_map(s).insert(
                            key,
                            gain,
                        ).dom().contains(k) by {
                        if entries_map(t).dom().contains(k) {
                            let j = choose|j: int| 0 <= j < t.len() && (#[trigger] t[j]).0 == k;
                            if j != i {
                                let sj = if j < i {
                                    j
                                } else {
                                    j - 1
                                };
                                assert(s[sj] == t[j]);
                            }
                        }
                        if entries_map(s).dom().contains(k) {
                            let j = choose|j: int| 0 <= j < s.len() && (#[trigger] s[j]).0 == k;
                            let tj = if j < i {
                                j
                            } else {
                                j + 1
                            };
                            assert(t[tj] == s[j]);
                        }
                        assert(t[i as int].0 == key);
                    }
                    assert forall|k: u16| #[trigger]
                        entries_map(t).dom().contains(k) implies entries_map(t)[k] == entries_map(
                        s,
                    ).insert(key, gain)[k] by {
                        let j = choose|j: int| 0 <= j < t.len() && (#[trigger] t[j]).0 == k;
                        assert(t[j].0 == k);
                        if j != i {
                            let sj = if j < i {
                                j
                            } else {
                                j - 1
                            };
                            assert(s[sj] == t[j]);
                        }
                    }
                }
            }
        }
    }

    /// The two sets of volumes name the same keys, with gains that compare as equal.
    pub open spec fn equals(self, other: Volumes) -> bool {
        &&& self@.dom() == other@.dom()
        &&& forall|k: u16| #[trigger] self@.dom().contains(k) ==> self@[k].equals(other@[k])
    }

    /// Tells whether two sets of volumes are equal.
    pub fn is_equal(&self, other: &Volumes) -> (r: bool)
        requires
            self.wf(),
            other.wf(),
        ensures
            r == self.equals(*other),
    {
        proof {
            lemma_entries_map(self.entries@);
            lemma_entries_map(other.entries@);
        }
        let mut i: usize = 0;
        while i < self.entries.len()
            invariant
                self.wf(),
                other.wf(),
                0 <= i <= self.entries@.len(),
                forall|j: int|
                    0 <= j < self.entries@.len() ==> self@.dom().contains(
                        (#[trigger] self.entries@[j]).0,
                    ) && self@[self.entries@[j].0] == self.entries@[j].1,
                forall|j: int|
                    0 <= j < i ==> other@.dom().contains((#[trigger] self.entries@[j]).0)
                        && self.entries@[j].1.equals(other@[self.entries@[j].0]),
            decreases self.entries@.len() - i,
        {
            let e = self.entries[i];
            proof {
                assert(self.entries@[i as int] == e);
            }
            match other.get(e.0) {
                Some(g) => {
                    if !e.1.is_equal(g) {
                        return false;
                    }
                },
                None => {
                    return false;
                },
            }
            i = i + 1;
        }
        let mut k: usize = 0;
        while k < other.entries.len()
            invariant
                self.wf(),
                0 <= k <= other.entries@.len(),
                forall|j: int|
                    0 <= j < other.entries@.len() ==> other@.dom().contains(
                        (#[trigger] other.entries@[j]).0,
                    ),
                forall|j: int|
                    0 <= j < k ==> self@.dom().contains((#[trigger] other.entries@[j]).0),
            decreases other.entries@.len() - k,
        {
            let e = other.entries[k];
            proof {
                assert(other.entries@[k as int] == e);
            }
            if self.get(e.0).is_none() {
                return false;
            }
            k = k + 1;
        }
        proof {
            assert(self@.dom() =~= other@.dom()) by {
                assert forall|q: u16| self@.dom().contains(q) == other@.dom().contains(q) by {
                    if self@.dom().contains(q) {
                        let j = choose|j: int|
                            0 <= j < self.entries@.len() && (#[trigger] self.entries@[j]).0 == q;
                        assert(self.entries@[j].0 == q);
                    }
                    if other@.dom().contains(q) {
                        let j = choose|j: int|
                            0 <= j < other.entries@.len() && (#[trigger] other.entries@[j]).0 == q;
                        assert(other.entries@[j].0 == q);
                    }
                }
            }
            assert forall|q: u16| #[trigger] self@.dom().contains(q) implies self@[q].equals(
                other@[q],
            ) by {
                let j = choose|j: int|
                    0 <= j < self.entries@.len() && (#[trigger] self.entries@[j]).0 == q;
                assert(self.entries@[j].0 == q);
            }
        }
        true
    }
}

} // verus!
