//! Channel lists and volumes as an operator types and reads them.

use vstd::prelude::*;
use vstd::string::StringExecFns;
use crate::gain::{Gain, Volumes};
use crate::text::{
    blank, chars_of, concat3, decimal, decimal_round_trip, find_from, index_from, is_blank,
    is_digit, is_space, join, join_texts, lemma_trim_keeps, owned, parse_u16, parse_unsigned, split,
    split_text, string_of, texts, trim, trimmed, u64_text,
};

verus! {

// ---------------------------------------------------------------------------
// Channel lists
// ---------------------------------------------------------------------------

/// The numbers that the parts name, or the first part that names none.
pub open spec fn channels_of(parts: Seq<Seq<char>>) -> Result<Seq<u16>, Seq<char>>
    decreases parts.len(),
{
    if parts.len() == 0 {
        Ok(Seq::empty())
    } else {
        match channels_of(parts.drop_last()) {
            Err(part) => Err(part),
            Ok(head) => match parse_unsigned(trim(parts.last()), u16::MAX as nat) {
                Some(n) => Ok(head.push(n as u16)),
                None => Err(parts.last()),
            },
        }
    }
}

/// The channels that a comma-separated list names, or the first part that names none.
pub open spec fn channel_list(value: Seq<char>) -> Result<Seq<u16>, Seq<char>> {
    if is_blank(value) {
        Ok(Seq::empty())
    } else {
        channels_of(split(value, ','))
    }
}

/// Reads a comma-separated list of channels. The error is the part that is not a
/// channel.
pub fn parse_channels(value: &str) -> (r: Result<Vec<u16>, String>)
    ensures
        match r {
            Ok(v) => channel_list(value@) == Ok::<Seq<u16>, Seq<char>>(v@),
            Err(part) => channel_list(value@) == Err::<Seq<u16>, Seq<char>>(part@),
        },
{
    if blank(value) {
        let empty: Vec<u16> = Vec::new();
        return Ok(empty);
    }
    let parts = split_text(value, ',');
    let ghost all = texts(parts@);
    let mut out: Vec<u16> = Vec::new();
    let mut i: usize = 0;
    while i < parts.len()
        invariant
            0 <= i <= parts@.len(),
            all == texts(parts@),
            all == split(value@, ','),
            !is_blank(value@),
            channels_of(all.take(i as int)) == Ok::<Seq<u16>, Seq<char>>(out@),
        decreases parts@.len() - i,
    {
        proof {
            assert(all.take(i + 1).drop_last() =~= all.take(i as int));
            assert(all.take(i + 1).last() == parts@[i as int]@);
        }
        match parse_u16(trimmed(parts[i].as_str()).as_str()) {
            Some(n) => {
                out.push(n);
            },
            None => {
                proof {
                    lemma_channels_error(all, i + 1);
                }
                return Err(parts[i].clone());
            },
        }
        i = i + 1;
    }
    proof {
        assert(all.take(all.len() as int) =~= all);
    }
    Ok(out)
}

/// The error of the first parts is that of all of them.
proof fn lemma_channels_error(parts: Seq<Seq<char>>, n: int)
    requires
        0 <= n <= parts.len(),
        channels_of(parts.take(n)) is Err,
    ensures
        channels_of(parts) == channels_of(parts.take(n)),
    decreases parts.len() - n,
{
    if n < parts.len() {
        assert(parts.take(n + 1).drop_last() =~= parts.take(n));
        lemma_channels_error(parts, n + 1);
    } else {
        assert(parts.take(n) =~= parts);
    }
}

/// The numbers in decimal.
pub open spec fn decimals(ids: Seq<u16>) -> Seq<Seq<char>> {
    Seq::new(ids.len(), |i: int| decimal(ids[i] as nat))
}

/// A list of channels as text: a dash where there is none.
pub open spec fn channels_text(ids: Seq<u16>) -> Seq<char> {
    if ids.len() == 0 {
        "-"@
    } else {
        join(decimals(ids), ","@)
    }
}

/// The numbers in decimal.
pub fn decimal_texts(ids: &Vec<u16>) -> (r: Vec<String>)
    ensures
        texts(r@) == decimals(ids@),
{
    let mut out: Vec<String> = Vec::new();
    let mut i: usize = 0;
    while i < ids.len()
        invariant
            0 <= i <= ids@.len(),
            out@.len() == i,
            forall|j: int| 0 <= j < i ==> (#[trigger] out@[j])@ == decimal(ids@[j] as nat),
        decreases ids@.len() - i,
    {
        out.push(u64_text(ids[i] as u64));
        i = i + 1;
    }
    proof {
        assert(texts(out@) =~= decimals(ids@));
    }
    out
}

/// A list of channels as text.
pub fn format_channels(channels: &Vec<u16>) -> (r: String)
    ensures
        r@ == channels_text(channels@),
{
    if channels.len() == 0 {
        return owned("-");
    }
    join_texts(&decimal_texts(channels), ",")
}

// ---------------------------------------------------------------------------
// Volumes
// ---------------------------------------------------------------------------

/// What can be wrong with a list of volumes.
#[derive(Debug, Clone)]
pub enum VolumeError {
    /// The entry holds no equals sign.
    Entry(String),
    /// The text before the equals sign is not a channel.
    Channel(String),
    /// The text behind the equals sign is not a number.
    Gain(String),
}

/// What is wrong with an entry: which part of it, and the text.
pub enum VolumeFault {
    Entry(Seq<char>),
    Channel(Seq<char>),
    Gain(Seq<char>),
}

impl View for VolumeError {
    type V = VolumeFault;

    open spec fn view(&self) -> VolumeFault {
        match self {
            VolumeError::Entry(s) => VolumeFault::Entry(s@),
            VolumeError::Channel(s) => VolumeFault::Channel(s@),
            VolumeError::Gain(s) => VolumeFault::Gain(s@),
        }
    }
}

/// The texts before and behind the first equals sign.
pub open spec fn split_entry(entry: Seq<char>) -> Option<(Seq<char>, Seq<char>)> {
    let k = index_from(entry, '=', 0);
    if k < entry.len() {
        Some((entry.take(k), entry.skip(k + 1)))
    } else {
        None
    }
}

/// The texts before and behind the first equals sign.
pub fn split_at_equals(entry: &str) -> (r: Option<(String, String)>)
    ensures
        match r {
            Some((a, b)) => split_entry(entry@) == Some((a@, b@)),
            None => split_entry(entry@) is None,
        },
{
    let v = chars_of(entry);
    let n = v.len();
    let k = find_from(&v, '=', 0);
    if k < n {
        let a = string_of(&v, 0, k);
        let b = string_of(&v, k + 1, n);
        proof {
            assert(v@.subrange(0, k as int) =~= v@.take(k as int));
            assert(v@.subrange(k + 1, n as int) =~= v@.skip(k + 1));
        }
        Some((a, b))
    } else {
        None
    }
}

/// The channel that an entry names, and the gain that its text was read as.
pub open spec fn volume_entry(entry: Seq<char>, gain: Option<Gain>) -> Result<
    (u16, Gain),
    VolumeFault,
> {
    match split_entry(entry) {
        None => Err(VolumeFault::Entry(entry)),
        Some((channel, text)) => match parse_unsigned(trim(channel), u16::MAX as nat) {
            None => Err(VolumeFault::Channel(channel)),
            Some(n) => match gain {
                None => Err(VolumeFault::Gain(text)),
                Some(g) => Ok((n as u16, g)),
            },
        },
    }
}

/// The volumes that the entries give, the later ones counting, or what is wrong
/// with the first entry that is not in order.
pub open spec fn volumes_of(entries: Seq<Seq<char>>, gains: Seq<Option<Gain>>) -> Result<
    Map<u16, Gain>,
    VolumeFault,
>
    decreases entries.len(),
{
    if entries.len() == 0 {
        Ok(Map::empty())
    } else {
        match volumes_of(entries.drop_last(), gains) {
            Err(e) => Err(e),
            Ok(head) => match volume_entry(entries.last(), gains[entries.len() - 1]) {
                Err(e) => Err(e),
                Ok((channel, gain)) => Ok(head.insert(channel, gain)),
            },
        }
    }
}

/// The entries of a list of volumes: none where the text is blank.
pub open spec fn volume_entries(value: Seq<char>) -> Seq<Seq<char>> {
    if is_blank(value) {
        Seq::empty()
    } else {
        split(value, ',')
    }
}

/// The text of the gain of each entry of a list of volumes, trimmed, or nothing
/// where the entry holds no equals sign. Reading these as numbers gives what
/// `parse_volumes` takes.
pub fn volume_gain_texts(value: &str) -> (r: Vec<Option<String>>)
    ensures
        r@.len() == volume_entries(value@).len(),
        forall|i: int|
            0 <= i < r@.len() ==> match #[trigger] r@[i] {
                Some(t) => split_entry(volume_entries(value@)[i]) is Some && t@ == trim(
                    split_entry(volume_entries(value@)[i])->Some_0.1,
                ),
                None => split_entry(volume_entries(value@)[i]) is None,
            },
{
    let mut out: Vec<Option<String>> = Vec::new();
    if blank(value) {
        return out;
    }
    let parts = split_text(value, ',');
    let ghost all = split(value@, ',');
    let mut i: usize = 0;
    while i < parts.len()
        invariant
            0 <= i <= parts@.len(),
            all == texts(parts@),
            out@.len() == i,
            forall|j: int|
                0 <= j < i ==> match #[trigger] out@[j] {
                    Some(t) => split_entry(all[j]) is Some && t@ == trim(
                        split_entry(all[j])->Some_0.1,
                    ),
                    None => split_entry(all[j]) is None,
                },
        decreases parts@.len() - i,
    {
        proof {
            assert(all[i as int] == parts@[i as int]@);
        }
        match split_at_equals(parts[i].as_str()) {
            Some((_, gain)) => {
                out.push(Some(trimmed(gain.as_str())));
            },
            None => {
                out.push(None);
            },
        }
        i = i + 1;
    }
    out
}

/// Reads a list of volumes such as `1=0.5,2=1`. `gains` holds what the gain of
/// each entry reads as, in the order of `volume_gain_texts`.
pub fn parse_volumes(value: &str, gains: &Vec<Option<Gain>>) -> (r: Result<Volumes, VolumeError>)
    requires
        gains@.len() == volume_entries(value@).len(),
    ensures
        match r {
            Ok(v) => v.wf() && volumes_of(volume_entries(value@), gains@) == Ok::<
                Map<u16, Gain>,
                VolumeFault,
            >(v@),
            Err(e) => volumes_of(volume_entries(value@), gains@) == Err::<
                Map<u16, Gain>,
                VolumeFault,
            >(e@),
        },
{
    let mut volumes = Volumes::new();
    if blank(value) {
        return Ok(volumes);
    }
    let parts = split_text(value, ',');
    let ghost all = split(value@, ',');
    let mut i: usize = 0;
    while i < parts.len()
        invariant
            0 <= i <= parts@.len(),
            all == texts(parts@),
            all == volume_entries(value@),
            gains@.len() == parts@.len(),
            volumes.wf(),
            volumes_of(all.take(i as int), gains@) == Ok::<Map<u16, Gain>, VolumeFault>(volumes@),
        decreases parts@.len() - i,
    {
        proof {
            assert(all[i as int] == parts@[i as int]@);
            assert(all.take(i + 1).drop_last() =~= all.take(i as int));
            assert(all.take(i + 1).last() == all[i as int]);
            assert(all.take(i + 1).len() - 1 == i);
            if volume_entry(all[i as int], gains@[i as int]) is Err {
                lemma_volumes_error(all, gains@, i + 1);
            }
        }
        match split_at_equals(parts[i].as_str()) {
            None => {
                return Err(VolumeError::Entry(parts[i].clone()));
            },
            Some((channel, gain_text)) => {
                match parse_u16(trimmed(channel.as_str()).as_str()) {
                    None => {
                        return Err(VolumeError::Channel(channel));
                    },
                    Some(n) => {
                        match gains[i] {
                            None => {
                                return Err(VolumeError::Gain(gain_text));
                            },
                            Some(g) => {
                                volumes.insert(n, g);
                            },
                        }
                    },
                }
            },
        }
        i = i + 1;
    }
    proof {
        assert(all.take(all.len() as int) =~= all);
    }
    Ok(volumes)
}

proof fn lemma_volumes_error(entries: Seq<Seq<char>>, gains: Seq<Option<Gain>>, n: int)
    requires
        0 <= n <= entries.len(),
        volumes_of(entries.take(n), gains) is Err,
    ensures
        volumes_of(entries, gains) == volumes_of(entries.take(n), gains),
    decreases entries.len() - n,
{
    if n < entries.len() {
        assert(entries.take(n + 1).drop_last() =~= entries.take(n));
        lemma_volumes_error(entries, gains, n + 1);
    } else {
        assert(entries.take(n) =~= entries);
    }
}

/// The entries of volumes as text.
pub open spec fn entry_texts(entries: Seq<(u16, Gain)>, gains: Seq<Seq<char>>) -> Seq<Seq<char>> {
    Seq::new(entries.len(), |i: int| decimal(entries[i].0 as nat) + "="@ + gains[i])
}

/// Volumes as text, in the order of their channels. `gains` holds the text of
/// each gain in that order.
pub fn format_volumes(volumes: &Volumes, gains: &Vec<String>) -> (r: String)
    requires
        gains@.len() == volumes.entries@.len(),
    ensures
        r@ == if volumes.entries@.len() == 0 {
            "-"@
        } else {
            join(entry_texts(volumes.entries@, texts(gains@)), ","@)
        },
{
    if volumes.entries.len() == 0 {
        return owned("-");
    }
    let mut out: Vec<String> = Vec::new();
    let mut i: usize = 0;
    while i < volumes.entries.len()
        invariant
            0 <= i <= volumes.entries@.len(),
            gains@.len() == volumes.entries@.len(),
            out@.len() == i,
            forall|j: int|
                0 <= j < i ==> (#[trigger] out@[j])@ == decimal(volumes.entries@[j].0 as nat) + "="@
                    + gains@[j]@,
        decreases volumes.entries@.len() - i,
    {
        let e = volumes.entries[i];
        out.push(concat3(u64_text(e.0 as u64).as_str(), "=", gains[i].as_str()));
        i = i + 1;
    }
    proof {
        assert(texts(out@) =~= entry_texts(volumes.entries@, texts(gains@)));
    }
    join_texts(&out, ",")
}

// ---------------------------------------------------------------------------
// Laws
// ---------------------------------------------------------------------------

proof fn lemma_split_plain(s: Seq<char>, sep: char)
    requires
        !s.contains(sep),
    ensures
        split(s, sep) == seq![s],
    decreases s.len(),
{
    if s.len() > 0 {
        let t = s.drop_last();
        assert(s[s.len() - 1] != sep);
        assert(!t.contains(sep)) by {
            if t.contains(sep) {
                let k = choose|k: int| 0 <= k < t.len() && t[k] == sep;
                assert(s[k] == sep);
            }
        }
        lemma_split_plain(t, sep);
        assert(seq![t].drop_last().push(seq![t].last().push(s.last())) =~= seq![s]) by {
            assert(t.push(s.last()) =~= s);
        }
    } else {
        assert(s =~= Seq::<char>::empty());
    }
}

/// Splitting what was put together at a separator gives the pieces of the two sides.
proof fn lemma_split_append(a: Seq<char>, b: Seq<char>, sep: char)
    requires
        !b.contains(sep),
    ensures
        split(a + seq![sep] + b, sep) == split(a, sep).push(b),
    decreases b.len(),
{
    let s = a + seq![sep] + b;
    if b.len() == 0 {
        assert(s.drop_last() =~= a);
        assert(b =~= Seq::<char>::empty());
    } else {
        let c = b.drop_last();
        assert(b[b.len() - 1] != sep);
        assert(!c.contains(sep)) by {
            if c.contains(sep) {
                let k = choose|k: int| 0 <= k < c.len() && c[k] == sep;
                assert(b[k] == sep);
            }
        }
        lemma_split_append(a, c, sep);
        assert(s.drop_last() =~= a + seq![sep] + c);
        let head = split(a, sep).push(c);
        assert(head.drop_last() =~= split(a, sep));
        assert(c.push(b.last()) =~= b);
    }
}

proof fn lemma_decimal_plain(n: nat)
    requires
        n <= u16::MAX,
    ensures
        !decimal(n).contains(','),
        decimal(n).len() > 0,
        trim(decimal(n)) == decimal(n),
        parse_unsigned(trim(decimal(n)), u16::MAX as nat) == Some(n),
{
    decimal_round_trip(n, u16::MAX as nat);
    let d = decimal(n);
    assert forall|k: int| 0 <= k < d.len() implies d[k] != ',' && !is_space(#[trigger] d[k]) by {
        assert(is_digit(d[k]));
    }
    assert(!d.contains(','));
    assert(!is_space(d[0]) && !is_space(d[d.len() - 1]));
    lemma_trim_keeps(d);
}

proof fn lemma_join_split(ids: Seq<u16>)
    requires
        ids.len() > 0,
    ensures
        split(join(decimals(ids), ","@), ',') == decimals(ids),
        channels_of(decimals(ids)) == Ok::<Seq<u16>, Seq<char>>(ids),
        join(decimals(ids), ","@).len() > 0,
        is_digit(join(decimals(ids), ","@)[0]),
    decreases ids.len(),
{
    reveal_strlit(",");
    assert(","@ =~= seq![',']);
    let d = decimals(ids);
    let t = ids.drop_last();
    assert(d.drop_last() =~= decimals(t));
    assert(d.last() == decimal(ids.last() as nat));
    lemma_decimal_plain(ids.last() as nat);
    decimal_round_trip(ids.last() as nat, u16::MAX as nat);
    if ids.len() == 1 {
        lemma_split_plain(d[0], ',');
        assert(d =~= seq![d[0]]);
        assert(d.drop_last() =~= Seq::<Seq<char>>::empty());
        assert(ids =~= Seq::<u16>::empty().push(ids[0]));
        assert(is_digit(d[0][0]));
    } else {
        lemma_join_split(t);
        lemma_split_append(join(decimals(t), ","@), d.last(), ',');
        assert(d =~= decimals(t).push(d.last()));
        assert(ids =~= t.push(ids.last()));
    }
}

/// Reading back a list of channels that was written as text gives the list.
pub proof fn channels_round_trip(ids: Seq<u16>)
    requires
        ids.len() > 0,
    ensures
        channel_list(channels_text(ids)) == Ok::<Seq<u16>, Seq<char>>(ids),
{
    lemma_join_split(ids);
    let s = join(decimals(ids), ","@);
    assert(!is_blank(s)) by {
        assert(!is_space(s[0]));
        crate::text::lemma_trim_nonblank(s);
    }
}

} // verus!
