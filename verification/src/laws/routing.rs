//! Channel lists and volumes.

use vstd::prelude::*;

use crate::gain::{Gain, Volumes};
use crate::laws::text::{all_space, lemma_blank, lemma_join_split};
use crate::routing::{
    channels_of, channels_round_trip, entry_texts, format_channels, format_volumes, parse_channels,
    parse_volumes, split_at_equals, split_entry, volume_entry, volume_gain_texts, volumes_of,
    VolumeError,
};
use crate::text::{
    decimal, decimal_round_trip, index_from, is_digit, join, lemma_index_from, parse_unsigned,
    split, texts, trim,
};

verus! {

/// The number that a text writes, with white space around it, where it is a channel.
pub open spec fn number_in(s: Seq<char>) -> Option<nat> {
    parse_unsigned(trim(s), u16::MAX as nat)
}

proof fn lemma_channels(parts: Seq<Seq<char>>)
    ensures
        match channels_of(parts) {
            Ok(ids) => ids.len() == parts.len() && forall|i: int|
                0 <= i < parts.len() ==> number_in(#[trigger] parts[i]) == Some(ids[i] as nat),
            Err(part) => exists|i: int|
                0 <= i < parts.len() && #[trigger] parts[i] == part && number_in(part) is None
                    && forall|j: int| 0 <= j < i ==> number_in(#[trigger] parts[j]) is Some,
        },
    decreases parts.len(),
{
    if parts.len() > 0 {
        let h = parts.drop_last();
        lemma_channels(h);
        match channels_of(h) {
            Err(part) => {
                let i = choose|i: int|
                    0 <= i < h.len() && #[trigger] h[i] == part && number_in(part) is None
                        && forall|j: int| 0 <= j < i ==> number_in(#[trigger] h[j]) is Some;
                assert(parts[i] == part);
                assert forall|j: int| 0 <= j < i implies number_in(
                    #[trigger] parts[j],
                ) is Some by {
                    assert(h[j] == parts[j]);
                }
            },
            Ok(head) => {
                let n = h.len() as int;
                assert forall|j: int| 0 <= j < n implies number_in(#[trigger] parts[j]) == Some(
                    head[j] as nat,
                ) by {
                    assert(h[j] == parts[j]);
                }
                if number_in(parts.last()) is None {
                    assert(parts[n] == parts.last());
                }
            },
        }
    }
}

/// A list of channels is read piece by piece between the commas: where every piece is
/// a number the channels are those numbers in their order, and otherwise the first
/// piece that is none is told.
pub proof fn channels_are_read_piece_by_piece(
    value: &str,
    r: Result<Vec<u16>, String>,
    pieces: Seq<Seq<char>>,
)
    requires
        call_ensures(parse_channels, (value,), r),
        pieces == split(value@, ','),
    ensures
        all_space(value@) ==> r is Ok && r->Ok_0@.len() == 0,
        !all_space(value@) && r is Ok ==> r->Ok_0@.len() == pieces.len() && forall|i: int|
            0 <= i < pieces.len() ==> number_in(#[trigger] pieces[i]) == Some(r->Ok_0@[i] as nat),
        r is Err ==> exists|i: int|
            0 <= i < pieces.len() && #[trigger] pieces[i] == r->Err_0@ && number_in(pieces[i])
                is None && forall|j: int|
                0 <= j < i ==> number_in(#[trigger] pieces[j]) is Some,
{
    lemma_blank(value@);
    lemma_channels(pieces);
}

/// Channels that are written as text are read back as they were; none is a dash.
pub proof fn channels_are_read_as_written(
    ids: Vec<u16>,
    text: String,
    value: &str,
    r: Result<Vec<u16>, String>,
)
    requires
        call_ensures(format_channels, (&ids,), text),
        value@ == text@,
        call_ensures(parse_channels, (value,), r),
    ensures
        ids@.len() == 0 ==> text@ == "-"@,
        ids@.len() > 0 ==> r is Ok && r->Ok_0@ == ids@,
        ids@.len() == 1 ==> text@ == decimal(ids@[0] as nat),
        ids@.len() == 2 ==> text@ == decimal(ids@[0] as nat) + ","@ + decimal(ids@[1] as nat),
{
    if ids@.len() > 0 {
        channels_round_trip(ids@);
    }
    if ids@.len() == 2 {
        let d = crate::routing::decimals(ids@);
        assert(join(d.drop_last(), ","@) == d[0]);
    }
}

/// An entry is parted at its first equals sign.
pub proof fn entries_are_parted_at_the_sign(entry: &str, r: Option<(String, String)>)
    requires
        call_ensures(split_at_equals, (entry,), r),
    ensures
        r is None <==> !entry@.contains('='),
        r is Some ==> entry@ == r->Some_0.0@ + seq!['='] + r->Some_0.1@,
        r is Some ==> !r->Some_0.0@.contains('='),
{
    let k = index_from(entry@, '=', 0);
    lemma_index_from(entry@, '=', 0);
    if r is Some {
        assert(entry@[k] == '=');
        assert(entry@ =~= entry@.take(k) + seq!['='] + entry@.skip(k + 1));
    } else if entry@.contains('=') {
        let j = choose|j: int| 0 <= j < entry@.len() && entry@[j] == '=';
        assert(entry@[j] != '=');
    }
}

/// The channel that an entry names.
pub open spec fn channel_in(entry: Seq<char>) -> Option<nat> {
    match split_entry(entry) {
        Some((channel, _)) => number_in(channel),
        None => None,
    }
}

proof fn lemma_volumes(entries: Seq<Seq<char>>, gains: Seq<Option<Gain>>)
    requires
        entries.len() <= gains.len(),
    ensures
        match volumes_of(entries, gains) {
            Ok(m) => {
                &&& forall|i: int|
                    0 <= i < entries.len() ==> channel_in(#[trigger] entries[i]) is Some
                        && gains[i] is Some && m.dom().contains(
                        channel_in(entries[i])->Some_0 as u16,
                    )
                &&& forall|c: u16| #[trigger]
                    m.dom().contains(c) ==> exists|i: int|
                        0 <= i < entries.len() && channel_in(#[trigger] entries[i]) == Some(
                            c as nat,
                        ) && gains[i] == Some(m[c]) && forall|j: int|
                            i < j < entries.len() ==> channel_in(#[trigger] entries[j]) != Some(
                                c as nat,
                            )
            },
            Err(_) => exists|i: int|
                0 <= i < entries.len() && (channel_in(#[trigger] entries[i]) is None || gains[i]
                    is None),
        },
    decreases entries.len(),
{
    if entries.len() > 0 {
        let h = entries.drop_last();
        let n = h.len() as int;
        lemma_volumes(h, gains);
        match volumes_of(h, gains) {
            Err(_) => {
                let i = choose|i: int|
                    0 <= i < h.len() && (channel_in(#[trigger] h[i]) is None || gains[i] is None);
                assert(channel_in(entries[i]) is None || gains[i] is None);
            },
            Ok(head) => {
                match volume_entry(entries[n], gains[n]) {
                    Err(_) => {
                        assert(channel_in(entries[n]) is None || gains[n] is None);
                    },
                    Ok((channel, gain)) => {
                        let m = head.insert(channel, gain);
                        assert forall|i: int| 0 <= i < entries.len() implies channel_in(
                            #[trigger] entries[i],
                        ) is Some && gains[i] is Some && m.dom().contains(
                            channel_in(entries[i])->Some_0 as u16,
                        ) by {
                            if i < n {
                                assert(h[i] == entries[i]);
                            }
                        }
                        assert forall|c: u16| #[trigger] m.dom().contains(c) implies exists|i: int|
                            0 <= i < entries.len() && channel_in(#[trigger] entries[i]) == Some(
                                c as nat,
                            ) && gains[i] == Some(m[c]) && forall|j: int|
                                i < j < entries.len() ==> channel_in(#[trigger] entries[j])
                                    != Some(c as nat) by {
                            if c == channel {
                                assert(channel_in(entries[n]) == Some(c as nat));
                            } else {
                                assert(head.dom().contains(c));
                                let i = choose|i: int|
                                    0 <= i < h.len() && channel_in(#[trigger] h[i]) == Some(
                                        c as nat,
                                    ) && gains[i] == Some(head[c]) && forall|j: int|
                                        i < j < h.len() ==> channel_in(#[trigger] h[j]) != Some(
                                            c as nat,
                                        );
                                assert(entries[i] == h[i]);
                                assert forall|j: int| i < j < entries.len() implies channel_in(
                                    #[trigger] entries[j],
                                ) != Some(c as nat) by {
                                    if j < n {
                                        assert(h[j] == entries[j]);
                                    }
                                }
                            }
                        }
                    },
                }
            },
        }
    }
}

/// Volumes are read entry by entry between the commas. Every channel that an entry
/// names gets a volume, no other one does, and the last entry for a channel counts.
pub proof fn the_last_volume_of_a_channel_counts(
    value: &str,
    gains: Vec<Option<Gain>>,
    r: Result<Volumes, VolumeError>,
    entries: Seq<Seq<char>>,
    i: int,
    c: u16,
)
    requires
        call_ensures(parse_volumes, (value, &gains), r),
        entries == split(value@, ','),
        !all_space(value@),
        gains@.len() == entries.len(),
        r is Ok,
    ensures
        0 <= i < entries.len() ==> channel_in(entries[i]) is Some && r->Ok_0@.dom().contains(
            channel_in(entries[i])->Some_0 as u16,
        ),
        r->Ok_0@.dom().contains(c) ==> exists|k: int|
            0 <= k < entries.len() && channel_in(#[trigger] entries[k]) == Some(c as nat)
                && gains@[k] == Some(r->Ok_0@[c]) && forall|j: int|
                k < j < entries.len() ==> channel_in(#[trigger] entries[j]) != Some(c as nat),
{
    lemma_blank(value@);
    lemma_volumes(entries, gains@);
    if 0 <= i < entries.len() {
        let e = entries[i];
    }
}

/// Volumes are refused exactly where an entry names no channel or its gain is none;
/// blank text gives none.
pub proof fn volumes_are_refused_where_an_entry_is_wrong(
    value: &str,
    gains: Vec<Option<Gain>>,
    r: Result<Volumes, VolumeError>,
    entries: Seq<Seq<char>>,
)
    requires
        call_ensures(parse_volumes, (value, &gains), r),
        entries == split(value@, ','),
        gains@.len() == entries.len(),
    ensures
        all_space(value@) ==> r is Ok && r->Ok_0@ == Map::<u16, Gain>::empty(),
        !all_space(value@) ==> (r is Err <==> exists|i: int|
            0 <= i < entries.len() && (channel_in(#[trigger] entries[i]) is None || gains@[i]
                is None)),
{
    lemma_blank(value@);
    lemma_volumes(entries, gains@);
}

/// The gain of each entry is the text behind its first equals sign.
pub proof fn gains_stand_behind_the_sign(
    value: &str,
    r: Vec<Option<String>>,
    i: int,
    entry: &str,
    parts: Option<(String, String)>,
)
    requires
        call_ensures(volume_gain_texts, (value,), r),
        !all_space(value@),
        0 <= i < split(value@, ',').len(),
        entry@ == split(value@, ',')[i],
        call_ensures(split_at_equals, (entry,), parts),
    ensures
        r@.len() == split(value@, ',').len(),
        r@[i] is Some <==> parts is Some,
        parts is Some ==> r@[i]->Some_0@ == trim(parts->Some_0.1@),
{
    lemma_blank(value@);
    let e = r@[i];
}

/// Volumes that are written as text name each channel with its gain, in the order of
/// the channels; none is a dash.
pub proof fn volumes_are_written_in_order(
    volumes: Volumes,
    gains: Vec<String>,
    text: String,
    pieces: Seq<Seq<char>>,
    i: int,
)
    requires
        call_ensures(format_volumes, (&volumes, &gains), text),
        gains@.len() == volumes.entries@.len(),
        pieces == split(text@, ','),
        forall|k: int| 0 <= k < gains@.len() ==> !(#[trigger] gains@[k])@.contains(','),
        0 <= i < volumes.entries@.len(),
    ensures
        pieces.len() == volumes.entries@.len(),
        pieces[i] == decimal(volumes.entries@[i].0 as nat) + "="@ + gains@[i]@,
{
    let e = entry_texts(volumes.entries@, texts(gains@));
    reveal_strlit(",");
    reveal_strlit("=");
    assert(","@ =~= seq![',']);
    assert forall|k: int| 0 <= k < e.len() implies !(#[trigger] e[k]).contains(',') by {
        let d = decimal(volumes.entries@[k].0 as nat);
        decimal_round_trip(volumes.entries@[k].0 as nat, u16::MAX as nat);
        assert(texts(gains@)[k] == gains@[k]@);
        assert(!gains@[k]@.contains(','));
        if e[k].contains(',') {
            let j = choose|j: int| 0 <= j < e[k].len() && e[k][j] == ',';
            if j < d.len() {
                assert(is_digit(d[j]));
            } else if j > d.len() {
                assert(gains@[k]@[j - d.len() - 1] == ',');
            }
        }
    }
    lemma_join_split(e, ',');
    assert(texts(gains@)[i] == gains@[i]@);
}

} // verus!
