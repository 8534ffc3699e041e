//! The launcher of bridge routes: what it offers to choose from, what it plays to
//! browsers, and the state of its routes.

use vstd::prelude::*;
use vstd::utf8::*;

use crate::auth::utf8_text;
use crate::endpoint::opt_text;
use crate::json::{json_rows, read_json_rows, rows, rows_read};
use crate::order::{
    alike, by_rank, drop_alike, drop_repeats, drop_repeats_keeps_order,
    drop_repeats_keeps_the_first, drop_through, first_such, first_such_at, first_such_found,
    is_ranking, sort_items, sort_keeps_members, sort_keeps_the_first, sort_sorts, sort_through,
    stable_sort, Ranked,
};
use crate::routes::{
    source_path, BridgeAppConfig, BridgeRouteConfig, RouteInputKind, RouteOutputKind,
};
use crate::text::{
    blank, concat2, concat3, concat4, decimal, is_blank, owned, same, text_before, text_in,
    text_order_is_total, text_order_is_transitive, texts, trim, trimmed, u64_text,
};
use crate::web::{
    encode_path_segment, first_line, header_body, headers_ok, html_escape, html_text, is_success,
    read_first_line, split_response, trim_end_char, without_trailing,
};

verus! {

// ---------------------------------------------------------------------------
// Names that were discovered

/// The texts that say something.
pub open spec fn said_only(s: Seq<Seq<char>>) -> Seq<Seq<char>>
    decreases s.len(),
{
    if s.len() == 0 {
        Seq::empty()
    } else if is_blank(s.last()) {
        said_only(s.drop_last())
    } else {
        said_only(s.drop_last()).push(s.last())
    }
}

/// The order of texts.
pub open spec fn text_order() -> spec_fn(Seq<char>, Seq<char>) -> bool {
    |a: Seq<char>, b: Seq<char>| text_before(a, b)
}

/// Two texts are one.
pub open spec fn same_text() -> spec_fn(Seq<char>, Seq<char>) -> bool {
    |a: Seq<char>, b: Seq<char>| a == b
}

/// Names as they are offered: in order, each once, none blank.
pub open spec fn offered_names(s: Seq<Seq<char>>) -> Seq<Seq<char>> {
    drop_repeats(stable_sort(said_only(s), text_order()), same_text())
}

fn keep_said(names: Vec<String>) -> (r: Vec<String>)
    ensures
        texts(r@) == said_only(texts(names@)),
{
    let ghost all = texts(names@);
    let mut out: Vec<String> = Vec::new();
    let mut i: usize = 0;
    proof {
        assert(texts(out@) =~= Seq::<Seq<char>>::empty());
    }
    while i < names.len()
        invariant
            0 <= i <= names@.len(),
            all == texts(names@),
            texts(out@) == said_only(all.take(i as int)),
        decreases names@.len() - i,
    {
        let ghost before = out@;
        proof {
            assert(all.take(i + 1).drop_last() =~= all.take(i as int));
            assert(all.take(i + 1).last() == names@[i as int]@);
        }
        if !blank(names[i].as_str()) {
            out.push(names[i].clone());
            proof {
                assert(texts(out@) =~= texts(before).push(names@[i as int]@));
            }
        }
        i = i + 1;
    }
    proof {
        assert(all.take(all.len() as int) =~= all);
    }
    out
}

/// Brings discovered names in order.
pub fn sorted_names(names: Vec<String>) -> (r: Vec<String>)
    ensures
        texts(r@) == offered_names(texts(names@)),
{
    let said = keep_said(names);
    let ghost s = said@;
    let sorted = sort_items(said);
    let ghost t = sorted@;
    let out = drop_alike(sorted);
    proof {
        let seen = |x: String| x@;
        let before = by_rank::<String>();
        let order = text_order();
        assert forall|a: String, b: String| #[trigger] before(a, b) == order(seen(a), seen(b)) by {}
        sort_through(s, before, seen, order);
        let near = alike::<String>();
        let equal = same_text();
        assert forall|a: String, b: String| #[trigger] near(a, b) == equal(seen(a), seen(b)) by {
            text_order_is_total(a@, b@);
            text_order_is_total(b@, a@);
        }
        drop_through(t, near, seen, equal);
        assert(texts(s) =~= s.map_values(seen));
        assert(texts(out@) =~= out@.map_values(seen));
    }
    out
}

proof fn lemma_text_order_ranks()
    ensures
        is_ranking(text_order()),
{
    let order = text_order();
    assert forall|a: Seq<char>| !#[trigger] order(a, a) by {
        text_order_is_total(a, a);
    }
    assert forall|a: Seq<char>, b: Seq<char>, c: Seq<char>|
        #![trigger order(a, b), order(b, c)]
        #![trigger order(a, c), order(b, c)]
        order(a, b) && order(b, c) implies order(a, c) by {
        text_order_is_transitive(a, b, c);
    }
    assert forall|a: Seq<char>, b: Seq<char>, c: Seq<char>|
        #![trigger order(a, b), order(b, c)]
        #![trigger order(a, c), order(b, c)]
        !order(a, b) && !order(b, c) implies !order(a, c) by {
        text_order_is_total(a, b);
        text_order_is_total(b, c);
        if order(a, c) {
            if a != b {
                text_order_is_transitive(b, a, c);
            }
        }
    }
}

proof fn lemma_said_only(s: Seq<Seq<char>>, x: Seq<char>)
    ensures
        said_only(s).contains(x) <==> (s.contains(x) && !is_blank(x)),
    decreases s.len(),
{
    if s.len() > 0 {
        lemma_said_only(s.drop_last(), x);
        let rest = said_only(s.drop_last());
        assert(s =~= s.drop_last().push(s.last()));
        assert(s.contains(x) <==> (s.drop_last().contains(x) || x == s.last())) by {
            if s.drop_last().contains(x) {
                let k = choose|k: int| 0 <= k < s.drop_last().len() && s.drop_last()[k] == x;
                assert(s[k] == x);
            }
            if s.contains(x) && x != s.last() {
                let k = choose|k: int| 0 <= k < s.len() && s[k] == x;
                assert(s.drop_last()[k] == x);
            }
            assert(s[s.len() - 1] == s.last());
        }
        if !is_blank(s.last()) {
            let r = rest.push(s.last());
            assert(r.contains(x) <==> (rest.contains(x) || x == s.last())) by {
                if rest.contains(x) {
                    let k = choose|k: int| 0 <= k < rest.len() && rest[k] == x;
                    assert(r[k] == x);
                }
                if r.contains(x) && x != s.last() {
                    let k = choose|k: int| 0 <= k < r.len() && r[k] == x;
                    assert(rest[k] == x);
                }
                assert(r[r.len() - 1] == s.last());
            }
        }
    }
}

/// Offered names come in strict order, so each comes once; each was discovered
/// and says something.
pub proof fn offered_names_are_in_order(s: Seq<Seq<char>>, i: int, j: int)
    requires
        0 <= i < j < offered_names(s).len(),
    ensures
        text_before(offered_names(s)[i], offered_names(s)[j]),
        s.contains(offered_names(s)[i]) && !is_blank(offered_names(s)[i]),
        s.contains(offered_names(s)[j]) && !is_blank(offered_names(s)[j]),
{
    let order = text_order();
    lemma_text_order_ranks();
    let sorted = stable_sort(said_only(s), order);
    sort_sorts(said_only(s), order);
    drop_repeats_keeps_order(sorted, same_text(), order);
    let r = offered_names(s);
    sort_keeps_members(said_only(s), order, r[i]);
    sort_keeps_members(said_only(s), order, r[j]);
    lemma_said_only(s, r[i]);
    lemma_said_only(s, r[j]);
    assert(!order(r[j], r[i]));
    let same = same_text();
    assert(!same(r[i + 1 - 1], r[i + 1]));
    text_order_is_total(r[i], r[j]);
    text_order_is_total(r[i], r[i + 1]);
    if r[i] == r[j] {
        assert(!order(r[i + 1], r[i]));
        if i + 1 < j {
            assert(!order(r[j], r[i + 1]));
        }
        assert(order(r[i], r[i + 1]));
        assert(order(r[j], r[i + 1]));
    }
}

// ---------------------------------------------------------------------------
// Channels

/// A channel that a route can be given.
#[derive(Debug, Clone, PartialEq, Eq)]
pub struct ChannelOption {
    pub id: u16,
    pub name: String,
}

/// A channel: its number and its name.
pub open spec fn channel(c: ChannelOption) -> (u16, Seq<char>) {
    (c.id, c.name@)
}

/// Channels: their numbers and names.
pub open spec fn channels(s: Seq<ChannelOption>) -> Seq<(u16, Seq<char>)> {
    s.map_values(|c: ChannelOption| channel(c))
}

impl Ranked for ChannelOption {
    open spec fn precedes(self, other: Self) -> bool {
        self.id < other.id
    }

    fn comes_before(&self, other: &Self) -> (r: bool) {
        self.id < other.id
    }
}

/// The order of channels.
pub open spec fn channel_order() -> spec_fn((u16, Seq<char>), (u16, Seq<char>)) -> bool {
    |a: (u16, Seq<char>), b: (u16, Seq<char>)| a.0 < b.0
}

/// Two channels have one number.
pub open spec fn same_channel() -> spec_fn((u16, Seq<char>), (u16, Seq<char>)) -> bool {
    |a: (u16, Seq<char>), b: (u16, Seq<char>)| a.0 == b.0
}

/// The channels of the first `n` routes: of each, those it transmits on, then
/// those it listens to.
pub open spec fn routed_channels(routes: Seq<BridgeRouteConfig>, n: int) -> Seq<u16>
    decreases n,
{
    if n <= 0 {
        Seq::empty()
    } else {
        routed_channels(routes, n - 1) + routes[n - 1].tx_channels@ + routes[n
            - 1].listen_channels@
    }
}

/// A channel with that number is among the options.
pub open spec fn offers(options: Seq<(u16, Seq<char>)>, id: u16) -> bool {
    exists|i: int| 0 <= i < options.len() && (#[trigger] options[i]).0 == id
}

/// The options with one for that channel, where there was none.
pub open spec fn with_channel(options: Seq<(u16, Seq<char>)>, id: u16) -> Seq<(u16, Seq<char>)> {
    if offers(options, id) {
        options
    } else {
        options.push((id, "Channel "@ + decimal(id as nat)))
    }
}

/// The options with one for each of those channels, taken one after the other.
pub open spec fn with_channels(options: Seq<(u16, Seq<char>)>, ids: Seq<u16>) -> Seq<
    (u16, Seq<char>),
>
    decreases ids.len(),
{
    if ids.len() == 0 {
        options
    } else {
        with_channel(with_channels(options, ids.drop_last()), ids.last())
    }
}

/// The channels that routes can be given: those known, and those the routes have
/// already, in order, each once.
pub open spec fn merged_channels(
    options: Seq<(u16, Seq<char>)>,
    routes: Seq<BridgeRouteConfig>,
) -> Seq<(u16, Seq<char>)> {
    drop_repeats(
        stable_sort(
            with_channels(options, routed_channels(routes, routes.len() as int)),
            channel_order(),
        ),
        same_channel(),
    )
}

fn offers_channel(options: &Vec<ChannelOption>, id: u16) -> (r: bool)
    ensures
        r == offers(channels(options@), id),
{
    let mut i: usize = 0;
    while i < options.len()
        invariant
            0 <= i <= options@.len(),
            forall|j: int| 0 <= j < i ==> (#[trigger] channels(options@)[j]).0 != id,
        decreases options@.len() - i,
    {
        proof {
            assert(channels(options@)[i as int].0 == options@[i as int].id);
        }
        if options[i].id == id {
            return true;
        }
        i = i + 1;
    }
    false
}

fn offer_all(options: &mut Vec<ChannelOption>, ids: &Vec<u16>)
    ensures
        channels(final(options)@) == with_channels(channels(old(options)@), ids@),
{
    let ghost start = channels(old(options)@);
    let mut i: usize = 0;
    proof {
        assert(ids@.take(0) =~= Seq::<u16>::empty());
    }
    while i < ids.len()
        invariant
            0 <= i <= ids@.len(),
            channels(options@) == with_channels(start, ids@.take(i as int)),
        decreases ids@.len() - i,
    {
        let id = ids[i];
        let ghost before = channels(options@);
        proof {
            assert(ids@.take(i + 1).drop_last() =~= ids@.take(i as int));
            assert(ids@.take(i + 1).last() == id);
        }
        if !offers_channel(options, id) {
            options.push(
                ChannelOption { id, name: concat2("Channel ", u64_text(id as u64).as_str()) },
            );
            proof {
                assert(channels(options@) =~= before.push(
                    (id, "Channel "@ + decimal(id as nat)),
                ));
            }
        }
        i = i + 1;
    }
    proof {
        assert(ids@.take(ids@.len() as int) =~= ids@);
    }
}

proof fn lemma_with_channels_splits(options: Seq<(u16, Seq<char>)>, a: Seq<u16>, b: Seq<u16>)
    ensures
        with_channels(options, a + b) == with_channels(with_channels(options, a), b),
    decreases b.len(),
{
    if b.len() > 0 {
        lemma_with_channels_splits(options, a, b.drop_last());
        assert((a + b).drop_last() =~= a + b.drop_last());
        assert((a + b).last() == b.last());
    } else {
        assert(a + b =~= a);
    }
}

/// The channels that routes can be given.
pub fn merge_channel_options(options: Vec<ChannelOption>, config: &BridgeAppConfig) -> (r: Vec<
    ChannelOption,
>)
    ensures
        channels(r@) == merged_channels(channels(options@), config.routes@),
{
    let ghost start = channels(options@);
    let ghost routes = config.routes@;
    let mut all = options;
    let mut i: usize = 0;
    while i < config.routes.len()
        invariant
            0 <= i <= config.routes@.len(),
            routes == config.routes@,
            channels(all@) == with_channels(start, routed_channels(routes, i as int)),
        decreases config.routes@.len() - i,
    {
        offer_all(&mut all, &config.routes[i].tx_channels);
        offer_all(&mut all, &config.routes[i].listen_channels);
        proof {
            let before = routed_channels(routes, i as int);
            let tx = routes[i as int].tx_channels@;
            let listen = routes[i as int].listen_channels@;
            lemma_with_channels_splits(start, before, tx);
            lemma_with_channels_splits(start, before + tx, listen);
        }
        i = i + 1;
    }
    let ghost s = all@;
    let sorted = sort_items(all);
    let ghost t = sorted@;
    let out = drop_alike(sorted);
    proof {
        let seen = |c: ChannelOption| channel(c);
        let before = by_rank::<ChannelOption>();
        let order = channel_order();
        assert forall|a: ChannelOption, b: ChannelOption| #[trigger]
            before(a, b) == order(seen(a), seen(b)) by {}
        sort_through(s, before, seen, order);
        let near = alike::<ChannelOption>();
        let equal = same_channel();
        assert forall|a: ChannelOption, b: ChannelOption| #[trigger]
            near(a, b) == equal(seen(a), seen(b)) by {}
        drop_through(t, near, seen, equal);
    }
    out
}

proof fn lemma_with_channels_offers(
    options: Seq<(u16, Seq<char>)>,
    ids: Seq<u16>,
    id: u16,
)
    ensures
        offers(with_channels(options, ids), id) <==> (offers(options, id) || ids.contains(id)),
    decreases ids.len(),
{
    if ids.len() > 0 {
        let rest = with_channels(options, ids.drop_last());
        lemma_with_channels_offers(options, ids.drop_last(), id);
        let all = with_channels(options, ids);
        assert(ids.contains(id) <==> (ids.drop_last().contains(id) || id == ids.last())) by {
            if ids.drop_last().contains(id) {
                let k = choose|k: int| 0 <= k < ids.drop_last().len() && ids.drop_last()[k] == id;
                assert(ids[k] == id);
            }
            if ids.contains(id) && id != ids.last() {
                let k = choose|k: int| 0 <= k < ids.len() && ids[k] == id;
                assert(ids.drop_last()[k] == id);
            }
            assert(ids[ids.len() - 1] == ids.last());
        }
        if !offers(rest, ids.last()) {
            assert(all[all.len() - 1].0 == ids.last());
            if offers(rest, id) {
                let k = choose|k: int| 0 <= k < rest.len() && (#[trigger] rest[k]).0 == id;
                assert(all[k].0 == id);
            }
            if offers(all, id) && id != ids.last() {
                let k = choose|k: int| 0 <= k < all.len() && (#[trigger] all[k]).0 == id;
                assert(rest[k].0 == id);
            }
        }
    }
}

proof fn lemma_drop_offers(s: Seq<(u16, Seq<char>)>, id: u16)
    ensures
        offers(drop_repeats(s, same_channel()), id) <==> offers(s, id),
    decreases s.len(),
{
    if s.len() > 0 {
        let t = s.drop_last();
        lemma_drop_offers(t, id);
        let head = drop_repeats(t, same_channel());
        let r = drop_repeats(s, same_channel());
        assert(offers(s, id) <==> (offers(t, id) || s.last().0 == id)) by {
            if offers(t, id) {
                let k = choose|k: int| 0 <= k < t.len() && (#[trigger] t[k]).0 == id;
                assert(s[k].0 == id);
            }
            if offers(s, id) && s.last().0 != id {
                let k = choose|k: int| 0 <= k < s.len() && (#[trigger] s[k]).0 == id;
                assert(t[k].0 == id);
            }
            assert(s[s.len() - 1] == s.last());
        }
        if r == head {
            if s.last().0 == id {
                assert(head.len() > 0 && head[head.len() - 1].0 == id);
            }
        } else {
            assert(r[r.len() - 1] == s.last());
            if offers(head, id) {
                let k = choose|k: int| 0 <= k < head.len() && (#[trigger] head[k]).0 == id;
                assert(r[k].0 == id);
            }
            if offers(r, id) && s.last().0 != id {
                let k = choose|k: int| 0 <= k < r.len() && (#[trigger] r[k]).0 == id;
                assert(head[k].0 == id);
            }
        }
    }
}

proof fn lemma_sort_offers(s: Seq<(u16, Seq<char>)>, id: u16)
    ensures
        offers(stable_sort(s, channel_order()), id) <==> offers(s, id),
{
    let t = stable_sort(s, channel_order());
    if offers(t, id) {
        let k = choose|k: int| 0 <= k < t.len() && (#[trigger] t[k]).0 == id;
        sort_keeps_members(s, channel_order(), t[k]);
        assert(t.contains(t[k]));
        let m = choose|m: int| 0 <= m < s.len() && s[m] == t[k];
        assert(s[m].0 == id);
    }
    if offers(s, id) {
        let k = choose|k: int| 0 <= k < s.len() && (#[trigger] s[k]).0 == id;
        sort_keeps_members(s, channel_order(), s[k]);
        assert(s.contains(s[k]));
        let m = choose|m: int| 0 <= m < t.len() && t[m] == s[k];
        assert(t[m].0 == id);
    }
}

/// The channels that routes can be given are just the known ones and those of
/// the routes.
pub proof fn merging_offers_every_channel(
    options: Seq<(u16, Seq<char>)>,
    routes: Seq<BridgeRouteConfig>,
    id: u16,
)
    ensures
        offers(merged_channels(options, routes), id) <==> (offers(options, id)
            || routed_channels(routes, routes.len() as int).contains(id)),
{
    let all = with_channels(options, routed_channels(routes, routes.len() as int));
    lemma_with_channels_offers(options, routed_channels(routes, routes.len() as int), id);
    lemma_sort_offers(all, id);
    lemma_drop_offers(stable_sort(all, channel_order()), id);
}

/// The channels that routes can be given come in the order of their numbers,
/// each once.
pub proof fn merged_channels_are_in_order(
    options: Seq<(u16, Seq<char>)>,
    routes: Seq<BridgeRouteConfig>,
    i: int,
    j: int,
)
    requires
        0 <= i < j < merged_channels(options, routes).len(),
    ensures
        merged_channels(options, routes)[i].0 < merged_channels(options, routes)[j].0,
{
    let all = with_channels(options, routed_channels(routes, routes.len() as int));
    let order = channel_order();
    assert(is_ranking(order));
    sort_sorts(all, order);
    drop_repeats_keeps_order(stable_sort(all, order), same_channel(), order);
    let r = merged_channels(options, routes);
    let same = same_channel();
    assert(!order(r[j], r[i]));
    assert(!same(r[i + 1 - 1], r[i + 1]));
    assert(!order(r[i + 1], r[i]));
    if i + 1 < j {
        assert(!order(r[j], r[i + 1]));
    }
}

/// Channels with that number.
spec fn numbered(id: u16) -> spec_fn((u16, Seq<char>)) -> bool {
    |c: (u16, Seq<char>)| c.0 == id
}

proof fn lemma_with_channels_first(options: Seq<(u16, Seq<char>)>, ids: Seq<u16>, id: u16)
    ensures
        first_such(with_channels(options, ids), numbered(id)) == match first_such(
            options,
            numbered(id),
        ) {
            Some(c) => Some(c),
            None => if ids.contains(id) {
                Some((id, "Channel "@ + decimal(id as nat)))
            } else {
                None
            },
        },
    decreases ids.len(),
{
    if ids.len() > 0 {
        let fewer = ids.drop_last();
        let rest = with_channels(options, fewer);
        let last = ids.last();
        lemma_with_channels_first(options, fewer, id);
        assert(ids.contains(id) <==> (fewer.contains(id) || id == last)) by {
            if fewer.contains(id) {
                let k = choose|k: int| 0 <= k < fewer.len() && fewer[k] == id;
                assert(ids[k] == id);
            }
            if ids.contains(id) && id != last {
                let k = choose|k: int| 0 <= k < ids.len() && ids[k] == id;
                assert(fewer[k] == id);
            }
            assert(ids[ids.len() - 1] == last);
        }
        first_such_found(rest, numbered(last));
        if offers(rest, last) {
            let k = choose|k: int| 0 <= k < rest.len() && (#[trigger] rest[k]).0 == last;
            assert(numbered(last)(rest[k]));
        } else {
            let added = rest.push((last, "Channel "@ + decimal(last as nat)));
            assert(added.drop_last() =~= rest);
            if first_such(rest, numbered(last)) is Some {
                let k = choose|k: int|
                    0 <= k < rest.len() && #[trigger] rest[k] == first_such(
                        rest,
                        numbered(last),
                    )->Some_0;
                assert(rest[k].0 == last);
            }
        }
    }
}

proof fn lemma_merged_first(
    options: Seq<(u16, Seq<char>)>,
    routes: Seq<BridgeRouteConfig>,
    id: u16,
    i: int,
)
    requires
        0 <= i < merged_channels(options, routes).len(),
        merged_channels(options, routes)[i].0 == id,
    ensures
        first_such(
            with_channels(options, routed_channels(routes, routes.len() as int)),
            numbered(id),
        ) == Some(merged_channels(options, routes)[i]),
{
    let all = with_channels(options, routed_channels(routes, routes.len() as int));
    let merged = merged_channels(options, routes);
    sort_keeps_the_first(all, channel_order(), numbered(id));
    drop_repeats_keeps_the_first(
        stable_sort(all, channel_order()),
        same_channel(),
        numbered(id),
    );
    assert forall|j: int| 0 <= j < i implies !numbered(id)(#[trigger] merged[j]) by {
        merged_channels_are_in_order(options, routes, j, i);
    }
    first_such_at(merged, numbered(id), i);
}

/// A known channel keeps the name that it is first listed with.
pub proof fn merging_keeps_the_first_name(
    options: Seq<(u16, Seq<char>)>,
    routes: Seq<BridgeRouteConfig>,
    k: int,
)
    requires
        0 <= k < options.len(),
        forall|j: int| 0 <= j < k ==> (#[trigger] options[j]).0 != options[k].0,
    ensures
        merged_channels(options, routes).contains(options[k]),
        forall|i: int|
            0 <= i < merged_channels(options, routes).len() && (#[trigger] merged_channels(
                options,
                routes,
            )[i]).0 == options[k].0 ==> merged_channels(options, routes)[i] == options[k],
{
    let id = options[k].0;
    let merged = merged_channels(options, routes);
    first_such_at(options, numbered(id), k);
    lemma_with_channels_first(options, routed_channels(routes, routes.len() as int), id);
    assert forall|i: int| 0 <= i < merged.len() && (#[trigger] merged[i]).0 == id implies merged[i]
        == options[k] by {
        lemma_merged_first(options, routes, id, i);
    }
    assert(offers(options, id));
    merging_offers_every_channel(options, routes, id);
    let i = choose|i: int| 0 <= i < merged.len() && (#[trigger] merged[i]).0 == id;
    assert(merged[i] == options[k]);
}

/// A channel that only routes have is named by its number.
pub proof fn merging_names_new_channels(
    options: Seq<(u16, Seq<char>)>,
    routes: Seq<BridgeRouteConfig>,
    id: u16,
)
    requires
        !offers(options, id),
        routed_channels(routes, routes.len() as int).contains(id),
    ensures
        merged_channels(options, routes).contains((id, "Channel "@ + decimal(id as nat))),
        forall|i: int|
            0 <= i < merged_channels(options, routes).len() && (#[trigger] merged_channels(
                options,
                routes,
            )[i]).0 == id ==> merged_channels(options, routes)[i].1 == "Channel "@ + decimal(
                id as nat,
            ),
{
    let merged = merged_channels(options, routes);
    let named = (id, "Channel "@ + decimal(id as nat));
    first_such_found(options, numbered(id));
    if first_such(options, numbered(id)) is Some {
        let k = choose|k: int|
            0 <= k < options.len() && #[trigger] options[k] == first_such(
                options,
                numbered(id),
            )->Some_0;
        assert(options[k].0 == id);
    }
    lemma_with_channels_first(options, routed_channels(routes, routes.len() as int), id);
    assert forall|i: int| 0 <= i < merged.len() && (#[trigger] merged[i]).0 == id implies merged[i]
        == named by {
        lemma_merged_first(options, routes, id, i);
    }
    merging_offers_every_channel(options, routes, id);
    let i = choose|i: int| 0 <= i < merged.len() && (#[trigger] merged[i]).0 == id;
    assert(merged[i] == named);
}

/// The channels of a fresh server.
pub open spec fn usual_channels() -> Seq<(u16, Seq<char>)> {
    seq![
        (0u16, "open"@),
        (1u16, "Program"@),
        (2u16, "Production PL"@),
        (3u16, "Referee PL"@),
        (4u16, "Director IFB"@),
        (5u16, "Producer Cue"@),
        (6u16, "PA"@),
        (7u16, "Utility"@),
    ]
}

/// The channels of a fresh server.
pub fn default_channel_options() -> (r: Vec<ChannelOption>)
    ensures
        channels(r@) == usual_channels(),
{
    let mut v: Vec<ChannelOption> = Vec::new();
    v.push(ChannelOption { id: 0, name: owned("open") });
    v.push(ChannelOption { id: 1, name: owned("Program") });
    v.push(ChannelOption { id: 2, name: owned("Production PL") });
    v.push(ChannelOption { id: 3, name: owned("Referee PL") });
    v.push(ChannelOption { id: 4, name: owned("Director IFB") });
    v.push(ChannelOption { id: 5, name: owned("Producer Cue") });
    v.push(ChannelOption { id: 6, name: owned("PA") });
    v.push(ChannelOption { id: 7, name: owned("Utility") });
    proof {
        assert(channels(v@) =~= usual_channels());
    }
    v
}

/// The channels that routes can be given while the server says nothing.
pub fn fallback_channel_options(config: &BridgeAppConfig) -> (r: Vec<ChannelOption>)
    ensures
        channels(r@) == merged_channels(usual_channels(), config.routes@),
{
    merge_channel_options(default_channel_options(), config)
}

// ---------------------------------------------------------------------------
// The channels that the server tells of

/// What the JSON text of the server's state says of channels: of each item of the
/// array `channels` the number `id` and the text `name`.
pub open spec fn channels_in_json(text: Seq<char>) -> Option<
    Option<Seq<(Option<u64>, Option<Seq<char>>)>>,
> {
    json_rows(text, "channels"@, "id"@, "name"@)
}

/// The channels of the items that have a number of a channel, with their names
/// trimmed.
pub open spec fn row_channels(s: Seq<(Option<u64>, Option<Seq<char>>)>) -> Seq<(u16, Seq<char>)>
    decreases s.len(),
{
    if s.len() == 0 {
        Seq::empty()
    } else {
        let rest = row_channels(s.drop_last());
        match s.last().0 {
            Some(id) => if id <= u16::MAX {
                rest.push(
                    (
                        id as u16,
                        match s.last().1 {
                            Some(name) => trim(name),
                            None => Seq::empty(),
                        },
                    ),
                )
            } else {
                rest
            },
            None => rest,
        }
    }
}

/// The channels that a state of the server gives, or what is wrong with it.
pub open spec fn state_channels(
    read: Option<Option<Seq<(Option<u64>, Option<Seq<char>>)>>>,
) -> Result<Seq<(u16, Seq<char>)>, Seq<char>> {
    match read {
        None => Err("parse admin state JSON"@),
        Some(None) => Err("admin state JSON has no channels array"@),
        Some(Some(s)) => if row_channels(s).len() == 0 {
            Err("admin state returned no channel options"@)
        } else {
            Ok(row_channels(s))
        },
    }
}

fn channels_of_rows(items: &Vec<(Option<u64>, Option<String>)>) -> (r: Vec<ChannelOption>)
    ensures
        channels(r@) == row_channels(rows(items@)),
{
    let ghost all = rows(items@);
    let mut out: Vec<ChannelOption> = Vec::new();
    let mut i: usize = 0;
    proof {
        assert(channels(out@) =~= Seq::<(u16, Seq<char>)>::empty());
    }
    while i < items.len()
        invariant
            0 <= i <= items@.len(),
            all == rows(items@),
            channels(out@) == row_channels(all.take(i as int)),
        decreases items@.len() - i,
    {
        let ghost before = channels(out@);
        proof {
            assert(all.take(i + 1).drop_last() =~= all.take(i as int));
            assert(all.take(i + 1).last() == (
                items@[i as int].0,
                opt_text(items@[i as int].1),
            ));
        }
        if let Some(id) = items[i].0 {
            if id <= 65535 {
                let name = match &items[i].1 {
                    Some(name) => trimmed(name.as_str()),
                    None => String::new(),
                };
                let ghost shown = name@;
                out.push(ChannelOption { id: id as u16, name });
                proof {
                    assert(channels(out@) =~= before.push((id as u16, shown)));
                    if items@[i as int].1 is None {
                        assert(shown =~= Seq::<char>::empty());
                    }
                }
            }
        }
        i = i + 1;
    }
    proof {
        assert(all.take(all.len() as int) =~= all);
    }
    out
}

/// The channels that a state of the server gives, where `read` is what was read
/// of it.
pub fn channels_of_state(
    read: Option<Option<Vec<(Option<u64>, Option<String>)>>>,
) -> (r: Result<Vec<ChannelOption>, String>)
    ensures
        match r {
            Ok(v) => state_channels(rows_read(read)) == Ok::<
                Seq<(u16, Seq<char>)>,
                Seq<char>,
            >(channels(v@)),
            Err(m) => state_channels(rows_read(read)) == Err::<
                Seq<(u16, Seq<char>)>,
                Seq<char>,
            >(m@),
        },
{
    match read {
        None => Err(owned("parse admin state JSON")),
        Some(None) => Err(owned("admin state JSON has no channels array")),
        Some(Some(items)) => {
            let found = channels_of_rows(&items);
            proof {
                assert(channels(found@).len() == found@.len());
            }
            if found.len() == 0 {
                Err(owned("admin state returned no channel options"))
            } else {
                Ok(found)
            }
        },
    }
}

/// The body of a response that tells of success, or what is wrong with it.
pub open spec fn state_body(response: Seq<u8>) -> Result<Seq<char>, Seq<char>> {
    if !valid_utf8(response) {
        Err("admin state response is not utf-8"@)
    } else {
        match header_body(decode_utf8(response)) {
            None => Err("admin state response has no header/body split"@),
            Some((headers, body)) => if is_success(headers) {
                Ok(body)
            } else if headers.len() == 0 {
                Err("admin state returned unknown status"@)
            } else {
                Err("admin state returned "@ + first_line(headers))
            },
        }
    }
}

/// The body of a response that tells of success.
pub fn admin_state_body(response: Vec<u8>) -> (r: Result<String, String>)
    ensures
        match r {
            Ok(body) => state_body(response@) == Ok::<Seq<char>, Seq<char>>(body@),
            Err(m) => state_body(response@) == Err::<Seq<char>, Seq<char>>(m@),
        },
{
    match utf8_text(response) {
        None => Err(owned("admin state response is not utf-8")),
        Some(text) => match split_response(text.as_str()) {
            None => Err(owned("admin state response has no header/body split")),
            Some((headers, body)) => {
                if headers_ok(headers.as_str()) {
                    Ok(body)
                } else if headers.as_str().is_empty() {
                    Err(owned("admin state returned unknown status"))
                } else {
                    let line = read_first_line(headers.as_str());
                    Err(concat2("admin state returned ", line.as_str()))
                }
            },
        },
    }
}

/// The channels that a response of the server gives.
pub fn admin_channels(response: Vec<u8>) -> (r: Result<Vec<ChannelOption>, String>)
    ensures
        ({
            let expected = match state_body(response@) {
                Ok(body) => state_channels(channels_in_json(body)),
                Err(m) => Err(m),
            };
            match r {
                Ok(v) => expected == Ok::<Seq<(u16, Seq<char>)>, Seq<char>>(channels(v@)),
                Err(m) => expected == Err::<Seq<(u16, Seq<char>)>, Seq<char>>(m@),
            }
        }),
{
    match admin_state_body(response) {
        Err(m) => Err(m),
        Ok(body) => channels_of_state(read_json_rows(body.as_str(), "channels", "id", "name")),
    }
}

// ---------------------------------------------------------------------------
// Telemetry of a route that is played to browsers

/// The time after which a route without audio counts as stale.
pub const BROWSER_STALE_AFTER_MS: u64 = 2000;

/// What is known of the audio of a route that is played to browsers.
#[derive(Debug, Clone, Copy, PartialEq, Eq, Structural)]
pub struct BrowserSourceTelemetry {
    /// The last level of the audio, in millionths of the loudest.
    pub audio_level_ppm: u32,
    pub audio_frames: u64,
    pub underflows: u64,
    pub drops: u64,
    /// When audio was last seen, in milliseconds since the epoch; zero for never.
    pub last_audio_ms: u64,
}

/// What is known of the audio of a route at a moment.
#[derive(Debug, Clone, Copy, PartialEq, Eq, Structural)]
pub struct BrowserSourceTelemetrySnapshot {
    pub audio_level_ppm: Option<u32>,
    pub audio_frames: u64,
    pub underflows: u64,
    pub drops: u64,
    pub stale: bool,
    pub last_audio_ms_ago: Option<u64>,
}

impl Default for BrowserSourceTelemetrySnapshot {
    fn default() -> (r: Self)
        ensures
            r == (BrowserSourceTelemetrySnapshot {
                audio_level_ppm: None,
                audio_frames: 0,
                underflows: 0,
                drops: 0,
                stale: false,
                last_audio_ms_ago: None,
            }),
    {
        BrowserSourceTelemetrySnapshot {
            audio_level_ppm: None,
            audio_frames: 0,
            underflows: 0,
            drops: 0,
            stale: false,
            last_audio_ms_ago: None,
        }
    }
}

impl Default for BrowserSourceTelemetry {
    fn default() -> (r: Self)
        ensures
            r == (BrowserSourceTelemetry {
                audio_level_ppm: 0,
                audio_frames: 0,
                underflows: 0,
                drops: 0,
                last_audio_ms: 0,
            }),
    {
        BrowserSourceTelemetry {
            audio_level_ppm: 0,
            audio_frames: 0,
            underflows: 0,
            drops: 0,
            last_audio_ms: 0,
        }
    }
}

impl BrowserSourceTelemetry {
    /// How long ago audio was seen, in milliseconds.
    pub open spec fn silent_for(self, now_ms: u64) -> Option<u64> {
        if self.last_audio_ms == 0 {
            None
        } else if now_ms >= self.last_audio_ms {
            Some((now_ms - self.last_audio_ms) as u64)
        } else {
            Some(0)
        }
    }

    /// What is known at a moment.
    pub open spec fn at(self, now_ms: u64) -> BrowserSourceTelemetrySnapshot {
        BrowserSourceTelemetrySnapshot {
            audio_level_ppm: if self.audio_frames > 0 {
                Some(self.audio_level_ppm)
            } else {
                None
            },
            audio_frames: self.audio_frames,
            underflows: self.underflows,
            drops: self.drops,
            stale: self.audio_frames == 0 || (self.silent_for(now_ms) is Some && self.silent_for(
                now_ms,
            )->Some_0 > BROWSER_STALE_AFTER_MS),
            last_audio_ms_ago: self.silent_for(now_ms),
        }
    }

    /// Notes audio of some level at some time.
    pub fn record_audio(&mut self, level_ppm: u32, now_ms: u64)
        ensures
            *final(self) == (BrowserSourceTelemetry {
                audio_level_ppm: level_ppm,
                audio_frames: old(self).audio_frames.wrapping_add(1),
                last_audio_ms: now_ms,
                ..*old(self)
            }),
    {
        self.audio_level_ppm = level_ppm;
        self.audio_frames = self.audio_frames.wrapping_add(1);
        self.last_audio_ms = now_ms;
    }

    /// Notes that there was no audio to play.
    pub fn record_underflow(&mut self)
        ensures
            *final(self) == (BrowserSourceTelemetry {
                underflows: old(self).underflows.wrapping_add(1),
                ..*old(self)
            }),
    {
        self.underflows = self.underflows.wrapping_add(1);
    }

    /// Notes audio that was lost.
    pub fn record_drop(&mut self)
        ensures
            *final(self) == (BrowserSourceTelemetry {
                drops: old(self).drops.wrapping_add(1),
                ..*old(self)
            }),
    {
        self.record_drops(1);
    }

    /// Notes audio that was lost, several frames of it.
    pub fn record_drops(&mut self, count: u64)
        ensures
            *final(self) == (BrowserSourceTelemetry {
                drops: old(self).drops.wrapping_add(count),
                ..*old(self)
            }),
    {
        self.drops = self.drops.wrapping_add(count);
    }

    /// What is known at a moment.
    pub fn snapshot(&self, now_ms: u64) -> (r: BrowserSourceTelemetrySnapshot)
        ensures
            r == self.at(now_ms),
    {
        let last_audio_ms_ago: Option<u64> = if self.last_audio_ms > 0 {
            Some(
                if now_ms >= self.last_audio_ms {
                    now_ms - self.last_audio_ms
                } else {
                    0
                },
            )
        } else {
            None
        };
        let late = match last_audio_ms_ago {
            Some(age) => age > BROWSER_STALE_AFTER_MS,
            None => false,
        };
        BrowserSourceTelemetrySnapshot {
            audio_level_ppm: if self.audio_frames > 0 {
                Some(self.audio_level_ppm)
            } else {
                None
            },
            audio_frames: self.audio_frames,
            underflows: self.underflows,
            drops: self.drops,
            stale: self.audio_frames == 0 || late,
            last_audio_ms_ago,
        }
    }
}

/// A route that was heard is not stale until too much time has passed, and is
/// stale from then on.
pub proof fn routes_go_stale(t: BrowserSourceTelemetry, now_ms: u64)
    requires
        t.audio_frames > 0,
        0 < t.last_audio_ms <= now_ms,
    ensures
        t.at(now_ms).stale <==> now_ms - t.last_audio_ms > BROWSER_STALE_AFTER_MS,
{
}

/// What came of waiting for the next frame of a route.
#[derive(Debug)]
pub enum SourceEvent {
    Frame(Vec<u8>),
    /// So many frames were passed over.
    Lagged(u64),
    Closed,
    TimedOut,
}

/// What is to be done for a browser.
#[derive(Debug)]
pub enum SourceAction {
    Send(Vec<u8>),
    SendSilence,
    Wait,
    Stop,
}

/// Decides what a browser gets for what came.
pub fn source_step(telemetry: &mut BrowserSourceTelemetry, event: SourceEvent) -> (r: SourceAction)
    ensures
        match event {
            SourceEvent::Frame(bytes) => r == SourceAction::Send(bytes) && *final(telemetry)
                == *old(telemetry),
            SourceEvent::Lagged(n) => r is Wait && *final(telemetry) == (BrowserSourceTelemetry {
                drops: old(telemetry).drops.wrapping_add(n),
                ..*old(telemetry)
            }),
            SourceEvent::Closed => r is Stop && *final(telemetry) == *old(telemetry),
            SourceEvent::TimedOut => r is SendSilence && *final(telemetry)
                == (BrowserSourceTelemetry {
                underflows: old(telemetry).underflows.wrapping_add(1),
                ..*old(telemetry)
            }),
        },
{
    match event {
        SourceEvent::Frame(bytes) => SourceAction::Send(bytes),
        SourceEvent::Lagged(n) => {
            telemetry.record_drops(n);
            SourceAction::Wait
        },
        SourceEvent::Closed => SourceAction::Stop,
        SourceEvent::TimedOut => {
            telemetry.record_underflow();
            SourceAction::SendSilence
        },
    }
}

// ---------------------------------------------------------------------------
// Connections of browsers

/// How many browsers play each route. A route that none plays has no entry.
#[derive(Debug)]
pub struct BrowserConnections {
    entries: Vec<(String, u32)>,
}

/// The numbers by id; of several entries with one id the first counts.
pub open spec fn counts(s: Seq<(String, u32)>) -> Map<Seq<char>, u32>
    decreases s.len(),
{
    if s.len() == 0 {
        Map::empty()
    } else {
        counts(s.skip(1)).insert(s[0].0@, s[0].1)
    }
}

/// No two entries have one id.
pub open spec fn ids_differ(s: Seq<(String, u32)>) -> bool {
    forall|i: int, j: int| 0 <= i < j < s.len() ==> (#[trigger] s[i]).0@ != (#[trigger] s[j]).0@
}

proof fn lemma_counts(s: Seq<(String, u32)>, id: Seq<char>)
    requires
        ids_differ(s),
    ensures
        counts(s).dom().contains(id) <==> exists|i: int|
            0 <= i < s.len() && (#[trigger] s[i]).0@ == id,
        forall|i: int|
            0 <= i < s.len() && (#[trigger] s[i]).0@ == id ==> counts(s)[id] == s[i].1,
    decreases s.len(),
{
    if s.len() > 0 {
        let t = s.skip(1);
        assert(ids_differ(t)) by {
            assert forall|i: int, j: int| 0 <= i < j < t.len() implies (#[trigger] t[i]).0@ != (
            #[trigger] t[j]).0@ by {
                assert(t[i] == s[i + 1]);
                assert(t[j] == s[j + 1]);
            }
        }
        lemma_counts(t, id);
        assert forall|i: int| 0 <= i < s.len() && (#[trigger] s[i]).0@ == id implies counts(s)[id]
            == s[i].1 by {
            if i > 0 {
                assert(t[i - 1] == s[i]);
                assert(s[0].0@ != s[i].0@);
            }
        }
        if counts(s).dom().contains(id) {
            if s[0].0@ != id {
                let k = choose|k: int| 0 <= k < t.len() && (#[trigger] t[k]).0@ == id;
                assert(s[k + 1].0@ == id);
            } else {
                assert(s[0].0@ == id);
            }
        }
        if exists|i: int| 0 <= i < s.len() && (#[trigger] s[i]).0@ == id {
            let k = choose|k: int| 0 <= k < s.len() && (#[trigger] s[k]).0@ == id;
            if k > 0 {
                assert(t[k - 1].0@ == id);
            }
        }
    }
}

impl View for BrowserConnections {
    type V = Map<Seq<char>, u32>;

    closed spec fn view(&self) -> Map<Seq<char>, u32> {
        counts(self.entries@)
    }
}

impl BrowserConnections {
    /// No route stands in it twice, and none with no browser.
    pub closed spec fn wf(self) -> bool {
        &&& ids_differ(self.entries@)
        &&& forall|i: int| 0 <= i < self.entries@.len() ==> (#[trigger] self.entries@[i]).1 > 0
    }

    /// How many browsers play the route.
    pub open spec fn number(self, id: Seq<char>) -> u32 {
        if self@.dom().contains(id) {
            self@[id]
        } else {
            0
        }
    }

    /// No browser plays anything.
    pub fn new() -> (r: Self)
        ensures
            r.wf(),
            r@ == Map::<Seq<char>, u32>::empty(),
    {
        BrowserConnections { entries: Vec::new() }
    }

    fn position(&self, id: &str) -> (r: Option<usize>)
        requires
            self.wf(),
        ensures
            match r {
                Some(i) => i < self.entries@.len() && self.entries@[i as int].0@ == id@
                    && self@.dom().contains(id@) && self@[id@] == self.entries@[i as int].1,
                None => !self@.dom().contains(id@) && forall|j: int|
                    0 <= j < self.entries@.len() ==> (#[trigger] self.entries@[j]).0@ != id@,
            },
    {
        proof {
            lemma_counts(self.entries@, id@);
        }
        let mut i: usize = 0;
        while i < self.entries.len()
            invariant
                self.wf(),
                0 <= i <= self.entries@.len(),
                forall|j: int| 0 <= j < i ==> (#[trigger] self.entries@[j]).0@ != id@,
            decreases self.entries@.len() - i,
        {
            if same(self.entries[i].0.as_str(), id) {
                proof {
                    lemma_counts(self.entries@, id@);
                }
                return Some(i);
            }
            i = i + 1;
        }
        None
    }

    /// How many browsers play the route.
    pub fn count(&self, id: &str) -> (r: u32)
        requires
            self.wf(),
        ensures
            r == self.number(id@),
    {
        match self.position(id) {
            Some(i) => self.entries[i].1,
            None => 0,
        }
    }

    /// One more browser plays the route.
    pub fn increment(&mut self, id: &str)
        requires
            old(self).wf(),
            old(self).number(id@) < u32::MAX,
        ensures
            final(self).wf(),
            final(self)@ == old(self)@.insert(id@, (old(self).number(id@) + 1) as u32),
    {
        let ghost was = self.entries@;
        match self.position(id) {
            Some(i) => {
                let n = self.entries[i].1 + 1;
                self.entries.set(i, (owned(id), n));
                proof {
                    let now = self.entries@;
                    assert(ids_differ(now)) by {
                        assert forall|a: int, b: int| 0 <= a < b < now.len() implies (
                        #[trigger] now[a]).0@ != (#[trigger] now[b]).0@ by {
                            assert(was[a].0@ == now[a].0@);
                            assert(was[b].0@ == now[b].0@);
                        }
                    }
                    assert forall|k: int| 0 <= k < now.len() implies (#[trigger] now[k]).1
                        > 0 by {
                        if k != i {
                            assert(now[k] == was[k]);
                        }
                    }
                    assert(now[i as int].0@ == id@);
                    lemma_same_but(was, now, id@, n);
                }
            },
            None => {
                self.entries.push((owned(id), 1));
                proof {
                    let now = self.entries@;
                    assert(ids_differ(now)) by {
                        assert forall|a: int, b: int| 0 <= a < b < now.len() implies (
                        #[trigger] now[a]).0@ != (#[trigger] now[b]).0@ by {
                            assert(was[a] == now[a]);
                            if b < was.len() {
                                assert(was[b] == now[b]);
                            }
                        }
                    }
                    assert forall|k: int| 0 <= k < now.len() implies (#[trigger] now[k]).1
                        > 0 by {
                        if k < was.len() {
                            assert(now[k] == was[k]);
                        }
                    }
                    assert(now[now.len() - 1].0@ == id@);
                    lemma_same_but(was, now, id@, 1);
                }
            },
        }
    }

    /// No browser plays the route any more.
    pub fn remove(&mut self, id: &str)
        requires
            old(self).wf(),
        ensures
            final(self).wf(),
            final(self)@ == old(self)@.remove(id@),
    {
        let ghost was = self.entries@;
        match self.position(id) {
            Some(i) => {
                self.entries.remove(i);
                proof {
                    let now = self.entries@;
                    assert forall|k: int| 0 <= k < now.len() implies (#[trigger] now[k]) == was[if k
                        < i {
                        k
                    } else {
                        k + 1
                    }] by {}
                    assert(ids_differ(now)) by {
                        assert forall|a: int, b: int| 0 <= a < b < now.len() implies (
                        #[trigger] now[a]).0@ != (#[trigger] now[b]).0@ by {
                            let a2 = if a < i {
                                a
                            } else {
                                a + 1
                            };
                            let b2 = if b < i {
                                b
                            } else {
                                b + 1
                            };
                            assert(was[a2].0@ != was[b2].0@);
                        }
                    }
                    lemma_without(was, now, i as int);
                }
            },
            None => {
                proof {
                    assert(self@ =~= old(self)@.remove(id@));
                }
            },
        }
    }

    /// One browser less plays the route.
    pub fn decrement(&mut self, id: &str)
        requires
            old(self).wf(),
        ensures
            final(self).wf(),
            final(self)@ == (if old(self).number(id@) <= 1 {
                old(self)@.remove(id@)
            } else {
                old(self)@.insert(id@, (old(self).number(id@) - 1) as u32)
            }),
    {
        let ghost was = self.entries@;
        match self.position(id) {
            Some(i) => {
                let n = self.entries[i].1;
                if n <= 1 {
                    self.remove(id);
                    return;
                }
                self.entries.set(i, (owned(id), n - 1));
                proof {
                    let now = self.entries@;
                    assert(ids_differ(now)) by {
                        assert forall|a: int, b: int| 0 <= a < b < now.len() implies (
                        #[trigger] now[a]).0@ != (#[trigger] now[b]).0@ by {
                            assert(was[a].0@ == now[a].0@);
                            assert(was[b].0@ == now[b].0@);
                        }
                    }
                    assert forall|k: int| 0 <= k < now.len() implies (#[trigger] now[k]).1
                        > 0 by {
                        if k != i {
                            assert(now[k] == was[k]);
                        }
                    }
                    assert(now[i as int].0@ == id@);
                    lemma_same_but(was, now, id@, (n - 1) as u32);
                }
            },
            None => {
                proof {
                    assert(self@ =~= old(self)@.remove(id@));
                }
            },
        }
    }
}

proof fn lemma_same_but(
    was: Seq<(String, u32)>,
    now: Seq<(String, u32)>,
    id: Seq<char>,
    n: u32,
)
    requires
        ids_differ(was),
        ids_differ(now),
        was.len() <= now.len(),
        forall|i: int|
            0 <= i < was.len() ==> (#[trigger] now[i]).0@ == was[i].0@ && (was[i].0@ != id
                ==> now[i].1 == was[i].1),
        forall|i: int| was.len() <= i < now.len() ==> (#[trigger] now[i]).0@ == id,
        exists|i: int| 0 <= i < now.len() && (#[trigger] now[i]).0@ == id,
        forall|i: int| 0 <= i < now.len() && (#[trigger] now[i]).0@ == id ==> now[i].1 == n,
    ensures
        counts(now) == counts(was).insert(id, n),
{
    let goal = counts(was).insert(id, n);
    assert forall|x: Seq<char>|
        #![trigger counts(now).dom().contains(x)]
        #![trigger counts(now)[x]]
        (counts(now).dom().contains(x) <==> goal.dom().contains(x)) && (counts(now).dom().contains(x)
            ==> counts(now)[x] == goal[x]) by {
        lemma_counts(now, x);
        lemma_counts(was, x);
        if x == id {
            let k = choose|k: int| 0 <= k < now.len() && (#[trigger] now[k]).0@ == id;
            assert(counts(now)[x] == now[k].1);
        } else {
            if exists|i: int| 0 <= i < was.len() && (#[trigger] was[i]).0@ == x {
                let k = choose|k: int| 0 <= k < was.len() && (#[trigger] was[k]).0@ == x;
                assert(now[k].0@ == x);
            }
            if exists|i: int| 0 <= i < now.len() && (#[trigger] now[i]).0@ == x {
                let k = choose|k: int| 0 <= k < now.len() && (#[trigger] now[k]).0@ == x;
                assert(was[k].0@ == x);
            }
        }
    }
    assert(counts(now).dom() =~= goal.dom());
    assert(counts(now) =~= goal);
}

proof fn lemma_without(was: Seq<(String, u32)>, now: Seq<(String, u32)>, at: int)
    requires
        ids_differ(was),
        ids_differ(now),
        0 <= at < was.len(),
        now == was.remove(at),
    ensures
        counts(now) == counts(was).remove(was[at].0@),
{
    let goal = counts(was).remove(was[at].0@);
    assert forall|x: Seq<char>|
        #![trigger counts(now).dom().contains(x)]
        #![trigger counts(now)[x]]
        (counts(now).dom().contains(x) <==> goal.dom().contains(x)) && (counts(now).dom().contains(x)
            ==> counts(now)[x] == goal[x]) by {
        lemma_counts(now, x);
        lemma_counts(was, x);
        if exists|i: int| 0 <= i < was.len() && (#[trigger] was[i]).0@ == x {
            let k = choose|k: int| 0 <= k < was.len() && (#[trigger] was[k]).0@ == x;
            if k < at {
                assert(now[k] == was[k]);
            }
            if k > at {
                assert(now[k - 1] == was[k]);
            }
        }
        if exists|i: int| 0 <= i < now.len() && (#[trigger] now[i]).0@ == x {
            let k = choose|k: int| 0 <= k < now.len() && (#[trigger] now[k]).0@ == x;
            if k < at {
                assert(now[k] == was[k]);
                assert(was[k].0@ == x);
            } else {
                assert(now[k] == was[k + 1]);
                assert(was[k + 1].0@ == x);
            }
        }
    }
    assert(counts(now).dom() =~= goal.dom());
    assert(counts(now) =~= goal);
}

// ---------------------------------------------------------------------------
// The page that plays a route

/// The page up to its title.
pub const PAGE_HEAD: &'static str = "<!doctype html>\n<html><head><meta charset=\"utf-8\"><meta name=\"viewport\" content=\"width=device-width,initial-scale=1\"><title>";

/// The page between its title and its first status.
pub const PAGE_STYLE: &'static str = "</title>\n<style>html,body{margin:0;width:100%;height:100%;background:transparent;color:#e5e7eb;font:12px system-ui,sans-serif;overflow:hidden}#status{position:fixed;left:8px;bottom:8px;padding:4px 7px;border-radius:6px;background:rgba(15,23,42,.72)}</style></head>\n<body><div id=\"status\">RedLine ";

/// The page between its first status and the id of the route.
pub const PAGE_SCRIPT: &'static str = "</div><script>\nconst statusEl=document.getElementById('status');\nasync function start(){\n  const audio=new AudioContext({sampleRate:48000});\n  const code=`class RedLineSource extends AudioWorkletProcessor{constructor(){super();this.q=[];this.read=0;this.port.onmessage=e=>{this.q.push(new Float32Array(e.data));}}process(i,o){const out=o[0][0];for(let n=0;n<out.length;n++){if(!this.q.length){out[n]=0;continue;}const f=this.q[0];out[n]=f[this.read++]||0;if(this.read>=f.length){this.q.shift();this.read=0;}}return true;}}registerProcessor('redline-source',RedLineSource);`;\n  await audio.audioWorklet.addModule(URL.createObjectURL(new Blob([code],{type:'text/javascript'})));\n  const node=new AudioWorkletNode(audio,'redline-source');\n  node.connect(audio.destination);\n  const wsUrl=(location.protocol==='https:'?'wss://':'ws://')+location.host+'/vmix/source/";

/// The page between the id of the route and the status while connected.
pub const PAGE_OPEN: &'static str = "/ws';\n  const ws=new WebSocket(wsUrl);ws.binaryType='arraybuffer';\n  ws.onopen=()=>{statusEl.textContent='RedLine ";

/// The page between the status while connected and that after the end.
pub const PAGE_CLOSE: &'static str = " connected';audio.resume();};\n  ws.onmessage=e=>node.port.postMessage(e.data,[e.data]);\n  ws.onclose=()=>statusEl.textContent='RedLine ";

/// The page between the status after the end and that after an error.
pub const PAGE_ERROR: &'static str = " disconnected';\n  ws.onerror=()=>statusEl.textContent='RedLine ";

/// The page between the status after an error and that after a failed start.
pub const PAGE_FAILED: &'static str = " websocket error';\n}\nstart().catch(err=>{statusEl.textContent='RedLine ";

/// The end of the page.
pub const PAGE_END: &'static str = " failed: '+err.message;});\n</script></body></html>";

/// The page that plays a route in a browser.
pub open spec fn source_page(name: Seq<char>, id: Seq<char>) -> Seq<char> {
    let title = html_text(name);
    PAGE_HEAD@ + title + PAGE_STYLE@ + title + PAGE_SCRIPT@ + html_text(id) + PAGE_OPEN@ + title
        + PAGE_CLOSE@ + title + PAGE_ERROR@ + title + PAGE_FAILED@ + title + PAGE_END@
}

/// Writes the page that plays a route in a browser.
pub fn vmix_source_page(route: &BridgeRouteConfig) -> (r: String)
    ensures
        r@ == source_page(route.name@, route.id@),
{
    let title = html_escape(route.name.as_str());
    let id = html_escape(route.id.as_str());
    let t = title.as_str();
    let mut page = concat4(PAGE_HEAD, t, PAGE_STYLE, t);
    page = concat4(page.as_str(), PAGE_SCRIPT, id.as_str(), PAGE_OPEN);
    page = concat4(page.as_str(), t, PAGE_CLOSE, t);
    page = concat4(page.as_str(), PAGE_ERROR, t, PAGE_FAILED);
    concat3(page.as_str(), t, PAGE_END)
}

/// Where a browser finds a route.
pub open spec fn source_url(base_url: Seq<char>, id: Seq<char>) -> Seq<char> {
    without_trailing(base_url, '/') + source_path(id)
}

/// Where a browser finds a route, as a URL.
pub fn vmix_source_url(base_url: &str, route: &BridgeRouteConfig) -> (r: String)
    ensures
        r@ == source_url(base_url@, route.id@),
{
    let base = trim_end_char(base_url, '/');
    let path = concat2("/vmix/source/", encode_path_segment(route.id.as_str()).as_str());
    concat2(base.as_str(), path.as_str())
}

// ---------------------------------------------------------------------------
// The state of the routes

/// What the search for NDI sources gave.
#[derive(Debug)]
pub struct NdiDiscovery {
    pub available: bool,
    pub sources: Vec<String>,
    pub error: Option<String>,
}

/// Reads the search for NDI sources: an error outside is that of loading the
/// runtime, one inside that of the search.
pub fn ndi_discovery(search: Result<Result<Vec<String>, String>, String>) -> (r: NdiDiscovery)
    ensures
        match search {
            Err(e) => !r.available && r.sources@.len() == 0 && opt_text(r.error) == Some(
                "NDI runtime unavailable: "@ + e@,
            ),
            Ok(Ok(names)) => r.available && texts(r.sources@) == offered_names(texts(names@))
                && r.error is None,
            Ok(Err(e)) => r.available && r.sources@.len() == 0 && opt_text(r.error) == Some(
                "NDI source discovery failed: "@ + e@,
            ),
        },
{
    match search {
        Err(e) => NdiDiscovery {
            available: false,
            sources: Vec::new(),
            error: Some(concat2("NDI runtime unavailable: ", e.as_str())),
        },
        Ok(Ok(names)) => NdiDiscovery {
            available: true,
            sources: sorted_names(names),
            error: None,
        },
        Ok(Err(e)) => NdiDiscovery {
            available: true,
            sources: Vec::new(),
            error: Some(concat2("NDI source discovery failed: ", e.as_str())),
        },
    }
}

/// What is seen of a route that may be running.
#[derive(Debug)]
pub enum RouteObservation {
    Idle,
    /// The route is played to browsers, or was until it ended.
    Served { finished: bool, started_at_ms: u64, telemetry: BrowserSourceTelemetrySnapshot },
    /// The bridge of the route has ended.
    Exited(String),
    /// The bridge of the route is alive.
    Running { pid: Option<u32>, started_at_ms: u64 },
    /// Nothing is known of the bridge of the route.
    Unknown(String),
}

/// The state of a route, as it is shown.
#[derive(Debug, Clone)]
pub struct RouteRuntimeStatus {
    pub id: String,
    pub running: bool,
    pub pid: Option<u32>,
    pub started_at_ms: Option<u64>,
    pub exit: Option<String>,
    pub source_url: Option<String>,
    pub connected_clients: u32,
    pub warning: Option<String>,
    pub audio_level_ppm: Option<u32>,
    pub audio_frames: u64,
    pub underflows: u64,
    pub drops: u64,
    pub stale: bool,
    pub last_audio_ms_ago: Option<u64>,
    pub runtime: Option<String>,
}

/// The state of a route, as texts and numbers.
pub struct RouteState {
    pub id: Seq<char>,
    pub running: bool,
    pub pid: Option<u32>,
    pub started_at_ms: Option<u64>,
    pub exit: Option<Seq<char>>,
    pub source_url: Option<Seq<char>>,
    pub connected_clients: u32,
    pub warning: Option<Seq<char>>,
    pub audio_level_ppm: Option<u32>,
    pub audio_frames: u64,
    pub underflows: u64,
    pub drops: u64,
    pub stale: bool,
    pub last_audio_ms_ago: Option<u64>,
    pub runtime: Option<Seq<char>>,
}

impl View for RouteRuntimeStatus {
    type V = RouteState;

    open spec fn view(&self) -> RouteState {
        RouteState {
            id: self.id@,
            running: self.running,
            pid: self.pid,
            started_at_ms: self.started_at_ms,
            exit: opt_text(self.exit),
            source_url: opt_text(self.source_url),
            connected_clients: self.connected_clients,
            warning: opt_text(self.warning),
            audio_level_ppm: self.audio_level_ppm,
            audio_frames: self.audio_frames,
            underflows: self.underflows,
            drops: self.drops,
            stale: self.stale,
            last_audio_ms_ago: self.last_audio_ms_ago,
            runtime: opt_text(self.runtime),
        }
    }
}

/// The state of a route that is not running.
pub open spec fn idle_state(
    route: BridgeRouteConfig,
    base_url: Seq<char>,
    connected_clients: u32,
) -> RouteState {
    RouteState {
        id: route.id@,
        running: false,
        pid: None,
        started_at_ms: None,
        exit: None,
        source_url: if route.serves_browser() {
            Some(source_url(base_url, route.id@))
        } else {
            None
        },
        connected_clients,
        warning: None,
        audio_level_ppm: None,
        audio_frames: 0,
        underflows: 0,
        drops: 0,
        stale: false,
        last_audio_ms_ago: None,
        runtime: None,
    }
}

/// The state of a route with what is seen of it.
pub open spec fn observed_state(s: RouteState, seen: RouteObservation) -> RouteState {
    match seen {
        RouteObservation::Idle => s,
        RouteObservation::Served { finished, started_at_ms, telemetry } => RouteState {
            running: !finished,
            started_at_ms: Some(started_at_ms),
            exit: if finished {
                Some("browser source route stopped"@)
            } else {
                s.exit
            },
            warning: if finished {
                s.warning
            } else if telemetry.stale {
                Some("Browser source is running but has not received recent RedLine audio"@)
            } else {
                Some(
                    "Browser source page is streaming RedLine audio to connected vMix browser inputs"@,
                )
            },
            audio_level_ppm: telemetry.audio_level_ppm,
            audio_frames: telemetry.audio_frames,
            underflows: telemetry.underflows,
            drops: telemetry.drops,
            stale: telemetry.stale,
            last_audio_ms_ago: telemetry.last_audio_ms_ago,
            runtime: Some("WebSocket + Web Audio"@),
            ..s
        },
        RouteObservation::Exited(how) => RouteState { exit: Some(how@), ..s },
        RouteObservation::Running { pid, started_at_ms } => RouteState {
            running: true,
            pid,
            started_at_ms: Some(started_at_ms),
            ..s
        },
        RouteObservation::Unknown(why) => RouteState { exit: Some("status error: "@ + why@), ..s },
    }
}

/// The state of a route with what NDI says to it.
pub open spec fn ndi_state(s: RouteState, route: BridgeRouteConfig, ndi: NdiDiscovery) -> RouteState {
    let from_ndi = route.input_kind == RouteInputKind::NdiSource;
    let to_ndi = route.output_kind == RouteOutputKind::NdiOutput;
    let selected = match route.ndi_source {
        Some(name) => name@,
        None => Seq::empty(),
    };
    if !from_ndi && !to_ndi {
        s
    } else if !ndi.available {
        RouteState {
            runtime: Some("NDI runtime unavailable"@),
            warning: if ndi.error is Some {
                opt_text(ndi.error)
            } else {
                Some("NDI runtime unavailable"@)
            },
            stale: true,
            ..s
        }
    } else {
        RouteState {
            runtime: Some("system NDI runtime"@),
            warning: if !from_ndi {
                s.warning
            } else if ndi.sources@.len() == 0 {
                Some("NDI runtime ready, but no sources were discovered"@)
            } else if selected.len() > 0 && !texts(ndi.sources@).contains(selected) {
                Some("selected NDI source `"@ + selected + "` is not discovered"@)
            } else {
                s.warning
            },
            ..s
        }
    }
}

/// Adds what NDI says to the state of a route.
pub fn apply_ndi_route_status(
    route: &BridgeRouteConfig,
    status: &mut RouteRuntimeStatus,
    ndi: &NdiDiscovery,
)
    ensures
        final(status)@ == ndi_state(old(status)@, *route, *ndi),
{
    let from_ndi = route.input_kind == RouteInputKind::NdiSource;
    let to_ndi = route.output_kind == RouteOutputKind::NdiOutput;
    if !from_ndi && !to_ndi {
        return;
    }
    if !ndi.available {
        status.runtime = Some(owned("NDI runtime unavailable"));
        status.warning = match &ndi.error {
            Some(e) => Some(e.clone()),
            None => Some(owned("NDI runtime unavailable")),
        };
        status.stale = true;
        return;
    }
    status.runtime = Some(owned("system NDI runtime"));
    if from_ndi {
        if ndi.sources.len() == 0 {
            status.warning = Some(owned("NDI runtime ready, but no sources were discovered"));
        } else if let Some(selected) = &route.ndi_source {
            if !selected.as_str().is_empty() && !text_in(&ndi.sources, selected.as_str()) {
                status.warning = Some(
                    concat3("selected NDI source `", selected.as_str(), "` is not discovered"),
                );
            }
        }
    }
}

/// The state of a route, as it is shown.
pub fn route_status(
    route: &BridgeRouteConfig,
    base_url: &str,
    connected_clients: u32,
    seen: RouteObservation,
    ndi: &NdiDiscovery,
) -> (r: RouteRuntimeStatus)
    ensures
        r@ == ndi_state(
            observed_state(idle_state(*route, base_url@, connected_clients), seen),
            *route,
            *ndi,
        ),
{
    let mut status = RouteRuntimeStatus {
        id: route.id.clone(),
        running: false,
        pid: None,
        started_at_ms: None,
        exit: None,
        source_url: if route.is_vmix_browser_source() {
            Some(vmix_source_url(base_url, route))
        } else {
            None
        },
        connected_clients,
        warning: None,
        audio_level_ppm: None,
        audio_frames: 0,
        underflows: 0,
        drops: 0,
        stale: false,
        last_audio_ms_ago: None,
        runtime: None,
    };
    match seen {
        RouteObservation::Idle => {},
        RouteObservation::Served { finished, started_at_ms, telemetry } => {
            status.running = !finished;
            status.started_at_ms = Some(started_at_ms);
            status.audio_level_ppm = telemetry.audio_level_ppm;
            status.audio_frames = telemetry.audio_frames;
            status.underflows = telemetry.underflows;
            status.drops = telemetry.drops;
            status.stale = telemetry.stale;
            status.last_audio_ms_ago = telemetry.last_audio_ms_ago;
            status.runtime = Some(owned("WebSocket + Web Audio"));
            if finished {
                status.exit = Some(owned("browser source route stopped"));
            } else if telemetry.stale {
                status.warning = Some(
                    owned("Browser source is running but has not received recent RedLine audio"),
                );
            } else {
                status.warning = Some(
                    owned(
                        "Browser source page is streaming RedLine audio to connected vMix browser inputs",
                    ),
                );
            }
        },
        RouteObservation::Exited(how) => {
            status.exit = Some(how);
        },
        RouteObservation::Running { pid, started_at_ms } => {
            status.running = true;
            status.pid = pid;
            status.started_at_ms = Some(started_at_ms);
        },
        RouteObservation::Unknown(why) => {
            status.exit = Some(concat2("status error: ", why.as_str()));
        },
    }
    apply_ndi_route_status(route, &mut status, ndi);
    status
}

/// The state of the launcher, as it is shown.
#[derive(Debug)]
pub struct BridgeAppStateResponse {
    pub config: BridgeAppConfig,
    pub bridge_bin: String,
    pub base_url: String,
    pub routes: Vec<RouteRuntimeStatus>,
    pub input_devices: Vec<String>,
    pub output_devices: Vec<String>,
    pub ndi_available: bool,
    pub ndi_sources: Vec<String>,
    pub ndi_error: Option<String>,
    pub channels: Vec<ChannelOption>,
    pub discovery_warnings: Vec<String>,
}

/// What was found around the launcher: names of devices, NDI sources, and
/// channels of the server, or what stood in the way.
#[derive(Debug)]
pub struct Surroundings {
    pub input_devices: Result<Vec<String>, String>,
    pub output_devices: Result<Vec<String>, String>,
    pub ndi: NdiDiscovery,
    pub channels: Result<Vec<ChannelOption>, String>,
}

/// Some route takes audio from NDI.
pub open spec fn takes_from_ndi(routes: Seq<BridgeRouteConfig>) -> bool {
    exists|i: int| 0 <= i < routes.len() && (#[trigger] routes[i]).input_kind == RouteInputKind::NdiSource
}

/// Some route gives audio to NDI.
pub open spec fn gives_to_ndi(routes: Seq<BridgeRouteConfig>) -> bool {
    exists|i: int| 0 <= i < routes.len() && (#[trigger] routes[i]).output_kind == RouteOutputKind::NdiOutput
}

/// A warning, where something stood in the way.
pub open spec fn warned<T>(what: Seq<char>, found: Result<T, String>) -> Seq<Seq<char>> {
    match found {
        Ok(_) => Seq::empty(),
        Err(e) => seq![what + e@],
    }
}

/// The warnings about what was found around the launcher.
pub open spec fn warnings(routes: Seq<BridgeRouteConfig>, around: Surroundings) -> Seq<Seq<char>> {
    warned("input device discovery failed: "@, around.input_devices) + warned(
        "output device discovery failed: "@,
        around.output_devices,
    ) + (if (takes_from_ndi(routes) || gives_to_ndi(routes)) && around.ndi.error is Some {
        seq![around.ndi.error->Some_0@]
    } else {
        Seq::empty()
    }) + (if around.ndi.available && takes_from_ndi(routes) && around.ndi.sources@.len() == 0 {
        seq!["NDI runtime is available but no sources were discovered"@]
    } else {
        Seq::empty()
    }) + warned("server channel discovery failed: "@, around.channels)
}

fn any_from_ndi(routes: &Vec<BridgeRouteConfig>) -> (r: bool)
    ensures
        r == takes_from_ndi(routes@),
{
    let mut i: usize = 0;
    while i < routes.len()
        invariant
            0 <= i <= routes@.len(),
            forall|j: int|
                0 <= j < i ==> (#[trigger] routes@[j]).input_kind != RouteInputKind::NdiSource,
        decreases routes@.len() - i,
    {
        if routes[i].input_kind == RouteInputKind::NdiSource {
            return true;
        }
        i = i + 1;
    }
    false
}

fn any_to_ndi(routes: &Vec<BridgeRouteConfig>) -> (r: bool)
    ensures
        r == gives_to_ndi(routes@),
{
    let mut i: usize = 0;
    while i < routes.len()
        invariant
            0 <= i <= routes@.len(),
            forall|j: int|
                0 <= j < i ==> (#[trigger] routes@[j]).output_kind != RouteOutputKind::NdiOutput,
        decreases routes@.len() - i,
    {
        if routes[i].output_kind == RouteOutputKind::NdiOutput {
            return true;
        }
        i = i + 1;
    }
    false
}

fn warn_unless_found<T>(list: &mut Vec<String>, what: &str, found: &Result<T, String>)
    ensures
        texts(final(list)@) == texts(old(list)@) + warned(what@, *found),
{
    if let Err(e) = found {
        list.push(concat2(what, e.as_str()));
    }
    proof {
        assert(texts(list@) =~= texts(old(list)@) + warned(what@, *found));
    }
}

/// Lists the warnings about what was found around the launcher.
pub fn discovery_warnings(config: &BridgeAppConfig, around: &Surroundings) -> (r: Vec<String>)
    ensures
        texts(r@) == warnings(config.routes@, *around),
{
    let from_ndi = any_from_ndi(&config.routes);
    let to_ndi = any_to_ndi(&config.routes);
    let mut list: Vec<String> = Vec::new();
    warn_unless_found(&mut list, "input device discovery failed: ", &around.input_devices);
    proof {
        assert(texts(list@) =~= warned("input device discovery failed: "@, around.input_devices));
    }
    warn_unless_found(&mut list, "output device discovery failed: ", &around.output_devices);
    let ghost before = list@;
    if from_ndi || to_ndi {
        if let Some(e) = &around.ndi.error {
            list.push(e.clone());
            proof {
                assert(texts(list@) =~= texts(before) + seq![e@]);
            }
        }
    }
    proof {
        assert(texts(before) + Seq::<Seq<char>>::empty() =~= texts(before));
    }
    let ghost before = list@;
    if around.ndi.available && from_ndi && around.ndi.sources.len() == 0 {
        list.push(owned("NDI runtime is available but no sources were discovered"));
        proof {
            assert(texts(list@) =~= texts(before)
                + seq!["NDI runtime is available but no sources were discovered"@]);
        }
    }
    proof {
        assert(texts(before) + Seq::<Seq<char>>::empty() =~= texts(before));
    }
    warn_unless_found(&mut list, "server channel discovery failed: ", &around.channels);
    list
}

/// The names of devices that were found.
pub open spec fn devices_shown(found: Result<Vec<String>, String>) -> Seq<Seq<char>> {
    match found {
        Ok(names) => offered_names(texts(names@)),
        Err(_) => Seq::empty(),
    }
}

fn show_devices(found: Result<Vec<String>, String>) -> (r: Vec<String>)
    ensures
        texts(r@) == devices_shown(found),
{
    match found {
        Ok(names) => sorted_names(names),
        Err(_) => {
            let none: Vec<String> = Vec::new();
            proof {
                assert(texts(none@) =~= Seq::<Seq<char>>::empty());
            }
            none
        },
    }
}

/// The state of the launcher: `seen` holds what is seen of each route.
pub fn state_snapshot(
    config: BridgeAppConfig,
    bridge_bin: String,
    base_url: String,
    around: Surroundings,
    connections: &BrowserConnections,
    seen: Vec<RouteObservation>,
) -> (r: BridgeAppStateResponse)
    requires
        connections.wf(),
        seen@.len() == config.routes@.len(),
    ensures
        r.config == config,
        r.bridge_bin == bridge_bin,
        r.base_url == base_url,
        r.routes@.len() == config.routes@.len(),
        forall|i: int|
            0 <= i < r.routes@.len() ==> (#[trigger] r.routes@[i])@ == ndi_state(
                observed_state(
                    idle_state(
                        config.routes@[i],
                        base_url@,
                        connections.number(config.routes@[i].id@),
                    ),
                    seen@[i],
                ),
                config.routes@[i],
                around.ndi,
            ),
        texts(r.input_devices@) == devices_shown(around.input_devices),
        texts(r.output_devices@) == devices_shown(around.output_devices),
        r.ndi_available == around.ndi.available,
        r.ndi_sources == around.ndi.sources,
        r.ndi_error == around.ndi.error,
        channels(r.channels@) == merged_channels(
            match around.channels {
                Ok(found) => channels(found@),
                Err(_) => usual_channels(),
            },
            config.routes@,
        ),
        texts(r.discovery_warnings@) == warnings(config.routes@, around),
{
    let discovery_warnings = discovery_warnings(&config, &around);
    let ghost all = seen@;
    let n = config.routes.len();
    let mut rest = seen;
    let mut routes: Vec<RouteRuntimeStatus> = Vec::new();
    let mut i: usize = 0;
    proof {
        assert(all.skip(0) =~= all);
    }
    while i < n
        invariant
            n == config.routes@.len(),
            all.len() == n,
            connections.wf(),
            0 <= i <= n,
            rest@ == all.skip(i as int),
            routes@.len() == i,
            forall|k: int|
                0 <= k < i ==> (#[trigger] routes@[k])@ == ndi_state(
                    observed_state(
                        idle_state(
                            config.routes@[k],
                            base_url@,
                            connections.number(config.routes@[k].id@),
                        ),
                        all[k],
                    ),
                    config.routes@[k],
                    around.ndi,
                ),
        decreases n - i,
    {
        let observation = rest.remove(0);
        proof {
            assert(observation == all[i as int]);
            assert(rest@ =~= all.skip(i + 1));
        }
        let connected = connections.count(config.routes[i].id.as_str());
        let status = route_status(
            &config.routes[i],
            base_url.as_str(),
            connected,
            observation,
            &around.ndi,
        );
        routes.push(status);
        i = i + 1;
    }
    let input_devices = show_devices(around.input_devices);
    let output_devices = show_devices(around.output_devices);
    let channels = match around.channels {
        Ok(found) => merge_channel_options(found, &config),
        Err(_) => fallback_channel_options(&config),
    };
    BridgeAppStateResponse {
        config,
        bridge_bin,
        base_url,
        routes,
        input_devices,
        output_devices,
        ndi_available: around.ndi.available,
        ndi_sources: around.ndi.sources,
        ndi_error: around.ndi.error,
        channels,
        discovery_warnings,
    }
}

} // verus!
