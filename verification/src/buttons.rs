//! Talk buttons: the ones a client offers, and their description as text.

use vstd::prelude::*;
use std::cmp::Ordering;
use crate::order::{
    drop_repeats, drop_repeats_keeps_distinct, drop_repeats_keeps_order,
    drop_repeats_keeps_the_first, first_such, first_such_found, is_ranking, is_sorted,
    lemma_insert_stable_position, sort_keeps_members, sort_keeps_sorted, sort_keeps_the_first,
    sort_sorts, stable_sort,
};
use crate::protocol::{
    talk_mode_label, talk_mode_text, ButtonCapability, TalkButtonAction, TalkButtonConfig,
};
use crate::routing::{channels_text, format_channels};
use crate::text::{
    before, blank, concat2, concat3, concat4, decimal, is_blank, join, join_texts, owned,
    parse_u16, parse_unsigned, same, text_before, text_order_is_total, text_order_is_transitive,
    texts, trim, trim_is_idempotent, trimmed, u64_text,
};

verus! {

pub const DEFAULT_CLIENT_BUTTON_COUNT: u16 = 6;

pub const MAX_CLIENT_BUTTON_COUNT: u16 = 24;

/// A button as its id and its label.
pub open spec fn cap(b: ButtonCapability) -> (Seq<char>, Seq<char>) {
    (b.id@, b.label@)
}

/// Buttons as their ids and labels.
pub open spec fn caps(s: Seq<ButtonCapability>) -> Seq<(Seq<char>, Seq<char>)> {
    Seq::new(s.len(), |i: int| cap(s[i]))
}

// ---------------------------------------------------------------------------
// The order of buttons
// ---------------------------------------------------------------------------

/// The number that an id writes.
pub open spec fn id_number(id: Seq<char>) -> Option<nat> {
    parse_unsigned(id, u16::MAX as nat)
}

/// Ids that are numbers come first, by their value, then the others as texts.
pub open spec fn id_before(left: Seq<char>, right: Seq<char>) -> bool {
    match (id_number(left), id_number(right)) {
        (Some(a), Some(b)) => a < b,
        (Some(_), None) => true,
        (None, Some(_)) => false,
        (None, None) => text_before(left, right),
    }
}

/// The order of buttons by their ids.
pub open spec fn by_id() -> spec_fn((Seq<char>, Seq<char>), (Seq<char>, Seq<char>)) -> bool {
    |a: (Seq<char>, Seq<char>), b: (Seq<char>, Seq<char>)| id_before(a.0, b.0)
}

/// Two buttons have one id.
pub open spec fn one_id() -> spec_fn((Seq<char>, Seq<char>), (Seq<char>, Seq<char>)) -> bool {
    |a: (Seq<char>, Seq<char>), b: (Seq<char>, Seq<char>)| a.0 == b.0
}

/// Compares two button ids: numbers by their value, and before all other ids.
pub fn compare_button_ids(left: &str, right: &str) -> (r: Ordering)
    ensures
        r == (if id_before(left@, right@) {
            Ordering::Less
        } else if id_before(right@, left@) {
            Ordering::Greater
        } else {
            Ordering::Equal
        }),
{
    match (parse_u16(left), parse_u16(right)) {
        (Some(a), Some(b)) => if a < b {
            Ordering::Less
        } else if b < a {
            Ordering::Greater
        } else {
            Ordering::Equal
        },
        (Some(_), None) => Ordering::Less,
        (None, Some(_)) => Ordering::Greater,
        (None, None) => if before(left, right) {
            Ordering::Less
        } else if before(right, left) {
            Ordering::Greater
        } else {
            Ordering::Equal
        },
    }
}

fn stands_before(left: &str, right: &str) -> (r: bool)
    ensures
        r == id_before(left@, right@),
{
    match compare_button_ids(left, right) {
        Ordering::Less => true,
        _ => {
            proof {
                button_order_is_strict(left@, right@);
            }
            false
        },
    }
}

/// No id stands both before and after another.
pub proof fn button_order_is_strict(a: Seq<char>, b: Seq<char>)
    ensures
        !(id_before(a, b) && id_before(b, a)),
        !id_before(a, a),
{
    text_order_is_total(a, b);
    text_order_is_total(a, a);
}

/// The order of buttons is a ranking.
pub proof fn button_order_is_a_ranking()
    ensures
        is_ranking(by_id()),
{
    let f = by_id();
    assert forall|a: (Seq<char>, Seq<char>)| !#[trigger] f(a, a) by {
        button_order_is_strict(a.0, a.0);
    }
    assert forall|
        a: (Seq<char>, Seq<char>),
        b: (Seq<char>, Seq<char>),
        c: (Seq<char>, Seq<char>),
    |
        #![trigger f(a, b), f(b, c)]
        f(a, b) && f(b, c) implies f(a, c) by {
        if id_number(a.0) is None && id_number(b.0) is None && id_number(c.0) is None {
            text_order_is_transitive(a.0, b.0, c.0);
        }
    }
    assert forall|
        a: (Seq<char>, Seq<char>),
        b: (Seq<char>, Seq<char>),
        c: (Seq<char>, Seq<char>),
    |
        #![trigger f(a, b), f(b, c)]
        !f(a, b) && !f(b, c) implies !f(a, c) by {
        if id_number(a.0) is None && id_number(b.0) is None && id_number(c.0) is None {
            text_order_is_total(a.0, b.0);
            text_order_is_total(b.0, c.0);
            text_order_is_total(a.0, c.0);
            if text_before(a.0, c.0) {
                if text_before(b.0, a.0) {
                    text_order_is_transitive(b.0, a.0, c.0);
                }
            }
        }
    }
}

// ---------------------------------------------------------------------------
// Offered buttons
// ---------------------------------------------------------------------------

/// The buttons that a client offers by default: numbered from one.
pub fn default_button_capabilities(count: u16) -> (r: Vec<ButtonCapability>)
    ensures
        r@.len() == if count < MAX_CLIENT_BUTTON_COUNT {
            count as int
        } else {
            MAX_CLIENT_BUTTON_COUNT as int
        },
        forall|i: int|
            0 <= i < r@.len() ==> cap(#[trigger] r@[i]) == (
                decimal((i + 1) as nat),
                "Button "@ + decimal((i + 1) as nat),
            ),
{
    let n: u16 = if count < MAX_CLIENT_BUTTON_COUNT {
        count
    } else {
        MAX_CLIENT_BUTTON_COUNT
    };
    let mut out: Vec<ButtonCapability> = Vec::new();
    let mut i: u16 = 0;
    while i < n
        invariant
            0 <= i <= n <= MAX_CLIENT_BUTTON_COUNT,
            out@.len() == i,
            forall|j: int|
                0 <= j < i ==> cap(#[trigger] out@[j]) == (
                    decimal((j + 1) as nat),
                    "Button "@ + decimal((j + 1) as nat),
                ),
        decreases n - i,
    {
        let id = u64_text((i + 1) as u64);
        let label = concat2("Button ", id.as_str());
        out.push(ButtonCapability { id, label });
        i = i + 1;
    }
    out
}

/// A button with its texts trimmed. A blank label becomes the id.
pub open spec fn cleaned(b: (Seq<char>, Seq<char>)) -> (Seq<char>, Seq<char>) {
    (
        trim(b.0),
        if is_blank(b.1) {
            trim(b.0)
        } else {
            trim(b.1)
        },
    )
}

/// The buttons that have an id, cleaned.
pub open spec fn cleaned_all(s: Seq<(Seq<char>, Seq<char>)>) -> Seq<(Seq<char>, Seq<char>)>
    decreases s.len(),
{
    if s.len() == 0 {
        Seq::empty()
    } else if is_blank(s.last().0) {
        cleaned_all(s.drop_last())
    } else {
        cleaned_all(s.drop_last()).push(cleaned(s.last()))
    }
}

/// Buttons in order: cleaned, sorted by id, without repeated ids in a row.
pub open spec fn normal_buttons(s: Seq<(Seq<char>, Seq<char>)>) -> Seq<(Seq<char>, Seq<char>)> {
    drop_repeats(stable_sort(cleaned_all(s), by_id()), one_id())
}

fn copy_cap(b: &ButtonCapability) -> (r: ButtonCapability)
    ensures
        r == *b,
{
    ButtonCapability { id: b.id.clone(), label: b.label.clone() }
}

fn clean_buttons(buttons: &Vec<ButtonCapability>) -> (r: Vec<ButtonCapability>)
    ensures
        caps(r@) == cleaned_all(caps(buttons@)),
{
    let ghost all = caps(buttons@);
    let mut out: Vec<ButtonCapability> = Vec::new();
    let mut i: usize = 0;
    proof {
        assert(caps(out@) =~= cleaned_all(all.take(0)));
    }
    while i < buttons.len()
        invariant
            0 <= i <= buttons@.len(),
            all == caps(buttons@),
            caps(out@) == cleaned_all(all.take(i as int)),
        decreases buttons@.len() - i,
    {
        let b = &buttons[i];
        let ghost kept = out@;
        proof {
            assert(all.take(i + 1).drop_last() =~= all.take(i as int));
            assert(all.take(i + 1).last() == cap(*b));
        }
        if !blank(b.id.as_str()) {
            let id = trimmed(b.id.as_str());
            let label = if blank(b.label.as_str()) {
                id.clone()
            } else {
                trimmed(b.label.as_str())
            };
            out.push(ButtonCapability { id, label });
            proof {
                assert(caps(out@) =~= caps(kept).push(cleaned(cap(*b))));
            }
        }
        i = i + 1;
    }
    proof {
        assert(all.take(all.len() as int) =~= all);
    }
    out
}

fn sort_buttons(buttons: &Vec<ButtonCapability>) -> (r: Vec<ButtonCapability>)
    ensures
        caps(r@) == stable_sort(caps(buttons@), by_id()),
{
    let ghost all = caps(buttons@);
    let mut out: Vec<ButtonCapability> = Vec::new();
    let mut i: usize = 0;
    proof {
        assert(caps(out@) =~= stable_sort(all.take(0), by_id()));
    }
    while i < buttons.len()
        invariant
            0 <= i <= buttons@.len(),
            all == caps(buttons@),
            caps(out@) == stable_sort(all.take(i as int), by_id()),
        decreases buttons@.len() - i,
    {
        let b = copy_cap(&buttons[i]);
        let ghost x = cap(b);
        let ghost sorted = caps(out@);
        let mut pos: usize = out.len();
        while pos > 0 && stands_before(b.id.as_str(), out[pos - 1].id.as_str())
            invariant
                0 <= pos <= out@.len(),
                sorted == caps(out@),
                x == cap(b),
                forall|k: int| pos <= k < sorted.len() ==> by_id()(x, #[trigger] sorted[k]),
            decreases pos,
        {
            proof {
                assert(sorted[pos - 1] == cap(out@[pos - 1]));
            }
            pos = pos - 1;
        }
        proof {
            if pos > 0 {
                assert(sorted[pos - 1] == cap(out@[pos - 1]));
            }
            lemma_insert_stable_position(sorted, x, by_id(), pos as int);
            assert(all.take(i + 1).drop_last() =~= all.take(i as int));
            assert(all.take(i + 1).last() == x);
        }
        let ghost prior = out@;
        out.insert(pos, b);
        proof {
            assert(caps(out@) =~= sorted.insert(pos as int, x));
        }
        i = i + 1;
    }
    proof {
        assert(all.take(all.len() as int) =~= all);
    }
    out
}

fn drop_repeated_buttons(buttons: &Vec<ButtonCapability>) -> (r: Vec<ButtonCapability>)
    ensures
        caps(r@) == drop_repeats(caps(buttons@), one_id()),
{
    let ghost all = caps(buttons@);
    let mut out: Vec<ButtonCapability> = Vec::new();
    let mut i: usize = 0;
    proof {
        assert(caps(out@) =~= drop_repeats(all.take(0), one_id()));
    }
    while i < buttons.len()
        invariant
            0 <= i <= buttons@.len(),
            all == caps(buttons@),
            caps(out@) == drop_repeats(all.take(i as int), one_id()),
        decreases buttons@.len() - i,
    {
        let b = &buttons[i];
        let ghost kept = out@;
        proof {
            assert(all.take(i + 1).drop_last() =~= all.take(i as int));
            assert(all.take(i + 1).last() == cap(*b));
            if kept.len() > 0 {
                assert(caps(kept).last() == cap(kept[kept.len() - 1]));
            }
        }
        let n = out.len();
        let repeated = n > 0 && same(out[n - 1].id.as_str(), b.id.as_str());
        if !repeated {
            out.push(copy_cap(b));
            proof {
                assert(caps(out@) =~= caps(kept).push(cap(*b)));
            }
        }
        i = i + 1;
    }
    proof {
        assert(all.take(all.len() as int) =~= all);
    }
    out
}

/// Brings offered buttons in order: those without an id go, texts are trimmed,
/// and of several with one id the first stays.
pub fn normalize_button_capabilities(buttons: Vec<ButtonCapability>) -> (r: Vec<ButtonCapability>)
    ensures
        caps(r@) == normal_buttons(caps(buttons@)),
{
    let clean = clean_buttons(&buttons);
    let sorted = sort_buttons(&clean);
    drop_repeated_buttons(&sorted)
}

/// The first button at or after `i` with that id, white space aside, or the length.
pub open spec fn button_index(s: Seq<(Seq<char>, Seq<char>)>, id: Seq<char>, i: int) -> int
    decreases s.len() - i,
{
    if i >= s.len() {
        s.len() as int
    } else if trim(s[i].0) == trim(id) {
        i
    } else {
        button_index(s, id, i + 1)
    }
}

/// The buttons with `b` in place of the first one with its id, or behind them.
pub open spec fn with_button(
    s: Seq<(Seq<char>, Seq<char>)>,
    b: (Seq<char>, Seq<char>),
) -> Seq<(Seq<char>, Seq<char>)> {
    let i = button_index(s, b.0, 0);
    if i < s.len() {
        s.update(i, b)
    } else {
        s.push(b)
    }
}

/// The buttons with all of `overrides` put in, one after the other.
pub open spec fn with_buttons(
    s: Seq<(Seq<char>, Seq<char>)>,
    overrides: Seq<(Seq<char>, Seq<char>)>,
) -> Seq<(Seq<char>, Seq<char>)>
    decreases overrides.len(),
{
    if overrides.len() == 0 {
        s
    } else {
        with_button(with_buttons(s, overrides.drop_last()), overrides.last())
    }
}

/// The default buttons with some of them replaced, and others added.
pub fn merge_button_capabilities(
    defaults: Vec<ButtonCapability>,
    overrides: Vec<ButtonCapability>,
) -> (r: Vec<ButtonCapability>)
    ensures
        caps(r@) == normal_buttons(with_buttons(caps(defaults@), caps(overrides@))),
{
    let ghost start = caps(defaults@);
    let ghost all = caps(overrides@);
    let mut merged = defaults;
    let mut i: usize = 0;
    proof {
        assert(all.take(0) =~= Seq::<(Seq<char>, Seq<char>)>::empty());
    }
    while i < overrides.len()
        invariant
            0 <= i <= overrides@.len(),
            all == caps(overrides@),
            caps(merged@) == with_buttons(start, all.take(i as int)),
        decreases overrides@.len() - i,
    {
        let b = copy_cap(&overrides[i]);
        let ghost m = caps(merged@);
        let id = trimmed(b.id.as_str());
        let mut k: usize = 0;
        while k < merged.len() && !same(trimmed(merged[k].id.as_str()).as_str(), id.as_str())
            invariant
                0 <= k <= merged@.len(),
                m == caps(merged@),
                id@ == trim(b.id@),
                button_index(m, b.id@, 0) == button_index(m, b.id@, k as int),
            decreases merged@.len() - k,
        {
            proof {
                assert(m[k as int] == cap(merged@[k as int]));
            }
            k = k + 1;
        }
        proof {
            assert(all.take(i + 1).drop_last() =~= all.take(i as int));
            assert(all.take(i + 1).last() == cap(b));
            if k < m.len() {
                assert(m[k as int] == cap(merged@[k as int]));
            }
        }
        let ghost x = cap(b);
        if k < merged.len() {
            merged.set(k, b);
            proof {
                assert(caps(merged@) =~= m.update(k as int, x));
            }
        } else {
            merged.push(b);
            proof {
                assert(caps(merged@) =~= m.push(x));
            }
        }
        i = i + 1;
    }
    proof {
        assert(all.take(all.len() as int) =~= all);
    }
    normalize_button_capabilities(merged)
}

// ---------------------------------------------------------------------------
// Buttons as text
// ---------------------------------------------------------------------------

/// An action as text.
pub open spec fn action_text(a: TalkButtonAction) -> Seq<char> {
    match a {
        TalkButtonAction::Transmit { channels, users, duck } => "tx ch="@ + channels_text(channels@)
            + " users="@ + channels_text(users@) + (if duck {
            " duck"@
        } else {
            ""@
        }),
        TalkButtonAction::Alert { targets, .. } => "alert "@ + decimal(targets@.len()),
        TalkButtonAction::ApplyPreset { preset_id } => "preset "@ + preset_id@,
        TalkButtonAction::SetTalkMode { users, mode } => "talk-mode "@ + talk_mode_label(mode)
            + " users="@ + channels_text(users@),
        TalkButtonAction::RouteEdit { users, .. } => "route-edit users="@ + channels_text(users@),
    }
}

/// The actions of a button as text.
pub open spec fn actions_text(a: Seq<TalkButtonAction>) -> Seq<char> {
    if a.len() == 0 {
        "none"@
    } else {
        join(Seq::new(a.len(), |i: int| action_text(a[i])), "+"@)
    }
}

/// Buttons as text: a dash where there is none.
pub open spec fn buttons_text(b: Seq<TalkButtonConfig>) -> Seq<char> {
    if b.len() == 0 {
        "-"@
    } else {
        join(Seq::new(b.len(), |i: int| b[i].id@ + ":"@ + actions_text(b[i].actions@)), ","@)
    }
}

fn format_action(a: &TalkButtonAction) -> (r: String)
    ensures
        r@ == action_text(*a),
{
    match a {
        TalkButtonAction::Transmit { channels, users, duck } => {
            let head = concat4(
                "tx ch=",
                format_channels(channels).as_str(),
                " users=",
                format_channels(users).as_str(),
            );
            concat2(
                head.as_str(),
                if *duck {
                    " duck"
                } else {
                    ""
                },
            )
        },
        TalkButtonAction::Alert { targets, .. } => concat2(
            "alert ",
            u64_text(targets.len() as u64).as_str(),
        ),
        TalkButtonAction::ApplyPreset { preset_id } => concat2("preset ", preset_id.as_str()),
        TalkButtonAction::SetTalkMode { users, mode } => concat4(
            "talk-mode ",
            talk_mode_text(*mode),
            " users=",
            format_channels(users).as_str(),
        ),
        TalkButtonAction::RouteEdit { users, .. } => concat2(
            "route-edit users=",
            format_channels(users).as_str(),
        ),
    }
}

/// The actions of a button as text.
pub fn format_button_actions(actions: &Vec<TalkButtonAction>) -> (r: String)
    ensures
        r@ == actions_text(actions@),
{
    if actions.len() == 0 {
        return owned("none");
    }
    let mut out: Vec<String> = Vec::new();
    let mut i: usize = 0;
    while i < actions.len()
        invariant
            0 <= i <= actions@.len(),
            out@.len() == i,
            forall|j: int| 0 <= j < i ==> (#[trigger] out@[j])@ == action_text(actions@[j]),
        decreases actions@.len() - i,
    {
        out.push(format_action(&actions[i]));
        i = i + 1;
    }
    proof {
        assert(texts(out@) =~= Seq::new(actions@.len(), |i: int| action_text(actions@[i])));
    }
    join_texts(&out, "+")
}

/// Buttons as text.
pub fn format_buttons(buttons: &Vec<TalkButtonConfig>) -> (r: String)
    ensures
        r@ == buttons_text(buttons@),
{
    if buttons.len() == 0 {
        return owned("-");
    }
    let mut out: Vec<String> = Vec::new();
    let mut i: usize = 0;
    while i < buttons.len()
        invariant
            0 <= i <= buttons@.len(),
            out@.len() == i,
            forall|j: int|
                0 <= j < i ==> (#[trigger] out@[j])@ == buttons@[j].id@ + ":"@ + actions_text(
                    buttons@[j].actions@,
                ),
        decreases buttons@.len() - i,
    {
        let b = &buttons[i];
        out.push(concat3(b.id.as_str(), ":", format_button_actions(&b.actions).as_str()));
        i = i + 1;
    }
    proof {
        assert(texts(out@) =~= Seq::new(
            buttons@.len(),
            |i: int| buttons@[i].id@ + ":"@ + actions_text(buttons@[i].actions@),
        ));
    }
    join_texts(&out, ",")
}

/// Button ids as text: a dash where there is none.
pub fn format_button_ids(buttons: &Vec<String>) -> (r: String)
    ensures
        r@ == if buttons@.len() == 0 {
            "-"@
        } else {
            join(texts(buttons@), ","@)
        },
{
    if buttons.len() == 0 {
        owned("-")
    } else {
        join_texts(buttons, ",")
    }
}

// ---------------------------------------------------------------------------
// Laws
// ---------------------------------------------------------------------------

/// A button with an id and a label, both trimmed.
pub open spec fn is_clean(b: (Seq<char>, Seq<char>)) -> bool {
    !is_blank(b.0) && !is_blank(b.1) && trim(b.0) == b.0 && trim(b.1) == b.1
}

proof fn lemma_cleaned_all(s: Seq<(Seq<char>, Seq<char>)>)
    ensures
        forall|i: int| 0 <= i < cleaned_all(s).len() ==> is_clean(#[trigger] cleaned_all(s)[i]),
        cleaned_all(s).len() <= s.len(),
    decreases s.len(),
{
    if s.len() > 0 {
        lemma_cleaned_all(s.drop_last());
        trim_is_idempotent(s.last().0);
        trim_is_idempotent(s.last().1);
    }
}

proof fn lemma_clean_kept(s: Seq<(Seq<char>, Seq<char>)>)
    requires
        forall|i: int| 0 <= i < s.len() ==> is_clean(#[trigger] s[i]),
    ensures
        cleaned_all(s) == s,
    decreases s.len(),
{
    if s.len() > 0 {
        let t = s.drop_last();
        assert forall|i: int| 0 <= i < t.len() implies is_clean(#[trigger] t[i]) by {
            assert(s[i] == t[i]);
        }
        lemma_clean_kept(t);
        assert(is_clean(s[s.len() - 1]));
        assert(s =~= t.push(s.last()));
    } else {
        assert(cleaned_all(s) =~= s);
    }
}

/// Buttons in order stand in the order of their ids, each of them has an id and a
/// label without white space around them, and bringing them in order once more
/// changes nothing.
pub proof fn normal_buttons_are_in_order(s: Seq<(Seq<char>, Seq<char>)>)
    ensures
        is_sorted(normal_buttons(s), by_id()),
        forall|i: int| 0 <= i < normal_buttons(s).len() ==> is_clean(#[trigger] normal_buttons(s)[i]),
        normal_buttons(normal_buttons(s)) == normal_buttons(s),
        normal_buttons(s).len() <= s.len(),
{
    let c = cleaned_all(s);
    let t = stable_sort(c, by_id());
    let r = normal_buttons(s);
    lemma_cleaned_all(s);
    button_order_is_a_ranking();
    sort_sorts(c, by_id());
    crate::order::sort_is_a_permutation(c, by_id());
    drop_repeats_keeps_order(t, one_id(), by_id());
    assert forall|i: int| 0 <= i < r.len() implies is_clean(#[trigger] r[i]) by {
        assert(t.contains(r[i]));
        sort_keeps_members(c, by_id(), r[i]);
        let k = choose|k: int| 0 <= k < c.len() && c[k] == r[i];
        assert(is_clean(c[k]));
    }
    lemma_clean_kept(r);
    sort_keeps_sorted(r, by_id());
    drop_repeats_keeps_distinct(r, one_id());
}

/// Where no two ids write one number differently, no id occurs twice among
/// buttons in order.
pub proof fn normal_buttons_have_distinct_ids(s: Seq<(Seq<char>, Seq<char>)>, i: int, j: int)
    requires
        forall|a: int, b: int|
            #![trigger s[a], s[b]]
            0 <= a < s.len() && 0 <= b < s.len() && id_number(trim(s[a].0)) is Some && id_number(
                trim(s[a].0),
            ) == id_number(trim(s[b].0)) ==> trim(s[a].0) == trim(s[b].0),
        0 <= i < j < normal_buttons(s).len(),
    ensures
        normal_buttons(s)[i].0 != normal_buttons(s)[j].0,
{
    let c = cleaned_all(s);
    let t = stable_sort(c, by_id());
    let r = normal_buttons(s);
    button_order_is_a_ranking();
    sort_sorts(c, by_id());
    drop_repeats_keeps_order(t, one_id(), by_id());
    if r[i].0 == r[j].0 {
        let m = r[j - 1];
        assert(!by_id()(r[j], r[j - 1]));
        if i < j - 1 {
            assert(!by_id()(r[j - 1], r[i]));
        }
        // Neither `m` nor `r[j]` stands before the other: they have one number or one text.
        assert(!id_before(m.0, r[j].0) && !id_before(r[j].0, m.0));
        assert(t.contains(m) && t.contains(r[j]));
        sort_keeps_members(c, by_id(), m);
        sort_keeps_members(c, by_id(), r[j]);
        lemma_cleaned_source(s, m);
        lemma_cleaned_source(s, r[j]);
        let a = choose|a: int| 0 <= a < s.len() && trim((#[trigger] s[a]).0) == m.0;
        let b = choose|b: int| 0 <= b < s.len() && trim((#[trigger] s[b]).0) == r[j].0;
        assert(trim(s[a].0) == m.0 && trim(s[b].0) == r[j].0);
        text_order_is_total(m.0, r[j].0);
        assert(m.0 == r[j].0);
        assert(!one_id()(r[j - 1], r[j]));
    }
}

proof fn lemma_cleaned_source(s: Seq<(Seq<char>, Seq<char>)>, x: (Seq<char>, Seq<char>))
    requires
        cleaned_all(s).contains(x),
    ensures
        exists|a: int| 0 <= a < s.len() && trim((#[trigger] s[a]).0) == x.0,
    decreases s.len(),
{
    if s.len() > 0 {
        let t = s.drop_last();
        let r = cleaned_all(s);
        let k = choose|k: int| 0 <= k < r.len() && r[k] == x;
        if k < cleaned_all(t).len() {
            assert(cleaned_all(t)[k] == x);
            lemma_cleaned_source(t, x);
            let a = choose|a: int| 0 <= a < t.len() && trim((#[trigger] t[a]).0) == x.0;
            assert(trim(s[a].0) == x.0);
        } else {
            assert(trim(s[s.len() - 1].0) == x.0);
        }
    }
}

/// Buttons with that id.
spec fn with_id(id: Seq<char>) -> spec_fn((Seq<char>, Seq<char>)) -> bool {
    |b: (Seq<char>, Seq<char>)| b.0 == id
}

proof fn lemma_cleaned_first(s: Seq<(Seq<char>, Seq<char>)>, k: int)
    requires
        0 <= k < s.len(),
        !is_blank(s[k].0),
        forall|j: int| 0 <= j < k ==> trim((#[trigger] s[j]).0) != trim(s[k].0),
    ensures
        first_such(cleaned_all(s), with_id(trim(s[k].0))) == Some(cleaned(s[k])),
    decreases s.len(),
{
    let t = s.drop_last();
    let id = trim(s[k].0);
    let rest = cleaned_all(t);
    assert(rest.push(cleaned(s.last())).drop_last() =~= rest);
    if k < s.len() - 1 {
        lemma_cleaned_first(t, k);
    } else {
        first_such_found(rest, with_id(id));
        if first_such(rest, with_id(id)) is Some {
            let x = first_such(rest, with_id(id))->Some_0;
            assert(rest.contains(x));
            lemma_cleaned_source(t, x);
            let a = choose|a: int| 0 <= a < t.len() && trim((#[trigger] t[a]).0) == x.0;
            assert(trim(s[a].0) == id);
        }
    }
}

/// Of several buttons with one id, white space aside, the first one stays: among the
/// buttons in order it is the first of its id.
pub proof fn normal_buttons_keep_the_first(s: Seq<(Seq<char>, Seq<char>)>, k: int)
    requires
        0 <= k < s.len(),
        !is_blank(s[k].0),
        forall|j: int| 0 <= j < k ==> trim((#[trigger] s[j]).0) != trim(s[k].0),
    ensures
        exists|i: int|
            0 <= i < normal_buttons(s).len() && #[trigger] normal_buttons(s)[i] == cleaned(s[k])
                && forall|j: int|
                0 <= j < i ==> (#[trigger] normal_buttons(s)[j]).0 != trim(s[k].0),
{
    let c = cleaned_all(s);
    let p = with_id(trim(s[k].0));
    let r = normal_buttons(s);
    lemma_cleaned_first(s, k);
    assert forall|a: (Seq<char>, Seq<char>), b: (Seq<char>, Seq<char>)| p(a) && p(b) implies
        !#[trigger] by_id()(a, b) by {
        button_order_is_strict(a.0, a.0);
    }
    sort_keeps_the_first(c, by_id(), p);
    drop_repeats_keeps_the_first(stable_sort(c, by_id()), one_id(), p);
    first_such_found(r, p);
    let i = choose|i: int|
        0 <= i < r.len() && #[trigger] r[i] == cleaned(s[k]) && forall|j: int|
            0 <= j < i ==> !p(#[trigger] r[j]);
    assert forall|j: int| 0 <= j < i implies (#[trigger] r[j]).0 != trim(s[k].0) by {
        assert(!p(r[j]));
    }
    assert(r[i] == cleaned(s[k]));
}

} // verus!
