//! Talk buttons.

use std::cmp::Ordering;

use vstd::prelude::*;

use crate::buttons::{
    button_index, caps, cleaned, cleaned_all, compare_button_ids, default_button_capabilities,
    format_button_actions, format_button_ids, format_buttons, merge_button_capabilities,
    normal_buttons, normal_buttons_are_in_order, normal_buttons_keep_the_first,
    normalize_button_capabilities, with_button, with_buttons,
};
use crate::laws::text::{all_space, lemma_before_at, lemma_blank};
use crate::order::{drop_repeats_keeps_order, sort_keeps_members, sort_sorts, stable_sort};
use crate::protocol::{ButtonCapability, TalkButtonAction, TalkButtonConfig, TalkMode};
use crate::routing::channels_text;
use crate::text::{decimal, decimal_round_trip, is_digit, join, texts, trim};

verus! {

// ---------------------------------------------------------------------------
// The order of ids
// ---------------------------------------------------------------------------

/// An id ends in something else than a digit.
pub open spec fn wordy(id: Seq<char>) -> bool {
    id.len() > 0 && !is_digit(id.last())
}

proof fn lemma_wordy(id: Seq<char>)
    requires
        wordy(id),
    ensures
        crate::buttons::id_number(id) is None,
{
    let d = crate::text::unsigned_part(id);
    if d.len() > 0 {
        assert(d.last() == id.last());
        assert(d[d.len() - 1] == d.last());
    }
}

/// Numbers are ordered by what they count.
pub proof fn numbers_are_ordered_by_value(left: &str, right: &str, a: nat, b: nat, r: Ordering)
    requires
        call_ensures(compare_button_ids, (left, right), r),
        a <= 65535 && b <= 65535,
        left@ == decimal(a),
        right@ == decimal(b),
    ensures
        r == Ordering::Less <==> a < b,
        r == Ordering::Equal <==> a == b,
        r == Ordering::Greater <==> a > b,
{
    decimal_round_trip(a, 65535);
    decimal_round_trip(b, 65535);
}

/// A number stands before a name, and a name behind a number.
pub proof fn numbers_stand_before_names(
    number: &str,
    name: &str,
    a: nat,
    forth: Ordering,
    back: Ordering,
)
    requires
        call_ensures(compare_button_ids, (number, name), forth),
        call_ensures(compare_button_ids, (name, number), back),
        a <= 65535,
        number@ == decimal(a),
        wordy(name@),
    ensures
        forth == Ordering::Less,
        back == Ordering::Greater,
{
    decimal_round_trip(a, 65535);
    lemma_wordy(name@);
}

/// Names are ordered by the first character in which they differ, and a name stands
/// before one that goes on from it.
pub proof fn names_are_ordered_where_they_differ(
    left: &str,
    right: &str,
    k: int,
    forth: Ordering,
    back: Ordering,
)
    requires
        call_ensures(compare_button_ids, (left, right), forth),
        call_ensures(compare_button_ids, (right, left), back),
        wordy(left@) && wordy(right@),
        0 <= k <= left@.len() && k <= right@.len(),
        forall|i: int| 0 <= i < k ==> left@[i] == right@[i],
    ensures
        k < left@.len() && k < right@.len() && left@[k] < right@[k] ==> forth == Ordering::Less
            && back == Ordering::Greater,
        k == left@.len() && k < right@.len() ==> forth == Ordering::Less && back
            == Ordering::Greater,
        k == left@.len() && k == right@.len() ==> forth == Ordering::Equal,
{
    lemma_wordy(left@);
    lemma_wordy(right@);
    assert(left@.take(k) =~= right@.take(k));
    lemma_before_at(left@, right@, k);
    lemma_before_at(right@, left@, k);
}

// ---------------------------------------------------------------------------
// Buttons that a client offers
// ---------------------------------------------------------------------------

/// A client offers as many buttons as it is asked for, but no more than twenty-four,
/// and they are numbered from one.
pub proof fn offered_buttons_are_numbered(count: u16, r: Vec<ButtonCapability>, i: int)
    requires
        call_ensures(default_button_capabilities, (count,), r),
    ensures
        count <= 24 ==> r@.len() == count,
        count > 24 ==> r@.len() == 24,
        0 <= i < r@.len() ==> r@[i].id@ == decimal((i + 1) as nat) && r@[i].label@ == "Button "@
            + r@[i].id@,
{
    if 0 <= i < r@.len() {
        assert(crate::buttons::cap(r@[i]).0 == r@[i].id@);
    }
}

proof fn lemma_source(s: Seq<(Seq<char>, Seq<char>)>, x: (Seq<char>, Seq<char>))
    requires
        cleaned_all(s).contains(x),
    ensures
        exists|a: int|
            0 <= a < s.len() && #[trigger] cleaned(s[a]) == x && !crate::text::is_blank(s[a].0),
    decreases s.len(),
{
    if s.len() > 0 {
        let t = s.drop_last();
        let r = cleaned_all(s);
        let k = choose|k: int| 0 <= k < r.len() && r[k] == x;
        if k < cleaned_all(t).len() {
            assert(cleaned_all(t)[k] == x);
            lemma_source(t, x);
            let a = choose|a: int|
                0 <= a < t.len() && #[trigger] cleaned(t[a]) == x && !crate::text::is_blank(t[a].0);
            assert(cleaned(s[a]) == x);
        } else {
            assert(cleaned(s[s.len() - 1]) == x);
        }
    }
}

proof fn lemma_normal_source(s: Seq<(Seq<char>, Seq<char>)>, i: int)
    requires
        0 <= i < normal_buttons(s).len(),
    ensures
        exists|a: int|
            0 <= a < s.len() && #[trigger] cleaned(s[a]) == normal_buttons(s)[i]
                && !crate::text::is_blank(s[a].0),
{
    let c = cleaned_all(s);
    let t = stable_sort(c, crate::buttons::by_id());
    let r = normal_buttons(s);
    crate::buttons::button_order_is_a_ranking();
    sort_sorts(c, crate::buttons::by_id());
    drop_repeats_keeps_order(t, crate::buttons::one_id(), crate::buttons::by_id());
    assert(t.contains(r[i]));
    sort_keeps_members(c, crate::buttons::by_id(), r[i]);
    lemma_source(s, r[i]);
}

/// The button stands for the other: it has its id and label without the white space
/// around them, and the id for a label where there is none.
pub open spec fn stands_for(b: ButtonCapability, of: ButtonCapability) -> bool {
    &&& !all_space(of.id@)
    &&& b.id@ == trim(of.id@)
    &&& b.label@ == if all_space(of.label@) {
        b.id@
    } else {
        trim(of.label@)
    }
}

proof fn lemma_stands_for(b: ButtonCapability, of: ButtonCapability)
    ensures
        !crate::text::is_blank(of.id@) && crate::buttons::cap(b) == cleaned(
            crate::buttons::cap(of),
        ) <==> stands_for(b, of),
{
    lemma_blank(of.id@);
    lemma_blank(of.label@);
}

/// Every button among the normal ones stands for one that was given.
pub proof fn normal_buttons_stand_for_given_ones(
    buttons: Vec<ButtonCapability>,
    r: Vec<ButtonCapability>,
    i: int,
)
    requires
        call_ensures(normalize_button_capabilities, (buttons,), r),
        0 <= i < r@.len(),
    ensures
        exists|a: int| 0 <= a < buttons@.len() && stands_for(r@[i], #[trigger] buttons@[a]),
{
    let s = caps(buttons@);
    assert(caps(r@).len() == r@.len());
    lemma_normal_source(s, i);
    let a = choose|a: int|
        0 <= a < s.len() && #[trigger] cleaned(s[a]) == normal_buttons(s)[i]
            && !crate::text::is_blank(s[a].0);
    assert(caps(r@)[i] == crate::buttons::cap(r@[i]));
    lemma_stands_for(r@[i], buttons@[a]);
}

/// Of the given buttons with one id the first is among the normal ones.
pub proof fn the_first_button_of_an_id_stays(
    buttons: Vec<ButtonCapability>,
    r: Vec<ButtonCapability>,
    k: int,
)
    requires
        call_ensures(normalize_button_capabilities, (buttons,), r),
        0 <= k < buttons@.len(),
        !all_space(buttons@[k].id@),
        forall|j: int| 0 <= j < k ==> trim((#[trigger] buttons@[j]).id@) != trim(buttons@[k].id@),
    ensures
        exists|i: int| 0 <= i < r@.len() && stands_for(#[trigger] r@[i], buttons@[k]),
{
    let s = caps(buttons@);
    lemma_blank(s[k].0);
    assert forall|j: int| 0 <= j < k implies trim((#[trigger] s[j]).0) != trim(s[k].0) by {
        assert(trim(buttons@[j].id@) != trim(buttons@[k].id@));
    }
    normal_buttons_keep_the_first(s, k);
    let i = choose|i: int|
        0 <= i < normal_buttons(s).len() && #[trigger] normal_buttons(s)[i] == cleaned(s[k])
            && forall|j: int|
            0 <= j < i ==> (#[trigger] normal_buttons(s)[j]).0 != trim(s[k].0);
    assert(caps(r@)[i] == crate::buttons::cap(r@[i]));
    lemma_stands_for(r@[i], buttons@[k]);
}

/// Normal buttons stand in the order of their ids, and no two that touch have one id.
pub proof fn normal_buttons_are_ordered(
    buttons: Vec<ButtonCapability>,
    r: Vec<ButtonCapability>,
    i: int,
    j: int,
    left: &str,
    right: &str,
    o: Ordering,
)
    requires
        call_ensures(normalize_button_capabilities, (buttons,), r),
        0 <= i < j < r@.len(),
        left@ == r@[i].id@ && right@ == r@[j].id@,
        call_ensures(compare_button_ids, (left, right), o),
    ensures
        o != Ordering::Greater,
        j == i + 1 ==> left@ != right@,
        r@.len() <= buttons@.len(),
{
    let s = caps(buttons@);
    let n = normal_buttons(s);
    normal_buttons_are_in_order(s);
    assert(caps(r@)[i] == crate::buttons::cap(r@[i]));
    assert(caps(r@)[j] == crate::buttons::cap(r@[j]));
    assert(!crate::buttons::by_id()(n[j], n[i]));
    crate::buttons::button_order_is_a_ranking();
    let c = cleaned_all(s);
    let t = stable_sort(c, crate::buttons::by_id());
    sort_sorts(c, crate::buttons::by_id());
    drop_repeats_keeps_order(t, crate::buttons::one_id(), crate::buttons::by_id());
    if j == i + 1 {
        assert(!crate::buttons::one_id()(n[j - 1], n[j]));
    }
}

// ---------------------------------------------------------------------------
// Overrides
// ---------------------------------------------------------------------------

/// The button at `k` is the first with its id.
spec fn first_of_id(s: Seq<(Seq<char>, Seq<char>)>, k: int) -> bool {
    &&& 0 <= k < s.len()
    &&& forall|j: int| 0 <= j < k ==> trim((#[trigger] s[j]).0) != trim(s[k].0)
}

proof fn lemma_button_index(s: Seq<(Seq<char>, Seq<char>)>, id: Seq<char>, i: int)
    requires
        0 <= i <= s.len(),
    ensures
        i <= button_index(s, id, i) <= s.len(),
        button_index(s, id, i) < s.len() ==> trim(s[button_index(s, id, i)].0) == trim(id),
        forall|j: int| i <= j < button_index(s, id, i) ==> trim((#[trigger] s[j]).0) != trim(id),
    decreases s.len() - i,
{
    if i < s.len() && trim(s[i].0) != trim(id) {
        lemma_button_index(s, id, i + 1);
    }
}

/// A button that is put in is the first of its id, and the first of another id stays.
proof fn lemma_put_in(s: Seq<(Seq<char>, Seq<char>)>, b: (Seq<char>, Seq<char>), k: int)
    ensures
        exists|i: int| first_of_id(with_button(s, b), i) && #[trigger] with_button(s, b)[i] == b,
        first_of_id(s, k) && trim(s[k].0) != trim(b.0) ==> first_of_id(with_button(s, b), k)
            && with_button(s, b)[k] == s[k],
{
    lemma_button_index(s, b.0, 0);
    let i = button_index(s, b.0, 0);
    let t = with_button(s, b);
    assert forall|j: int| 0 <= j < i implies trim((#[trigger] t[j]).0) != trim(b.0) by {
        assert(t[j] == s[j]);
    }
    assert(first_of_id(t, i) && t[i] == b);
    if first_of_id(s, k) && trim(s[k].0) != trim(b.0) {
        assert(t[k] == s[k]);
        assert forall|j: int| 0 <= j < k implies trim((#[trigger] t[j]).0) != trim(t[k].0) by {
            if j != i {
                assert(t[j] == s[j]);
            }
        }
    }
}

proof fn lemma_overrides_win(
    s: Seq<(Seq<char>, Seq<char>)>,
    o: Seq<(Seq<char>, Seq<char>)>,
    k: int,
)
    requires
        0 <= k < o.len(),
        forall|j: int| k < j < o.len() ==> trim((#[trigger] o[j]).0) != trim(o[k].0),
    ensures
        exists|i: int|
            first_of_id(with_buttons(s, o), i) && #[trigger] with_buttons(s, o)[i] == o[k],
    decreases o.len(),
{
    let p = o.drop_last();
    let t = with_buttons(s, p);
    lemma_put_in(t, o.last(), 0);
    if k < o.len() - 1 {
        assert forall|j: int| k < j < p.len() implies trim((#[trigger] p[j]).0) != trim(p[k].0) by {
            assert(p[j] == o[j]);
        }
        lemma_overrides_win(s, p, k);
        let i = choose|i: int| first_of_id(t, i) && #[trigger] t[i] == p[k];
        assert(trim(o[o.len() - 1].0) != trim(o[k].0));
        lemma_put_in(t, o.last(), i);
        assert(with_buttons(s, o)[i] == o[k]);
    } else {
        let i = choose|i: int|
            first_of_id(with_button(t, o.last()), i) && #[trigger] with_button(t, o.last())[i]
                == o.last();
        assert(with_buttons(s, o)[i] == o[k]);
    }
}

proof fn lemma_defaults_stay(
    s: Seq<(Seq<char>, Seq<char>)>,
    o: Seq<(Seq<char>, Seq<char>)>,
    k: int,
)
    requires
        first_of_id(s, k),
        forall|j: int| 0 <= j < o.len() ==> trim((#[trigger] o[j]).0) != trim(s[k].0),
    ensures
        first_of_id(with_buttons(s, o), k),
        with_buttons(s, o)[k] == s[k],
    decreases o.len(),
{
    if o.len() > 0 {
        let p = o.drop_last();
        assert forall|j: int| 0 <= j < p.len() implies trim((#[trigger] p[j]).0) != trim(
            s[k].0,
        ) by {
            assert(p[j] == o[j]);
        }
        lemma_defaults_stay(s, p, k);
        assert(trim(o[o.len() - 1].0) != trim(s[k].0));
        lemma_put_in(with_buttons(s, p), o.last(), k);
    }
}

proof fn lemma_nothing_invented(
    s: Seq<(Seq<char>, Seq<char>)>,
    o: Seq<(Seq<char>, Seq<char>)>,
    i: int,
)
    requires
        0 <= i < with_buttons(s, o).len(),
    ensures
        s.contains(with_buttons(s, o)[i]) || o.contains(with_buttons(s, o)[i]),
    decreases o.len(),
{
    if o.len() > 0 {
        let p = o.drop_last();
        let t = with_buttons(s, p);
        let b = o[o.len() - 1];
        lemma_button_index(t, b.0, 0);
        let x = with_buttons(s, o)[i];
        if x != b {
            assert(x == t[i]);
            lemma_nothing_invented(s, p, i);
            if p.contains(x) {
                let k = choose|k: int| 0 <= k < p.len() && p[k] == x;
                assert(o[k] == x);
            }
        } else {
            assert(o.contains(b));
        }
    }
}

/// Of the overrides with one id the last is what the merged buttons have.
pub proof fn the_last_override_wins(
    defaults: Vec<ButtonCapability>,
    overrides: Vec<ButtonCapability>,
    r: Vec<ButtonCapability>,
    k: int,
)
    requires
        call_ensures(merge_button_capabilities, (defaults, overrides), r),
        0 <= k < overrides@.len(),
        !all_space(overrides@[k].id@),
        forall|j: int|
            k < j < overrides@.len() ==> trim((#[trigger] overrides@[j]).id@) != trim(
                overrides@[k].id@,
            ),
    ensures
        exists|i: int|
            0 <= i < r@.len() && stands_for(#[trigger] r@[i], overrides@[k]) && forall|j: int|
                0 <= j < i ==> (#[trigger] r@[j]).id@ != r@[i].id@,
{
    let s = caps(defaults@);
    let o = caps(overrides@);
    let t = with_buttons(s, o);
    assert forall|j: int| k < j < o.len() implies trim((#[trigger] o[j]).0) != trim(o[k].0) by {
        assert(trim(overrides@[j].id@) != trim(overrides@[k].id@));
    }
    lemma_overrides_win(s, o, k);
    let a = choose|a: int| first_of_id(t, a) && #[trigger] t[a] == o[k];
    lemma_blank(overrides@[k].id@);
    normal_buttons_keep_the_first(t, a);
    let i = choose|i: int|
        0 <= i < normal_buttons(t).len() && #[trigger] normal_buttons(t)[i] == cleaned(t[a])
            && forall|j: int|
            0 <= j < i ==> (#[trigger] normal_buttons(t)[j]).0 != trim(t[a].0);
    assert(caps(r@)[i] == crate::buttons::cap(r@[i]));
    lemma_stands_for(r@[i], overrides@[k]);
    assert forall|j: int| 0 <= j < i implies (#[trigger] r@[j]).id@ != r@[i].id@ by {
        assert(caps(r@)[j] == crate::buttons::cap(r@[j]));
        assert(normal_buttons(t)[j].0 != trim(t[a].0));
    }
}

/// A default button stays where no override has its id.
pub proof fn defaults_stay_without_an_override(
    defaults: Vec<ButtonCapability>,
    overrides: Vec<ButtonCapability>,
    r: Vec<ButtonCapability>,
    k: int,
)
    requires
        call_ensures(merge_button_capabilities, (defaults, overrides), r),
        0 <= k < defaults@.len(),
        !all_space(defaults@[k].id@),
        forall|j: int|
            0 <= j < k ==> trim((#[trigger] defaults@[j]).id@) != trim(defaults@[k].id@),
        forall|j: int|
            0 <= j < overrides@.len() ==> trim((#[trigger] overrides@[j]).id@) != trim(
                defaults@[k].id@,
            ),
    ensures
        exists|i: int| 0 <= i < r@.len() && stands_for(#[trigger] r@[i], defaults@[k]),
{
    let s = caps(defaults@);
    let o = caps(overrides@);
    let t = with_buttons(s, o);
    assert forall|j: int| 0 <= j < k implies trim((#[trigger] s[j]).0) != trim(s[k].0) by {
        assert(trim(defaults@[j].id@) != trim(defaults@[k].id@));
    }
    assert forall|j: int| 0 <= j < o.len() implies trim((#[trigger] o[j]).0) != trim(s[k].0) by {
        assert(trim(overrides@[j].id@) != trim(defaults@[k].id@));
    }
    lemma_defaults_stay(s, o, k);
    lemma_blank(defaults@[k].id@);
    normal_buttons_keep_the_first(t, k);
    let i = choose|i: int|
        0 <= i < normal_buttons(t).len() && #[trigger] normal_buttons(t)[i] == cleaned(t[k])
            && forall|j: int|
            0 <= j < i ==> (#[trigger] normal_buttons(t)[j]).0 != trim(t[k].0);
    assert(caps(r@)[i] == crate::buttons::cap(r@[i]));
    lemma_stands_for(r@[i], defaults@[k]);
}

/// Every merged button stands for a default one or for an override.
pub proof fn merged_buttons_stand_for_given_ones(
    defaults: Vec<ButtonCapability>,
    overrides: Vec<ButtonCapability>,
    r: Vec<ButtonCapability>,
    i: int,
)
    requires
        call_ensures(merge_button_capabilities, (defaults, overrides), r),
        0 <= i < r@.len(),
    ensures
        (exists|a: int| 0 <= a < defaults@.len() && stands_for(r@[i], #[trigger] defaults@[a]))
            || (exists|a: int|
            0 <= a < overrides@.len() && stands_for(r@[i], #[trigger] overrides@[a])),
{
    let s = caps(defaults@);
    let o = caps(overrides@);
    let t = with_buttons(s, o);
    lemma_normal_source(t, i);
    assert(caps(r@)[i] == crate::buttons::cap(r@[i]));
    let a = choose|a: int|
        0 <= a < t.len() && #[trigger] cleaned(t[a]) == normal_buttons(t)[i]
            && !crate::text::is_blank(t[a].0);
    lemma_nothing_invented(s, o, a);
    if s.contains(t[a]) {
        let k = choose|k: int| 0 <= k < s.len() && s[k] == t[a];
        lemma_stands_for(r@[i], defaults@[k]);
        assert(stands_for(r@[i], defaults@[k]));
    } else {
        let k = choose|k: int| 0 <= k < o.len() && o[k] == t[a];
        lemma_stands_for(r@[i], overrides@[k]);
        assert(stands_for(r@[i], overrides@[k]));
    }
}

// ---------------------------------------------------------------------------
// Texts
// ---------------------------------------------------------------------------

/// An action is told by what it does, and to whom.
pub proof fn actions_are_told(actions: Vec<TalkButtonAction>, r: String)
    requires
        call_ensures(format_button_actions, (&actions,), r),
    ensures
        actions@.len() == 0 ==> r@ == "none"@,
        actions@.len() == 1 ==> match actions@[0] {
            TalkButtonAction::Transmit { channels, users, duck } => {
                &&& !duck ==> r@ == "tx ch="@ + channels_text(channels@) + " users="@
                    + channels_text(users@)
                &&& duck ==> r@ == "tx ch="@ + channels_text(channels@) + " users="@
                    + channels_text(users@) + " duck"@
            },
            TalkButtonAction::Alert { targets, .. } => r@ == "alert "@ + decimal(targets@.len()),
            TalkButtonAction::ApplyPreset { preset_id } => r@ == "preset "@ + preset_id@,
            TalkButtonAction::SetTalkMode { users, mode } => {
                &&& mode == TalkMode::Open ==> r@ == "talk-mode "@ + "Open"@ + " users="@
                    + channels_text(users@)
                &&& mode == TalkMode::Muted ==> r@ == "talk-mode "@ + "Muted"@ + " users="@
                    + channels_text(users@)
                &&& mode == TalkMode::Ptt ==> r@ == "talk-mode "@ + "Ptt"@ + " users="@
                    + channels_text(users@)
            },
            TalkButtonAction::RouteEdit { users, .. } => r@ == "route-edit users="@
                + channels_text(users@),
        },
{
    reveal_strlit("");
    if actions@.len() == 1 {
        let s = Seq::new(1, |i: int| crate::buttons::action_text(actions@[i]));
        assert(join(s, "+"@) == s[0]);
        assert(r@ == crate::buttons::action_text(actions@[0]));
        match actions@[0] {
            TalkButtonAction::Transmit { channels, users, duck } => {
                let t = "tx ch="@ + channels_text(channels@) + " users="@ + channels_text(users@);
                assert(t + ""@ =~= t);
            },
            _ => {},
        }
    }
}

/// Several actions are told one after the other.
pub proof fn actions_are_told_in_turn(
    actions: Vec<TalkButtonAction>,
    one: Vec<TalkButtonAction>,
    more: Vec<TalkButtonAction>,
    r: String,
    of_one: String,
    of_more: String,
)
    requires
        actions@.len() > 0 && one@.len() == 1,
        more@ == actions@ + one@,
        call_ensures(format_button_actions, (&actions,), r),
        call_ensures(format_button_actions, (&one,), of_one),
        call_ensures(format_button_actions, (&more,), of_more),
    ensures
        of_more@ == r@ + "+"@ + of_one@,
{
    let a = Seq::new(actions@.len(), |i: int| crate::buttons::action_text(actions@[i]));
    let b = Seq::new(more@.len(), |i: int| crate::buttons::action_text(more@[i]));
    let c = Seq::new(one@.len(), |i: int| crate::buttons::action_text(one@[i]));
    assert(b.drop_last() =~= a);
    assert(join(c, "+"@) == c[0]);
    assert(b.last() == c[0]);
}

/// Buttons are told by their id and their actions, one after the other.
pub proof fn buttons_are_told_in_turn(
    buttons: Vec<TalkButtonConfig>,
    more: Vec<TalkButtonConfig>,
    r: String,
    of_more: String,
    actions: String,
)
    requires
        more@.len() == buttons@.len() + 1,
        more@.drop_last() == buttons@,
        call_ensures(format_buttons, (&buttons,), r),
        call_ensures(format_buttons, (&more,), of_more),
        call_ensures(format_button_actions, (&more@.last().actions,), actions),
    ensures
        buttons@.len() == 0 ==> r@ == "-"@,
        buttons@.len() == 0 ==> of_more@ == more@.last().id@ + ":"@ + actions@,
        buttons@.len() > 0 ==> of_more@ == r@ + ","@ + (more@.last().id@ + ":"@ + actions@),
{
    let a = Seq::new(
        buttons@.len(),
        |i: int| buttons@[i].id@ + ":"@ + crate::buttons::actions_text(buttons@[i].actions@),
    );
    let b = Seq::new(
        more@.len(),
        |i: int| more@[i].id@ + ":"@ + crate::buttons::actions_text(more@[i].actions@),
    );
    assert forall|i: int| 0 <= i < buttons@.len() implies buttons@[i] == more@[i] by {
        assert(more@.drop_last()[i] == more@[i]);
    }
    assert(b.drop_last() =~= a);
    assert(b.last() == more@.last().id@ + ":"@ + actions@);
}

/// Ids are told one after the other.
pub proof fn ids_are_told_in_turn(
    ids: Vec<String>,
    more: Vec<String>,
    r: String,
    of_more: String,
)
    requires
        more@.len() == ids@.len() + 1,
        more@.drop_last() == ids@,
        call_ensures(format_button_ids, (&ids,), r),
        call_ensures(format_button_ids, (&more,), of_more),
    ensures
        ids@.len() == 0 ==> r@ == "-"@,
        ids@.len() == 0 ==> of_more@ == more@.last()@,
        ids@.len() > 0 ==> of_more@ == r@ + ","@ + more@.last()@,
{
    assert(texts(more@).drop_last() =~= texts(ids@));
    assert(texts(more@).last() == more@.last()@);
}

} // verus!
