//! Reading fields out of JSON.

use vstd::prelude::*;

use crate::json::{
    fields, json_node, read_json_rows, read_json_text, value_of, JsonNode, JsonShape,
};

verus! {

proof fn lemma_value_of(s: Seq<(Seq<char>, Seq<char>)>, key: Seq<char>, k: int)
    requires
        0 <= k < s.len(),
        s[k].0 == key,
        forall|j: int| 0 <= j < k ==> (#[trigger] s[j]).0 != key,
    ensures
        value_of(s, key) == Some(s[k].1),
    decreases s.len(),
{
    let t = s.drop_last();
    if k < s.len() - 1 {
        lemma_value_of(t, key, k);
    } else {
        lemma_no_value(t, key);
    }
}

proof fn lemma_no_value(s: Seq<(Seq<char>, Seq<char>)>, key: Seq<char>)
    requires
        forall|j: int| 0 <= j < s.len() ==> (#[trigger] s[j]).0 != key,
    ensures
        value_of(s, key) is None,
    decreases s.len(),
{
    if s.len() > 0 {
        let t = s.drop_last();
        assert forall|j: int| 0 <= j < t.len() implies (#[trigger] t[j]).0 != key by {
            assert(t[j] == s[j]);
        }
        lemma_no_value(t, key);
        assert(s[s.len() - 1].0 != key);
    }
}

/// A field of an object is the value of the first member with that name.
pub proof fn members_are_found_by_name(
    members: Vec<(String, String)>,
    key: &str,
    r: Option<String>,
    k: int,
)
    requires
        call_ensures(JsonNode::get, (&JsonNode::Object(members), key), r),
        0 <= k < members@.len(),
        members@[k].0@ == key@,
        forall|j: int| 0 <= j < k ==> (#[trigger] members@[j]).0@ != key@,
    ensures
        r is Some,
        r->Some_0@ == members@[k].1@,
{
    let s = fields(members@);
    assert forall|j: int| 0 <= j < k implies (#[trigger] s[j]).0 != key@ by {
        assert(members@[j].0@ != key@);
    }
    lemma_value_of(s, key@, k);
}

/// No field is found where no member has the name, nor in anything but an object.
pub proof fn missing_members_are_not_found(node: JsonNode, key: &str, r: Option<String>)
    requires
        call_ensures(JsonNode::get, (&node, key), r),
        node matches JsonNode::Object(v) ==> forall|j: int|
            0 <= j < v@.len() ==> (#[trigger] v@[j]).0@ != key@,
    ensures
        r is None,
{
    if let JsonNode::Object(v) = node {
        let s = fields(v@);
        assert forall|j: int| 0 <= j < s.len() implies (#[trigger] s[j]).0 != key@ by {
            assert(v@[j].0@ != key@);
        }
        lemma_no_value(s, key@);
    }
}

/// What is no JSON gives nothing; any JSON gives something, whatever it holds.
pub proof fn only_json_is_read(
    body: &str,
    array: &str,
    number: &str,
    label: &str,
    rows: Option<Option<Vec<(Option<u64>, Option<String>)>>>,
    outer: &str,
    inner: &str,
    text: Option<Option<String>>,
)
    requires
        call_ensures(read_json_rows, (body, array, number, label), rows),
        call_ensures(read_json_text, (body, outer, inner), text),
    ensures
        rows is None <==> json_node(body@) is None,
        text is None <==> json_node(body@) is None,
{
}

/// There is one row for each item of the array, in its order, with the number and the
/// text of that item.
pub proof fn rows_are_the_items(
    body: &str,
    array: &str,
    number: &str,
    label: &str,
    r: Option<Option<Vec<(Option<u64>, Option<String>)>>>,
    members: Seq<(Seq<char>, Seq<char>)>,
    k: int,
    items: Seq<Seq<char>>,
    i: int,
)
    requires
        call_ensures(read_json_rows, (body, array, number, label), r),
        json_node(body@) == Some(JsonShape::Object(members)),
        0 <= k < members.len(),
        members[k].0 == array@,
        forall|j: int| 0 <= j < k ==> (#[trigger] members[j]).0 != array@,
    ensures
        json_node(members[k].1) == Some(JsonShape::Array(items)) ==> (r matches Some(Some(v))
            && v@.len() == items.len() && (0 <= i < items.len() ==> {
            &&& json_node(items[i]) is None ==> v@[i].0 is None && v@[i].1 is None
            &&& json_node(items[i]) matches Some(JsonShape::Object(m)) ==> {
                &&& v@[i].0 == number_in(m, number@)
                &&& crate::endpoint::opt_text(v@[i].1) == text_in(m, label@)
            }
        })),
        !(json_node(members[k].1) matches Some(JsonShape::Array(_))) ==> r matches Some(None),
{
    lemma_value_of(members, array@, k);
    if json_node(members[k].1) == Some(JsonShape::Array(items)) {
        let v = r->Some_0->Some_0;
        assert(crate::json::rows(v@).len() == v@.len());
        if 0 <= i < items.len() {
            assert(crate::json::rows(v@)[i] == crate::json::rows_of(items, number@, label@)[i]);
        }
    }
}

/// The number that the first member of that name holds.
pub open spec fn number_in(m: Seq<(Seq<char>, Seq<char>)>, name: Seq<char>) -> Option<u64> {
    match value_of(m, name) {
        Some(t) => match json_node(t) {
            Some(JsonShape::Number(n)) => n,
            _ => None,
        },
        None => None,
    }
}

/// The text that the first member of that name holds.
pub open spec fn text_in(m: Seq<(Seq<char>, Seq<char>)>, name: Seq<char>) -> Option<Seq<char>> {
    match value_of(m, name) {
        Some(t) => match json_node(t) {
            Some(JsonShape::Text(s)) => Some(s),
            _ => None,
        },
        None => None,
    }
}

/// A text is read from the inner member of the outer one.
pub proof fn texts_are_read_from_the_inner_member(
    body: &str,
    outer: &str,
    inner: &str,
    r: Option<Option<String>>,
    members: Seq<(Seq<char>, Seq<char>)>,
    k: int,
    inside: Seq<(Seq<char>, Seq<char>)>,
    l: int,
)
    requires
        call_ensures(read_json_text, (body, outer, inner), r),
        json_node(body@) == Some(JsonShape::Object(members)),
        0 <= k < members.len(),
        members[k].0 == outer@,
        forall|j: int| 0 <= j < k ==> (#[trigger] members[j]).0 != outer@,
        json_node(members[k].1) == Some(JsonShape::Object(inside)),
        0 <= l < inside.len(),
        inside[l].0 == inner@,
        forall|j: int| 0 <= j < l ==> (#[trigger] inside[j]).0 != inner@,
    ensures
        json_node(inside[l].1) matches Some(JsonShape::Text(s)) ==> (r matches Some(Some(t)) && t@
            == s),
        !(json_node(inside[l].1) matches Some(JsonShape::Text(_))) ==> r matches Some(None),
{
    lemma_value_of(members, outer@, k);
    lemma_value_of(inside, inner@, l);
}

} // verus!
