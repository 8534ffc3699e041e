//! Reading JSON that others write.

use vstd::prelude::*;

use crate::endpoint::opt_text;
use crate::text::same;

verus! {

// ---------------------------------------------------------------------------
// Values

/// A value in JSON. The values within it are JSON texts of their own.
#[derive(Debug)]
pub enum JsonNode {
    Null,
    Bool(bool),
    /// A number, where it is whole, not negative and fits in 64 bits.
    Number(Option<u64>),
    Text(String),
    Array(Vec<String>),
    /// Keys with their values, each key once.
    Object(Vec<(String, String)>),
}

/// A value in JSON with its texts as sequences.
pub enum JsonShape {
    Null,
    Bool(bool),
    Number(Option<u64>),
    Text(Seq<char>),
    Array(Seq<Seq<char>>),
    Object(Seq<(Seq<char>, Seq<char>)>),
}

/// The texts of strings.
pub open spec fn texts(s: Seq<String>) -> Seq<Seq<char>> {
    s.map_values(|t: String| t@)
}

/// The texts of keys and values.
pub open spec fn fields(s: Seq<(String, String)>) -> Seq<(Seq<char>, Seq<char>)> {
    s.map_values(|f: (String, String)| (f.0@, f.1@))
}

impl View for JsonNode {
    type V = JsonShape;

    open spec fn view(&self) -> JsonShape {
        match *self {
            JsonNode::Null => JsonShape::Null,
            JsonNode::Bool(b) => JsonShape::Bool(b),
            JsonNode::Number(n) => JsonShape::Number(n),
            JsonNode::Text(s) => JsonShape::Text(s@),
            JsonNode::Array(v) => JsonShape::Array(texts(v@)),
            JsonNode::Object(v) => JsonShape::Object(fields(v@)),
        }
    }
}

/// The value of a key, where there is one.
pub open spec fn value_of(s: Seq<(Seq<char>, Seq<char>)>, key: Seq<char>) -> Option<Seq<char>>
    decreases s.len(),
{
    if s.len() == 0 {
        None
    } else {
        match value_of(s.drop_last(), key) {
            Some(value) => Some(value),
            None => if s.last().0 == key {
                Some(s.last().1)
            } else {
                None
            },
        }
    }
}

impl JsonShape {
    /// The value of a key, where this is an object that has one.
    pub open spec fn field(self, key: Seq<char>) -> Option<Seq<char>> {
        match self {
            JsonShape::Object(s) => value_of(s, key),
            _ => None,
        }
    }
}

impl JsonNode {
    /// The JSON text of a key's value, where this is an object that has one.
    pub fn get(&self, key: &str) -> (r: Option<String>)
        ensures
            opt_text(r) == self@.field(key@),
    {
        match self {
            JsonNode::Object(v) => {
                let ghost all = fields(v@);
                let mut found: Option<String> = None;
                let mut i: usize = 0;
                while i < v.len()
                    invariant
                        0 <= i <= v@.len(),
                        all == fields(v@),
                        opt_text(found) == value_of(all.take(i as int), key@),
                    decreases v@.len() - i,
                {
                    proof {
                        assert(all.take(i + 1).drop_last() =~= all.take(i as int));
                        assert(all.take(i + 1).last() == (v@[i as int].0@, v@[i as int].1@));
                    }
                    if found.is_none() && same(v[i].0.as_str(), key) {
                        found = Some(v[i].1.clone());
                    }
                    i = i + 1;
                }
                proof {
                    assert(all.take(all.len() as int) =~= all);
                }
                found
            },
            _ => None,
        }
    }
}

// ---------------------------------------------------------------------------
// Texts

/// The value that a text is in JSON, where it is JSON.
pub uninterp spec fn json_node(text: Seq<char>) -> Option<JsonShape>;

/// What was read of a text.
pub open spec fn node_read(o: Option<JsonNode>) -> Option<JsonShape> {
    match o {
        Some(node) => Some(node@),
        None => None,
    }
}

/// Reads JSON with `serde_json::from_str`, into the value of the same kind; a number
/// goes through `serde_json::Number::as_u64`, and the values within are written out
/// with `to_string`. The contract says only that the text alone decides what is read.
#[verifier::external_body]
pub(crate) fn read_json(text: &str) -> (r: Option<JsonNode>)
    ensures
        node_read(r) == json_node(text@),
{
    let value: serde_json::Value = serde_json::from_str(text).ok()?;
    Some(match value {
        serde_json::Value::Null => JsonNode::Null,
        serde_json::Value::Bool(b) => JsonNode::Bool(b),
        serde_json::Value::Number(n) => JsonNode::Number(n.as_u64()),
        serde_json::Value::String(s) => JsonNode::Text(s),
        serde_json::Value::Array(v) => JsonNode::Array(v.iter().map(|t| t.to_string()).collect()),
        serde_json::Value::Object(v) => JsonNode::Object(
            v.into_iter().map(|(k, t)| (k, t.to_string())).collect(),
        ),
    })
}

/// The JSON text of a key's value in the object that a text is.
pub open spec fn json_field(text: Seq<char>, key: Seq<char>) -> Option<Seq<char>> {
    match json_node(text) {
        Some(node) => node.field(key),
        None => None,
    }
}

/// What the value of a key is in the object that a text is.
pub open spec fn json_value(text: Seq<char>, key: Seq<char>) -> Option<JsonShape> {
    match json_field(text, key) {
        Some(value) => json_node(value),
        None => None,
    }
}

fn read_value(text: &str, key: &str) -> (r: Option<JsonNode>)
    ensures
        node_read(r) == json_value(text@, key@),
{
    match read_json(text) {
        Some(node) => match node.get(key) {
            Some(value) => read_json(value.as_str()),
            None => None,
        },
        None => None,
    }
}

/// The number of a key.
pub open spec fn json_number_at(text: Seq<char>, key: Seq<char>) -> Option<u64> {
    match json_value(text, key) {
        Some(JsonShape::Number(n)) => n,
        _ => None,
    }
}

/// The text of a key.
pub open spec fn json_text_at(text: Seq<char>, key: Seq<char>) -> Option<Seq<char>> {
    match json_value(text, key) {
        Some(JsonShape::Text(s)) => Some(s),
        _ => None,
    }
}

fn read_number_at(text: &str, key: &str) -> (r: Option<u64>)
    ensures
        r == json_number_at(text@, key@),
{
    match read_value(text, key) {
        Some(JsonNode::Number(n)) => n,
        _ => None,
    }
}

fn read_text_at(text: &str, key: &str) -> (r: Option<String>)
    ensures
        opt_text(r) == json_text_at(text@, key@),
{
    match read_value(text, key) {
        Some(JsonNode::Text(s)) => Some(s),
        _ => None,
    }
}

// ---------------------------------------------------------------------------
// Rows

/// The items of an array.
pub open spec fn rows(s: Seq<(Option<u64>, Option<String>)>) -> Seq<
    (Option<u64>, Option<Seq<char>>),
> {
    s.map_values(|row: (Option<u64>, Option<String>)| (row.0, opt_text(row.1)))
}

/// What was read of an array.
pub open spec fn rows_read(o: Option<Option<Vec<(Option<u64>, Option<String>)>>>) -> Option<
    Option<Seq<(Option<u64>, Option<Seq<char>>)>>,
> {
    match o {
        None => None,
        Some(None) => Some(None),
        Some(Some(v)) => Some(Some(rows(v@))),
    }
}

/// Of each JSON text the number and the text of two keys.
pub open spec fn rows_of(items: Seq<Seq<char>>, number: Seq<char>, label: Seq<char>) -> Seq<
    (Option<u64>, Option<Seq<char>>),
> {
    items.map_values(|t: Seq<char>| (json_number_at(t, number), json_text_at(t, label)))
}

/// What a JSON text says in an array: nothing where it is not JSON, nothing within
/// where it has no such array, and else of each item a number and a text, as far as
/// they are there. The last three arguments are the keys of the array, the number and
/// the text.
pub open spec fn json_rows(
    text: Seq<char>,
    array: Seq<char>,
    number: Seq<char>,
    label: Seq<char>,
) -> Option<Option<Seq<(Option<u64>, Option<Seq<char>>)>>> {
    match json_node(text) {
        None => None,
        Some(_) => match json_value(text, array) {
            Some(JsonShape::Array(items)) => Some(Some(rows_of(items, number, label))),
            _ => Some(None),
        },
    }
}

fn read_rows(items: &Vec<String>, number: &str, label: &str) -> (r: Vec<
    (Option<u64>, Option<String>),
>)
    ensures
        rows(r@) == rows_of(texts(items@), number@, label@),
{
    let mut out: Vec<(Option<u64>, Option<String>)> = Vec::new();
    let mut i: usize = 0;
    while i < items.len()
        invariant
            0 <= i <= items@.len(),
            out@.len() == i,
            forall|k: int|
                0 <= k < i ==> #[trigger] out@[k].0 == json_number_at(items@[k]@, number@)
                    && opt_text(out@[k].1) == json_text_at(items@[k]@, label@),
        decreases items@.len() - i,
    {
        let item = items[i].as_str();
        out.push((read_number_at(item, number), read_text_at(item, label)));
        i = i + 1;
    }
    proof {
        assert(rows(out@) =~= rows_of(texts(items@), number@, label@));
    }
    out
}

/// Reads an array in a JSON text, as `json_rows` tells.
pub fn read_json_rows(body: &str, array: &str, number: &str, label: &str) -> (r: Option<
    Option<Vec<(Option<u64>, Option<String>)>>,
>)
    ensures
        rows_read(r) == json_rows(body@, array@, number@, label@),
{
    if read_json(body).is_none() {
        return None;
    }
    match read_value(body, array) {
        Some(JsonNode::Array(items)) => Some(Some(read_rows(&items, number, label))),
        _ => Some(None),
    }
}

/// What a JSON text says in an object within: nothing where it is not JSON, and else
/// the text of the key `inner` in the object of the key `outer`, where there is one.
pub open spec fn json_text(text: Seq<char>, outer: Seq<char>, inner: Seq<char>) -> Option<
    Option<Seq<char>>,
> {
    match json_node(text) {
        None => None,
        Some(_) => match json_field(text, outer) {
            Some(object) => Some(json_text_at(object, inner)),
            None => Some(None),
        },
    }
}

/// What was read of a text.
pub open spec fn text_read(o: Option<Option<String>>) -> Option<Option<Seq<char>>> {
    match o {
        None => None,
        Some(None) => Some(None),
        Some(Some(s)) => Some(Some(s@)),
    }
}

/// Reads a text in an object in a JSON text, as `json_text` tells.
pub fn read_json_text(body: &str, outer: &str, inner: &str) -> (r: Option<Option<String>>)
    ensures
        text_read(r) == json_text(body@, outer@, inner@),
{
    match read_json(body) {
        None => None,
        Some(node) => match node.get(outer) {
            Some(object) => Some(read_text_at(object.as_str(), inner)),
            None => Some(None),
        },
    }
}

} // verus!
