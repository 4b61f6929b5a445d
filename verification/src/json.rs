//! JSON documents as plain values: what serde_json parses a text into, and
//! the lookups the AI service's answers are read with.
use vstd::prelude::*;
use crate::text::str_eq;

verus! {

/// A JSON value whose contents are held as plain values; a number keeps the
/// text serde_json writes for it.
#[derive(Debug)]
pub enum JsonValue {
    Null,
    Bool(bool),
    Number(String),
    Str(String),
    Array(Vec<JsonValue>),
    Object(Vec<(String, JsonValue)>),
}

/// The abstract content of a JSON value.
pub enum JsonView {
    Null,
    Bool(bool),
    Number(Seq<char>),
    Str(Seq<char>),
    Array(Seq<JsonView>),
    Object(Seq<(Seq<char>, JsonView)>),
}

/// The content of a JSON value.
pub open spec fn json_view(v: JsonValue) -> JsonView
    decreases v,
{
    match v {
        JsonValue::Null => JsonView::Null,
        JsonValue::Bool(b) => JsonView::Bool(b),
        JsonValue::Number(n) => JsonView::Number(n@),
        JsonValue::Str(s) => JsonView::Str(s@),
        JsonValue::Array(a) => JsonView::Array(items_view(a@)),
        JsonValue::Object(es) => JsonView::Object(entries_view(es@)),
    }
}

/// The contents of the elements of an array, in order.
pub open spec fn items_view(s: Seq<JsonValue>) -> Seq<JsonView>
    decreases s,
{
    if s.len() == 0 {
        seq![]
    } else {
        items_view(s.subrange(0, s.len() - 1)).push(json_view(s[s.len() - 1]))
    }
}

/// The keys and contents of the members of an object, in order.
pub open spec fn entries_view(s: Seq<(String, JsonValue)>) -> Seq<(Seq<char>, JsonView)>
    decreases s,
{
    if s.len() == 0 {
        seq![]
    } else {
        entries_view(s.subrange(0, s.len() - 1)).push((s[s.len() - 1].0@, json_view(s[s.len() - 1].1)))
    }
}

impl View for JsonValue {
    type V = JsonView;

    open spec fn view(&self) -> JsonView {
        json_view(*self)
    }
}

proof fn lemma_items_view(s: Seq<JsonValue>)
    ensures
        items_view(s).len() == s.len(),
        forall|i: int| 0 <= i < s.len() ==> #[trigger] items_view(s)[i] == json_view(s[i]),
    decreases s.len(),
{
    if s.len() > 0 {
        lemma_items_view(s.subrange(0, s.len() - 1));
    }
}

proof fn lemma_entries_view(s: Seq<(String, JsonValue)>)
    ensures
        entries_view(s).len() == s.len(),
        forall|i: int| 0 <= i < s.len() ==> #[trigger] entries_view(s)[i] == (s[i].0@, json_view(s[i].1)),
    decreases s.len(),
{
    if s.len() > 0 {
        lemma_entries_view(s.subrange(0, s.len() - 1));
    }
}

/// The content of the member `key` of an object's members: the first with
/// that key (serde_json's objects hold each key once).
pub open spec fn entry_value(es: Seq<(Seq<char>, JsonView)>, key: Seq<char>) -> Option<JsonView>
    decreases es.len(),
{
    if es.len() == 0 {
        None
    } else if es[0].0 == key {
        Some(es[0].1)
    } else {
        entry_value(es.subrange(1, es.len() as int), key)
    }
}

/// `v[key]`: the member `key` of an object; `None` for a missing key or a
/// value that is not an object (where serde_json's indexing gives `Null`).
pub open spec fn member(v: JsonView, key: Seq<char>) -> Option<JsonView> {
    match v {
        JsonView::Object(es) => entry_value(es, key),
        _ => None,
    }
}

/// `v[i]`: the element `i` of an array; `None` past its end or for a value
/// that is not an array.
pub open spec fn element(v: JsonView, i: int) -> Option<JsonView> {
    match v {
        JsonView::Array(a) => if 0 <= i < a.len() { Some(a[i]) } else { None },
        _ => None,
    }
}

/// `v.as_str()`: the text of a string value.
pub open spec fn text_of(v: Option<JsonView>) -> Option<Seq<char>> {
    match v {
        Some(JsonView::Str(s)) => Some(s),
        _ => None,
    }
}

/// The member `key` of an object.
pub fn get_member<'a>(v: &'a JsonValue, key: &str) -> (r: Option<&'a JsonValue>)
    ensures
        match r {
            Some(x) => member(v@, key@) == Some(x@),
            None => member(v@, key@) is None,
        },
{
    match v {
        JsonValue::Object(es) => {
            let ghost all = entries_view(es@);
            proof {
                lemma_entries_view(es@);
                assert(all.subrange(0, all.len() as int) =~= all);
            }
            let mut i: usize = 0;
            while i < es.len()
                invariant
                    i <= es.len(),
                    all == entries_view(es@),
                    v@ == JsonView::Object(all),
                    all.len() == es.len(),
                    forall|k: int| 0 <= k < es.len() ==> #[trigger] all[k] == (es@[k].0@, json_view(es@[k].1)),
                    entry_value(all, key@) == entry_value(all.subrange(i as int, all.len() as int), key@),
                decreases es.len() - i,
            {
                let ghost rest = all.subrange(i as int, all.len() as int);
                assert(rest[0] == all[i as int]);
                if str_eq(es[i].0.as_str(), key) {
                    return Some(&es[i].1);
                }
                assert(rest.subrange(1, rest.len() as int) =~= all.subrange(i + 1, all.len() as int));
                i = i + 1;
            }
            None
        },
        _ => None,
    }
}

/// The element `i` of an array.
pub fn get_element(v: &JsonValue, i: usize) -> (r: Option<&JsonValue>)
    ensures
        match r {
            Some(x) => element(v@, i as int) == Some(x@),
            None => element(v@, i as int) is None,
        },
{
    match v {
        JsonValue::Array(a) => {
            proof {
                lemma_items_view(a@);
            }
            if i < a.len() {
                Some(&a[i])
            } else {
                None
            }
        },
        _ => None,
    }
}

/// The text of a string value.
pub fn as_text(v: Option<&JsonValue>) -> (r: Option<String>)
    ensures
        match r {
            Some(t) => text_of(match v { Some(x) => Some(x@), None => None }) == Some(t@),
            None => text_of(match v { Some(x) => Some(x@), None => None }) is None,
        },
{
    match v {
        Some(JsonValue::Str(s)) => Some(s.as_str().to_owned()),
        _ => None,
    }
}

/// What serde_json makes of a text: the document, or serde_json's error
/// message where `serde_json::from_str::<serde_json::Value>` refuses it.
pub uninterp spec fn json_of(text: Seq<char>) -> Result<JsonView, Seq<char>>;

/// Declares serde_json's value type, which `json_value_from` converts.
#[verifier::external_type_specification]
#[verifier::external_body]
pub struct ExSerdeJsonValue(serde_json::Value);

/// Moves a serde_json value into a `JsonValue`, variant by variant; a number
/// becomes its text (`Number::to_string`). It is the conversion half of
/// `parse_json` and states nothing of its own: `parse_json`'s contract covers
/// the parse and the conversion together.
#[verifier::external_body]
fn json_value_from(v: serde_json::Value) -> JsonValue {
    match v {
        serde_json::Value::Null => JsonValue::Null,
        serde_json::Value::Bool(b) => JsonValue::Bool(b),
        serde_json::Value::Number(n) => JsonValue::Number(n.to_string()),
        serde_json::Value::String(s) => JsonValue::Str(s),
        serde_json::Value::Array(a) => JsonValue::Array(a.into_iter().map(json_value_from).collect()),
        serde_json::Value::Object(o) => JsonValue::Object(o.into_iter().map(|(k, x)| (k, json_value_from(x))).collect()),
    }
}

/// `serde_json::from_str::<serde_json::Value>`, with the document converted
/// to a `JsonValue` and the error to its message. The contract names the
/// result (`json_of`).
#[verifier::external_body]
pub(crate) fn parse_json(text: &str) -> (r: Result<JsonValue, String>)
    ensures
        r is Ok <==> json_of(text@) is Ok,
        r matches Ok(v) ==> (json_of(text@) matches Ok(j) && j == v@),
        r matches Err(e) ==> (json_of(text@) matches Err(m) && m == e@),
{
    match serde_json::from_str::<serde_json::Value>(text) {
        Ok(v) => Ok(json_value_from(v)),
        Err(e) => Err(e.to_string()),
    }
}

} // verus!
