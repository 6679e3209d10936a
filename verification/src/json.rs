//! A JSON document as the library reads and edits it. Object members keep
//! the order in which they were read; a key is looked up at its first member.
use vstd::prelude::*;
use crate::search::{first_index, lemma_first_index_facts, lemma_first_index_is};
use crate::text::str_equals;
use serde_json::Value;

verus! {

/// A JSON value. A number is kept as the text it is written with, so that it
/// is written back unchanged.
#[derive(Debug, PartialEq, Eq)]
pub enum JsonValue {
    Null,
    Bool(bool),
    Number(String),
    Str(String),
    Array(Vec<JsonValue>),
    Object(Vec<(String, JsonValue)>),
}

/// Whether an object member has the key `key`.
pub open spec fn key_is(key: Seq<char>) -> spec_fn((String, JsonValue)) -> bool {
    |e: (String, JsonValue)| e.0@ == key
}

/// The members of an object; no members for any other value.
pub open spec fn object_pairs(v: JsonValue) -> Seq<(String, JsonValue)> {
    match v {
        JsonValue::Object(pairs) => pairs@,
        _ => Seq::empty(),
    }
}

/// The value under `key` in an object: that of its first member with the
/// key. `None` when there is no such member or `v` is not an object.
pub open spec fn json_get(v: JsonValue, key: Seq<char>) -> Option<JsonValue> {
    match v {
        JsonValue::Object(pairs) => {
            let i = first_index(pairs@, key_is(key));
            if i < pairs@.len() {
                Some(pairs@[i].1)
            } else {
                None
            }
        },
        _ => None,
    }
}

/// No two members share a key. Every object a JSON parser produces is so,
/// and then the first member with a key is the only one.
pub open spec fn keys_distinct(pairs: Seq<(String, JsonValue)>) -> bool {
    forall|i: int, j: int| 0 <= i < j < pairs.len() ==> (#[trigger] pairs[i]).0@ != (#[trigger] pairs[j]).0@
}

/// A document as a parser gives it: an object with distinct keys, or any
/// other value. Nested values are carried whole and not looked into.
pub open spec fn json_well_formed(v: JsonValue) -> bool {
    v is Object ==> keys_distinct(object_pairs(v))
}

/// The text of a JSON string; `None` for any other value.
pub open spec fn text_of(v: JsonValue) -> Option<Seq<char>> {
    match v {
        JsonValue::Str(s) => Some(s@),
        _ => None,
    }
}

/// `new` is `old` with the member under `key` given a new value at the place
/// of the first such member, or with a member for `key` added at the end when
/// there was none. What the new value is, the caller says.
pub open spec fn member_replaced(
    old: Seq<(String, JsonValue)>,
    new: Seq<(String, JsonValue)>,
    key: Seq<char>,
) -> bool {
    let i = first_index(old, key_is(key));
    &&& new.len() == if i < old.len() { old.len() } else { old.len() + 1 }
    &&& forall|j: int| 0 <= j < old.len() && j != i ==> new[j] == old[j]
    &&& new[i].0@ == key
}

/// `v` is an array of strings whose texts are `texts`, in order.
pub open spec fn is_string_array(v: JsonValue, texts: Seq<Seq<char>>) -> bool {
    match v {
        JsonValue::Array(items) => {
            &&& items@.len() == texts.len()
            &&& forall|k: int| 0 <= k < texts.len() ==> text_of(#[trigger] items@[k]) == Some(texts[k])
        },
        _ => false,
    }
}

/// The value under `key` in `v`, when `v` is an object that has one.
pub fn json_get_ref<'a>(v: &'a JsonValue, key: &str) -> (r: Option<&'a JsonValue>)
    ensures
        match r {
            Some(x) => json_get(*v, key@) == Some(*x),
            None => json_get(*v, key@) is None,
        },
{
    match v {
        JsonValue::Object(pairs) => {
            let i = member_position(pairs, key);
            if i < pairs.len() {
                Some(&pairs[i].1)
            } else {
                None
            }
        },
        _ => None,
    }
}

/// The index of the first member with the key `key`, or the member count.
pub fn member_position(pairs: &Vec<(String, JsonValue)>, key: &str) -> (r: usize)
    ensures
        r == first_index(pairs@, key_is(key@)),
{
    let mut i: usize = 0;
    while i < pairs.len()
        invariant
            i <= pairs.len(),
            forall|j: int| 0 <= j < i ==> !key_is(key@)(#[trigger] pairs@[j]),
        decreases pairs.len() - i,
    {
        if str_equals(pairs[i].0.as_str(), key) {
            proof {
                lemma_first_index_is(pairs@, key_is(key@), i as int);
            }
            return i;
        }
        i = i + 1;
    }
    proof {
        lemma_first_index_is(pairs@, key_is(key@), i as int);
    }
    i
}

/// The members of `v` with the member under `key` set to `value`: replaced
/// in place when `key` is there, added at the end when not. `v` is an object
/// or `null`, which counts as an object with no members.
pub fn set_member(v: JsonValue, key: &str, value: JsonValue) -> (r: Vec<(String, JsonValue)>)
    requires
        v is Null || v is Object,
    ensures
        member_replaced(object_pairs(v), r@, key@),
        r@[first_index(object_pairs(v), key_is(key@))].1 == value,
        keys_distinct(object_pairs(v)) ==> keys_distinct(r@),
{
    let mut pairs: Vec<(String, JsonValue)> = match v {
        JsonValue::Object(pairs) => pairs,
        _ => Vec::new(),
    };
    let ghost old_pairs = pairs@;
    assert(old_pairs == object_pairs(v));
    let i = member_position(&pairs, key);
    proof {
        lemma_first_index_facts(old_pairs, key_is(key@));
    }
    if i < pairs.len() {
        let (k, _previous) = pairs.remove(i);
        pairs.insert(i, (k, value));
        assert(pairs@ =~= old_pairs.update(i as int, (old_pairs[i as int].0, value)));
    } else {
        pairs.push((key.to_owned(), value));
        assert forall|a: int, b: int| 0 <= a < b < pairs@.len() && keys_distinct(old_pairs)
            implies (#[trigger] pairs@[a]).0@ != (#[trigger] pairs@[b]).0@ by {
            if b == old_pairs.len() {
                assert(!key_is(key@)(old_pairs[a]));
            } else {
                assert(pairs@[a] == old_pairs[a] && pairs@[b] == old_pairs[b]);
            }
        }
    }
    pairs
}

/// In an object with distinct keys, a key is read from its one member, so
/// reading the first member agrees with a parser that keeps the last.
pub proof fn law_distinct_keys_read_the_only_member(pairs: Seq<(String, JsonValue)>, k: int)
    requires
        keys_distinct(pairs),
        0 <= k < pairs.len(),
    ensures
        first_index(pairs, key_is(pairs[k].0@)) == k,
{
    let key = pairs[k].0@;
    assert forall|j: int| 0 <= j < k implies !key_is(key)(#[trigger] pairs[j]) by {}
    lemma_first_index_is(pairs, key_is(key), k);
}

/// After a member is set, the key reads back the value it was set to.
pub proof fn law_set_member_reads_back(
    old: Seq<(String, JsonValue)>,
    new: Seq<(String, JsonValue)>,
    key: Seq<char>,
)
    requires
        member_replaced(old, new, key),
    ensures
        first_index(new, key_is(key)) == first_index(old, key_is(key)),
        first_index(new, key_is(key)) < new.len(),
{
    let i = first_index(old, key_is(key));
    lemma_first_index_facts(old, key_is(key));
    assert forall|j: int| 0 <= j < i implies !key_is(key)(#[trigger] new[j]) by {
        assert(new[j] == old[j]);
    }
    lemma_first_index_is(new, key_is(key), i);
}

/// Setting a member leaves the value under every other key as it was.
pub proof fn law_set_member_keeps_others(
    old: Seq<(String, JsonValue)>,
    new: Seq<(String, JsonValue)>,
    key: Seq<char>,
    other: Seq<char>,
)
    requires
        member_replaced(old, new, key),
        other != key,
    ensures
        first_index(new, key_is(other)) < new.len() <==> first_index(old, key_is(other)) < old.len(),
        first_index(old, key_is(other)) < old.len() ==> first_index(new, key_is(other)) == first_index(old, key_is(other))
            && new[first_index(old, key_is(other))] == old[first_index(old, key_is(other))],
{
    let i = first_index(old, key_is(key));
    let a = first_index(old, key_is(other));
    lemma_first_index_facts(old, key_is(key));
    lemma_first_index_facts(old, key_is(other));
    if a < old.len() {
        assert(a != i) by {
            if a == i {
                assert(old[i].0@ == key);
            }
        }
        assert forall|j: int| 0 <= j < a implies !key_is(other)(#[trigger] new[j]) by {
            if j == i {
                assert(new[i].0@ == key);
            } else {
                assert(new[j] == old[j]);
            }
        }
        lemma_first_index_is(new, key_is(other), a);
    } else {
        assert forall|j: int| 0 <= j < new.len() implies !key_is(other)(#[trigger] new[j]) by {
            if j == i {
                assert(new[i].0@ == key);
            } else {
                assert(new[j] == old[j]);
            }
        }
        lemma_first_index_is(new, key_is(other), new.len() as int);
    }
}


/// A parsed JSON value of `serde_json`, carried through unopened.
#[verifier::external_type_specification]
#[verifier::external_body]
pub struct ExSerdeJsonValue(serde_json::Value);

/// The document that `serde_json::from_str` reads from `text`, as the
/// library's value; `None` when `text` is not JSON.
pub uninterp spec fn parsed_json(text: Seq<char>) -> Option<JsonValue>;

/// The compact text `serde_json::to_string` writes for `doc`.
pub uninterp spec fn json_text(doc: JsonValue) -> Seq<char>;

/// The indented text `serde_json::to_string_pretty` writes for `doc`.
pub uninterp spec fn pretty_json_text(doc: JsonValue) -> Seq<char>;

/// Whether `a` comes before `b` in the order of their characters' code
/// points, which is the byte order of their UTF-8 text.
pub open spec fn chars_less(a: Seq<char>, b: Seq<char>) -> bool
    decreases a.len(),
{
    if a.len() == 0 {
        b.len() > 0
    } else if b.len() == 0 {
        false
    } else if (a[0] as int) < (b[0] as int) {
        true
    } else if a[0] == b[0] {
        chars_less(a.drop_first(), b.drop_first())
    } else {
        false
    }
}

/// A string, or an array of strings.
pub open spec fn flat_value(v: JsonValue) -> bool {
    match v {
        JsonValue::Str(_) => true,
        JsonValue::Array(items) => forall|k: int| 0 <= k < items@.len() ==> (#[trigger] items@[k]) is Str,
        _ => false,
    }
}

/// An object whose keys go up in the order a JSON object map keeps them,
/// and whose values are strings or arrays of strings. Such a document is
/// written and read back unchanged.
pub open spec fn flat_document(doc: JsonValue) -> bool {
    &&& doc is Object
    &&& forall|i: int| 0 <= i < object_pairs(doc).len() ==> flat_value((#[trigger] object_pairs(doc)[i]).1)
    &&& forall|i: int, j: int|
        0 <= i < j < object_pairs(doc).len() ==> chars_less(
            (#[trigger] object_pairs(doc)[i]).0@,
            (#[trigger] object_pairs(doc)[j]).0@,
        )
}

/// `serde_json::from_str` into `serde_json::Value`, turned into the
/// library's value. A JSON object's map holds each key once, so an object
/// read this way has distinct keys.
#[verifier::external_body]
pub(crate) fn parse_json(text: &str) -> (r: Option<JsonValue>)
    ensures
        r == parsed_json(text@),
        r matches Some(d) ==> json_well_formed(d),
{
    match serde_json::from_str::<Value>(text) {
        Ok(v) => Some(json_from_value(v)),
        Err(_) => None,
    }
}

/// `serde_json::to_string` of the library's value turned into
/// `serde_json::Value`. Writing a `Value` cannot fail (its map keys are
/// strings). A flat document is read back by `serde_json::from_str` as the
/// same document: its strings are escaped and unescaped exactly, and its
/// keys are already in the map's order.
#[verifier::external_body]
pub(crate) fn write_json(doc: &JsonValue) -> (r: String)
    ensures
        r@ == json_text(*doc),
        flat_document(*doc) ==> parsed_json(r@) == Some(*doc),
{
    serde_json::to_string(&value_from_json(doc)).unwrap()
}

/// `serde_json::to_string_pretty` of the library's value turned into
/// `serde_json::Value`; it cannot fail either, and reads back as
/// `write_json`'s text does.
#[verifier::external_body]
pub(crate) fn write_json_pretty(doc: &JsonValue) -> (r: String)
    ensures
        r@ == pretty_json_text(*doc),
        flat_document(*doc) ==> parsed_json(r@) == Some(*doc),
{
    serde_json::to_string_pretty(&value_from_json(doc)).unwrap()
}

/// Turns `serde_json::Value` into the library's value, variant by variant
/// (a number into the text `serde_json` writes for it, an object's members
/// in its map's order). Used by `parse_json`, whose contract names the
/// outcome.
#[verifier::external_body]
fn json_from_value(v: Value) -> JsonValue {
    match v {
        Value::Null => JsonValue::Null,
        Value::Bool(b) => JsonValue::Bool(b),
        Value::Number(n) => JsonValue::Number(n.to_string()),
        Value::String(s) => JsonValue::Str(s),
        Value::Array(items) => JsonValue::Array(items.into_iter().map(json_from_value).collect()),
        Value::Object(map) => JsonValue::Object(map.into_iter().map(|(k, x)| (k, json_from_value(x))).collect()),
    }
}

/// Turns the library's value into `serde_json::Value`, variant by variant
/// (number text that `serde_json` does not read as a number becomes
/// `null`). Used by the two writers, whose contracts name the outcome.
#[verifier::external_body]
fn value_from_json(doc: &JsonValue) -> Value {
    match doc {
        JsonValue::Null => Value::Null,
        JsonValue::Bool(b) => Value::Bool(*b),
        JsonValue::Number(t) => serde_json::from_str::<serde_json::Number>(t).map_or(Value::Null, Value::Number),
        JsonValue::Str(s) => Value::String(s.clone()),
        JsonValue::Array(items) => Value::Array(items.iter().map(value_from_json).collect()),
        JsonValue::Object(pairs) => Value::Object(pairs.iter().map(|(k, x)| (k.clone(), value_from_json(x))).collect()),
    }
}

} // verus!
