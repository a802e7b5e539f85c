//! JSON documents: the `serde_json` crate behind contracts.
//!
//! The trace is written out as JSON. The values of a document and their
//! rendering as text belong to `serde_json`. Verus sees neither; what the
//! tracer builds of them is named here, and each function of the crate that is
//! called gets a wrapper whose contract is believed, not proved.

use vstd::prelude::*;

verus! {

/// `serde_json::Value`, a value of a document.
#[verifier::external_type_specification]
#[verifier::external_body]
pub struct ExValue(serde_json::Value);

/// `serde_json::Error`, what the serializer says when it fails.
#[verifier::external_type_specification]
#[verifier::external_body]
pub struct ExError(serde_json::Error);

/// What a JSON value is, as far as the tracer builds one: a natural number, an
/// array, an object, or any other value.
pub enum Json {
    Number(u64),
    Array(Seq<Json>),
    Object(Map<Seq<char>, Json>),
    Other(serde_json::Value),
}

/// What a value holds.
pub uninterp spec fn json_value(value: serde_json::Value) -> Json;

/// The entries of an object that is made of a list of keys and values.
pub open spec fn object_of(entries: Seq<(Seq<char>, Json)>) -> Map<Seq<char>, Json>
    decreases entries.len(),
{
    if entries.len() == 0 {
        Map::empty()
    } else {
        object_of(entries.drop_last()).insert(entries.last().0, entries.last().1)
    }
}

/// Whether no key occurs twice in a list of keys and values.
pub open spec fn distinct_keys(entries: Seq<(Seq<char>, Json)>) -> bool {
    forall|i: int, j: int|
        0 <= i < j < entries.len() ==> (#[trigger] entries[i]).0 != (#[trigger] entries[j]).0
}

/// An object made of keys that are all different holds exactly those keys,
/// and under each the value that was listed with it.
pub proof fn lemma_object_of(entries: Seq<(Seq<char>, Json)>)
    requires
        distinct_keys(entries),
    ensures
        forall|key: Seq<char>|
            object_of(entries).contains_key(key) <==> exists|i: int|
                0 <= i < entries.len() && (#[trigger] entries[i]).0 == key,
        forall|i: int|
            0 <= i < entries.len() ==> object_of(entries)[(#[trigger] entries[i]).0]
                == entries[i].1,
    decreases entries.len(),
{
    if entries.len() > 0 {
        let front = entries.drop_last();
        assert(distinct_keys(front)) by {
            assert forall|i: int, j: int| 0 <= i < j < front.len() implies (#[trigger] front[i]).0
                != (#[trigger] front[j]).0 by {
                assert(front[i] == entries[i] && front[j] == entries[j]);
            }
        }
        lemma_object_of(front);
        assert forall|key: Seq<char>| object_of(entries).contains_key(key) implies exists|i: int|
            0 <= i < entries.len() && (#[trigger] entries[i]).0 == key by {
            if key == entries.last().0 {
                assert(entries[entries.len() - 1].0 == key);
            } else {
                assert(object_of(front).contains_key(key));
                let i = choose|i: int| 0 <= i < front.len() && (#[trigger] front[i]).0 == key;
                assert(front[i] == entries[i]);
            }
        }
        assert forall|key: Seq<char>|
            (exists|i: int| 0 <= i < entries.len() && (#[trigger] entries[i]).0
                == key) implies object_of(entries).contains_key(key) by {
            let i = choose|i: int| 0 <= i < entries.len() && (#[trigger] entries[i]).0 == key;
            if i < front.len() {
                assert(front[i].0 == key);
            }
        }
        assert forall|i: int| 0 <= i < entries.len() implies object_of(entries)[(
        #[trigger] entries[i]).0] == entries[i].1 by {
            if i < front.len() {
                assert(front[i] == entries[i]);
                assert(entries[i].0 != entries[entries.len() - 1].0);
            }
        }
    }
}

/// A list of keys and values as plain values.
pub open spec fn entries_view(entries: Seq<(String, serde_json::Value)>) -> Seq<
    (Seq<char>, Json),
> {
    entries.map_values(|entry: (String, serde_json::Value)| (entry.0@, json_value(entry.1)))
}

/// The text that the pretty printer writes for a value, or nothing where it
/// fails on the value.
pub uninterp spec fn json_text(document: Json) -> Option<Seq<char>>;

/// Makes a number with `serde_json::Value::from`. Claimed: the value is that
/// number.
#[verifier::external_body]
pub(crate) fn json_number(number: u64) -> (value: serde_json::Value)
    ensures
        json_value(value) == Json::Number(number),
{
    serde_json::Value::from(number)
}

/// Makes an array with the variant `serde_json::Value::Array`. Claimed: the
/// value is the array of the items, in their order.
#[verifier::external_body]
pub(crate) fn json_array(items: Vec<serde_json::Value>) -> (value: serde_json::Value)
    ensures
        json_value(value) == Json::Array(
            items@.map_values(|item: serde_json::Value| json_value(item)),
        ),
{
    serde_json::Value::Array(items)
}

/// Makes an object by collecting keys and values into a `serde_json::Map`,
/// for the variant `serde_json::Value::Object`. Claimed, for keys that are all
/// different: the value is the object that holds each value under its key.
#[verifier::external_body]
pub(crate) fn json_object(entries: Vec<(String, serde_json::Value)>) -> (value: serde_json::Value)
    requires
        distinct_keys(entries_view(entries@)),
    ensures
        json_value(value) == Json::Object(object_of(entries_view(entries@))),
{
    serde_json::Value::Object(entries.into_iter().collect())
}

/// Renders a value with `serde_json::to_string_pretty`. Claimed: whether a
/// text comes back, and which, depends on nothing but what the value holds.
#[verifier::external_body]
pub(crate) fn json_pretty(value: &serde_json::Value) -> (rendered: Result<
    String,
    serde_json::Error,
>)
    ensures
        match rendered {
            Ok(text) => json_text(json_value(*value)) == Some(text@),
            Err(_) => json_text(json_value(*value)) is None,
        },
{
    serde_json::to_string_pretty(value)
}

/// The serializer's description of an error, by `ToString::to_string` on
/// `serde_json::Error`. Nothing is claimed of the text.
#[verifier::external_body]
pub(crate) fn json_error_text(error: &serde_json::Error) -> String {
    error.to_string()
}

} // verus!
