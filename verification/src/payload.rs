//! From the bytes of a payload to a JSON document. The JSON grammar is that
//! of `serde_json`, which does the parsing; this module turns the value that
//! it builds into a [`Json`] and proves that nothing is lost on the way.

use crate::decode::Decode;
use crate::error::DecodeError;
use crate::json::{docs_of, entries_of, lemma_docs_of, lemma_entries_of, Doc, Json};
use crate::models::general::General;
use vstd::prelude::*;

verus! {

/// `serde_json::Value`, the value that the parser builds.
#[verifier::external_type_specification]
#[verifier::external_body]
pub struct ExValue(serde_json::Value);

/// `serde_json::Error`, the parser's error.
#[verifier::external_type_specification]
#[verifier::external_body]
pub struct ExError(serde_json::Error);

/// The document that `serde_json::from_slice` reads from `bytes`, or `None`
/// where it reports an error.
pub uninterp spec fn parsed(bytes: Seq<u8>) -> Option<Doc>;

/// The document that a `serde_json::Value` holds: its variant, and below it
/// its scalar, its items in order or its entries in the order in which its
/// map hands them out. A number is `Int` where `as_i64` gives it and `Real`
/// with the text that `to_string` gives otherwise.
pub uninterp spec fn document(v: serde_json::Value) -> Doc;

/// Calls `serde_json::from_slice` for a `serde_json::Value`. The contract
/// names the outcome: the value holds the document that the bytes spell, and
/// an error comes exactly where they spell none.
#[verifier::external_body]
fn parse_value(bytes: &[u8]) -> (r: Result<serde_json::Value, serde_json::Error>)
    ensures
        match r {
            Ok(v) => parsed(bytes@) == Some(document(v)),
            Err(_) => parsed(bytes@) is None,
        },
{
    serde_json::from_slice(bytes)
}

/// Calls `serde_json::Value::is_null`: whether the value is null.
#[verifier::external_body]
fn is_null(v: &serde_json::Value) -> (b: bool)
    ensures
        b == (document(*v) is Null),
{
    v.is_null()
}

/// Calls `serde_json::Value::as_bool`: the boolean of a boolean value, and
/// nothing for any other value.
#[verifier::external_body]
fn as_bool(v: &serde_json::Value) -> (r: Option<bool>)
    ensures
        match r {
            Some(b) => document(*v) == Doc::Bool(b),
            None => !(document(*v) is Bool),
        },
{
    v.as_bool()
}

/// Calls `serde_json::Value::as_i64`: the number of a value that is an
/// integer within `i64`, and nothing for any other value.
#[verifier::external_body]
fn as_i64(v: &serde_json::Value) -> (r: Option<i64>)
    ensures
        match r {
            Some(n) => document(*v) == Doc::Int(n),
            None => !(document(*v) is Int),
        },
{
    v.as_i64()
}

/// Calls `serde_json::Value::as_str`: the text of a string value, and
/// nothing for any other value.
#[verifier::external_body]
fn as_str(v: &serde_json::Value) -> (r: Option<&str>)
    ensures
        match r {
            Some(t) => document(*v) == Doc::Text(t@),
            None => !(document(*v) is Text),
        },
{
    v.as_str()
}

/// Calls `serde_json::Value::as_array`: the items of an array value, and
/// nothing for any other value.
#[verifier::external_body]
fn as_array(v: &serde_json::Value) -> (r: Option<&Vec<serde_json::Value>>)
    ensures
        match r {
            Some(items) => document(*v) matches Doc::List(docs) && docs.len() == items@.len()
                && forall|i: int| 0 <= i < docs.len() ==> #[trigger] docs[i] == document(items@[i]),
            None => !(document(*v) is List),
        },
{
    v.as_array()
}

/// Calls `serde_json::Value::as_object` and walks the map with
/// `serde_json::Map::iter`: the entries of an object value, each key with
/// its value, and nothing for any other value.
#[verifier::external_body]
fn as_entries(v: &serde_json::Value) -> (r: Option<Vec<(&String, &serde_json::Value)>>)
    ensures
        match r {
            Some(entries) => document(*v) matches Doc::Record(docs) && docs.len()
                == entries@.len() && forall|i: int|
                0 <= i < docs.len() ==> #[trigger] docs[i] == (
                    entries@[i].0@,
                    document(*entries@[i].1),
                ),
            None => !(document(*v) is Record),
        },
{
    v.as_object().map(|map| map.iter().collect())
}

/// Calls `to_string` on a `serde_json::Value`, which prints it as JSON text.
/// Of a number that is no `i64` this is the text that the document holds.
#[verifier::external_body]
fn number_text(v: &serde_json::Value) -> (t: String)
    ensures
        document(*v) matches Doc::Real(text) ==> t@ == text,
{
    v.to_string()
}

/// Copies a parsed value into a [`Json`] that holds the same document.
pub fn lift(v: &serde_json::Value) -> (j: Json)
    ensures
        j@ == document(*v),
    decreases document(*v),
{
    if is_null(v) {
        return Json::Null;
    }
    if let Some(b) = as_bool(v) {
        return Json::Bool(b);
    }
    if let Some(n) = as_i64(v) {
        return Json::Int(n);
    }
    if let Some(t) = as_str(v) {
        return Json::Text(t.to_owned());
    }
    if let Some(items) = as_array(v) {
        let ghost docs = document(*v)->List_0;
        let mut out: Vec<Json> = Vec::new();
        let mut i: usize = 0;
        while i < items.len()
            invariant
                i <= items@.len(),
                document(*v) == Doc::List(docs),
                docs.len() == items@.len(),
                forall|k: int| 0 <= k < docs.len() ==> #[trigger] docs[k] == document(items@[k]),
                out@.len() == i,
                forall|k: int| 0 <= k < i ==> (#[trigger] out@[k])@ == docs[k],
            decreases items@.len() - i,
        {
            proof {
                assert(docs[i as int] == document(items@[i as int]));
                let whole = document(*v);
                assert(decreases_to!(whole => whole->List_0));
                assert(decreases_to!(whole->List_0 => whole->List_0[i as int]));
            }
            let child = lift(&items[i]);
            out.push(child);
            i += 1;
        }
        let j = Json::List(out);
        proof {
            lemma_docs_of(out@);
            assert(docs_of(out@) =~= docs);
            assert(j@ == Doc::List(docs_of(out@)));
        }
        return j;
    }
    if let Some(entries) = as_entries(v) {
        let ghost docs = document(*v)->Record_0;
        let mut out: Vec<(String, Json)> = Vec::new();
        let mut i: usize = 0;
        while i < entries.len()
            invariant
                i <= entries@.len(),
                document(*v) == Doc::Record(docs),
                docs.len() == entries@.len(),
                forall|k: int|
                    0 <= k < docs.len() ==> #[trigger] docs[k] == (
                        entries@[k].0@,
                        document(*entries@[k].1),
                    ),
                out@.len() == i,
                forall|k: int| 0 <= k < i ==> ((#[trigger] out@[k]).0@, out@[k].1@) == docs[k],
            decreases entries.len() - i,
        {
            proof {
                assert(docs[i as int] == (entries@[i as int].0@, document(*entries@[i as int].1)));
                let whole = document(*v);
                assert(decreases_to!(whole => whole->Record_0));
                assert(decreases_to!(whole->Record_0 => whole->Record_0[i as int]));
                assert(decreases_to!(whole->Record_0[i as int] => whole->Record_0[i as int].1));
            }
            let key = entries[i].0.clone();
            let child = lift(entries[i].1);
            out.push((key, child));
            i += 1;
        }
        let j = Json::Record(out);
        proof {
            lemma_entries_of(out@);
            assert(entries_of(out@) =~= docs);
            assert(j@ == Doc::Record(entries_of(out@)));
        }
        return j;
    }
    Json::Real(number_text(v))
}

/// Reads `bytes` as JSON text. Gives the document that they spell, or
/// nothing where they are no JSON text.
pub fn parse_json(bytes: &[u8]) -> (r: Option<Json>)
    ensures
        match r {
            Some(j) => parsed(bytes@) == Some(j@),
            None => parsed(bytes@) is None,
        },
{
    match parse_value(bytes) {
        Ok(v) => Some(lift(&v)),
        Err(_) => None,
    }
}

/// Whether `bytes` are the JSON text of a dataset.
pub open spec fn is_dataset(bytes: Seq<u8>) -> bool {
    parsed(bytes) matches Some(d) && General::accepts(d)
}

/// Decodes a payload into a dataset. The payload is malformed where it is no
/// JSON text or the document that it spells is no dataset; no part of a
/// dataset is returned then.
pub fn decode(bytes: &[u8]) -> (r: Result<General, DecodeError>)
    ensures
        match r {
            Ok(dataset) => is_dataset(bytes@) && dataset.agrees(parsed(bytes@)->0),
            Err(e) => e == DecodeError::Malformed && !is_dataset(bytes@),
        },
{
    match parse_json(bytes) {
        Some(j) => General::decode(&j),
        None => Err(DecodeError::Malformed),
    }
}

} // verus!
