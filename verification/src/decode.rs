//! Decoding a payload: a query string or a JSON text into a document.

use crate::json::Json;
use crate::json::JsonView;
use crate::json::MemberView;
use crate::outside::document;
use crate::outside::parsed_json;
use crate::outside::parsed_query;
use crate::outside::queryst_parse;
use crate::outside::serde_json_from_str;
use crate::outside::value_as_array;
use crate::outside::value_as_bool;
use crate::outside::value_as_number;
use crate::outside::value_as_object;
use crate::outside::value_as_str;
use crate::query::accepts;
use crate::query::is_acceptable;
use vstd::prelude::*;

verus! {

/// A decoded value as a document of this library: what is neither a
/// boolean, a number, a string, an array nor an object is `null`.
fn json_of(value: &serde_json::Value) -> (j: Json)
    ensures
        j@ == document(*value),
    decreases document(*value),
{
    if let Some(b) = value_as_bool(value) {
        return Json::Bool(b);
    }
    if let Some(n) = value_as_number(value) {
        return Json::Number(n);
    }
    if let Some(s) = value_as_str(value) {
        return Json::Text(String::from_str(s));
    }
    if let Some(items) = value_as_array(value) {
        let ghost docs = document(*value)->Array_0;
        let n: usize = items.len();
        let mut out: Vec<Json> = Vec::new();
        let mut i: usize = 0;
        while i < n
            invariant
                i <= n,
                n == items@.len(),
                out@.len() == i,
                document(*value) == JsonView::Array(docs),
                docs.len() == n,
                forall|k: int| 0 <= k < n ==> docs[k] == document(*#[trigger] items@[k]),
                forall|k: int| 0 <= k < i ==> (#[trigger] out@[k])@ == docs[k],
            decreases n - i,
        {
            proof {
                let whole = document(*value);
                assert(whole->Array_0[i as int] == document(*items@[i as int]));
                assert(decreases_to!(whole => whole->Array_0));
                assert(decreases_to!(whole->Array_0 => whole->Array_0[i as int]));
            }
            let item = json_of(items[i]);
            out.push(item);
            i = i + 1;
        }
        let j = Json::Array(out);
        assert(j@->Array_0 =~= docs);
        return j;
    }
    if let Some(members) = value_as_object(value) {
        let ghost docs = document(*value)->Object_0;
        let n: usize = members.len();
        let mut out: Vec<(String, Json)> = Vec::new();
        let mut i: usize = 0;
        while i < n
            invariant
                i <= n,
                n == members@.len(),
                out@.len() == i,
                document(*value) == JsonView::Object(docs),
                docs.len() == n,
                forall|k: int|
                    0 <= k < n ==> docs[k] == (MemberView {
                        key: (#[trigger] members@[k]).0@,
                        value: document(*members@[k].1),
                    }),
                forall|k: int|
                    0 <= k < i ==> (#[trigger] out@[k]).0@ == docs[k].key && out@[k].1@
                        == docs[k].value,
            decreases n - i,
        {
            proof {
                let whole = document(*value);
                assert(whole->Object_0[i as int].value == document(*members@[i as int].1));
                assert(decreases_to!(whole => whole->Object_0));
                assert(decreases_to!(whole->Object_0 => whole->Object_0[i as int]));
                assert(decreases_to!(whole->Object_0[i as int] => whole->Object_0[i as int].value));
            }
            let key = members[i].0.clone();
            let item = json_of(members[i].1);
            out.push((key, item));
            i = i + 1;
        }
        let j = Json::Object(out);
        assert(j@->Object_0 =~= docs);
        return j;
    }
    Json::Null
}

/// The outcome of decoding, as a mathematical value.
pub open spec fn outcome_view(outcome: Result<Json, String>) -> Result<JsonView, Seq<char>> {
    match outcome {
        Ok(v) => Ok(v@),
        Err(e) => Err(e@),
    }
}

/// What decoding a query string comes to: the decoder's outcome where the
/// query string is one that it is given, an error otherwise.
pub open spec fn query_outcome(query: Seq<char>) -> Result<JsonView, Seq<char>> {
    if accepts(query) {
        parsed_query(query)
    } else {
        Err("query string not accepted"@)
    }
}

/// Decodes a query string. One that the decoder is not given is malformed.
pub fn decode_query(query: &str) -> (r: Result<Json, String>)
    ensures
        outcome_view(r) == query_outcome(query@),
{
    if !is_acceptable(query) {
        return Err(String::from_str("query string not accepted"));
    }
    match queryst_parse(query) {
        Ok(v) => Ok(json_of(&v)),
        Err(e) => Err(e),
    }
}

/// Decodes a JSON text.
pub fn decode_json(text: &str) -> (r: Result<Json, String>)
    ensures
        outcome_view(r) == parsed_json(text@),
{
    match serde_json_from_str(text) {
        Ok(v) => Ok(json_of(&v)),
        Err(e) => Err(e),
    }
}

} // verus!
