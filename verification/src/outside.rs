//! The functions of other crates that the front end calls, and what is
//! taken on trust of each. Nothing in this file is proved: a contract here
//! states what the called function's source or documentation shows.

use crate::json::JsonView;
use crate::json::MemberView;
use crate::query::accepts;
use vstd::prelude::*;

verus! {

#[verifier::external_type_specification]
#[verifier::external_body]
pub struct ExValue(serde_json::Value);

/// What `queryst::parse` makes of a query string: the document it builds,
/// or its error in `Debug` form.
pub uninterp spec fn parsed_query(query: Seq<char>) -> Result<JsonView, Seq<char>>;

/// What `serde_json::from_str` makes of a text: the document it reads, or
/// its error in `Debug` form.
pub uninterp spec fn parsed_json(text: Seq<char>) -> Result<JsonView, Seq<char>>;

/// The document that a `serde_json::Value` holds: its variant and what the
/// variant carries, a number as the text that `serde_json::Number` prints.
pub uninterp spec fn document(value: serde_json::Value) -> JsonView;

/// What `{:?}` prints for a string: the string in quotes, with escapes.
pub uninterp spec fn debug_form(s: Seq<char>) -> Seq<char>;

/// `queryst::parse`, with its error in `Debug` form.
///
/// The result depends on the query string alone. The parser panics where
/// it merges a pair into a `null` or a number that the document already
/// holds, and where the index behind the greatest numeric key of an object
/// overflows; it recurses once for each segment of a key. `accepts` leaves
/// out every query string that leads there. The parser makes a `null` only
/// of a pair without `=`. It makes a number only under `__idx`, in objects
/// of its own bookkeeping, and only a key segment `__idx` reaches one. A
/// numeric key of at most `DIGITS_MAX` digits is far from overflowing, and
/// a key of at most `KEY_MAX` bytes has fewer segments than bytes. The
/// parser decodes percent escapes before it splits the query string, and
/// once more in each key segment: an escape that `accepts` admits leaves
/// no `%` behind, and stands for a byte that takes no part in any of this.
#[verifier::external_body]
pub(crate) fn queryst_parse(query: &str) -> (r: Result<serde_json::Value, String>)
    requires
        accepts(query@),
    ensures
        match r {
            Ok(v) => parsed_query(query@) == Ok::<JsonView, Seq<char>>(document(v)),
            Err(e) => parsed_query(query@) == Err::<JsonView, Seq<char>>(e@),
        },
{
    match queryst::parse(query) {
        Ok(v) => Ok(v),
        Err(e) => Err(format!("{:?}", e)),
    }
}

/// `serde_json::from_str`, reading a `serde_json::Value`, with its error in
/// `Debug` form.
///
/// The result depends on the text alone: the value read, or the error at
/// the first place where the text is no JSON document. Nesting deeper
/// than the reader's limit is such an error, so it returns on every text.
#[verifier::external_body]
pub(crate) fn serde_json_from_str(text: &str) -> (r: Result<serde_json::Value, String>)
    ensures
        match r {
            Ok(v) => parsed_json(text@) == Ok::<JsonView, Seq<char>>(document(v)),
            Err(e) => parsed_json(text@) == Err::<JsonView, Seq<char>>(e@),
        },
{
    match serde_json::from_str::<serde_json::Value>(text) {
        Ok(v) => Ok(v),
        Err(e) => Err(format!("{:?}", e)),
    }
}

/// `serde_json::Value::as_bool`: the boolean that a boolean value holds,
/// and nothing of any other value.
#[verifier::external_body]
pub(crate) fn value_as_bool(value: &serde_json::Value) -> (r: Option<bool>)
    ensures
        match r {
            Some(b) => document(*value) == JsonView::Bool(b),
            None => !(document(*value) is Bool),
        },
{
    value.as_bool()
}

/// `serde_json::Value::as_number`, and the text that `serde_json::Number`
/// prints for the number: the number that a number value holds, and
/// nothing of any other value.
#[verifier::external_body]
pub(crate) fn value_as_number(value: &serde_json::Value) -> (r: Option<String>)
    ensures
        match r {
            Some(n) => document(*value) == JsonView::Number(n@),
            None => !(document(*value) is Number),
        },
{
    match value.as_number() {
        Some(n) => Some(n.to_string()),
        None => None,
    }
}

/// `serde_json::Value::as_str`: the characters that a string value holds,
/// and nothing of any other value.
#[verifier::external_body]
pub(crate) fn value_as_str(value: &serde_json::Value) -> (r: Option<&str>)
    ensures
        match r {
            Some(s) => document(*value) == JsonView::Text(s@),
            None => !(document(*value) is Text),
        },
{
    value.as_str()
}

/// `serde_json::Value::as_array`: the items that an array holds, in their
/// order, and nothing of any other value.
#[verifier::external_body]
pub(crate) fn value_as_array(value: &serde_json::Value) -> (r: Option<Vec<&serde_json::Value>>)
    ensures
        match r {
            Some(items) => document(*value) matches JsonView::Array(docs) && docs.len()
                == items@.len() && forall|i: int|
                0 <= i < items@.len() ==> docs[i] == document(*#[trigger] items@[i]),
            None => !(document(*value) is Array),
        },
{
    match value.as_array() {
        Some(items) => Some(items.iter().collect()),
        None => None,
    }
}

/// `serde_json::Value::as_object`: the members that an object holds, in
/// the order in which its map hands them out, and nothing of any other
/// value.
#[verifier::external_body]
pub(crate) fn value_as_object(value: &serde_json::Value) -> (r: Option<
    Vec<(&String, &serde_json::Value)>,
>)
    ensures
        match r {
            Some(members) => document(*value) matches JsonView::Object(docs) && docs.len()
                == members@.len() && forall|i: int|
                0 <= i < members@.len() ==> docs[i] == (MemberView {
                    key: (#[trigger] members@[i]).0@,
                    value: document(*members@[i].1),
                }),
            None => !(document(*value) is Object),
        },
{
    match value.as_object() {
        Some(members) => Some(members.iter().collect()),
        None => None,
    }
}

/// `{:?}` of a string, as `format!` prints it.
#[verifier::external_body]
pub(crate) fn debug_quoted(s: &str) -> (r: String)
    ensures
        r@ == debug_form(s@),
{
    format!("{:?}", s)
}

} // verus!
