//! JSON documents. They are read, held and written by `serde_json`; this module declares its
//! value type and states, for each of its functions that the library calls, what the call
//! returns. What is stated of a function of `serde_json` is not proved: it is what the
//! function's source shows.

use vstd::prelude::*;

verus! {

#[verifier::external_type_specification]
#[verifier::external_body]
pub struct ExJsonValue(serde_json::Value);

#[verifier::external_type_specification]
#[verifier::external_body]
pub struct ExJsonError(serde_json::Error);

/// The document that `serde_json::from_str` reads from a text, where it reads one.
pub uninterp spec fn json_of_text(text: Seq<char>) -> Option<serde_json::Value>;

/// Whether a text ends before its document does: whether `serde_json::from_str` refuses it
/// with an error of which `is_eof` holds.
pub uninterp spec fn json_is_cut(text: Seq<char>) -> bool;

/// Whether `serde_json::Error::is_eof` holds of an error.
pub uninterp spec fn json_eof(error: serde_json::Error) -> bool;

/// The member that `serde_json::Value::get` finds under a key: a member of an object, and
/// nothing in any other document.
pub uninterp spec fn json_member(doc: serde_json::Value, key: Seq<char>) -> Option<
    serde_json::Value,
>;

/// The text that `serde_json::Value::as_str` reads from a document that is a string.
pub uninterp spec fn json_str(doc: serde_json::Value) -> Option<Seq<char>>;

/// The number that `serde_json::Value::as_u64` reads from a document that is a non-negative
/// integer.
pub uninterp spec fn json_u64(doc: serde_json::Value) -> Option<u64>;

/// The number that `serde_json::Value::as_i64` reads from a document that is an integer of
/// 64 bits.
pub uninterp spec fn json_i64(doc: serde_json::Value) -> Option<i64>;

/// Whether `serde_json::Value::is_number` holds of a document.
pub uninterp spec fn json_is_number(doc: serde_json::Value) -> bool;

/// The truth value that `serde_json::Value::as_bool` reads from a document that is a boolean.
pub uninterp spec fn json_bool(doc: serde_json::Value) -> Option<bool>;

/// Whether `serde_json::Value::is_null` holds of a document.
pub uninterp spec fn json_is_null(doc: serde_json::Value) -> bool;

/// Whether `serde_json::Value::is_object` holds of a document.
pub uninterp spec fn json_is_object(doc: serde_json::Value) -> bool;

/// The items that `serde_json::Value::as_array` reads from a document that is an array.
pub uninterp spec fn json_items(doc: serde_json::Value) -> Option<Seq<serde_json::Value>>;

/// The text that `serde_json::to_string_pretty` writes for a document.
pub uninterp spec fn json_pretty(doc: serde_json::Value) -> Seq<char>;

/// The text that `serde_json::to_string` writes for a document.
pub uninterp spec fn json_text(doc: serde_json::Value) -> Seq<char>;

/// The array that `serde_json::Value::Array` makes of items.
pub uninterp spec fn json_array(items: Seq<serde_json::Value>) -> serde_json::Value;

/// `serde_json::from_str`, reading a `Value`: the document that the text holds, or the
/// error where the text is not one JSON document. The error is one of a premature end
/// exactly where the text is cut.
#[verifier::external_body]
pub(crate) fn parse(text: &str) -> (r: Result<serde_json::Value, serde_json::Error>)
    ensures
        match r {
            Ok(doc) => json_of_text(text@) == Some(doc),
            Err(error) => json_of_text(text@) is None && json_eof(error) == json_is_cut(text@),
        },
{
    serde_json::from_str(text)
}

/// `serde_json::Error::is_eof`: whether the error is one of a premature end of the input.
#[verifier::external_body]
pub(crate) fn is_eof(error: &serde_json::Error) -> (r: bool)
    ensures
        r == json_eof(*error),
{
    error.is_eof()
}

/// `serde_json::Value::get` with a string key: the member of that name.
#[verifier::external_body]
pub(crate) fn member<'a>(doc: &'a serde_json::Value, key: &str) -> (r: Option<
    &'a serde_json::Value,
>)
    ensures
        match r {
            Some(m) => json_member(*doc, key@) == Some(*m),
            None => json_member(*doc, key@) is None,
        },
{
    doc.get(key)
}

/// `serde_json::Value::as_str`.
#[verifier::external_body]
pub(crate) fn as_str<'a>(doc: &'a serde_json::Value) -> (r: Option<&'a str>)
    ensures
        match r {
            Some(s) => json_str(*doc) == Some(s@),
            None => json_str(*doc) is None,
        },
{
    doc.as_str()
}

/// `serde_json::Value::as_u64`.
#[verifier::external_body]
pub(crate) fn as_u64(doc: &serde_json::Value) -> (r: Option<u64>)
    ensures
        r == json_u64(*doc),
{
    doc.as_u64()
}

/// `serde_json::Value::as_i64`.
#[verifier::external_body]
pub(crate) fn as_i64(doc: &serde_json::Value) -> (r: Option<i64>)
    ensures
        r == json_i64(*doc),
{
    doc.as_i64()
}

/// `serde_json::Value::is_number`. A document that is a number is not `null`.
#[verifier::external_body]
pub(crate) fn is_number(doc: &serde_json::Value) -> (r: bool)
    ensures
        r == json_is_number(*doc),
        r ==> !json_is_null(*doc),
{
    doc.is_number()
}

/// `serde_json::Value::as_bool`.
#[verifier::external_body]
pub(crate) fn as_bool(doc: &serde_json::Value) -> (r: Option<bool>)
    ensures
        r == json_bool(*doc),
{
    doc.as_bool()
}

/// `serde_json::Value::is_null`.
#[verifier::external_body]
pub(crate) fn is_null(doc: &serde_json::Value) -> (r: bool)
    ensures
        r == json_is_null(*doc),
{
    doc.is_null()
}

/// `serde_json::Value::is_object`.
#[verifier::external_body]
pub(crate) fn is_object(doc: &serde_json::Value) -> (r: bool)
    ensures
        r == json_is_object(*doc),
{
    doc.is_object()
}

/// `serde_json::Value::as_array`: the items of an array, in order.
#[verifier::external_body]
pub(crate) fn items<'a>(doc: &'a serde_json::Value) -> (r: Option<&'a Vec<serde_json::Value>>)
    ensures
        match r {
            Some(v) => json_items(*doc) == Some(v@),
            None => json_items(*doc) is None,
        },
{
    doc.as_array()
}

/// `serde_json::Value::Array`: the array of the given items, in their order.
#[verifier::external_body]
pub(crate) fn array_of(items: Vec<serde_json::Value>) -> (r: serde_json::Value)
    ensures
        r == json_array(items@),
        json_items(r) == Some(items@),
        !json_is_null(r),
{
    serde_json::Value::Array(items)
}

/// `serde_json::to_string` of a document: its text, on one line.
#[verifier::external_body]
pub(crate) fn compact(doc: &serde_json::Value) -> (r: String)
    ensures
        r@ == json_text(*doc),
{
    serde_json::to_string(doc).unwrap_or_default()
}

/// `serde_json::to_string_pretty` of a document: its text, indented.
#[verifier::external_body]
pub(crate) fn pretty(doc: &serde_json::Value) -> (r: String)
    ensures
        r@ == json_pretty(*doc),
{
    serde_json::to_string_pretty(doc).unwrap_or_default()
}

/// `serde_json::Value::String`: the document that is the given text.
#[verifier::external_body]
pub(crate) fn text_value(text: &str) -> (r: serde_json::Value)
    ensures
        json_str(r) == Some(text@),
        !json_is_null(r),
{
    serde_json::Value::String(text.to_owned())
}

/// `serde_json::Value::from` of an integer: the document that is the given number.
#[verifier::external_body]
pub(crate) fn number_value(number: u64) -> (r: serde_json::Value)
    ensures
        json_u64(r) == Some(number),
        !json_is_null(r),
{
    serde_json::Value::from(number)
}

/// `serde_json::Value::from` of a signed integer: the document that is the given number.
#[verifier::external_body]
pub(crate) fn integer_value(number: i64) -> (r: serde_json::Value)
    ensures
        json_i64(r) == Some(number),
        !json_is_null(r),
{
    serde_json::Value::from(number)
}

/// `serde_json::Value::Bool`: the document that is the given truth value.
#[verifier::external_body]
pub(crate) fn bool_value(truth: bool) -> (r: serde_json::Value)
    ensures
        json_bool(r) == Some(truth),
        !json_is_null(r),
{
    serde_json::Value::Bool(truth)
}

/// `serde_json::Value::Object` of `serde_json::Map::new`: the object without members.
#[verifier::external_body]
pub(crate) fn empty_object() -> (r: serde_json::Value)
    ensures
        json_is_object(r),
        !json_is_null(r),
        forall|k: Seq<char>| (#[trigger] json_member(r, k)) is None,
{
    serde_json::Value::Object(serde_json::Map::new())
}

/// `serde_json::Map::insert` on the members that `Value::as_object_mut` hands out: an
/// object gains the member under `key`, in place of the one it had there, and keeps every
/// other; a document that is no object stays as it is.
#[verifier::external_body]
pub(crate) fn insert_member(doc: &mut serde_json::Value, key: &str, value: serde_json::Value)
    ensures
        json_is_object(*old(doc)) ==> json_is_object(*final(doc)) && !json_is_null(*final(doc))
            && forall|k: Seq<char>| #[trigger]
            json_member(*final(doc), k) == if k == key@ {
                Some(value)
            } else {
                json_member(*old(doc), k)
            },
        !json_is_object(*old(doc)) ==> *final(doc) == *old(doc),
{
    if let Some(members) = doc.as_object_mut() {
        members.insert(key.to_owned(), value);
    }
}

/// `serde_json::Map::remove` on the members that `Value::as_object_mut` hands out: an
/// object loses the member under `key` and keeps every other; a document that is no object
/// stays as it is.
#[verifier::external_body]
pub(crate) fn remove_member(doc: &mut serde_json::Value, key: &str)
    ensures
        json_is_object(*old(doc)) ==> json_is_object(*final(doc)) && forall|k: Seq<char>| #[trigger]
            json_member(*final(doc), k) == if k == key@ {
                None
            } else {
                json_member(*old(doc), k)
            },
        !json_is_object(*old(doc)) ==> *final(doc) == *old(doc),
{
    if let Some(members) = doc.as_object_mut() {
        members.remove(key);
    }
}

/// The object with one member: under `key` it holds `value`, and under every other key
/// nothing.
pub fn object_with(key: &str, value: serde_json::Value) -> (r: serde_json::Value)
    ensures
        json_is_object(r),
        forall|k: Seq<char>| #[trigger]
            json_member(r, k) == if k == key@ {
                Some(value)
            } else {
                None
            },
{
    let mut object = empty_object();
    insert_member(&mut object, key, value);
    object
}

/// `Clone::clone` of a `serde_json::Value`: a document equal to the one cloned.
#[verifier::external_body]
pub(crate) fn duplicate(doc: &serde_json::Value) -> (r: serde_json::Value)
    ensures
        r == *doc,
{
    doc.clone()
}

} // verus!
