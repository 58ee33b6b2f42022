//! Writing plain values into the members of a JSON object.
//!
//! A value that is absent is left out: the object has no member for it.

use vstd::prelude::*;
use crate::json::{
    bool_value, insert_member, integer_value, json_bool, json_i64, json_is_null, json_is_object,
    json_member, json_str, json_u64, number_value, text_value,
};
use crate::text::opt_text;

verus! {

/// A count of 32 bits, as a number of 64.
pub open spec fn wide_u32(count: Option<u32>) -> Option<u64> {
    match count {
        Some(n) => Some(n as u64),
        None => None,
    }
}

/// A number of 32 bits, as a number of 64.
pub open spec fn wide_i32(number: Option<i32>) -> Option<i64> {
    match number {
        Some(n) => Some(n as i64),
        None => None,
    }
}

/// Whether an object holds a text under a key: a member that is that text where there is
/// one, and no member where there is none.
pub open spec fn holds_text(doc: serde_json::Value, key: Seq<char>, text: Option<Seq<char>>) -> bool {
    match text {
        Some(t) => json_member(doc, key) matches Some(v) && json_str(v) == Some(t)
            && !json_is_null(v),
        None => json_member(doc, key) is None,
    }
}

/// Whether an object holds a number under a key: a member that is that number where there
/// is one, and no member where there is none.
pub open spec fn holds_number(doc: serde_json::Value, key: Seq<char>, number: Option<u64>) -> bool {
    match number {
        Some(n) => json_member(doc, key) matches Some(v) && json_u64(v) == Some(n)
            && !json_is_null(v),
        None => json_member(doc, key) is None,
    }
}

/// Whether an object holds a signed number under a key: a member that is that number where
/// there is one, and no member where there is none.
pub open spec fn holds_integer(doc: serde_json::Value, key: Seq<char>, number: Option<i64>) -> bool {
    match number {
        Some(n) => json_member(doc, key) matches Some(v) && json_i64(v) == Some(n)
            && !json_is_null(v),
        None => json_member(doc, key) is None,
    }
}

/// Whether an object holds a document under a key: a member that is that document where
/// there is one, and no member where there is none.
pub open spec fn holds_value(
    doc: serde_json::Value,
    key: Seq<char>,
    value: Option<serde_json::Value>,
) -> bool {
    match value {
        Some(v) => json_member(doc, key) == Some(v),
        None => json_member(doc, key) is None,
    }
}

/// Whether an object holds a truth value under a key: a member that is that truth value
/// where there is one, and no member where there is none.
pub open spec fn holds_bool(doc: serde_json::Value, key: Seq<char>, truth: Option<bool>) -> bool {
    match truth {
        Some(b) => json_member(doc, key) matches Some(v) && json_bool(v) == Some(b)
            && !json_is_null(v),
        None => json_member(doc, key) is None,
    }
}

/// Whether two objects have the same members but, at most, for the one under `key`.
pub open spec fn same_but(after: serde_json::Value, before: serde_json::Value, key: Seq<char>) -> bool {
    forall|k: Seq<char>| k != key ==> #[trigger] json_member(after, k) == json_member(before, k)
}

/// Puts a text into an object: the member under `key` becomes the text. Every other member
/// stays.
pub(crate) fn put_text(doc: &mut serde_json::Value, key: &str, text: &str)
    requires
        json_is_object(*old(doc)),
    ensures
        json_is_object(*final(doc)),
        !json_is_null(*final(doc)),
        holds_text(*final(doc), key@, Some(text@)),
        same_but(*final(doc), *old(doc), key@),
{
    insert_member(doc, key, text_value(text));
}

/// Puts a text into an object where there is one. Every other member stays.
pub(crate) fn put_optional_text(doc: &mut serde_json::Value, key: &str, text: &Option<String>)
    requires
        json_is_object(*old(doc)),
        !json_is_null(*old(doc)),
        json_member(*old(doc), key@) is None,
    ensures
        json_is_object(*final(doc)),
        !json_is_null(*final(doc)),
        holds_text(*final(doc), key@, opt_text(*text)),
        same_but(*final(doc), *old(doc), key@),
{
    if let Some(text) = text {
        insert_member(doc, key, text_value(text.as_str()));
    }
}

/// Puts a number into an object where there is one. Every other member stays.
pub(crate) fn put_optional_number(doc: &mut serde_json::Value, key: &str, number: Option<u64>)
    requires
        json_is_object(*old(doc)),
        !json_is_null(*old(doc)),
        json_member(*old(doc), key@) is None,
    ensures
        json_is_object(*final(doc)),
        !json_is_null(*final(doc)),
        holds_number(*final(doc), key@, number),
        same_but(*final(doc), *old(doc), key@),
{
    if let Some(number) = number {
        insert_member(doc, key, number_value(number));
    }
}

/// Puts a signed number into an object where there is one. Every other member stays.
pub(crate) fn put_optional_integer(doc: &mut serde_json::Value, key: &str, number: Option<i64>)
    requires
        json_is_object(*old(doc)),
        !json_is_null(*old(doc)),
        json_member(*old(doc), key@) is None,
    ensures
        json_is_object(*final(doc)),
        !json_is_null(*final(doc)),
        holds_integer(*final(doc), key@, number),
        same_but(*final(doc), *old(doc), key@),
{
    if let Some(number) = number {
        insert_member(doc, key, integer_value(number));
    }
}

/// Puts a document into an object where there is one. Every other member stays.
pub(crate) fn put_optional_value(
    doc: &mut serde_json::Value,
    key: &str,
    value: Option<serde_json::Value>,
)
    requires
        json_is_object(*old(doc)),
        !json_is_null(*old(doc)),
        json_member(*old(doc), key@) is None,
    ensures
        json_is_object(*final(doc)),
        !json_is_null(*final(doc)),
        holds_value(*final(doc), key@, value),
        same_but(*final(doc), *old(doc), key@),
{
    if let Some(value) = value {
        insert_member(doc, key, value);
    }
}

/// Puts a truth value into an object where there is one. Every other member stays.
pub(crate) fn put_optional_bool(doc: &mut serde_json::Value, key: &str, truth: Option<bool>)
    requires
        json_is_object(*old(doc)),
        !json_is_null(*old(doc)),
        json_member(*old(doc), key@) is None,
    ensures
        json_is_object(*final(doc)),
        !json_is_null(*final(doc)),
        holds_bool(*final(doc), key@, truth),
        same_but(*final(doc), *old(doc), key@),
{
    if let Some(truth) = truth {
        insert_member(doc, key, bool_value(truth));
    }
}

} // verus!
