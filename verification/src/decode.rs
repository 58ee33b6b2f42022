//! Reading the fields of a JSON object into plain values.
//!
//! A field that is missing, or `null`, is absent. A field that is present holds a value of
//! its type, or the object is refused.

use vstd::prelude::*;
use crate::json::{
    as_bool, as_i64, as_str, as_u64, duplicate, is_null, is_number, json_bool, json_i64,
    json_is_null, json_is_number, json_member, json_str, json_u64, member,
};
use crate::text::opt_text;

verus! {

/// Why a JSON document was refused.
#[derive(Clone, Copy, Debug, PartialEq, Eq, Structural)]
pub enum DecodeError {
    /// The document is no JSON object.
    NotAnObject,
    /// A field holds a value that is not of the field's type.
    InvalidField,
}

impl DecodeError {
    /// The error in words.
    pub fn message(&self) -> (r: &'static str)
        ensures
            r@ == match *self {
                DecodeError::NotAnObject => "not a JSON object"@,
                DecodeError::InvalidField => "a field holds a value of the wrong type"@,
            },
    {
        match self {
            DecodeError::NotAnObject => "not a JSON object",
            DecodeError::InvalidField => "a field holds a value of the wrong type",
        }
    }
}

/// The value of a field that is present: a member that is not `null`.
pub open spec fn field(doc: serde_json::Value, key: Seq<char>) -> Option<serde_json::Value> {
    match json_member(doc, key) {
        Some(m) => if json_is_null(m) {
            None
        } else {
            Some(m)
        },
        None => None,
    }
}

/// A member that has to be there and to hold text.
pub open spec fn required_text(doc: serde_json::Value, key: Seq<char>) -> Option<Seq<char>> {
    match json_member(doc, key) {
        Some(m) => json_str(m),
        None => None,
    }
}

/// A member that has to be there and to hold a non-negative integer of 64 bits.
pub open spec fn required_u64(doc: serde_json::Value, key: Seq<char>) -> Option<u64> {
    match json_member(doc, key) {
        Some(m) => json_u64(m),
        None => None,
    }
}

/// A member that has to be there and to hold a non-negative integer of 32 bits.
pub open spec fn required_u32(doc: serde_json::Value, key: Seq<char>) -> Option<u32> {
    match required_u64(doc, key) {
        Some(n) => if n <= u32::MAX {
            Some(n as u32)
        } else {
            None
        },
        None => None,
    }
}

/// A member that has to be there and to hold a truth value.
pub open spec fn required_bool(doc: serde_json::Value, key: Seq<char>) -> Option<bool> {
    match json_member(doc, key) {
        Some(m) => json_bool(m),
        None => None,
    }
}

/// A field of text.
pub open spec fn text_field(doc: serde_json::Value, key: Seq<char>) -> Result<
    Option<Seq<char>>,
    DecodeError,
> {
    match field(doc, key) {
        None => Ok(None),
        Some(m) => match json_str(m) {
            Some(s) => Ok(Some(s)),
            None => Err(DecodeError::InvalidField),
        },
    }
}

/// A field that holds a non-negative integer of 64 bits.
pub open spec fn u64_field(doc: serde_json::Value, key: Seq<char>) -> Result<
    Option<u64>,
    DecodeError,
> {
    match field(doc, key) {
        None => Ok(None),
        Some(m) => match json_u64(m) {
            Some(n) => Ok(Some(n)),
            None => Err(DecodeError::InvalidField),
        },
    }
}

/// A field that holds a non-negative integer of 32 bits.
pub open spec fn u32_field(doc: serde_json::Value, key: Seq<char>) -> Result<
    Option<u32>,
    DecodeError,
> {
    match field(doc, key) {
        None => Ok(None),
        Some(m) => match json_u64(m) {
            Some(n) => if n <= u32::MAX {
                Ok(Some(n as u32))
            } else {
                Err(DecodeError::InvalidField)
            },
            None => Err(DecodeError::InvalidField),
        },
    }
}

/// A field that holds an integer of 32 bits.
pub open spec fn i32_field(doc: serde_json::Value, key: Seq<char>) -> Result<
    Option<i32>,
    DecodeError,
> {
    match field(doc, key) {
        None => Ok(None),
        Some(m) => match json_i64(m) {
            Some(n) => if i32::MIN <= n <= i32::MAX {
                Ok(Some(n as i32))
            } else {
                Err(DecodeError::InvalidField)
            },
            None => Err(DecodeError::InvalidField),
        },
    }
}

/// A field that holds a number, of whatever kind: the number is kept as the document it is.
pub open spec fn number_field(doc: serde_json::Value, key: Seq<char>) -> Result<
    Option<serde_json::Value>,
    DecodeError,
> {
    match field(doc, key) {
        None => Ok(None),
        Some(m) => if json_is_number(m) {
            Ok(Some(m))
        } else {
            Err(DecodeError::InvalidField)
        },
    }
}

/// A field that holds a truth value.
pub open spec fn bool_field(doc: serde_json::Value, key: Seq<char>) -> Result<
    Option<bool>,
    DecodeError,
> {
    match field(doc, key) {
        None => Ok(None),
        Some(m) => match json_bool(m) {
            Some(b) => Ok(Some(b)),
            None => Err(DecodeError::InvalidField),
        },
    }
}

/// The value of a field that is present (see `field`).
pub fn read_field<'a>(doc: &'a serde_json::Value, key: &str) -> (r: Option<&'a serde_json::Value>)
    ensures
        match r {
            Some(m) => field(*doc, key@) == Some(*m),
            None => field(*doc, key@) is None,
        },
{
    match member(doc, key) {
        Some(m) => if is_null(m) {
            None
        } else {
            Some(m)
        },
        None => None,
    }
}

/// Reads a member that has to hold text (see `required_text`).
pub fn read_required_text(doc: &serde_json::Value, key: &str) -> (r: Option<String>)
    ensures
        opt_text(r) == required_text(*doc, key@),
{
    match member(doc, key) {
        Some(m) => match as_str(m) {
            Some(s) => Some(s.to_owned()),
            None => None,
        },
        None => None,
    }
}

/// Reads a member that has to hold a non-negative integer of 64 bits (see `required_u64`).
pub fn read_required_u64(doc: &serde_json::Value, key: &str) -> (r: Option<u64>)
    ensures
        r == required_u64(*doc, key@),
{
    match member(doc, key) {
        Some(m) => as_u64(m),
        None => None,
    }
}

/// Reads a member that has to hold a non-negative integer of 32 bits (see `required_u32`).
pub fn read_required_u32(doc: &serde_json::Value, key: &str) -> (r: Option<u32>)
    ensures
        r == required_u32(*doc, key@),
{
    match read_required_u64(doc, key) {
        Some(n) => if n <= 0xFFFF_FFFF {
            Some(n as u32)
        } else {
            None
        },
        None => None,
    }
}

/// Reads a member that has to hold a truth value (see `required_bool`).
pub fn read_required_bool(doc: &serde_json::Value, key: &str) -> (r: Option<bool>)
    ensures
        r == required_bool(*doc, key@),
{
    match member(doc, key) {
        Some(m) => as_bool(m),
        None => None,
    }
}

/// Reads a field of text (see `text_field`).
pub fn read_text(doc: &serde_json::Value, key: &str) -> (r: Result<Option<String>, DecodeError>)
    ensures
        match r {
            Ok(text) => text_field(*doc, key@) == Ok::<Option<Seq<char>>, DecodeError>(
                opt_text(text),
            ),
            Err(e) => text_field(*doc, key@) == Err::<Option<Seq<char>>, DecodeError>(e),
        },
{
    match read_field(doc, key) {
        None => Ok(None),
        Some(m) => match as_str(m) {
            Some(s) => Ok(Some(s.to_owned())),
            None => Err(DecodeError::InvalidField),
        },
    }
}

/// Reads a field that holds a non-negative integer of 64 bits (see `u64_field`).
pub fn read_u64(doc: &serde_json::Value, key: &str) -> (r: Result<Option<u64>, DecodeError>)
    ensures
        r == u64_field(*doc, key@),
{
    match read_field(doc, key) {
        None => Ok(None),
        Some(m) => match as_u64(m) {
            Some(n) => Ok(Some(n)),
            None => Err(DecodeError::InvalidField),
        },
    }
}

/// Reads a field that holds a non-negative integer of 32 bits (see `u32_field`).
pub fn read_u32(doc: &serde_json::Value, key: &str) -> (r: Result<Option<u32>, DecodeError>)
    ensures
        r == u32_field(*doc, key@),
{
    match read_field(doc, key) {
        None => Ok(None),
        Some(m) => match as_u64(m) {
            Some(n) => if n <= 0xFFFF_FFFF {
                Ok(Some(n as u32))
            } else {
                Err(DecodeError::InvalidField)
            },
            None => Err(DecodeError::InvalidField),
        },
    }
}

/// Reads a field that holds an integer of 32 bits (see `i32_field`).
pub fn read_i32(doc: &serde_json::Value, key: &str) -> (r: Result<Option<i32>, DecodeError>)
    ensures
        r == i32_field(*doc, key@),
{
    match read_field(doc, key) {
        None => Ok(None),
        Some(m) => match as_i64(m) {
            Some(n) => if -0x8000_0000 <= n && n <= 0x7FFF_FFFF {
                Ok(Some(n as i32))
            } else {
                Err(DecodeError::InvalidField)
            },
            None => Err(DecodeError::InvalidField),
        },
    }
}

/// Reads a field that holds a number (see `number_field`).
pub fn read_number(doc: &serde_json::Value, key: &str) -> (r: Result<
    Option<serde_json::Value>,
    DecodeError,
>)
    ensures
        r == number_field(*doc, key@),
        r matches Ok(Some(number)) ==> json_is_number(number) && !json_is_null(number),
{
    match read_field(doc, key) {
        None => Ok(None),
        Some(m) => if is_number(m) {
            Ok(Some(duplicate(m)))
        } else {
            Err(DecodeError::InvalidField)
        },
    }
}

/// Reads a field that holds a truth value (see `bool_field`).
pub fn read_bool(doc: &serde_json::Value, key: &str) -> (r: Result<Option<bool>, DecodeError>)
    ensures
        r == bool_field(*doc, key@),
{
    match read_field(doc, key) {
        None => Ok(None),
        Some(m) => match as_bool(m) {
            Some(b) => Ok(Some(b)),
            None => Err(DecodeError::InvalidField),
        },
    }
}

} // verus!
