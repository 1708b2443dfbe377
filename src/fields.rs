//! Reading the entries of payload objects that hold no nested type.

use vstd::prelude::*;
use crate::data_type::{opt_count, opt_text, ArrayCount};
use crate::error::DecodeError;
use crate::json::{get_entry, lookup, JsonValue};
use crate::resolve_spec::{opt_bool, opt_count_value, opt_string, req_string};
use crate::text::owned;

verus! {

/// An optional text entry of an object.
pub fn opt_string_entry(e: &Vec<(String, JsonValue)>, key: &str) -> (r: Result<Option<String>, DecodeError>)
    ensures
        match (r, opt_string(lookup(e@, key@))) {
            (Ok(o), Ok(m)) => opt_text(o) == m,
            (Err(x), Err(y)) => x@ == y,
            _ => false,
        },
{
    match get_entry(e, key) {
        None => Ok(None),
        Some(JsonValue::Null) => Ok(None),
        Some(JsonValue::Str(s)) => Ok(Some(s.clone())),
        Some(_) => Err(DecodeError::MalformedShape),
    }
}

/// A required text entry of an object.
pub fn req_string_entry(e: &Vec<(String, JsonValue)>, key: &str) -> (r: Result<String, DecodeError>)
    ensures
        match (r, req_string(lookup(e@, key@), key@)) {
            (Ok(s), Ok(m)) => s@ == m,
            (Err(x), Err(y)) => x@ == y,
            _ => false,
        },
{
    match get_entry(e, key) {
        None => Err(DecodeError::MissingField(owned(key))),
        Some(JsonValue::Str(s)) => Ok(s.clone()),
        Some(_) => Err(DecodeError::MalformedShape),
    }
}

/// An optional flag entry of an object.
pub fn opt_bool_entry(e: &Vec<(String, JsonValue)>, key: &str) -> (r: Result<Option<bool>, DecodeError>)
    ensures
        match (r, opt_bool(lookup(e@, key@))) {
            (Ok(o), Ok(m)) => o == m,
            (Err(x), Err(y)) => x@ == y,
            _ => false,
        },
{
    match get_entry(e, key) {
        None => Ok(None),
        Some(JsonValue::Null) => Ok(None),
        Some(JsonValue::Bool(b)) => Ok(Some(*b)),
        Some(_) => Err(DecodeError::MalformedShape),
    }
}

/// An optional count entry of an object: a field reference or a fixed length.
pub fn opt_count_entry(e: &Vec<(String, JsonValue)>, key: &str) -> (r: Result<Option<ArrayCount>, DecodeError>)
    ensures
        match (r, opt_count_value(lookup(e@, key@))) {
            (Ok(o), Ok(m)) => opt_count(o) == m,
            (Err(x), Err(y)) => x@ == y,
            _ => false,
        },
{
    match get_entry(e, key) {
        None => Ok(None),
        Some(JsonValue::Null) => Ok(None),
        Some(JsonValue::Str(s)) => Ok(Some(ArrayCount::FieldReference(s.clone()))),
        Some(JsonValue::UInt(n)) => {
            if *n <= u32::MAX as u64 {
                Ok(Some(ArrayCount::FixedLength(*n as u32)))
            } else {
                Err(DecodeError::MalformedShape)
            }
        },
        Some(_) => Err(DecodeError::MalformedShape),
    }
}

} // verus!
