//! The table of primitive keywords.

use vstd::prelude::*;
use crate::error::{DecodeError, ErrorModel};
use crate::text::{owned, same_text};

verus! {

/// A primitive type with no parameters.
#[derive(Debug, Clone, Copy, PartialEq, Eq, Structural)]
pub enum Primitive {
    Boolean,
    /// Null-terminated text.
    String,
    Void,
}

/// The same primitive descriptor under its table's name.
pub type Primitives = Primitive;

/// The primitive that a keyword names, if any.
pub open spec fn primitive_keyword(word: Seq<char>) -> Option<Primitive> {
    if word == "bool"@ {
        Some(Primitive::Boolean)
    } else if word == "cstring"@ {
        Some(Primitive::String)
    } else if word == "void"@ {
        Some(Primitive::Void)
    } else {
        None
    }
}

impl Primitive {
    /// Looks a keyword up in the primitive table.
    pub fn from_keyword(word: &str) -> (r: Result<Primitive, DecodeError>)
        ensures
            match primitive_keyword(word@) {
                Some(p) => r == Ok::<Primitive, DecodeError>(p),
                None => r matches Err(e) && e@ == ErrorModel::UnknownPrimitive(word@),
            },
    {
        if same_text(word, "bool") {
            Ok(Primitive::Boolean)
        } else if same_text(word, "cstring") {
            Ok(Primitive::String)
        } else if same_text(word, "void") {
            Ok(Primitive::Void)
        } else {
            Err(DecodeError::UnknownPrimitive(owned(word)))
        }
    }
}

} // verus!
