//! Errors of the decoder.

use vstd::prelude::*;

verus! {

/// Why a value in a type position could not be decoded.
#[derive(Debug, PartialEq, Eq)]
pub enum DecodeError {
    /// The text is not one of the numeric codes.
    UnknownNumericCode(String),
    /// The text is not one of the primitive keywords.
    UnknownPrimitive(String),
    /// A required entry of a payload object is absent.
    MissingField(String),
    /// The tag of a tagged pair names no variant that its payload fits.
    UnknownVariant { tag: String, expected: Vec<String> },
    /// The value has the wrong kind for the position it stands in.
    MalformedShape,
}

/// The mathematical form of a [`DecodeError`].
pub enum ErrorModel {
    UnknownNumericCode(Seq<char>),
    UnknownPrimitive(Seq<char>),
    MissingField(Seq<char>),
    UnknownVariant { tag: Seq<char>, expected: Seq<Seq<char>> },
    MalformedShape,
}

impl View for DecodeError {
    type V = ErrorModel;

    open spec fn view(&self) -> ErrorModel {
        match self {
            DecodeError::UnknownNumericCode(s) => ErrorModel::UnknownNumericCode(s@),
            DecodeError::UnknownPrimitive(s) => ErrorModel::UnknownPrimitive(s@),
            DecodeError::MissingField(s) => ErrorModel::MissingField(s@),
            DecodeError::UnknownVariant { tag, expected } => ErrorModel::UnknownVariant {
                tag: tag@,
                expected: expected@.map_values(|e: String| e@),
            },
            DecodeError::MalformedShape => ErrorModel::MalformedShape,
        }
    }
}

} // verus!
