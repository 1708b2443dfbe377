//! Decoding of protocol description documents into a typed tree of data-type
//! descriptions.
//!
//! A document is first parsed into a [`JsonValue`]; [`decode_protocol`] and
//! [`resolve`] turn it into the tree, and each states its result exactly.

pub mod data_type;
pub mod error;
pub mod fields;
pub mod json;
pub mod laws;
pub mod numeric;
pub mod ordered;
pub mod primitives;
pub mod protocol;
pub mod resolve;
pub mod resolve_spec;
pub mod text;
pub mod utility;

pub use data_type::DataType;
pub use error::DecodeError;
pub use json::JsonValue;
pub use numeric::{ByteOrder, Numeric};
pub use primitives::{Primitive, Primitives};
pub use protocol::{decode_protocol, Namespace, Protocol};
pub use resolve::resolve;
pub use ordered::{NamespaceMap, TypeMap};
