//! The table of numeric codes.

use vstd::prelude::*;
use crate::error::{DecodeError, ErrorModel};
use crate::text::{owned, same_text};

verus! {

/// The order of the bytes of a multi-byte number.
#[derive(Debug, Clone, Copy, PartialEq, Eq, Structural)]
pub enum ByteOrder {
    BigEndian,
    LittleEndian,
}

/// A numeric type: its width, its sign and its byte order where these apply.
#[derive(Debug, Clone, Copy, PartialEq, Eq, Structural)]
pub enum Numeric {
    Byte { signed: bool },
    Short { signed: bool, byte_order: ByteOrder },
    Int { signed: bool, byte_order: ByteOrder },
    Long { signed: bool, byte_order: ByteOrder },
    Float { byte_order: ByteOrder },
    Double { byte_order: ByteOrder },
    VarInt,
}

/// The numeric type that a code names, if any. A leading `l` marks little
/// endian; without it the order is big endian.
pub open spec fn numeric_code(code: Seq<char>) -> Option<Numeric> {
    if code == "i8"@ {
        Some(Numeric::Byte { signed: true })
    } else if code == "u8"@ {
        Some(Numeric::Byte { signed: false })
    } else if code == "i16"@ {
        Some(Numeric::Short { signed: true, byte_order: ByteOrder::BigEndian })
    } else if code == "u16"@ {
        Some(Numeric::Short { signed: false, byte_order: ByteOrder::BigEndian })
    } else if code == "li16"@ {
        Some(Numeric::Short { signed: true, byte_order: ByteOrder::LittleEndian })
    } else if code == "lu16"@ {
        Some(Numeric::Short { signed: false, byte_order: ByteOrder::LittleEndian })
    } else if code == "i32"@ {
        Some(Numeric::Int { signed: true, byte_order: ByteOrder::BigEndian })
    } else if code == "u32"@ {
        Some(Numeric::Int { signed: false, byte_order: ByteOrder::BigEndian })
    } else if code == "li32"@ {
        Some(Numeric::Int { signed: true, byte_order: ByteOrder::LittleEndian })
    } else if code == "lu32"@ {
        Some(Numeric::Int { signed: false, byte_order: ByteOrder::LittleEndian })
    } else if code == "i64"@ {
        Some(Numeric::Long { signed: true, byte_order: ByteOrder::BigEndian })
    } else if code == "u64"@ {
        Some(Numeric::Long { signed: false, byte_order: ByteOrder::BigEndian })
    } else if code == "li64"@ {
        Some(Numeric::Long { signed: true, byte_order: ByteOrder::LittleEndian })
    } else if code == "lu64"@ {
        Some(Numeric::Long { signed: false, byte_order: ByteOrder::LittleEndian })
    } else if code == "f32"@ {
        Some(Numeric::Float { byte_order: ByteOrder::BigEndian })
    } else if code == "lf32"@ {
        Some(Numeric::Float { byte_order: ByteOrder::LittleEndian })
    } else if code == "f64"@ {
        Some(Numeric::Double { byte_order: ByteOrder::BigEndian })
    } else if code == "lf64"@ {
        Some(Numeric::Double { byte_order: ByteOrder::LittleEndian })
    } else if code == "varint"@ {
        Some(Numeric::VarInt)
    } else {
        None
    }
}

impl Numeric {
    /// Looks a code up in the numeric table.
    pub fn from_code(code: &str) -> (r: Result<Numeric, DecodeError>)
        ensures
            match numeric_code(code@) {
                Some(n) => r == Ok::<Numeric, DecodeError>(n),
                None => r matches Err(e) && e@ == ErrorModel::UnknownNumericCode(code@),
            },
    {
        if same_text(code, "i8") {
            Ok(Numeric::Byte { signed: true })
        } else if same_text(code, "u8") {
            Ok(Numeric::Byte { signed: false })
        } else if same_text(code, "i16") {
            Ok(Numeric::Short { signed: true, byte_order: ByteOrder::BigEndian })
        } else if same_text(code, "u16") {
            Ok(Numeric::Short { signed: false, byte_order: ByteOrder::BigEndian })
        } else if same_text(code, "li16") {
            Ok(Numeric::Short { signed: true, byte_order: ByteOrder::LittleEndian })
        } else if same_text(code, "lu16") {
            Ok(Numeric::Short { signed: false, byte_order: ByteOrder::LittleEndian })
        } else if same_text(code, "i32") {
            Ok(Numeric::Int { signed: true, byte_order: ByteOrder::BigEndian })
        } else if same_text(code, "u32") {
            Ok(Numeric::Int { signed: false, byte_order: ByteOrder::BigEndian })
        } else if same_text(code, "li32") {
            Ok(Numeric::Int { signed: true, byte_order: ByteOrder::LittleEndian })
        } else if same_text(code, "lu32") {
            Ok(Numeric::Int { signed: false, byte_order: ByteOrder::LittleEndian })
        } else if same_text(code, "i64") {
            Ok(Numeric::Long { signed: true, byte_order: ByteOrder::BigEndian })
        } else if same_text(code, "u64") {
            Ok(Numeric::Long { signed: false, byte_order: ByteOrder::BigEndian })
        } else if same_text(code, "li64") {
            Ok(Numeric::Long { signed: true, byte_order: ByteOrder::LittleEndian })
        } else if same_text(code, "lu64") {
            Ok(Numeric::Long { signed: false, byte_order: ByteOrder::LittleEndian })
        } else if same_text(code, "f32") {
            Ok(Numeric::Float { byte_order: ByteOrder::BigEndian })
        } else if same_text(code, "lf32") {
            Ok(Numeric::Float { byte_order: ByteOrder::LittleEndian })
        } else if same_text(code, "f64") {
            Ok(Numeric::Double { byte_order: ByteOrder::BigEndian })
        } else if same_text(code, "lf64") {
            Ok(Numeric::Double { byte_order: ByteOrder::LittleEndian })
        } else if same_text(code, "varint") {
            Ok(Numeric::VarInt)
        } else {
            Err(DecodeError::UnknownNumericCode(owned(code)))
        }
    }
}

} // verus!
