//! The typed tree of data-type descriptions, and its mathematical form.

use vstd::prelude::*;
use linked_hash_map::LinkedHashMap;
use crate::ordered::{mapping_entries, type_entries, TypeMap};
pub use crate::numeric::{ByteOrder, Numeric};
pub use crate::primitives::Primitive;

verus! {

/// A data type in a type position of a protocol document.
#[derive(Debug, PartialEq, Eq)]
pub enum DataType {
    Conditional(Box<Conditional>),
    Numeric(Numeric),
    Primitive(Primitive),
    Structure(Box<Structure>),
    Util(Box<Util>),
    /// A reference, left unresolved, to a type defined elsewhere.
    Custom(String),
}

/// A value chosen among branches, or a value that may be absent.
#[derive(Debug, PartialEq, Eq)]
pub enum Conditional {
    Switch(Switch),
    Option(DataType),
}

/// A value whose type is chosen by the value of another field.
#[derive(Debug, PartialEq, Eq)]
pub struct Switch {
    pub name: Option<String>,
    pub compare_to: String,
    /// The type of each case, by the case's value, in document order.
    pub fields: TypeMap,
    pub default: Option<DataType>,
}

/// A composite of other types.
#[derive(Debug, PartialEq, Eq)]
pub enum Structure {
    /// Represents a list of values with same type.
    Array(Array),
    /// Represents a list of named values.
    Container(Vec<Field>),
    /// Represents a count field for an array or a buffer.
    Count(Count),
}

/// A repetition of elements of one type.
#[derive(Debug, PartialEq, Eq)]
pub struct Array {
    /// The type of length prefix.
    pub count_type: Option<DataType>,
    /// A reference to the field counting the elements, or a fixed size.
    pub count: Option<ArrayCount>,
    /// The type of the elements.
    pub elements_type: DataType,
}

/// How many elements an array or a buffer holds.
#[derive(Debug, PartialEq, Eq)]
pub enum ArrayCount {
    /// Reference to the field counting the elements.
    FieldReference(String),
    /// Array with fixed length.
    FixedLength(u32),
}

/// A field of a container.
#[derive(Debug, PartialEq, Eq)]
pub struct Field {
    pub name: Option<String>,
    pub field_type: DataType,
    /// Kept as written; the decoder gives it no meaning.
    pub anonymous: Option<bool>,
}

/// A field that counts the elements of another field.
#[derive(Debug, PartialEq, Eq)]
pub struct Count {
    /// The type of count.
    pub count_type: DataType,
    /// A field to count for.
    pub count_for: String,
}

/// An auxiliary type with no nested fields.
#[derive(Debug, PartialEq, Eq)]
pub enum Util {
    Buffer(Buffer),
    Mapper(Mapper),
    Bitfield(Vec<BitField>),
    PrefixedString { count_type: DataType },
    Loop(Box<Loop>),
}

/// A run of raw bytes.
#[derive(Debug, PartialEq, Eq)]
pub struct Buffer {
    /// The type of length prefix.
    pub count_type: Option<DataType>,
    /// A reference to the field counting the elements, or a fixed size.
    pub count: Option<ArrayCount>,
    /// Represent rest bytes as-is.
    pub rest: Option<bool>,
}

/// A mapping from raw wire values to symbolic names.
#[derive(Debug, PartialEq, Eq)]
pub struct Mapper {
    pub mappings_type: String,
    pub mappings: LinkedHashMap<String, String>,
}

/// One group of bits of a bit field.
#[derive(Debug, PartialEq, Eq)]
pub struct BitField {
    pub name: String,
    pub size: usize,
    pub signed: bool,
}

/// A repetition of elements that ends at a given value.
#[derive(Debug, PartialEq, Eq)]
pub struct Loop {
    pub end_val: u32,
    pub data_type: DataType,
}

/// The mathematical form of an [`ArrayCount`].
pub enum CountModel {
    FieldReference(Seq<char>),
    FixedLength(u32),
}

/// The mathematical form of a [`BitField`].
pub struct BitFieldModel {
    pub name: Seq<char>,
    pub size: usize,
    pub signed: bool,
}

/// The mathematical form of a [`Field`].
pub struct FieldModel {
    pub name: Option<Seq<char>>,
    pub field_type: DataTypeModel,
    pub anonymous: Option<bool>,
}

/// The mathematical form of a [`DataType`]: one variant for each kind of type.
pub enum DataTypeModel {
    Switch {
        name: Option<Seq<char>>,
        compare_to: Seq<char>,
        fields: Seq<(Seq<char>, DataTypeModel)>,
        default: Option<Box<DataTypeModel>>,
    },
    Option(Box<DataTypeModel>),
    Numeric(Numeric),
    Primitive(Primitive),
    Array {
        count_type: Option<Box<DataTypeModel>>,
        count: Option<CountModel>,
        elements_type: Box<DataTypeModel>,
    },
    Container(Seq<FieldModel>),
    Count { count_type: Box<DataTypeModel>, count_for: Seq<char> },
    Buffer { count_type: Option<Box<DataTypeModel>>, count: Option<CountModel>, rest: Option<bool> },
    Mapper { mappings_type: Seq<char>, mappings: Seq<(Seq<char>, Seq<char>)> },
    Bitfield(Seq<BitFieldModel>),
    PrefixedString(Box<DataTypeModel>),
    Loop { end_val: u32, data_type: Box<DataTypeModel> },
    Custom(Seq<char>),
}

/// The text of an optional string.
pub open spec fn opt_text(o: Option<String>) -> Option<Seq<char>> {
    match o {
        Some(s) => Some(s@),
        None => None,
    }
}

impl View for ArrayCount {
    type V = CountModel;

    open spec fn view(&self) -> CountModel {
        match self {
            ArrayCount::FieldReference(s) => CountModel::FieldReference(s@),
            ArrayCount::FixedLength(n) => CountModel::FixedLength(*n),
        }
    }
}

impl View for BitField {
    type V = BitFieldModel;

    open spec fn view(&self) -> BitFieldModel {
        BitFieldModel { name: self.name@, size: self.size, signed: self.signed }
    }
}

/// The mathematical form of an optional count.
pub open spec fn opt_count(o: Option<ArrayCount>) -> Option<CountModel> {
    match o {
        Some(c) => Some(c@),
        None => None,
    }
}

/// The mathematical form of an optional data type.
pub open spec fn opt_model(o: Option<DataType>) -> Option<Box<DataTypeModel>>
    decreases o,
{
    match o {
        Some(d) => Some(Box::new(d.model())),
        None => None,
    }
}

/// The mathematical form of a sequence of fields.
pub open spec fn fields_model(s: Seq<Field>) -> Seq<FieldModel>
    decreases s,
{
    if s.len() == 0 {
        Seq::empty()
    } else {
        fields_model(s.drop_last()).push(s.last().model())
    }
}

impl Field {
    /// The mathematical form of this field.
    pub open spec fn model(self) -> FieldModel
        decreases self,
    {
        FieldModel {
            name: opt_text(self.name),
            field_type: self.field_type.model(),
            anonymous: self.anonymous,
        }
    }
}

impl DataType {
    /// The mathematical form of this data type.
    pub open spec fn model(self) -> DataTypeModel
        decreases self,
    {
        match self {
            DataType::Conditional(c) => match *c {
                Conditional::Switch(sw) => DataTypeModel::Switch {
                    name: opt_text(sw.name),
                    compare_to: sw.compare_to@,
                    fields: type_entries(sw.fields),
                    default: opt_model(sw.default),
                },
                Conditional::Option(d) => DataTypeModel::Option(Box::new(d.model())),
            },
            DataType::Numeric(n) => DataTypeModel::Numeric(n),
            DataType::Primitive(p) => DataTypeModel::Primitive(p),
            DataType::Structure(st) => match *st {
                Structure::Array(a) => DataTypeModel::Array {
                    count_type: opt_model(a.count_type),
                    count: opt_count(a.count),
                    elements_type: Box::new(a.elements_type.model()),
                },
                Structure::Container(fs) => DataTypeModel::Container(fields_model(fs@)),
                Structure::Count(c) => DataTypeModel::Count {
                    count_type: Box::new(c.count_type.model()),
                    count_for: c.count_for@,
                },
            },
            DataType::Util(u) => match *u {
                Util::Buffer(b) => DataTypeModel::Buffer {
                    count_type: opt_model(b.count_type),
                    count: opt_count(b.count),
                    rest: b.rest,
                },
                Util::Mapper(m) => DataTypeModel::Mapper {
                    mappings_type: m.mappings_type@,
                    mappings: mapping_entries(m.mappings),
                },
                Util::Bitfield(bs) => DataTypeModel::Bitfield(bs@.map_values(|b: BitField| b@)),
                Util::PrefixedString { count_type } => DataTypeModel::PrefixedString(
                    Box::new(count_type.model()),
                ),
                Util::Loop(l) => DataTypeModel::Loop {
                    end_val: l.end_val,
                    data_type: Box::new(l.data_type.model()),
                },
            },
            DataType::Custom(s) => DataTypeModel::Custom(s@),
        }
    }
}

} // verus!
