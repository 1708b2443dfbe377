//! General laws of resolution, proved over the spec functions that the
//! decoders are held to.

use vstd::prelude::*;
use crate::data_type::{DataTypeModel, FieldModel};
use crate::error::ErrorModel;
use crate::json::{lookup, JsonValue};
use crate::numeric::{numeric_code, ByteOrder, Numeric};
use crate::primitives::{primitive_keyword, Primitive};
use crate::resolve_spec::{
    legacy_switch, spec_container, spec_field, spec_fields, spec_resolve, spec_tagged, util_tags,
};

verus! {

/// The tags that a decoder knows by name.
pub open spec fn known_tag(t: Seq<char>) -> bool {
    t == "switch"@ || t == "option"@ || t == "container"@ || t == "array"@ || t == "count"@ || t == "buffer"@ || t == "mapper"@ || t == "bitfield"@ || t == "pstring"@
}

/// A payload that reads as a loop: an object whose `endVal` is a whole number
/// that fits in 32 bits and which has a `type`.
pub open spec fn loop_shaped(p: JsonValue) -> bool {
    &&& p matches JsonValue::Object(e)
    &&& lookup(e@, "endVal"@) matches Some(JsonValue::UInt(n))
    &&& n <= u32::MAX
    &&& lookup(e@, "type"@) is Some
}

/// Each of the numeric codes resolves to its own numeric type.
pub proof fn lemma_numeric_codes(s: String)
    ensures
        s@ == "i8"@ ==> spec_resolve(JsonValue::Str(s)) == Ok::<_, ErrorModel>(DataTypeModel::Numeric(Numeric::Byte { signed: true })),
        s@ == "u8"@ ==> spec_resolve(JsonValue::Str(s)) == Ok::<_, ErrorModel>(DataTypeModel::Numeric(Numeric::Byte { signed: false })),
        s@ == "i16"@ ==> spec_resolve(JsonValue::Str(s)) == Ok::<_, ErrorModel>(DataTypeModel::Numeric(Numeric::Short { signed: true, byte_order: ByteOrder::BigEndian })),
        s@ == "u16"@ ==> spec_resolve(JsonValue::Str(s)) == Ok::<_, ErrorModel>(DataTypeModel::Numeric(Numeric::Short { signed: false, byte_order: ByteOrder::BigEndian })),
        s@ == "li16"@ ==> spec_resolve(JsonValue::Str(s)) == Ok::<_, ErrorModel>(DataTypeModel::Numeric(Numeric::Short { signed: true, byte_order: ByteOrder::LittleEndian })),
        s@ == "lu16"@ ==> spec_resolve(JsonValue::Str(s)) == Ok::<_, ErrorModel>(DataTypeModel::Numeric(Numeric::Short { signed: false, byte_order: ByteOrder::LittleEndian })),
        s@ == "i32"@ ==> spec_resolve(JsonValue::Str(s)) == Ok::<_, ErrorModel>(DataTypeModel::Numeric(Numeric::Int { signed: true, byte_order: ByteOrder::BigEndian })),
        s@ == "u32"@ ==> spec_resolve(JsonValue::Str(s)) == Ok::<_, ErrorModel>(DataTypeModel::Numeric(Numeric::Int { signed: false, byte_order: ByteOrder::BigEndian })),
        s@ == "li32"@ ==> spec_resolve(JsonValue::Str(s)) == Ok::<_, ErrorModel>(DataTypeModel::Numeric(Numeric::Int { signed: true, byte_order: ByteOrder::LittleEndian })),
        s@ == "lu32"@ ==> spec_resolve(JsonValue::Str(s)) == Ok::<_, ErrorModel>(DataTypeModel::Numeric(Numeric::Int { signed: false, byte_order: ByteOrder::LittleEndian })),
        s@ == "i64"@ ==> spec_resolve(JsonValue::Str(s)) == Ok::<_, ErrorModel>(DataTypeModel::Numeric(Numeric::Long { signed: true, byte_order: ByteOrder::BigEndian })),
        s@ == "u64"@ ==> spec_resolve(JsonValue::Str(s)) == Ok::<_, ErrorModel>(DataTypeModel::Numeric(Numeric::Long { signed: false, byte_order: ByteOrder::BigEndian })),
        s@ == "li64"@ ==> spec_resolve(JsonValue::Str(s)) == Ok::<_, ErrorModel>(DataTypeModel::Numeric(Numeric::Long { signed: true, byte_order: ByteOrder::LittleEndian })),
        s@ == "lu64"@ ==> spec_resolve(JsonValue::Str(s)) == Ok::<_, ErrorModel>(DataTypeModel::Numeric(Numeric::Long { signed: false, byte_order: ByteOrder::LittleEndian })),
        s@ == "f32"@ ==> spec_resolve(JsonValue::Str(s)) == Ok::<_, ErrorModel>(DataTypeModel::Numeric(Numeric::Float { byte_order: ByteOrder::BigEndian })),
        s@ == "lf32"@ ==> spec_resolve(JsonValue::Str(s)) == Ok::<_, ErrorModel>(DataTypeModel::Numeric(Numeric::Float { byte_order: ByteOrder::LittleEndian })),
        s@ == "f64"@ ==> spec_resolve(JsonValue::Str(s)) == Ok::<_, ErrorModel>(DataTypeModel::Numeric(Numeric::Double { byte_order: ByteOrder::BigEndian })),
        s@ == "lf64"@ ==> spec_resolve(JsonValue::Str(s)) == Ok::<_, ErrorModel>(DataTypeModel::Numeric(Numeric::Double { byte_order: ByteOrder::LittleEndian })),
        s@ == "varint"@ ==> spec_resolve(JsonValue::Str(s)) == Ok::<_, ErrorModel>(DataTypeModel::Numeric(Numeric::VarInt)),
{
    reveal_strlit("i8");
    reveal_strlit("u8");
    reveal_strlit("i16");
    reveal_strlit("u16");
    reveal_strlit("li16");
    reveal_strlit("lu16");
    reveal_strlit("i32");
    reveal_strlit("u32");
    reveal_strlit("li32");
    reveal_strlit("lu32");
    reveal_strlit("i64");
    reveal_strlit("u64");
    reveal_strlit("li64");
    reveal_strlit("lu64");
    reveal_strlit("f32");
    reveal_strlit("lf32");
    reveal_strlit("f64");
    reveal_strlit("lf64");
    reveal_strlit("varint");
    assert("u8"@[0] != "i8"@[0]);
    assert("u16"@[0] != "i16"@[0]);
    assert("lu16"@[1] != "li16"@[1]);
    assert("i32"@[1] != "i16"@[1]);
    assert("i32"@[0] != "u16"@[0]);
    assert("u32"@[0] != "i16"@[0]);
    assert("u32"@[1] != "u16"@[1]);
    assert("u32"@[0] != "i32"@[0]);
    assert("li32"@[2] != "li16"@[2]);
    assert("li32"@[1] != "lu16"@[1]);
    assert("lu32"@[1] != "li16"@[1]);
    assert("lu32"@[2] != "lu16"@[2]);
    assert("lu32"@[1] != "li32"@[1]);
    assert("i64"@[1] != "i16"@[1]);
    assert("i64"@[0] != "u16"@[0]);
    assert("i64"@[1] != "i32"@[1]);
    assert("i64"@[0] != "u32"@[0]);
    assert("u64"@[0] != "i16"@[0]);
    assert("u64"@[1] != "u16"@[1]);
    assert("u64"@[0] != "i32"@[0]);
    assert("u64"@[1] != "u32"@[1]);
    assert("u64"@[0] != "i64"@[0]);
    assert("li64"@[2] != "li16"@[2]);
    assert("li64"@[1] != "lu16"@[1]);
    assert("li64"@[2] != "li32"@[2]);
    assert("li64"@[1] != "lu32"@[1]);
    assert("lu64"@[1] != "li16"@[1]);
    assert("lu64"@[2] != "lu16"@[2]);
    assert("lu64"@[1] != "li32"@[1]);
    assert("lu64"@[2] != "lu32"@[2]);
    assert("lu64"@[1] != "li64"@[1]);
    assert("f32"@[0] != "i16"@[0]);
    assert("f32"@[0] != "u16"@[0]);
    assert("f32"@[0] != "i32"@[0]);
    assert("f32"@[0] != "u32"@[0]);
    assert("f32"@[0] != "i64"@[0]);
    assert("f32"@[0] != "u64"@[0]);
    assert("lf32"@[1] != "li16"@[1]);
    assert("lf32"@[1] != "lu16"@[1]);
    assert("lf32"@[1] != "li32"@[1]);
    assert("lf32"@[1] != "lu32"@[1]);
    assert("lf32"@[1] != "li64"@[1]);
    assert("lf32"@[1] != "lu64"@[1]);
    assert("f64"@[0] != "i16"@[0]);
    assert("f64"@[0] != "u16"@[0]);
    assert("f64"@[0] != "i32"@[0]);
    assert("f64"@[0] != "u32"@[0]);
    assert("f64"@[0] != "i64"@[0]);
    assert("f64"@[0] != "u64"@[0]);
    assert("f64"@[1] != "f32"@[1]);
    assert("lf64"@[1] != "li16"@[1]);
    assert("lf64"@[1] != "lu16"@[1]);
    assert("lf64"@[1] != "li32"@[1]);
    assert("lf64"@[1] != "lu32"@[1]);
    assert("lf64"@[1] != "li64"@[1]);
    assert("lf64"@[1] != "lu64"@[1]);
    assert("lf64"@[2] != "lf32"@[2]);
}

/// A bare name resolves to a numeric type exactly when the numeric table has
/// it, and then to the table's entry.
pub proof fn lemma_only_codes_are_numeric(s: String, n: Numeric)
    ensures
        spec_resolve(JsonValue::Str(s)) == Ok::<_, ErrorModel>(DataTypeModel::Numeric(n))
            <==> numeric_code(s@) == Some(n),
{
}

/// Each primitive keyword resolves to its primitive, never to a reference.
pub proof fn lemma_primitive_keywords(s: String)
    ensures
        s@ == "bool"@ ==> spec_resolve(JsonValue::Str(s)) == Ok::<_, ErrorModel>(
            DataTypeModel::Primitive(Primitive::Boolean),
        ),
        s@ == "cstring"@ ==> spec_resolve(JsonValue::Str(s)) == Ok::<_, ErrorModel>(
            DataTypeModel::Primitive(Primitive::String),
        ),
        s@ == "void"@ ==> spec_resolve(JsonValue::Str(s)) == Ok::<_, ErrorModel>(
            DataTypeModel::Primitive(Primitive::Void),
        ),
{
    reveal_strlit("bool");
    reveal_strlit("cstring");
    reveal_strlit("void");
    reveal_strlit("i8");
    reveal_strlit("u8");
    reveal_strlit("i16");
    reveal_strlit("u16");
    reveal_strlit("li16");
    reveal_strlit("lu16");
    reveal_strlit("i32");
    reveal_strlit("u32");
    reveal_strlit("li32");
    reveal_strlit("lu32");
    reveal_strlit("i64");
    reveal_strlit("u64");
    reveal_strlit("li64");
    reveal_strlit("lu64");
    reveal_strlit("f32");
    reveal_strlit("lf32");
    reveal_strlit("f64");
    reveal_strlit("lf64");
    reveal_strlit("varint");
    assert("bool"@[0] != "li16"@[0]);
    assert("bool"@[0] != "lu16"@[0]);
    assert("bool"@[0] != "li32"@[0]);
    assert("bool"@[0] != "lu32"@[0]);
    assert("bool"@[0] != "li64"@[0]);
    assert("bool"@[0] != "lu64"@[0]);
    assert("bool"@[0] != "lf32"@[0]);
    assert("bool"@[0] != "lf64"@[0]);
    assert("bool"@[0] != "void"@[0]);
    assert("void"@[0] != "li16"@[0]);
    assert("void"@[0] != "lu16"@[0]);
    assert("void"@[0] != "li32"@[0]);
    assert("void"@[0] != "lu32"@[0]);
    assert("void"@[0] != "li64"@[0]);
    assert("void"@[0] != "lu64"@[0]);
    assert("void"@[0] != "lf32"@[0]);
    assert("void"@[0] != "lf64"@[0]);
    assert("void"@[0] != "bool"@[0]);
    assert("bool"@[0] != "i8"@[0]);
    assert("bool"@[0] != "u8"@[0]);
    assert("bool"@[0] != "i16"@[0]);
    assert("bool"@[0] != "u16"@[0]);
    assert("bool"@[0] != "i32"@[0]);
    assert("bool"@[0] != "u32"@[0]);
    assert("bool"@[0] != "i64"@[0]);
    assert("bool"@[0] != "u64"@[0]);
    assert("bool"@[0] != "f32"@[0]);
    assert("bool"@[0] != "f64"@[0]);
    assert("bool"@[0] != "varint"@[0]);
    assert("bool"@[0] != "cstring"@[0]);
    assert("cstring"@[0] != "i8"@[0]);
    assert("cstring"@[0] != "u8"@[0]);
    assert("cstring"@[0] != "i16"@[0]);
    assert("cstring"@[0] != "u16"@[0]);
    assert("cstring"@[0] != "li16"@[0]);
    assert("cstring"@[0] != "lu16"@[0]);
    assert("cstring"@[0] != "i32"@[0]);
    assert("cstring"@[0] != "u32"@[0]);
    assert("cstring"@[0] != "li32"@[0]);
    assert("cstring"@[0] != "lu32"@[0]);
    assert("cstring"@[0] != "i64"@[0]);
    assert("cstring"@[0] != "u64"@[0]);
    assert("cstring"@[0] != "li64"@[0]);
    assert("cstring"@[0] != "lu64"@[0]);
    assert("cstring"@[0] != "f32"@[0]);
    assert("cstring"@[0] != "lf32"@[0]);
    assert("cstring"@[0] != "f64"@[0]);
    assert("cstring"@[0] != "lf64"@[0]);
    assert("cstring"@[0] != "varint"@[0]);
    assert("cstring"@[0] != "bool"@[0]);
    assert("cstring"@[0] != "void"@[0]);
    assert("void"@[0] != "i8"@[0]);
    assert("void"@[0] != "u8"@[0]);
    assert("void"@[0] != "i16"@[0]);
    assert("void"@[0] != "u16"@[0]);
    assert("void"@[0] != "i32"@[0]);
    assert("void"@[0] != "u32"@[0]);
    assert("void"@[0] != "i64"@[0]);
    assert("void"@[0] != "u64"@[0]);
    assert("void"@[0] != "f32"@[0]);
    assert("void"@[0] != "f64"@[0]);
    assert("void"@[1] != "varint"@[1]);
    assert("void"@[0] != "cstring"@[0]);
}

/// A bare name in neither table resolves to a reference to it, never to an error.
pub proof fn lemma_unknown_names(s: String)
    requires
        numeric_code(s@) is None,
        primitive_keyword(s@) is None,
    ensures
        spec_resolve(JsonValue::Str(s)) == Ok::<_, ErrorModel>(DataTypeModel::Custom(s@)),
{
}

/// An unknown tag whose payload is the single entry `compareTo` with a text
/// is a switch named by the tag, with no cases and no default.
pub proof fn lemma_untagged_switch(tag: Seq<char>, entries: Vec<(String, JsonValue)>, compare_to: String)
    requires
        !known_tag(tag),
        entries@.len() == 1,
        entries@[0].0@ == "compareTo"@,
        entries@[0].1 == JsonValue::Str(compare_to),
    ensures
        spec_tagged(tag, JsonValue::Object(entries)) == Ok::<_, ErrorModel>(
            DataTypeModel::Switch {
                name: Some(tag),
                compare_to: compare_to@,
                fields: Seq::empty(),
                default: None,
            },
        ),
{
}

/// An unknown tag whose payload reads neither as a switch without its tag nor
/// as a loop fails with an unknown variant, naming the tag.
pub proof fn lemma_unknown_tag_fails(tag: Seq<char>, p: JsonValue)
    requires
        !known_tag(tag),
        legacy_switch(tag, p) is None,
        !loop_shaped(p),
    ensures
        spec_tagged(tag, p) == Err::<DataTypeModel, _>(
            ErrorModel::UnknownVariant { tag, expected: util_tags() },
        ),
{
}

/// A container keeps its fields in document order, each decoded on its own,
/// to any depth: it succeeds exactly when every field does, and its i-th field
/// is the decoding of the i-th item.
pub proof fn lemma_container_shape(items: Vec<JsonValue>)
    ensures
        spec_container(JsonValue::Array(items)) is Ok
            <==> forall|i: int| 0 <= i < items@.len() ==> #[trigger] spec_field(items@[i]) is Ok,
        spec_container(JsonValue::Array(items)) matches Ok(DataTypeModel::Container(fs)) ==> {
            &&& fs.len() == items@.len()
            &&& forall|i: int| 0 <= i < items@.len() ==> #[trigger] spec_field(items@[i]) == Ok::<_, ErrorModel>(fs[i])
        },
{
    lemma_fields_shape(items@);
}

proof fn lemma_fields_shape(s: Seq<JsonValue>)
    ensures
        spec_fields(s) is Ok <==> forall|i: int| 0 <= i < s.len() ==> #[trigger] spec_field(s[i]) is Ok,
        spec_fields(s) matches Ok(fs) ==> {
            &&& fs.len() == s.len()
            &&& forall|i: int| 0 <= i < s.len() ==> #[trigger] spec_field(s[i]) == Ok::<_, ErrorModel>(fs[i])
        },
    decreases s.len(),
{
    if s.len() > 0 {
        let prefix = s.drop_last();
        lemma_fields_shape(prefix);
        assert forall|i: int| 0 <= i < prefix.len() implies prefix[i] == s[i] by {}
        if spec_fields(s) is Ok {
            assert forall|i: int| 0 <= i < s.len() implies #[trigger] spec_field(s[i]) is Ok by {
                if i < prefix.len() {
                    assert(spec_field(prefix[i]) is Ok);
                }
            }
        }
        if forall|i: int| 0 <= i < s.len() ==> #[trigger] spec_field(s[i]) is Ok {
            assert forall|i: int| 0 <= i < prefix.len() implies #[trigger] spec_field(prefix[i]) is Ok by {
                assert(spec_field(s[i]) is Ok);
            }
            assert(spec_field(s[s.len() - 1]) is Ok);
        }
    }
}

} // verus!
