use linked_hash_map::LinkedHashMap;
use protodef::data_type::{
    Array, ArrayCount, BitField, ByteOrder, Conditional, DataType, Field, Loop, Mapper, Numeric,
    Primitive, Structure, Switch, Util,
};
use protodef::ordered::TypeMap;
use protodef::{resolve, DecodeError, JsonValue};

fn s(x: &str) -> JsonValue {
    JsonValue::Str(x.to_string())
}

fn obj(entries: Vec<(&str, JsonValue)>) -> JsonValue {
    JsonValue::Object(entries.into_iter().map(|(k, v)| (k.to_string(), v)).collect())
}

fn tagged(tag: &str, payload: JsonValue) -> JsonValue {
    JsonValue::Array(vec![s(tag), payload])
}

fn field(name: &str, t: DataType) -> Field {
    Field { name: Some(name.to_string()), field_type: t, anonymous: None }
}

fn container(fields: Vec<Field>) -> DataType {
    DataType::Structure(Box::new(Structure::Container(fields)))
}

fn util_tags() -> Vec<String> {
    vec!["buffer".to_string(), "mapper".to_string(), "bitfield".to_string(), "pstring".to_string()]
}

#[test]
fn every_numeric_code_resolves_to_its_numeric_type() {
    let table = [
        ("i8", Numeric::Byte { signed: true }),
        ("u8", Numeric::Byte { signed: false }),
        ("i16", Numeric::Short { signed: true, byte_order: ByteOrder::BigEndian }),
        ("u16", Numeric::Short { signed: false, byte_order: ByteOrder::BigEndian }),
        ("li16", Numeric::Short { signed: true, byte_order: ByteOrder::LittleEndian }),
        ("lu16", Numeric::Short { signed: false, byte_order: ByteOrder::LittleEndian }),
        ("i32", Numeric::Int { signed: true, byte_order: ByteOrder::BigEndian }),
        ("u32", Numeric::Int { signed: false, byte_order: ByteOrder::BigEndian }),
        ("li32", Numeric::Int { signed: true, byte_order: ByteOrder::LittleEndian }),
        ("lu32", Numeric::Int { signed: false, byte_order: ByteOrder::LittleEndian }),
        ("i64", Numeric::Long { signed: true, byte_order: ByteOrder::BigEndian }),
        ("u64", Numeric::Long { signed: false, byte_order: ByteOrder::BigEndian }),
        ("li64", Numeric::Long { signed: true, byte_order: ByteOrder::LittleEndian }),
        ("lu64", Numeric::Long { signed: false, byte_order: ByteOrder::LittleEndian }),
        ("f32", Numeric::Float { byte_order: ByteOrder::BigEndian }),
        ("lf32", Numeric::Float { byte_order: ByteOrder::LittleEndian }),
        ("f64", Numeric::Double { byte_order: ByteOrder::BigEndian }),
        ("lf64", Numeric::Double { byte_order: ByteOrder::LittleEndian }),
        ("varint", Numeric::VarInt),
    ];
    assert_eq!(table.len(), 19);
    for (code, n) in table {
        assert_eq!(resolve(&s(code)), Ok(DataType::Numeric(n)));
    }
    assert_eq!(resolve(&s("u128")), Ok(DataType::Custom("u128".to_string())));
    assert_eq!(resolve(&s("bu16")), Ok(DataType::Custom("bu16".to_string())));
}

#[test]
fn primitive_keywords_never_fall_back_to_names() {
    assert_eq!(resolve(&s("bool")), Ok(DataType::Primitive(Primitive::Boolean)));
    assert_eq!(resolve(&s("cstring")), Ok(DataType::Primitive(Primitive::String)));
    assert_eq!(resolve(&s("void")), Ok(DataType::Primitive(Primitive::Void)));
}

#[test]
fn unknown_bare_name_is_a_reference() {
    assert_eq!(resolve(&s("optionalNbt")), Ok(DataType::Custom("optionalNbt".to_string())));
    assert_eq!(resolve(&s("")), Ok(DataType::Custom(String::new())));
}

#[test]
fn container_keeps_field_order() {
    let doc = tagged(
        "container",
        JsonValue::Array(vec![
            obj(vec![("name", s("z")), ("type", s("u8"))]),
            obj(vec![("name", s("a")), ("type", s("bool")), ("anon", JsonValue::Bool(true))]),
            obj(vec![("type", s("position"))]),
        ]),
    );
    let expected = container(vec![
        field("z", DataType::Numeric(Numeric::Byte { signed: false })),
        Field {
            name: Some("a".to_string()),
            field_type: DataType::Primitive(Primitive::Boolean),
            anonymous: Some(true),
        },
        Field { name: None, field_type: DataType::Custom("position".to_string()), anonymous: None },
    ]);
    assert_eq!(resolve(&doc), Ok(expected));
}

#[test]
fn containers_nest_to_any_depth() {
    let mut doc = tagged("container", JsonValue::Array(vec![obj(vec![("name", s("leaf")), ("type", s("varint"))])]));
    let mut expected = container(vec![field("leaf", DataType::Numeric(Numeric::VarInt))]);
    for depth in 0..6 {
        let name = format!("level{}", depth);
        doc = tagged("container", JsonValue::Array(vec![obj(vec![("name", s(&name)), ("type", doc)])]));
        expected = container(vec![field(&name, expected)]);
    }
    assert_eq!(resolve(&doc), Ok(expected));
}

#[test]
fn empty_container() {
    assert_eq!(resolve(&tagged("container", JsonValue::Array(vec![]))), Ok(container(vec![])));
}

#[test]
fn array_count_forms() {
    let with = |count: JsonValue| tagged("array", obj(vec![("count", count), ("type", s("cstring"))]));
    let expect = |count: ArrayCount| {
        DataType::Structure(Box::new(Structure::Array(Array {
            count_type: None,
            count: Some(count),
            elements_type: DataType::Primitive(Primitive::String),
        })))
    };
    assert_eq!(resolve(&with(JsonValue::UInt(4))), Ok(expect(ArrayCount::FixedLength(4))));
    assert_eq!(
        resolve(&with(s("otherField"))),
        Ok(expect(ArrayCount::FieldReference("otherField".to_string())))
    );
    assert_eq!(
        resolve(&with(JsonValue::UInt(4294967295))),
        Ok(expect(ArrayCount::FixedLength(4294967295)))
    );
    assert_eq!(resolve(&with(JsonValue::UInt(4294967296))), Err(DecodeError::MalformedShape));
    assert_eq!(resolve(&with(JsonValue::NegInt(-1))), Err(DecodeError::MalformedShape));
}

#[test]
fn array_without_any_count() {
    let doc = tagged("array", obj(vec![("type", s("u8"))]));
    let expected = DataType::Structure(Box::new(Structure::Array(Array {
        count_type: None,
        count: None,
        elements_type: DataType::Numeric(Numeric::Byte { signed: false }),
    })));
    assert_eq!(resolve(&doc), Ok(expected));
}

#[test]
fn array_without_type_is_missing_field() {
    let doc = tagged("array", obj(vec![("countType", s("varint"))]));
    assert_eq!(resolve(&doc), Err(DecodeError::MissingField("type".to_string())));
}

#[test]
fn count_without_count_for_is_missing_field() {
    let doc = tagged("count", obj(vec![("type", s("varint"))]));
    assert_eq!(resolve(&doc), Err(DecodeError::MissingField("countFor".to_string())));
}

#[test]
fn pstring_without_count_type_is_missing_field() {
    let doc = tagged("pstring", obj(vec![]));
    assert_eq!(resolve(&doc), Err(DecodeError::MissingField("countType".to_string())));
}

#[test]
fn switch_with_cases_and_default() {
    let doc = tagged(
        "switch",
        obj(vec![
            ("compareTo", s("action")),
            ("fields", obj(vec![("0", s("u8")), ("1", s("varint")), ("0", s("bool"))])),
            ("default", s("void")),
        ]),
    );
    let mut cases = TypeMap::empty();
    cases.put("1".to_string(), DataType::Numeric(Numeric::VarInt));
    cases.put("0".to_string(), DataType::Primitive(Primitive::Boolean));
    let expected = DataType::Conditional(Box::new(Conditional::Switch(Switch {
        name: None,
        compare_to: "action".to_string(),
        fields: cases,
        default: Some(DataType::Primitive(Primitive::Void)),
    })));
    assert_eq!(resolve(&doc), Ok(expected));
}

#[test]
fn switch_cases_keep_insertion_order() {
    let doc = tagged(
        "switch",
        obj(vec![("compareTo", s("a")), ("fields", obj(vec![("b", s("u8")), ("a", s("i8"))]))]),
    );
    let mut wrong_order = TypeMap::empty();
    wrong_order.put("a".to_string(), DataType::Numeric(Numeric::Byte { signed: true }));
    wrong_order.put("b".to_string(), DataType::Numeric(Numeric::Byte { signed: false }));
    let decoded = resolve(&doc).unwrap();
    let expected_wrong = DataType::Conditional(Box::new(Conditional::Switch(Switch {
        name: None,
        compare_to: "a".to_string(),
        fields: wrong_order,
        default: None,
    })));
    assert_ne!(decoded, expected_wrong);
}

#[test]
fn switch_without_compare_to_is_missing_field() {
    let doc = tagged("switch", obj(vec![("fields", obj(vec![]))]));
    assert_eq!(resolve(&doc), Err(DecodeError::MissingField("compareTo".to_string())));
}

#[test]
fn switch_without_fields_is_missing_field() {
    let doc = tagged("switch", obj(vec![("compareTo", s("x"))]));
    assert_eq!(resolve(&doc), Err(DecodeError::MissingField("fields".to_string())));
}

#[test]
fn unknown_tag_with_loop_payload_is_a_loop() {
    let doc = tagged("entityMetadataLoop", obj(vec![("endVal", JsonValue::UInt(255)), ("type", s("u8"))]));
    let expected = DataType::Util(Box::new(Util::Loop(Box::new(Loop {
        end_val: 255,
        data_type: DataType::Numeric(Numeric::Byte { signed: false }),
    }))));
    assert_eq!(resolve(&doc), Ok(expected));
}

#[test]
fn unknown_tag_with_other_payload_fails() {
    let doc = tagged("foo", obj(vec![("bar", JsonValue::UInt(1))]));
    assert_eq!(
        resolve(&doc),
        Err(DecodeError::UnknownVariant { tag: "foo".to_string(), expected: util_tags() })
    );
    let two = tagged("foo", obj(vec![("compareTo", s("x")), ("other", s("y"))]));
    assert_eq!(
        resolve(&two),
        Err(DecodeError::UnknownVariant { tag: "foo".to_string(), expected: util_tags() })
    );
    let not_text = tagged("foo", obj(vec![("compareTo", JsonValue::UInt(3))]));
    assert!(matches!(resolve(&not_text), Err(DecodeError::UnknownVariant { .. })));
}

#[test]
fn mapper_keeps_mappings_in_order() {
    let doc = tagged(
        "mapper",
        obj(vec![("type", s("varint")), ("mappings", obj(vec![("0x01", s("b")), ("0x00", s("a"))]))]),
    );
    let mut mappings = LinkedHashMap::new();
    mappings.insert("0x01".to_string(), "b".to_string());
    mappings.insert("0x00".to_string(), "a".to_string());
    let expected = DataType::Util(Box::new(Util::Mapper(Mapper {
        mappings_type: "varint".to_string(),
        mappings,
    })));
    assert_eq!(resolve(&doc), Ok(expected));
}

#[test]
fn mapper_with_non_text_value_is_malformed() {
    let doc = tagged("mapper", obj(vec![("type", s("varint")), ("mappings", obj(vec![("0", JsonValue::UInt(1))]))]));
    assert_eq!(resolve(&doc), Err(DecodeError::MalformedShape));
}

#[test]
fn bitfield_keeps_groups_in_order() {
    let group = |name: &str, size: u64, signed: bool| {
        obj(vec![("name", s(name)), ("size", JsonValue::UInt(size)), ("signed", JsonValue::Bool(signed))])
    };
    let doc = tagged("bitfield", JsonValue::Array(vec![group("x", 26, true), group("y", 12, false)]));
    let expected = DataType::Util(Box::new(Util::Bitfield(vec![
        BitField { name: "x".to_string(), size: 26, signed: true },
        BitField { name: "y".to_string(), size: 12, signed: false },
    ])));
    assert_eq!(resolve(&doc), Ok(expected));
}

#[test]
fn malformed_shapes() {
    assert_eq!(resolve(&JsonValue::Null), Err(DecodeError::MalformedShape));
    assert_eq!(resolve(&JsonValue::UInt(3)), Err(DecodeError::MalformedShape));
    assert_eq!(resolve(&obj(vec![])), Err(DecodeError::MalformedShape));
    assert_eq!(
        resolve(&JsonValue::Array(vec![s("option"), s("u8"), s("u8")])),
        Err(DecodeError::MalformedShape)
    );
    assert_eq!(resolve(&JsonValue::Array(vec![s("option")])), Err(DecodeError::MalformedShape));
    assert_eq!(resolve(&tagged("container", obj(vec![]))), Err(DecodeError::MalformedShape));
}

#[test]
fn nested_errors_fail_the_whole_value() {
    let doc = tagged(
        "container",
        JsonValue::Array(vec![
            obj(vec![("name", s("a")), ("type", s("u8"))]),
            obj(vec![("name", s("b")), ("type", tagged("pstring", obj(vec![])))]),
        ]),
    );
    assert_eq!(resolve(&doc), Err(DecodeError::MissingField("countType".to_string())));
}
