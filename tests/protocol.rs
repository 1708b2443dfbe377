use protodef::data_type::{DataType, Numeric, Structure};
use protodef::ordered::{NamespaceMap, TypeMap};
use protodef::{decode_protocol, DecodeError, JsonValue, Namespace, Protocol};

fn s(x: &str) -> JsonValue {
    JsonValue::Str(x.to_string())
}

fn obj(entries: Vec<(&str, JsonValue)>) -> JsonValue {
    JsonValue::Object(entries.into_iter().map(|(k, v)| (k.to_string(), v)).collect())
}

#[test]
fn protocol_types_and_nested_namespaces() {
    let doc = obj(vec![
        ("types", obj(vec![("varint", s("native")), ("byte", s("i8"))])),
        (
            "handshaking",
            obj(vec![(
                "toServer",
                obj(vec![("types", obj(vec![("packet", JsonValue::Array(vec![s("container"), JsonValue::Array(vec![])]))]))]),
            )]),
        ),
        ("version", s("u16")),
    ]);

    let mut types = TypeMap::empty();
    types.put("varint".to_string(), DataType::Custom("native".to_string()));
    types.put("byte".to_string(), DataType::Numeric(Numeric::Byte { signed: true }));

    let mut packet_types = NamespaceMap::empty();
    packet_types.put(
        "packet".to_string(),
        Namespace::DataType(DataType::Structure(Box::new(Structure::Container(vec![])))),
    );
    let mut to_server = NamespaceMap::empty();
    to_server.put("types".to_string(), Namespace::Nested(packet_types));
    let mut handshaking = NamespaceMap::empty();
    handshaking.put("toServer".to_string(), Namespace::Nested(to_server));

    let mut namespaces = NamespaceMap::empty();
    namespaces.put("handshaking".to_string(), Namespace::Nested(handshaking));
    namespaces.put(
        "version".to_string(),
        Namespace::DataType(DataType::Numeric(Numeric::Short {
            signed: false,
            byte_order: protodef::ByteOrder::BigEndian,
        })),
    );

    assert_eq!(decode_protocol(&doc), Ok(Protocol { types, namespaces }));
}

#[test]
fn protocol_without_types_is_missing_field() {
    let doc = obj(vec![("play", obj(vec![]))]);
    assert_eq!(decode_protocol(&doc), Err(DecodeError::MissingField("types".to_string())));
}

#[test]
fn protocol_must_be_an_object() {
    assert_eq!(decode_protocol(&JsonValue::Array(vec![])), Err(DecodeError::MalformedShape));
}

#[test]
fn protocol_error_anywhere_fails_the_document() {
    let doc = obj(vec![
        ("types", obj(vec![])),
        ("play", obj(vec![("bad", JsonValue::Array(vec![s("count"), obj(vec![])]))])),
    ]);
    assert_eq!(decode_protocol(&doc), Err(DecodeError::MissingField("type".to_string())));
}

#[test]
fn protocol_empty_document_with_types() {
    let doc = obj(vec![("types", obj(vec![]))]);
    assert_eq!(
        decode_protocol(&doc),
        Ok(Protocol { types: TypeMap::empty(), namespaces: NamespaceMap::empty() })
    );
}
