use protodef::primitives::Primitives;
use protodef::DecodeError;

#[test]
fn primitives_test_decode_boolean() {
    assert_eq!(Primitives::from_keyword("bool"), Ok(Primitives::Boolean));
}

#[test]
fn primitives_test_decode_string() {
    assert_eq!(Primitives::from_keyword("cstring"), Ok(Primitives::String));
}

#[test]
fn primitives_test_decode_void() {
    assert_eq!(Primitives::from_keyword("void"), Ok(Primitives::Void));
}

#[test]
fn primitives_unknown_keyword() {
    assert_eq!(
        Primitives::from_keyword("string"),
        Err(DecodeError::UnknownPrimitive("string".to_string()))
    );
}
