use protodef::numeric::{ByteOrder, Numeric};

#[test]
fn numeric_test_decode_i8() {
    assert_eq!(Numeric::from_code("i8"), Ok(Numeric::Byte { signed: true }));
}

#[test]
fn numeric_test_decode_u8() {
    assert_eq!(Numeric::from_code("u8"), Ok(Numeric::Byte { signed: false }));
}

#[test]
fn numeric_test_decode_i16() {
    assert_eq!(Numeric::from_code("i16"), Ok(Numeric::Short { signed: true, byte_order: ByteOrder::BigEndian }));
}

#[test]
fn numeric_test_decode_u16() {
    assert_eq!(Numeric::from_code("u16"), Ok(Numeric::Short { signed: false, byte_order: ByteOrder::BigEndian }));
}

#[test]
fn numeric_test_decode_li16() {
    assert_eq!(Numeric::from_code("li16"), Ok(Numeric::Short { signed: true, byte_order: ByteOrder::LittleEndian }));
}

#[test]
fn numeric_test_decode_lu16() {
    assert_eq!(Numeric::from_code("lu16"), Ok(Numeric::Short { signed: false, byte_order: ByteOrder::LittleEndian }));
}

#[test]
fn numeric_test_decode_i32() {
    assert_eq!(Numeric::from_code("i32"), Ok(Numeric::Int { signed: true, byte_order: ByteOrder::BigEndian }));
}

#[test]
fn numeric_test_decode_u32() {
    assert_eq!(Numeric::from_code("u32"), Ok(Numeric::Int { signed: false, byte_order: ByteOrder::BigEndian }));
}

#[test]
fn numeric_test_decode_li32() {
    assert_eq!(Numeric::from_code("li32"), Ok(Numeric::Int { signed: true, byte_order: ByteOrder::LittleEndian }));
}

#[test]
fn numeric_test_decode_lu32() {
    assert_eq!(Numeric::from_code("lu32"), Ok(Numeric::Int { signed: false, byte_order: ByteOrder::LittleEndian }));
}

#[test]
fn numeric_test_decode_i64() {
    assert_eq!(Numeric::from_code("i64"), Ok(Numeric::Long { signed: true, byte_order: ByteOrder::BigEndian }));
}

#[test]
fn numeric_test_decode_u64() {
    assert_eq!(Numeric::from_code("u64"), Ok(Numeric::Long { signed: false, byte_order: ByteOrder::BigEndian }));
}

#[test]
fn numeric_test_decode_li64() {
    assert_eq!(Numeric::from_code("li64"), Ok(Numeric::Long { signed: true, byte_order: ByteOrder::LittleEndian }));
}

#[test]
fn numeric_test_decode_lu64() {
    assert_eq!(Numeric::from_code("lu64"), Ok(Numeric::Long { signed: false, byte_order: ByteOrder::LittleEndian }));
}

#[test]
fn numeric_test_decode_f32() {
    assert_eq!(Numeric::from_code("f32"), Ok(Numeric::Float { byte_order: ByteOrder::BigEndian }));
}

#[test]
fn numeric_test_decode_lf32() {
    assert_eq!(Numeric::from_code("lf32"), Ok(Numeric::Float { byte_order: ByteOrder::LittleEndian }));
}

#[test]
fn test_decode_f64() {
    assert_eq!(Numeric::from_code("f64"), Ok(Numeric::Double { byte_order: ByteOrder::BigEndian }));
}

#[test]
fn test_decode_lf64() {
    assert_eq!(Numeric::from_code("lf64"), Ok(Numeric::Double { byte_order: ByteOrder::LittleEndian }));
}

#[test]
fn numeric_decode_varint() {
    assert_eq!(Numeric::from_code("varint"), Ok(Numeric::VarInt));
}

#[test]
fn numeric_unknown_code() {
    assert_eq!(
        Numeric::from_code("u128"),
        Err(protodef::DecodeError::UnknownNumericCode("u128".to_string()))
    );
    assert!(Numeric::from_code("I8").is_err());
    assert!(Numeric::from_code("").is_err());
}
