use valitron::ser::Serializer;
use valitron::Value;

#[test]
fn scalar_bool() {
    assert_eq!(Serializer.serialize_bool(true).unwrap(), Value::Boolean(true));
    assert_eq!(Serializer.serialize_bool(false).unwrap(), Value::Boolean(false));
}

#[test]
fn scalar_signed_integers() {
    assert_eq!(Serializer.serialize_i8(-1).unwrap(), Value::Int8(-1));
    assert_eq!(Serializer.serialize_i16(-300).unwrap(), Value::Int16(-300));
    assert_eq!(Serializer.serialize_i32(-5).unwrap(), Value::Int32(-5));
    assert_eq!(Serializer.serialize_i64(-70_000).unwrap(), Value::Int64(-70_000));
}

#[test]
fn scalar_unsigned_integers() {
    assert_eq!(Serializer.serialize_u8(200).unwrap(), Value::Uint8(200));
    assert_eq!(Serializer.serialize_u16(60_000).unwrap(), Value::Uint16(60_000));
    assert_eq!(Serializer.serialize_u32(4_000_000_000).unwrap(), Value::Uint32(4_000_000_000));
    assert_eq!(Serializer.serialize_u64(u64::MAX).unwrap(), Value::Uint64(u64::MAX));
}

#[test]
fn scalar_floats_by_bit_pattern() {
    let bits32 = 1.5f32.to_bits();
    assert_eq!(Serializer.serialize_float32(bits32).unwrap(), Value::Float32(bits32));
    let bits64 = (-2.25f64).to_bits();
    assert_eq!(Serializer.serialize_float64(bits64).unwrap(), Value::Float64(bits64));
}

#[test]
fn scalar_char_string_bytes() {
    assert_eq!(Serializer.serialize_char('q').unwrap(), Value::Char('q'));
    assert_eq!(
        Serializer.serialize_str("hello").unwrap(),
        Value::String("hello".to_string())
    );
    assert_eq!(
        Serializer.serialize_bytes(&[1u8, 2, 3]).unwrap(),
        Value::Bytes(vec![1u8, 2, 3])
    );
}

#[test]
fn unit_and_unit_struct_collapse() {
    assert_eq!(Serializer.serialize_unit().unwrap(), Value::Unit);
    assert_eq!(Serializer.serialize_unit_struct("Marker").unwrap(), Value::Unit);
}

#[test]
fn absent_optional() {
    assert_eq!(Serializer.serialize_none().unwrap(), Value::OptionNone);
}

#[test]
fn present_optional_wraps_adapted_inner() {
    let inner = Serializer.serialize_i32(9).unwrap();
    assert_eq!(
        Serializer.serialize_some(inner).unwrap(),
        Value::OptionSome(Box::new(Value::Int32(9)))
    );
}

#[test]
fn unit_variant_keeps_only_variant_name() {
    assert_eq!(
        Serializer.serialize_unit_variant("Pet", 2, "Foo").unwrap(),
        Value::EnumUnit("Foo".to_string())
    );
}

#[test]
fn newtype_struct_drops_name() {
    let inner = Serializer.serialize_u8(3).unwrap();
    assert_eq!(
        Serializer.serialize_newtype_struct("Wrapper", inner).unwrap(),
        Value::NewtypeStruct(vec![Value::Uint8(3)])
    );
}

#[test]
fn newtype_variant_keeps_variant_name() {
    let inner = Serializer.serialize_u8(3).unwrap();
    assert_eq!(
        Serializer.serialize_newtype_variant("Pet", 1, "Dog", inner).unwrap(),
        Value::Enum("Dog".to_string(), vec![Value::Uint8(3)])
    );
}

#[test]
fn sequence_keeps_source_order() {
    let mut builder = Serializer.serialize_seq(Some(3)).unwrap();
    builder.serialize_element(Value::Int32(1)).unwrap();
    builder.serialize_element(Value::Int32(2)).unwrap();
    builder.serialize_element(Value::Int32(3)).unwrap();
    assert_eq!(
        builder.end().unwrap(),
        Value::Array(vec![Value::Int32(1), Value::Int32(2), Value::Int32(3)])
    );
}

#[test]
fn sequence_without_length_hint() {
    let mut builder = Serializer.serialize_seq(None).unwrap();
    builder.serialize_element(Value::Boolean(true)).unwrap();
    assert_eq!(builder.end().unwrap(), Value::Array(vec![Value::Boolean(true)]));
}

#[test]
fn tuple_keeps_source_order() {
    let mut builder = Serializer.serialize_tuple(2).unwrap();
    builder.serialize_element(Value::Char('a')).unwrap();
    builder.serialize_element(Value::Uint8(1)).unwrap();
    assert_eq!(
        builder.end().unwrap(),
        Value::Tuple(vec![Value::Char('a'), Value::Uint8(1)])
    );
}

#[test]
fn tuple_struct_drops_name() {
    let mut builder = Serializer.serialize_tuple_struct("Pair", 2).unwrap();
    builder.serialize_field(Value::Int8(1)).unwrap();
    builder.serialize_field(Value::Int8(2)).unwrap();
    assert_eq!(
        builder.end().unwrap(),
        Value::TupleStruct(vec![Value::Int8(1), Value::Int8(2)])
    );
}

#[test]
fn tuple_variant_keeps_variant_name_and_order() {
    let mut builder = Serializer.serialize_tuple_variant("Shape", 0, "Point", 2).unwrap();
    builder.serialize_field(Value::Int32(4)).unwrap();
    builder.serialize_field(Value::Int32(5)).unwrap();
    assert_eq!(
        builder.end().unwrap(),
        Value::TupleVariant("Point".to_string(), vec![Value::Int32(4), Value::Int32(5)])
    );
}

#[test]
fn struct_variant_with_field() {
    let mut builder = Serializer.serialize_struct_variant("Shape", 1, "Bar", 1).unwrap();
    builder.serialize_field("x".to_string(), Value::Int32(1)).unwrap();
    assert_eq!(
        builder.end().unwrap(),
        Value::StructVariant(
            "Bar".to_string(),
            vec![(Value::StructVariantKey("x".to_string()), Value::Int32(1))]
        )
    );
}

#[test]
fn adapter_prefers_compact_encoding() {
    assert!(!Serializer.is_human_readable());
}

#[test]
fn error_message_text() {
    let err = Serializer
        .serialize_map(None)
        .unwrap()
        .serialize_value(Value::Unit)
        .unwrap_err();
    assert_eq!(err.message(), "serialize error");
}
