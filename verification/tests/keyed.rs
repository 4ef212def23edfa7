use valitron::ser::Serializer;
use valitron::Value;

#[test]
fn map_value_push_first_fails() {
    let mut builder = Serializer.serialize_map(None).unwrap();
    let result = builder.serialize_value(Value::Int32(1));
    assert!(result.is_err());
}

#[test]
fn map_value_push_fails_again_after_key_consumed() {
    let mut builder = Serializer.serialize_map(None).unwrap();
    builder.serialize_key(Value::Int32(1)).unwrap();
    builder.serialize_value(Value::Boolean(true)).unwrap();
    let result = builder.serialize_value(Value::Boolean(false));
    assert!(result.is_err());
    assert_eq!(
        builder.end().unwrap(),
        Value::Mapping(vec![(Value::Int32(1), Value::Boolean(true))])
    );
}

#[test]
fn map_second_key_push_replaces_pending_key() {
    let mut builder = Serializer.serialize_map(None).unwrap();
    builder.serialize_key(Value::Int32(1)).unwrap();
    builder.serialize_key(Value::Int32(2)).unwrap();
    builder.serialize_value(Value::Char('v')).unwrap();
    assert_eq!(
        builder.end().unwrap(),
        Value::Mapping(vec![(Value::Int32(2), Value::Char('v'))])
    );
}

#[test]
fn map_entries_come_out_sorted_by_key() {
    let mut builder = Serializer.serialize_map(Some(3)).unwrap();
    builder.serialize_key(Value::Int32(3)).unwrap();
    builder.serialize_value(Value::Char('c')).unwrap();
    builder.serialize_key(Value::Int32(1)).unwrap();
    builder.serialize_value(Value::Char('a')).unwrap();
    builder.serialize_key(Value::Int32(2)).unwrap();
    builder.serialize_value(Value::Char('b')).unwrap();
    assert_eq!(
        builder.end().unwrap(),
        Value::Mapping(vec![
            (Value::Int32(1), Value::Char('a')),
            (Value::Int32(2), Value::Char('b')),
            (Value::Int32(3), Value::Char('c')),
        ])
    );
}

#[test]
fn map_heterogeneous_keys_sorted_by_variant_rank() {
    let mut builder = Serializer.serialize_map(None).unwrap();
    builder.serialize_key(Value::String("k".to_string())).unwrap();
    builder.serialize_value(Value::Int32(2)).unwrap();
    builder.serialize_key(Value::Boolean(true)).unwrap();
    builder.serialize_value(Value::Int32(1)).unwrap();
    assert_eq!(
        builder.end().unwrap(),
        Value::Mapping(vec![
            (Value::Boolean(true), Value::Int32(1)),
            (Value::String("k".to_string()), Value::Int32(2)),
        ])
    );
}

#[test]
fn map_duplicate_key_overwrites() {
    let mut builder = Serializer.serialize_map(None).unwrap();
    builder.serialize_key(Value::Int32(1)).unwrap();
    builder.serialize_value(Value::Char('a')).unwrap();
    builder.serialize_key(Value::Int32(1)).unwrap();
    builder.serialize_value(Value::Char('b')).unwrap();
    assert_eq!(
        builder.end().unwrap(),
        Value::Mapping(vec![(Value::Int32(1), Value::Char('b'))])
    );
}

#[test]
fn map_end_discards_pending_key() {
    let mut builder = Serializer.serialize_map(None).unwrap();
    builder.serialize_key(Value::Int32(1)).unwrap();
    assert_eq!(builder.end().unwrap(), Value::Mapping(vec![]));
}

#[test]
fn struct_duplicate_field_keeps_later_value() {
    let mut builder = Serializer.serialize_struct("Rec", 2).unwrap();
    builder.serialize_field("x".to_string(), Value::Int32(1)).unwrap();
    builder.serialize_field("x".to_string(), Value::Int32(2)).unwrap();
    assert_eq!(
        builder.end().unwrap(),
        Value::Struct(vec![(Value::StructKey("x".to_string()), Value::Int32(2))])
    );
}

#[test]
fn struct_fields_come_out_sorted_by_name() {
    let mut builder = Serializer.serialize_struct("Rec", 2).unwrap();
    builder.serialize_field("beta".to_string(), Value::Int32(2)).unwrap();
    builder.serialize_field("alpha".to_string(), Value::Int32(1)).unwrap();
    assert_eq!(
        builder.end().unwrap(),
        Value::Struct(vec![
            (Value::StructKey("alpha".to_string()), Value::Int32(1)),
            (Value::StructKey("beta".to_string()), Value::Int32(2)),
        ])
    );
}

#[test]
fn struct_variant_duplicate_field_keeps_later_value() {
    let mut builder = Serializer.serialize_struct_variant("E", 0, "Bar", 2).unwrap();
    builder.serialize_field("x".to_string(), Value::Int32(1)).unwrap();
    builder.serialize_field("x".to_string(), Value::Int32(9)).unwrap();
    assert_eq!(
        builder.end().unwrap(),
        Value::StructVariant(
            "Bar".to_string(),
            vec![(Value::StructVariantKey("x".to_string()), Value::Int32(9))]
        )
    );
}
