use valitron::order::Cmp;
use valitron::Value;

#[test]
fn integers_compare_numerically() {
    assert_eq!(Value::Int32(1).compare(&Value::Int32(2)), Cmp::Less);
    assert_eq!(Value::Int32(2).compare(&Value::Int32(1)), Cmp::Greater);
    assert_eq!(Value::Int32(-5).compare(&Value::Int32(-5)), Cmp::Equal);
    assert_eq!(Value::Int8(-1).compare(&Value::Int8(1)), Cmp::Less);
}

#[test]
fn different_variants_compare_by_rank() {
    assert_eq!(Value::Unit.compare(&Value::Boolean(false)), Cmp::Less);
    assert_eq!(Value::Int32(100).compare(&Value::Uint8(0)), Cmp::Less);
    assert_eq!(
        Value::String("a".to_string()).compare(&Value::Int64(9)),
        Cmp::Greater
    );
}

#[test]
fn struct_keys_never_collide_with_string_keys() {
    let field = Value::StructKey("a".to_string());
    let plain = Value::String("a".to_string());
    assert_ne!(field.compare(&plain), Cmp::Equal);
    let variant_field = Value::StructVariantKey("a".to_string());
    assert_ne!(field.compare(&variant_field), Cmp::Equal);
}

#[test]
fn strings_compare_lexicographically() {
    let a = Value::String("apple".to_string());
    let b = Value::String("banana".to_string());
    assert_eq!(a.compare(&b), Cmp::Less);
    let prefix = Value::String("ab".to_string());
    let longer = Value::String("abc".to_string());
    assert_eq!(prefix.compare(&longer), Cmp::Less);
    assert_eq!(longer.compare(&prefix), Cmp::Greater);
    assert_eq!(a.compare(&Value::String("apple".to_string())), Cmp::Equal);
}

#[test]
fn bytes_compare_lexicographically() {
    assert_eq!(
        Value::Bytes(vec![1, 2]).compare(&Value::Bytes(vec![1, 3])),
        Cmp::Less
    );
    assert_eq!(
        Value::Bytes(vec![1, 2]).compare(&Value::Bytes(vec![1, 2, 0])),
        Cmp::Less
    );
}

#[test]
fn optionals_compare_absent_below_present() {
    let absent = Value::OptionNone;
    let present = Value::OptionSome(Box::new(Value::Int32(0)));
    assert_eq!(absent.compare(&present), Cmp::Less);
    assert_eq!(
        present.compare(&Value::OptionSome(Box::new(Value::Int32(1)))),
        Cmp::Less
    );
}

#[test]
fn arrays_compare_element_by_element() {
    let a = Value::Array(vec![Value::Int32(1), Value::Int32(2)]);
    let b = Value::Array(vec![Value::Int32(1), Value::Int32(3)]);
    assert_eq!(a.compare(&b), Cmp::Less);
    let shorter = Value::Array(vec![Value::Int32(1)]);
    assert_eq!(shorter.compare(&a), Cmp::Less);
}

#[test]
fn named_composites_compare_by_name_first() {
    let a = Value::TupleVariant("A".to_string(), vec![Value::Int32(9)]);
    let b = Value::TupleVariant("B".to_string(), vec![Value::Int32(0)]);
    assert_eq!(a.compare(&b), Cmp::Less);
}

#[test]
fn float_nan_sits_above_all_numbers() {
    let nan = Value::Float32(f32::NAN.to_bits());
    let inf = Value::Float32(f32::INFINITY.to_bits());
    let one = Value::Float32(1.0f32.to_bits());
    assert_eq!(inf.compare(&nan), Cmp::Less);
    assert_eq!(one.compare(&nan), Cmp::Less);
    assert_eq!(nan.compare(&Value::Float32(f32::NAN.to_bits())), Cmp::Equal);
}

#[test]
fn float_negative_below_positive() {
    let neg = Value::Float64((-1.0f64).to_bits());
    let zero = Value::Float64(0.0f64.to_bits());
    let pos = Value::Float64(1.0f64.to_bits());
    assert_eq!(neg.compare(&zero), Cmp::Less);
    assert_eq!(zero.compare(&pos), Cmp::Less);
    assert_eq!(neg.compare(&pos), Cmp::Less);
    let neg_zero = Value::Float64((-0.0f64).to_bits());
    assert_eq!(neg_zero.compare(&zero), Cmp::Less);
}
