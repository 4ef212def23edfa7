use valitron::rule::{MessageKind, Trim};
use valitron::ser::Serializer;
use valitron::Value;

#[test]
fn test_trim() {
    let mut value = Value::String(" hello ".to_string());

    let _ = Trim.call(&mut value);

    assert!(matches!(value, Value::String(s) if s == "hello".to_string()));
}

#[test]
fn trim_leaves_non_string_untouched() {
    let mut value = Value::Int32(7);
    let pass = Trim.call(&mut value);
    assert!(pass);
    assert_eq!(value, Value::Int32(7));
}

#[test]
fn trim_passes_on_string() {
    let mut value = Value::String("no padding".to_string());
    let pass = Trim.call(&mut value);
    assert!(pass);
    assert_eq!(value, Value::String("no padding".to_string()));
}

#[test]
fn trim_message_kind() {
    assert_eq!(Trim.message().kind, MessageKind::Trim);
}

#[test]
fn trim_name() {
    assert_eq!(Trim.name(), "trim");
}

#[test]
fn trim_record_title_end_to_end() {
    let mut builder = Serializer.serialize_struct("Input", 1).unwrap();
    builder
        .serialize_field("title".to_string(), Value::String(" hi ".to_string()))
        .unwrap();
    let mut tree = builder.end().unwrap();

    match &tree {
        Value::Struct(entries) => {
            assert_eq!(entries.len(), 1);
            assert_eq!(entries[0].0, Value::StructKey("title".to_string()));
            assert_eq!(entries[0].1, Value::String(" hi ".to_string()));
        }
        other => panic!("expected a struct value, got {:?}", other),
    }

    let pass = match &mut tree {
        Value::Struct(entries) => Trim.call(&mut entries[0].1),
        _ => unreachable!(),
    };
    assert!(pass);

    match &tree {
        Value::Struct(entries) => {
            assert_eq!(entries[0].0, Value::StructKey("title".to_string()));
            assert_eq!(entries[0].1, Value::String("hi".to_string()));
        }
        _ => unreachable!(),
    }
}
