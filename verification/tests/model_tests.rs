use builder::ir::{Ann, Field, Record, Ty};
use builder::model::{schema_of, Built, KindTag, Schema, SchemaField, Value};

fn ty(text: &str, head: Option<&str>, args: &[&str]) -> Ty {
    Ty {
        text: text.to_string(),
        head: head.map(|h| h.to_string()),
        args: args.iter().map(|a| a.to_string()).collect(),
    }
}

fn text(v: &str) -> Value {
    Value::Text(v.to_string())
}

fn command_schema() -> Schema {
    let record = Record {
        name: "Command".to_string(),
        vis: "pub".to_string(),
        fields: vec![
            Field { name: "name".to_string(), ty: ty("String", Some("String"), &[]), attrs: Vec::new() },
            Field {
                name: "value".to_string(),
                ty: ty("Option<i32>", Some("Option"), &["i32"]),
                attrs: Vec::new(),
            },
            Field {
                name: "tags".to_string(),
                ty: ty("Vec<String>", Some("Vec"), &["String"]),
                attrs: vec![Ann::KeyValue { key: "each".to_string(), value: "tag".to_string() }],
            },
        ],
    };
    schema_of(&record)
}

#[test]
fn schema_of_classifies_fields() {
    let s = command_schema();
    assert_eq!(s.fields.len(), 3);
    assert_eq!(s.fields[0].name, "name");
    assert!(matches!(s.fields[0].kind, KindTag::Required));
    assert!(matches!(s.fields[1].kind, KindTag::Optional));
    assert!(matches!(s.fields[2].kind, KindTag::List));
}

#[test]
fn command_scenario_builds_expected_record() {
    let s = command_schema();
    let mut b = s.builder();
    b.set_value(0, text("x"));
    b.append(2, text("a"));
    b.append(2, text("b"));
    let out = b.build(&s).expect("all required fields are set");
    match &out[0] {
        Built::One(Value::Text(v)) => assert_eq!(v, "x"),
        _ => panic!("expected the required value"),
    }
    match &out[1] {
        Built::Maybe(None) => {},
        _ => panic!("expected the optional field empty"),
    }
    match &out[2] {
        Built::Many(items) => {
            assert_eq!(items.len(), 2);
            assert!(matches!(&items[0], Value::Text(v) if v == "a"));
            assert!(matches!(&items[1], Value::Text(v) if v == "b"));
        },
        _ => panic!("expected the list items"),
    }
}

#[test]
fn missing_required_field_is_named() {
    let s = command_schema();
    let mut b = s.builder();
    b.append(2, text("a"));
    let err = b.build(&s).expect_err("the required field is unset");
    assert_eq!(err, "Required field 'name' is missing");
}

#[test]
fn required_only_build_needs_every_field() {
    let s = Schema {
        fields: vec![
            SchemaField { name: "a".to_string(), kind: KindTag::Required },
            SchemaField { name: "b".to_string(), kind: KindTag::Required },
        ],
    };
    let mut b = s.builder();
    assert_eq!(b.build(&s).expect_err("nothing set"), "Required field 'a' is missing");
    b.set_value(0, Value::Int(1));
    assert_eq!(b.build(&s).expect_err("one missing"), "Required field 'b' is missing");
    b.set_value(1, Value::Int(2));
    let out = b.build(&s).expect("all fields set");
    assert!(matches!(out[0], Built::One(Value::Int(1))));
    assert!(matches!(out[1], Built::One(Value::Int(2))));
}

#[test]
fn optional_field_never_blocks_and_keeps_last_value() {
    let s = Schema {
        fields: vec![SchemaField { name: "v".to_string(), kind: KindTag::Optional }],
    };
    let mut b = s.builder();
    let out = b.build(&s).expect("optional fields never block");
    assert!(matches!(out[0], Built::Maybe(None)));
    b.set_value(0, Value::Int(1));
    b.set_value(0, Value::Int(2));
    let out = b.build(&s).expect("optional fields never block");
    assert!(matches!(out[0], Built::Maybe(Some(Value::Int(2)))));
}

#[test]
fn list_setter_replaces_and_unset_list_is_empty() {
    let s = Schema {
        fields: vec![SchemaField { name: "xs".to_string(), kind: KindTag::List }],
    };
    let b = s.builder();
    let out = b.build(&s).expect("lists never block");
    assert!(matches!(&out[0], Built::Many(items) if items.is_empty()));
    let mut b = s.builder();
    b.set_list(0, vec![Value::Int(1), Value::Int(2)]);
    b.set_list(0, vec![Value::Int(3)]);
    let out = b.build(&s).expect("lists never block");
    match &out[0] {
        Built::Many(items) => {
            assert_eq!(items.len(), 1);
            assert!(matches!(items[0], Value::Int(3)));
        },
        _ => panic!("expected the list items"),
    }
}

#[test]
fn interleaved_setter_and_appender_share_storage() {
    let s = Schema {
        fields: vec![SchemaField { name: "xs".to_string(), kind: KindTag::List }],
    };
    let mut b = s.builder();
    b.append(0, Value::Int(1));
    b.set_list(0, vec![Value::Int(7)]);
    b.append(0, Value::Int(8));
    b.append(0, Value::Int(9));
    let out = b.build(&s).expect("lists never block");
    match &out[0] {
        Built::Many(items) => {
            assert_eq!(items.len(), 3);
            assert!(matches!(items[0], Value::Int(7)));
            assert!(matches!(items[1], Value::Int(8)));
            assert!(matches!(items[2], Value::Int(9)));
        },
        _ => panic!("expected the list items"),
    }
}

#[test]
fn value_setter_last_write_wins() {
    let s = Schema {
        fields: vec![SchemaField { name: "a".to_string(), kind: KindTag::Required }],
    };
    let mut b = s.builder();
    b.set_value(0, text("first"));
    b.set_value(0, text("second"));
    let out = b.build(&s).expect("the field is set");
    assert!(matches!(&out[0], Built::One(Value::Text(v)) if v == "second"));
}

#[test]
fn appender_always_accumulates() {
    let s = Schema {
        fields: vec![SchemaField { name: "xs".to_string(), kind: KindTag::List }],
    };
    let mut b = s.builder();
    b.append(0, Value::Int(1));
    b.append(0, Value::Int(1));
    let out = b.build(&s).expect("lists never block");
    assert!(matches!(&out[0], Built::Many(items) if items.len() == 2));
}
