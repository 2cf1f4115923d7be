use mcp_server_rust::counter::{Counter, CounterOp};
use mcp_server_rust::error::ErrorKind;
use mcp_server_rust::registry::{Handler, RegistryError, ToolDescriptor, ToolRegistry};
use mcp_server_rust::schema::{validate, Field, FieldType, Schema, Value, ValueKind};
use mcp_server_rust::text::int_text;

fn args(v: Vec<(&str, Value)>) -> Vec<(String, Value)> {
    v.into_iter().map(|(k, v)| (k.to_string(), v)).collect()
}

fn field(name: &str, ty: FieldType, required: bool) -> Field {
    Field { name: name.to_string(), ty, required, description: String::new() }
}

#[test]
fn decimal_text() {
    assert_eq!(int_text(0), "0");
    assert_eq!(int_text(7), "7");
    assert_eq!(int_text(10), "10");
    assert_eq!(int_text(-123), "-123");
    assert_eq!(int_text(i64::MAX), "9223372036854775807");
    assert_eq!(int_text(i64::MIN), "-9223372036854775808");
}

#[test]
fn counter_history_in_any_order() {
    let ops = [
        CounterOp::Increment,
        CounterOp::Decrement,
        CounterOp::Increment,
        CounterOp::Increment,
        CounterOp::Decrement,
        CounterOp::Increment,
        CounterOp::Decrement,
        CounterOp::Increment,
    ];
    let mut a = Counter::starting_at(10);
    for op in ops.iter() {
        assert!(a.apply(*op).is_some());
    }
    let mut b = Counter::starting_at(10);
    for op in ops.iter().rev() {
        assert!(b.apply(*op).is_some());
    }
    assert_eq!(a.get_value(), 10 + 5 - 3);
    assert_eq!(b.get_value(), 12);
}

#[test]
fn counter_steps() {
    let mut c = Counter::new();
    assert_eq!(c.get_value(), 0);
    assert_eq!(c.increment(), Some(1));
    assert_eq!(c.decrement(), Some(0));
    assert_eq!(c.decrement(), Some(-1));
    let mut top = Counter::starting_at(i32::MAX);
    assert_eq!(top.increment(), None);
    assert_eq!(top.get_value(), i32::MAX);
    let mut bottom = Counter::starting_at(i32::MIN);
    assert_eq!(bottom.apply(CounterOp::Decrement), None);
    assert_eq!(bottom.get_value(), i32::MIN);
}

#[test]
fn optional_field_may_be_absent() {
    let schema = Schema { fields: vec![field("x", FieldType::Boolean, false), field("y", FieldType::Integer, true)], strict: false };
    let t = validate(&schema, &args(vec![("y", Value::Int(-4))])).unwrap();
    assert_eq!(t.len(), 2);
    assert!(t[0].is_none());
    assert!(matches!(t[1], Some(Value::Int(-4))));
    let t = validate(&schema, &args(vec![("x", Value::Bool(true)), ("y", Value::Int(0))])).unwrap();
    assert!(matches!(t[0], Some(Value::Bool(true))));
    let e = validate(&schema, &args(vec![("x", Value::Null), ("y", Value::Int(0))])).unwrap_err();
    assert_eq!(e.field, "x");
    assert_eq!(e.expected, Some(FieldType::Boolean));
    assert_eq!(e.got, ValueKind::Null);
}

#[test]
fn first_failing_field_is_reported() {
    let schema = Schema { fields: vec![field("a", FieldType::Integer, true), field("b", FieldType::Text, true)], strict: false };
    let e = validate(&schema, &args(vec![("b", Value::Object), ("a", Value::List)])).unwrap_err();
    assert_eq!(e.field, "a");
    assert_eq!(e.got, ValueKind::List);
    let e = validate(&schema, &args(vec![])).unwrap_err();
    assert_eq!(e.field, "a");
    assert_eq!(e.got, ValueKind::Missing);
}

#[test]
fn strict_schema_rejects_undeclared_arguments() {
    let schema = Schema { fields: vec![field("a", FieldType::Integer, true)], strict: true };
    let e = validate(&schema, &args(vec![("a", Value::Int(1)), ("z", Value::Bool(false)), ("w", Value::Null)])).unwrap_err();
    assert_eq!(e.field, "z");
    assert_eq!(e.expected, None);
    assert_eq!(e.got, ValueKind::Boolean);
    assert!(validate(&schema, &args(vec![("a", Value::Int(1))])).is_ok());
    let lenient = Schema { fields: vec![field("a", FieldType::Integer, true)], strict: false };
    assert!(validate(&lenient, &args(vec![("a", Value::Int(1)), ("z", Value::Null)])).is_ok());
}

#[test]
fn first_occurrence_of_a_key_counts() {
    let schema = Schema { fields: vec![field("a", FieldType::Integer, true)], strict: false };
    let t = validate(&schema, &args(vec![("a", Value::Int(5)), ("a", Value::Text("x".to_string()))])).unwrap();
    assert!(matches!(t[0], Some(Value::Int(5))));
    let e = validate(&schema, &args(vec![("a", Value::Text("x".to_string())), ("a", Value::Int(5))])).unwrap_err();
    assert_eq!(e.got, ValueKind::Text);
}

#[test]
fn registry_refuses_duplicates_and_mismatches() {
    let mut reg = ToolRegistry::new();
    let d = ToolDescriptor::new("add".to_string(), "adds".to_string(), Handler::Sum);
    assert_eq!(reg.register(d), Ok(()));
    let again = ToolDescriptor::new("add".to_string(), "other".to_string(), Handler::Echo);
    assert_eq!(reg.register(again), Err(RegistryError::DuplicateName));
    let bad = ToolDescriptor {
        name: "shout".to_string(),
        description: String::new(),
        schema: Schema { fields: vec![field("saying", FieldType::Integer, true)], strict: false },
        handler: Handler::Echo,
    };
    assert_eq!(reg.register(bad), Err(RegistryError::SchemaMismatch));
    assert_eq!(reg.list().len(), 1);
    let optional = ToolDescriptor {
        name: "hello".to_string(),
        description: String::new(),
        schema: Schema { fields: vec![field("x", FieldType::Text, false)], strict: false },
        handler: Handler::SayHello,
    };
    assert_eq!(reg.register(optional), Err(RegistryError::SchemaMismatch));
    let ok = ToolDescriptor::new("say".to_string(), String::new(), Handler::Echo);
    assert_eq!(reg.register(ok), Ok(()));
    let names: Vec<&str> = reg.list().iter().map(|d| d.name.as_str()).collect();
    assert_eq!(names, vec!["add", "say"]);
}

#[test]
fn describe_and_validate_by_name() {
    let mut reg = ToolRegistry::new();
    assert_eq!(reg.register(ToolDescriptor::new("echo".to_string(), String::new(), Handler::Echo)), Ok(()));
    assert!(matches!(reg.describe(&"missing".to_string()), Err(ErrorKind::SchemaNotFound)));
    let s = reg.describe(&"echo".to_string()).unwrap();
    assert_eq!(s.fields[0].name, "saying");
    assert_eq!(s.fields[0].ty, FieldType::Text);
    assert!(matches!(reg.validate_arguments(&"missing".to_string(), &vec![]), Err(ErrorKind::SchemaNotFound)));
    assert!(matches!(reg.validate_arguments(&"echo".to_string(), &vec![]), Err(ErrorKind::Validation(_))));
    let t = reg.validate_arguments(&"echo".to_string(), &args(vec![("saying", Value::Text("yo".to_string()))])).unwrap();
    assert!(matches!(&t[0], Some(Value::Text(s)) if s == "yo"));
    assert!(reg.resolve(&"ECHO".to_string()).is_none());
}
