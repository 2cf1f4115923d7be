use mcp_server_rust::counter::Counter;
use mcp_server_rust::dispatch::{Outcome, Request, RequestId, Response};
use mcp_server_rust::error::ErrorKind;
use mcp_server_rust::schema::{FieldType, Value, ValueKind};
use mcp_server_rust::session::{Session, SessionState, PROTOCOL_VERSION};
use mcp_server_rust::tools::{StructRequest, Tools, INSTRUCTIONS};

fn request(id: i64, tool: &str, args: Vec<(&str, Value)>) -> Request {
    Request {
        id: RequestId::Number(id),
        tool: tool.to_string(),
        arguments: args.into_iter().map(|(k, v)| (k.to_string(), v)).collect(),
    }
}

fn ready_session(tools: &Tools) -> Session {
    let mut session = Session::new();
    assert!(tools.initialize(&mut session, &PROTOCOL_VERSION.to_string()).is_ok());
    session
}

fn content(r: &Response) -> Vec<String> {
    match &r.outcome {
        Outcome::Success(v) => v.clone(),
        Outcome::Failure(e) => panic!("call failed: {:?}", e),
    }
}

fn call(tools: &Tools, s: &mut Session, c: &mut Counter, tool: &str, args: Vec<(&str, Value)>) -> Response {
    tools.dispatch(s, c, &request(1, tool, args))
}

#[test]
fn counter_scenario_end_to_end() {
    let tools = Tools::new();
    let mut session = ready_session(&tools);
    let mut counter = Counter::new();
    for expected in ["1", "2", "3"] {
        let r = call(&tools, &mut session, &mut counter, "increment", vec![]);
        assert_eq!(content(&r), vec![expected.to_string()]);
    }
    let r = call(&tools, &mut session, &mut counter, "get_value", vec![]);
    assert_eq!(content(&r), vec!["3".to_string()]);
    let r = call(&tools, &mut session, &mut counter, "decrement", vec![]);
    assert_eq!(content(&r), vec!["2".to_string()]);
    let r = call(&tools, &mut session, &mut counter, "get_value", vec![]);
    assert_eq!(content(&r), vec!["2".to_string()]);
    assert_eq!(session.state, SessionState::Active);
}

#[test]
fn stateless_tools_scenario() {
    let tools = Tools::new();
    let mut session = ready_session(&tools);
    let mut counter = Counter::new();
    let r = call(&tools, &mut session, &mut counter, "echo", vec![("saying", Value::Text("hi".to_string()))]);
    assert_eq!(content(&r), vec!["hi".to_string()]);
    let r = call(&tools, &mut session, &mut counter, "say_hello", vec![]);
    assert_eq!(content(&r), vec!["Bonjour!".to_string()]);
    let r = call(&tools, &mut session, &mut counter, "sum", vec![("a", Value::Int(10)), ("b", Value::Int(-3))]);
    assert_eq!(content(&r), vec!["7".to_string()]);
    let r = call(&tools, &mut session, &mut counter, "today_weather", vec![]);
    assert_eq!(content(&r), vec!["Rainy".to_string()]);
    assert_eq!(counter.get_value(), 0);
}

#[test]
fn sum_of_two_and_three() {
    let tools = Tools::new();
    let mut session = ready_session(&tools);
    let mut counter = Counter::new();
    let r = call(&tools, &mut session, &mut counter, "sum", vec![("a", Value::Int(2)), ("b", Value::Int(3))]);
    assert_eq!(content(&r), vec!["5".to_string()]);
}

#[test]
fn sum_at_the_limits_of_i32() {
    let tools = Tools::new();
    let mut session = ready_session(&tools);
    let mut counter = Counter::new();
    let max = i32::MAX as i64;
    let r = call(&tools, &mut session, &mut counter, "sum", vec![("a", Value::Int(max)), ("b", Value::Int(max))]);
    assert_eq!(content(&r), vec!["4294967294".to_string()]);
    let min = i32::MIN as i64;
    let r = call(&tools, &mut session, &mut counter, "sum", vec![("a", Value::Int(min)), ("b", Value::Int(min))]);
    assert_eq!(content(&r), vec!["-4294967296".to_string()]);
}

#[test]
fn undeclared_arguments_are_ignored() {
    let tools = Tools::new();
    let mut session = ready_session(&tools);
    let mut counter = Counter::new();
    let r = call(
        &tools,
        &mut session,
        &mut counter,
        "sum",
        vec![("c", Value::List), ("b", Value::Int(4)), ("a", Value::Int(1)), ("a", Value::Text("x".to_string()))],
    );
    assert_eq!(content(&r), vec!["5".to_string()]);
}

#[test]
fn unknown_tool_is_not_found() {
    let tools = Tools::new();
    let mut session = ready_session(&tools);
    let mut counter = Counter::starting_at(4);
    let r = call(&tools, &mut session, &mut counter, "multiply", vec![]);
    assert!(matches!(r.outcome, Outcome::Failure(ErrorKind::ToolNotFound)));
    let r = call(&tools, &mut session, &mut counter, "Increment", vec![]);
    assert!(matches!(r.outcome, Outcome::Failure(ErrorKind::ToolNotFound)));
    assert_eq!(counter.get_value(), 4);
}

#[test]
fn missing_field_is_a_validation_error() {
    let tools = Tools::new();
    let mut session = ready_session(&tools);
    let mut counter = Counter::new();
    let r = call(&tools, &mut session, &mut counter, "sum", vec![("a", Value::Int(2))]);
    match r.outcome {
        Outcome::Failure(ErrorKind::Validation(e)) => {
            assert_eq!(e.field, "b");
            assert_eq!(e.expected, Some(FieldType::Integer));
            assert_eq!(e.got, ValueKind::Missing);
        }
        other => panic!("unexpected outcome {:?}", other),
    }
    let r = call(&tools, &mut session, &mut counter, "echo", vec![]);
    match r.outcome {
        Outcome::Failure(ErrorKind::Validation(e)) => {
            assert_eq!(e.field, "saying");
            assert_eq!(e.got, ValueKind::Missing);
        }
        other => panic!("unexpected outcome {:?}", other),
    }
}

#[test]
fn wrong_type_is_a_validation_error() {
    let tools = Tools::new();
    let mut session = ready_session(&tools);
    let mut counter = Counter::new();
    let r = call(&tools, &mut session, &mut counter, "sum", vec![("a", Value::Text("2".to_string())), ("b", Value::Int(3))]);
    match r.outcome {
        Outcome::Failure(ErrorKind::Validation(e)) => {
            assert_eq!(e.field, "a");
            assert_eq!(e.expected, Some(FieldType::Integer));
            assert_eq!(e.got, ValueKind::Text);
        }
        other => panic!("unexpected outcome {:?}", other),
    }
    let r = call(&tools, &mut session, &mut counter, "sum", vec![("a", Value::Int(1)), ("b", Value::Int(1 << 40))]);
    match r.outcome {
        Outcome::Failure(ErrorKind::Validation(e)) => {
            assert_eq!(e.field, "b");
            assert_eq!(e.got, ValueKind::WideInteger);
        }
        other => panic!("unexpected outcome {:?}", other),
    }
    let r = call(&tools, &mut session, &mut counter, "echo", vec![("saying", Value::Number)]);
    match r.outcome {
        Outcome::Failure(ErrorKind::Validation(e)) => {
            assert_eq!(e.expected, Some(FieldType::Text));
            assert_eq!(e.got, ValueKind::Number);
        }
        other => panic!("unexpected outcome {:?}", other),
    }
}

#[test]
fn call_before_initialize_is_rejected_then_succeeds() {
    let tools = Tools::new();
    let mut session = Session::new();
    let mut counter = Counter::new();
    let r = call(&tools, &mut session, &mut counter, "increment", vec![]);
    assert!(matches!(r.outcome, Outcome::Failure(ErrorKind::SessionNotReady)));
    assert_eq!(counter.get_value(), 0);
    assert_eq!(session.state, SessionState::Uninitialized);
    assert!(tools.initialize(&mut session, &"2024-11-05".to_string()).is_ok());
    assert_eq!(session.state, SessionState::Initialized);
    let r = call(&tools, &mut session, &mut counter, "increment", vec![]);
    assert_eq!(content(&r), vec!["1".to_string()]);
    assert_eq!(session.state, SessionState::Active);
}

#[test]
fn closed_session_rejects_calls() {
    let tools = Tools::new();
    let mut session = ready_session(&tools);
    let mut counter = Counter::new();
    session.close();
    let r = call(&tools, &mut session, &mut counter, "say_hello", vec![]);
    assert!(matches!(r.outcome, Outcome::Failure(ErrorKind::SessionNotReady)));
    assert_eq!(session.state, SessionState::Closed);
}

#[test]
fn handshake_policy() {
    let tools = Tools::new();
    let mut session = Session::new();
    let r = tools.initialize(&mut session, &"1999-01-01".to_string());
    assert!(matches!(r, Err(ErrorKind::UnsupportedVersion)));
    assert_eq!(session.state, SessionState::Uninitialized);
    let info = tools.initialize(&mut session, &"2024-11-05".to_string()).unwrap();
    assert_eq!(info.protocol_version, "2024-11-05");
    assert!(info.tools_enabled);
    assert_eq!(info.instructions, INSTRUCTIONS);
    let r = tools.initialize(&mut session, &"2024-11-05".to_string());
    assert!(matches!(r, Err(ErrorKind::AlreadyInitialized)));
    assert_eq!(session.state, SessionState::Initialized);
    session.close();
    let r = tools.initialize(&mut session, &"2024-11-05".to_string());
    assert!(matches!(r, Err(ErrorKind::SessionNotReady)));
}

#[test]
fn counter_overflow_is_an_internal_error() {
    let tools = Tools::new();
    let mut session = ready_session(&tools);
    let mut counter = Counter::starting_at(i32::MAX);
    let r = call(&tools, &mut session, &mut counter, "increment", vec![]);
    assert!(matches!(r.outcome, Outcome::Failure(ErrorKind::InternalError)));
    assert_eq!(counter.get_value(), i32::MAX);
    let r = call(&tools, &mut session, &mut counter, "decrement", vec![]);
    assert_eq!(content(&r), vec!["2147483646".to_string()]);
    let mut low = Counter::starting_at(i32::MIN);
    let r = call(&tools, &mut session, &mut low, "decrement", vec![]);
    assert!(matches!(r.outcome, Outcome::Failure(ErrorKind::InternalError)));
    assert_eq!(low.get_value(), i32::MIN);
}

#[test]
fn response_carries_request_id() {
    let tools = Tools::new();
    let mut session = ready_session(&tools);
    let mut counter = Counter::new();
    let req = Request { id: RequestId::Text("abc".to_string()), tool: "say_hello".to_string(), arguments: vec![] };
    let r = tools.dispatch(&mut session, &mut counter, &req);
    assert!(matches!(r.id, RequestId::Text(ref s) if s == "abc"));
    let r = tools.dispatch(&mut session, &mut counter, &request(42, "nope", vec![]));
    assert!(matches!(r.id, RequestId::Number(42)));
}

#[test]
fn handlers_called_directly() {
    let tools = Tools::new();
    let mut counter = Counter::starting_at(-1);
    assert_eq!(tools.increment(&mut counter).unwrap(), vec!["0".to_string()]);
    assert_eq!(tools.decrement(&mut counter).unwrap(), vec!["-1".to_string()]);
    assert_eq!(tools.get_value(&counter), vec!["-1".to_string()]);
    assert_eq!(tools.sum(StructRequest { a: -20, b: 5 }), vec!["-15".to_string()]);
    assert_eq!(tools.echo("là-bas".to_string()), vec!["là-bas".to_string()]);
    assert_eq!(tools.get_today_weather(), vec!["Rainy".to_string()]);
    assert_eq!(tools.say_hello(), vec!["Bonjour!".to_string()]);
}

#[test]
fn standard_tools_in_registration_order() {
    let tools = Tools::new();
    let names: Vec<String> = tools.registry().list().iter().map(|d| d.name.clone()).collect();
    assert_eq!(
        names,
        vec!["increment", "decrement", "get_value", "say_hello", "today_weather", "echo", "sum"]
    );
    let sum = tools.registry().resolve(&"sum".to_string()).unwrap();
    assert_eq!(sum.schema.fields.len(), 2);
    assert_eq!(sum.schema.fields[0].name, "a");
    assert_eq!(sum.schema.fields[1].name, "b");
    assert_eq!(sum.description, "Calculate the sum of two numbers");
}
