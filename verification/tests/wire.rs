use codex_session::jsonrpc_lite::{JSONRPCMessage, RequestId, W3cTraceContext};
use codex_session::wire::{record_value, trace_value, WireNode, WirePart};
use serde_json::Value;

fn other(value: Value) -> WirePart {
    WirePart::Other(value)
}

fn members(entries: Vec<(&str, Value)>) -> Vec<(String, Value)> {
    entries
        .into_iter()
        .map(|(name, value)| (name.to_string(), value))
        .collect()
}

fn object(entries: Vec<(&str, WirePart)>) -> WireNode {
    WireNode::Object(
        entries
            .into_iter()
            .map(|(name, part)| (name.to_string(), part))
            .collect(),
    )
}

fn text(value: &Value) -> String {
    serde_json::to_string(value).expect("text")
}

#[test]
fn records_without_repeats_are_kept_whole() {
    let value = record_value(&object(vec![
        ("method", other(Value::from("m"))),
        ("id", other(Value::from(7))),
        (
            "trace",
            WirePart::Object(members(vec![("tracestate", Value::from("a"))])),
        ),
    ]))
    .expect("value");
    assert_eq!(
        text(&value),
        "{\"id\":7,\"method\":\"m\",\"trace\":{\"tracestate\":\"a\"}}"
    );
    match JSONRPCMessage::from_value(&value) {
        Ok(JSONRPCMessage::Request(request)) => {
            assert_eq!(request.id, RequestId::Integer(7));
            assert_eq!(
                request.trace,
                Some(W3cTraceContext {
                    traceparent: None,
                    tracestate: Some("a".to_string()),
                })
            );
        }
        _ => panic!("not a request"),
    }
    let scalar = record_value(&WireNode::Other(Value::from("s")));
    assert_eq!(scalar, Some(Value::from("s")));
}

#[test]
fn repeated_members_of_a_record_are_refused() {
    let twice = object(vec![
        ("method", other(Value::from("m"))),
        ("params", other(Value::Null)),
        ("method", other(Value::from("m"))),
    ]);
    assert_eq!(record_value(&twice), None);
}

#[test]
fn repeated_members_of_an_error_are_refused() {
    let detail = |second: &str| {
        WirePart::Object(members(vec![
            ("code", Value::from(1)),
            ("message", Value::from("x")),
            (second, Value::from(2)),
        ]))
    };
    let id = || other(Value::from(9));
    assert_eq!(
        record_value(&object(vec![("id", id()), ("error", detail("code"))])),
        None
    );
    assert!(record_value(&object(vec![("id", id()), ("error", detail("data"))])).is_some());
    assert_eq!(
        record_value(&WireNode::Array(vec![detail("code"), id()])),
        None
    );
    let read = record_value(&WireNode::Array(vec![detail("data"), id()])).expect("value");
    assert_eq!(text(&read), "[{\"code\":1,\"data\":2,\"message\":\"x\"},9]");
    assert!(matches!(
        JSONRPCMessage::from_value(&read),
        Ok(JSONRPCMessage::Error(_))
    ));
}

#[test]
fn repeated_fields_of_a_trace_are_refused() {
    let trace = |first: &str, second: &str| {
        WirePart::Object(members(vec![
            (first, Value::from("a")),
            ("other", Value::from(1)),
            (second, Value::from("b")),
        ]))
    };
    for field in ["traceparent", "tracestate"] {
        assert_eq!(trace_value(&trace(field, field)), None);
        assert_eq!(
            record_value(&object(vec![("trace", trace(field, field))])),
            None
        );
        assert_eq!(
            record_value(&WireNode::Array(vec![
                other(Value::from(1)),
                other(Value::from("m")),
                other(Value::Null),
                trace(field, field),
            ])),
            None
        );
    }
    // Other members are not looked at; the last stands.
    let kept = trace_value(&trace("traceparent", "other")).expect("value");
    assert_eq!(text(&kept), "{\"other\":\"b\",\"traceparent\":\"a\"}");
    assert_eq!(
        trace_value(&other(Value::from("t"))),
        Some(Value::from("t"))
    );
}

#[test]
fn the_last_repeat_stands_in_a_payload() {
    let payload = || {
        WirePart::Object(members(vec![
            ("a", Value::from(1)),
            ("b", Value::from(2)),
            ("a", Value::from(3)),
        ]))
    };
    let value = record_value(&object(vec![
        ("method", other(Value::from("m"))),
        ("params", payload()),
    ]))
    .expect("value");
    assert_eq!(text(&value), "{\"method\":\"m\",\"params\":{\"a\":3,\"b\":2}}");
    let elements = record_value(&WireNode::Array(vec![other(Value::from("m")), payload()]));
    assert_eq!(
        elements.map(|value| text(&value)),
        Some("[\"m\",{\"a\":3,\"b\":2}]".to_string())
    );
}
