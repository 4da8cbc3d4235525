use codex_session::jsonrpc_lite::{
    DecodeError, JSONRPCError, JSONRPCErrorError, JSONRPCMessage, JSONRPCNotification,
    JSONRPCRequest, JSONRPCResponse, RequestId, W3cTraceContext, JSONRPC_VERSION,
};
use serde_json::Value;

fn object(members: Vec<(&str, Value)>) -> Value {
    let mut map = serde_json::Map::new();
    for (name, value) in members {
        map.insert(name.to_string(), value);
    }
    Value::Object(map)
}

fn text(value: &str) -> Value {
    Value::from(value)
}

fn trace_context() -> W3cTraceContext {
    W3cTraceContext {
        traceparent: Some("00-4bf92f3577b34da6a3ce929d0e0e4736-00f067aa0ba902b7-01".to_string()),
        tracestate: Some("vendor=value".to_string()),
    }
}

#[test]
fn request_round_trips_with_integer_id_params_and_trace() {
    let request = JSONRPCRequest {
        id: RequestId::Integer(7),
        method: "thread/read".to_string(),
        params: Some(object(vec![("threadId", text("thread-1"))])),
        trace: Some(trace_context()),
    };

    let value = request.to_value();
    assert_eq!(
        value,
        object(vec![
            ("id", Value::from(7)),
            ("method", text("thread/read")),
            ("params", object(vec![("threadId", text("thread-1"))])),
            (
                "trace",
                object(vec![
                    (
                        "traceparent",
                        text("00-4bf92f3577b34da6a3ce929d0e0e4736-00f067aa0ba902b7-01"),
                    ),
                    ("tracestate", text("vendor=value")),
                ]),
            ),
        ])
    );

    let message = JSONRPCMessage::from_value(&value).expect("deserialize message");
    assert_eq!(message, JSONRPCMessage::Request(request));
}

#[test]
fn request_omits_absent_optional_fields() {
    let request = JSONRPCRequest {
        id: RequestId::String("req-1".to_string()),
        method: "thread/list".to_string(),
        params: None,
        trace: None,
    };

    let value = request.to_value();
    assert_eq!(
        value,
        object(vec![("id", text("req-1")), ("method", text("thread/list"))])
    );

    let decoded = JSONRPCRequest::from_value(&value).expect("deserialize request");
    assert_eq!(decoded, request);
}

#[test]
fn message_deserializes_notification_without_id() {
    let value = object(vec![
        ("method", text("thread/subscribe")),
        ("params", object(vec![("threadId", text("thread-1"))])),
    ]);

    let message = JSONRPCMessage::from_value(&value).expect("deserialize message");
    assert_eq!(
        message,
        JSONRPCMessage::Notification(JSONRPCNotification {
            method: "thread/subscribe".to_string(),
            params: Some(object(vec![("threadId", text("thread-1"))])),
        })
    );
}

#[test]
fn message_deserializes_success_response() {
    let value = object(vec![
        ("id", text("req-1")),
        ("result", object(vec![("ok", Value::Bool(true))])),
    ]);

    let message = JSONRPCMessage::from_value(&value).expect("deserialize message");
    assert_eq!(
        message,
        JSONRPCMessage::Response(JSONRPCResponse {
            id: RequestId::String("req-1".to_string()),
            result: object(vec![("ok", Value::Bool(true))]),
        })
    );
}

#[test]
fn message_deserializes_error_response_with_data() {
    let value = object(vec![
        ("id", Value::from(9)),
        (
            "error",
            object(vec![
                ("code", Value::from(-32602)),
                ("message", text("invalid params")),
                ("data", object(vec![("field", text("threadId"))])),
            ]),
        ),
    ]);

    let message = JSONRPCMessage::from_value(&value).expect("deserialize message");
    assert_eq!(
        message,
        JSONRPCMessage::Error(JSONRPCError {
            id: RequestId::Integer(9),
            error: JSONRPCErrorError {
                code: -32602,
                message: "invalid params".to_string(),
                data: Some(object(vec![("field", text("threadId"))])),
            },
        })
    );
}

#[test]
fn request_id_display_matches_wire_value() {
    assert_eq!(RequestId::String("req-1".to_string()).to_string(), "req-1");
    assert_eq!(RequestId::Integer(42).to_string(), "42");
}

#[test]
fn message_rejects_request_with_response_fields() {
    let value = object(vec![
        ("id", Value::from(7)),
        ("method", text("thread/read")),
        ("params", object(vec![("threadId", text("thread-1"))])),
        ("result", object(vec![("ok", Value::Bool(true))])),
    ]);

    JSONRPCMessage::from_value(&value)
        .expect_err("request with response result should be invalid");
}

#[test]
fn message_rejects_request_with_error_fields() {
    let value = object(vec![
        ("id", Value::from(7)),
        ("method", text("thread/read")),
        ("params", object(vec![("threadId", text("thread-1"))])),
        (
            "error",
            object(vec![
                ("code", Value::from(-32603)),
                ("message", text("internal error")),
            ]),
        ),
    ]);

    JSONRPCMessage::from_value(&value).expect_err("request with response error should be invalid");
}

#[test]
fn id_texts_of_extreme_integers() {
    assert_eq!(RequestId::Integer(0).to_string(), "0");
    assert_eq!(RequestId::Integer(-1).to_string(), "-1");
    assert_eq!(RequestId::Integer(10).to_string(), "10");
    assert_eq!(RequestId::Integer(i64::MAX).to_string(), i64::MAX.to_string());
    assert_eq!(RequestId::Integer(i64::MIN).to_string(), i64::MIN.to_string());
}

#[test]
fn texts_of_ids_are_what_they_are_read_from() {
    for number in [i64::MIN, -32602, -1, 0, 7, 10, i64::MAX] {
        let value = Value::from(number);
        let id = RequestId::from_value(&value).expect("integer id");
        assert_eq!(id, RequestId::Integer(number));
        assert_eq!(
            id.to_string(),
            serde_json::to_string(&value).expect("text of an integer")
        );
        assert_eq!(
            id.to_string(),
            serde_json::to_string(&id.to_value()).expect("text of an id")
        );
    }
    for characters in ["", "7", "req-1", "a \"quoted\" \n id"] {
        let id = RequestId::from_value(&text(characters)).expect("string id");
        assert_eq!(id, RequestId::String(characters.to_string()));
        assert_eq!(id.to_string(), characters);
        let written = serde_json::to_string(&id.to_value()).expect("text of an id");
        assert!(written.starts_with('"') && written.ends_with('"'));
    }
}

#[test]
fn ids_are_strings_or_integers_of_64_bits() {
    assert_eq!(
        RequestId::from_value(&text("7")),
        Ok(RequestId::String("7".to_string()))
    );
    assert_eq!(RequestId::from_value(&Value::from(-7)), Ok(RequestId::Integer(-7)));
    assert_eq!(
        RequestId::from_value(&Value::from(i64::MAX)),
        Ok(RequestId::Integer(i64::MAX))
    );
    let too_large = 9223372036854775808u64;
    for refused in vec![
        Value::from(too_large),
        Value::from(7.0),
        Value::Null,
        Value::Bool(true),
        object(vec![]),
        Value::Array(vec![]),
    ] {
        assert_eq!(RequestId::from_value(&refused), Err(DecodeError::NoVariant));
    }
}

#[test]
fn every_kind_of_message_round_trips() {
    let messages = vec![
        JSONRPCMessage::Request(JSONRPCRequest {
            id: RequestId::String("a".to_string()),
            method: "m".to_string(),
            params: Some(Value::from(1.5)),
            trace: Some(W3cTraceContext {
                traceparent: None,
                tracestate: None,
            }),
        }),
        JSONRPCMessage::Notification(JSONRPCNotification {
            method: "m".to_string(),
            params: Some(Value::Array(vec![Value::Null])),
        }),
        JSONRPCMessage::Response(JSONRPCResponse {
            id: RequestId::Integer(-3),
            result: Value::Null,
        }),
        JSONRPCMessage::Error(JSONRPCError {
            error: JSONRPCErrorError {
                code: i64::MIN,
                data: None,
                message: String::new(),
            },
            id: RequestId::Integer(0),
        }),
    ];
    for message in messages {
        assert_eq!(JSONRPCMessage::from_value(&message.to_value()), Ok(message));
    }
}

#[test]
fn values_of_each_kind_have_their_members_only() {
    let notification = JSONRPCNotification {
        method: "m".to_string(),
        params: None,
    };
    assert_eq!(notification.to_value(), object(vec![("method", text("m"))]));

    let response = JSONRPCResponse {
        id: RequestId::Integer(1),
        result: Value::Null,
    };
    assert_eq!(
        response.to_value(),
        object(vec![("id", Value::from(1)), ("result", Value::Null)])
    );

    let error = JSONRPCError {
        error: JSONRPCErrorError {
            code: -1,
            data: Some(Value::from(2)),
            message: "x".to_string(),
        },
        id: RequestId::Integer(1),
    };
    assert_eq!(
        error.to_value(),
        object(vec![
            (
                "error",
                object(vec![
                    ("code", Value::from(-1)),
                    ("data", Value::from(2)),
                    ("message", text("x")),
                ]),
            ),
            ("id", Value::from(1)),
        ])
    );
    assert_eq!(
        JSONRPCErrorError {
            code: 5,
            data: None,
            message: "y".to_string(),
        }
        .to_value(),
        object(vec![("code", Value::from(5)), ("message", text("y"))])
    );
}

#[test]
fn null_payloads_read_as_absent() {
    let request = JSONRPCRequest {
        id: RequestId::Integer(1),
        method: "m".to_string(),
        params: Some(Value::Null),
        trace: None,
    };
    let value = request.to_value();
    assert_eq!(
        value,
        object(vec![
            ("id", Value::from(1)),
            ("method", text("m")),
            ("params", Value::Null),
        ])
    );
    let read = JSONRPCRequest::from_value(&value).expect("read");
    assert_eq!(read.params, None);
    assert_eq!(JSONRPCRequest::from_value(&read.to_value()), Ok(read));

    let traced = object(vec![
        ("id", Value::from(1)),
        ("method", text("m")),
        ("trace", Value::Null),
    ]);
    assert_eq!(JSONRPCRequest::from_value(&traced).expect("read").trace, None);
}

#[test]
fn the_version_member_is_not_expected() {
    let value = object(vec![
        ("jsonrpc", text(JSONRPC_VERSION)),
        ("method", text("m")),
    ]);
    assert_eq!(JSONRPC_VERSION, "2.0");
    assert_eq!(JSONRPCMessage::from_value(&value), Err(DecodeError::NoVariant));
    assert_eq!(JSONRPCNotification::from_value(&value), Err(DecodeError::Fields));
}

#[test]
fn missing_and_malformed_fields_are_refused() {
    let refused = vec![
        object(vec![]),
        object(vec![("id", Value::from(1))]),
        object(vec![("id", Value::from(1)), ("method", Value::from(2))]),
        object(vec![("id", Value::Null), ("method", text("m"))]),
        object(vec![("result", Value::Null)]),
        object(vec![("id", Value::from(1)), ("error", text("x"))]),
        object(vec![
            ("id", Value::from(1)),
            ("error", object(vec![("code", Value::from(1))])),
        ]),
        object(vec![
            ("id", Value::from(1)),
            (
                "error",
                object(vec![
                    ("code", Value::from(1)),
                    ("message", text("x")),
                    ("more", Value::Null),
                ]),
            ),
        ]),
        object(vec![
            ("id", Value::from(1)),
            ("method", text("m")),
            ("trace", text("x")),
        ]),
        Value::Null,
        text("m"),
        Value::from(1),
        Value::Array(vec![]),
    ];
    for value in refused {
        assert_eq!(JSONRPCMessage::from_value(&value), Err(DecodeError::NoVariant));
    }
}

#[test]
fn traces_keep_what_is_there_and_ignore_the_rest() {
    let trace = W3cTraceContext {
        traceparent: None,
        tracestate: Some("s".to_string()),
    };
    assert_eq!(trace.to_value(), object(vec![("tracestate", text("s"))]));
    let value = object(vec![
        ("tracestate", text("s")),
        ("traceparent", Value::Null),
        ("other", Value::from(1)),
    ]);
    assert_eq!(W3cTraceContext::from_value(&value), Ok(trace));
    assert_eq!(
        W3cTraceContext::from_value(&object(vec![("tracestate", Value::from(1))])),
        Err(DecodeError::Fields)
    );
    assert_eq!(W3cTraceContext::from_value(&text("s")), Err(DecodeError::Fields));
}

#[test]
fn records_are_read_from_arrays_by_position() {
    assert_eq!(
        JSONRPCMessage::from_value(&Value::Array(vec![Value::from(7), text("m")])),
        Ok(JSONRPCMessage::Request(JSONRPCRequest {
            id: RequestId::Integer(7),
            method: "m".to_string(),
            params: None,
            trace: None,
        }))
    );
    assert_eq!(
        JSONRPCMessage::from_value(&Value::Array(vec![text("m"), Value::from(5)])),
        Ok(JSONRPCMessage::Notification(JSONRPCNotification {
            method: "m".to_string(),
            params: Some(Value::from(5)),
        }))
    );
    assert_eq!(
        JSONRPCMessage::from_value(&Value::Array(vec![Value::from(7), Value::from(5)])),
        Ok(JSONRPCMessage::Response(JSONRPCResponse {
            id: RequestId::Integer(7),
            result: Value::from(5),
        }))
    );
    assert_eq!(
        JSONRPCMessage::from_value(&Value::Array(vec![
            Value::Array(vec![Value::from(1), Value::Null, text("x")]),
            Value::from(7),
        ])),
        Ok(JSONRPCMessage::Error(JSONRPCError {
            error: JSONRPCErrorError {
                code: 1,
                data: None,
                message: "x".to_string(),
            },
            id: RequestId::Integer(7),
        }))
    );
    let too_long = Value::Array(vec![
        Value::from(7),
        text("m"),
        Value::Null,
        Value::Null,
        Value::Null,
    ]);
    assert_eq!(JSONRPCMessage::from_value(&too_long), Err(DecodeError::NoVariant));
}
