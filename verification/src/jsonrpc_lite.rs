//! The messages of the protocol and their form as JSON values.
//!
//! This is not true JSON-RPC 2.0: the `"jsonrpc": "2.0"` member is neither sent
//! nor expected.
//!
//! A record is written as an object and an absent optional field is left out. A
//! record is read from an object that has no other member than its fields, or
//! from an array that holds the fields by position.
use vstd::prelude::*;

use crate::decimal::{append_signed_decimal, signed_decimal};
use crate::json::{
    integer_value, is_i64, json_of, no_members, object_value, payload_of, text_value, Json,
};
use crate::record::{
    distinct, field, fits, found_json, names_of, optional, record_field, record_fits, text_field,
    with_optional,
};
use crate::text::text_of;

verus! {

pub const JSONRPC_VERSION: &'static str = "2.0";

/// What a request is answered by.
#[derive(Debug, Clone, PartialEq, PartialOrd, Ord, Hash, Eq)]
pub enum RequestId {
    String(String),
    Integer(i64),
}

/// A W3C Trace Context, for distributed tracing.
#[derive(Debug, Clone, PartialEq, Eq)]
pub struct W3cTraceContext {
    pub traceparent: Option<String>,
    pub tracestate: Option<String>,
}

/// Refers to any valid JSON-RPC object that can be decoded off the wire, or encoded to be sent.
#[derive(Debug, Clone, PartialEq)]
pub enum JSONRPCMessage {
    Request(JSONRPCRequest),
    Notification(JSONRPCNotification),
    Response(JSONRPCResponse),
    Error(JSONRPCError),
}

/// A request that expects a response.
#[derive(Debug, Clone, PartialEq)]
pub struct JSONRPCRequest {
    pub id: RequestId,
    pub method: String,
    pub params: Option<serde_json::Value>,
    /// Optional W3C Trace Context for distributed tracing.
    pub trace: Option<W3cTraceContext>,
}

/// A notification which does not expect a response.
#[derive(Debug, Clone, PartialEq)]
pub struct JSONRPCNotification {
    pub method: String,
    pub params: Option<serde_json::Value>,
}

/// A successful (non-error) response to a request.
#[derive(Debug, Clone, PartialEq)]
pub struct JSONRPCResponse {
    pub id: RequestId,
    pub result: serde_json::Value,
}

/// A response to a request that indicates an error occurred.
#[derive(Debug, Clone, PartialEq)]
pub struct JSONRPCError {
    pub error: JSONRPCErrorError,
    pub id: RequestId,
}

/// What went wrong.
#[derive(Debug, Clone, PartialEq)]
pub struct JSONRPCErrorError {
    pub code: i64,
    pub data: Option<serde_json::Value>,
    pub message: String,
}

/// Why a JSON value was not read.
#[derive(Debug, Clone, Copy, PartialEq, Eq, Structural)]
pub enum DecodeError {
    /// The value does not have the form of any variant.
    NoVariant,
    /// The value is not a record with the type's fields.
    Fields,
}

// ---------------------------------------------------------------------------
// The model

/// What a [`RequestId`] is.
pub enum RequestIdView {
    String(Seq<char>),
    Integer(int),
}

/// What a [`W3cTraceContext`] holds.
pub struct TraceView {
    pub traceparent: Option<Seq<char>>,
    pub tracestate: Option<Seq<char>>,
}

/// What a [`JSONRPCRequest`] holds.
pub struct RequestView {
    pub id: RequestIdView,
    pub method: Seq<char>,
    pub params: Option<Json>,
    pub trace: Option<TraceView>,
}

/// What a [`JSONRPCNotification`] holds.
pub struct NotificationView {
    pub method: Seq<char>,
    pub params: Option<Json>,
}

/// What a [`JSONRPCResponse`] holds.
pub struct ResponseView {
    pub id: RequestIdView,
    pub result: Json,
}

/// What a [`JSONRPCErrorError`] holds.
pub struct ErrorErrorView {
    pub code: int,
    pub data: Option<Json>,
    pub message: Seq<char>,
}

/// What a [`JSONRPCError`] holds.
pub struct ErrorView {
    pub error: ErrorErrorView,
    pub id: RequestIdView,
}

/// What a [`JSONRPCMessage`] is.
pub enum MessageView {
    Request(RequestView),
    Notification(NotificationView),
    Response(ResponseView),
    Error(ErrorView),
}

impl View for RequestId {
    type V = RequestIdView;

    open spec fn view(&self) -> RequestIdView {
        match self {
            RequestId::String(text) => RequestIdView::String(text@),
            RequestId::Integer(number) => RequestIdView::Integer(*number as int),
        }
    }
}

impl View for W3cTraceContext {
    type V = TraceView;

    open spec fn view(&self) -> TraceView {
        TraceView {
            traceparent: text_of(self.traceparent),
            tracestate: text_of(self.tracestate),
        }
    }
}

impl View for JSONRPCRequest {
    type V = RequestView;

    open spec fn view(&self) -> RequestView {
        RequestView {
            id: self.id@,
            method: self.method@,
            params: payload_of(self.params),
            trace: match self.trace {
                Some(trace) => Some(trace@),
                None => None,
            },
        }
    }
}

impl View for JSONRPCNotification {
    type V = NotificationView;

    open spec fn view(&self) -> NotificationView {
        NotificationView { method: self.method@, params: payload_of(self.params) }
    }
}

impl View for JSONRPCResponse {
    type V = ResponseView;

    open spec fn view(&self) -> ResponseView {
        ResponseView { id: self.id@, result: json_of(self.result) }
    }
}

impl View for JSONRPCErrorError {
    type V = ErrorErrorView;

    open spec fn view(&self) -> ErrorErrorView {
        ErrorErrorView {
            code: self.code as int,
            data: payload_of(self.data),
            message: self.message@,
        }
    }
}

impl View for JSONRPCError {
    type V = ErrorView;

    open spec fn view(&self) -> ErrorView {
        ErrorView { error: self.error@, id: self.id@ }
    }
}

impl View for JSONRPCMessage {
    type V = MessageView;

    open spec fn view(&self) -> MessageView {
        match self {
            JSONRPCMessage::Request(request) => MessageView::Request(request@),
            JSONRPCMessage::Notification(notification) => MessageView::Notification(notification@),
            JSONRPCMessage::Response(response) => MessageView::Response(response@),
            JSONRPCMessage::Error(error) => MessageView::Error(error@),
        }
    }
}

/// A read gives what the model gives, and fails, with `error`, where the model
/// gives nothing.
pub open spec fn reads<T: View>(
    outcome: Result<T, DecodeError>,
    model: Option<T::V>,
    error: DecodeError,
) -> bool {
    match outcome {
        Ok(value) => model == Some(value@),
        Err(reason) => model is None && reason == error,
    }
}

// ---------------------------------------------------------------------------
// Fields

/// The fields of a trace context, in their order.
pub open spec fn trace_names() -> Seq<Seq<char>> {
    seq!["traceparent"@, "tracestate"@]
}

/// The fields of a request, in their order.
pub open spec fn request_names() -> Seq<Seq<char>> {
    seq!["id"@, "method"@, "params"@, "trace"@]
}

/// The fields of a notification, in their order.
pub open spec fn notification_names() -> Seq<Seq<char>> {
    seq!["method"@, "params"@]
}

/// The fields of a response, in their order.
pub open spec fn response_names() -> Seq<Seq<char>> {
    seq!["id"@, "result"@]
}

/// The fields of an error response, in their order.
pub open spec fn error_names() -> Seq<Seq<char>> {
    seq!["error"@, "id"@]
}

/// The fields of the detail of an error, in their order.
pub open spec fn error_error_names() -> Seq<Seq<char>> {
    seq!["code"@, "data"@, "message"@]
}

/// No record has two fields of one name.
pub(crate) proof fn reveal_names()
    ensures
        distinct(trace_names()),
        distinct(request_names()),
        distinct(notification_names()),
        distinct(response_names()),
        distinct(error_names()),
        distinct(error_error_names()),
{
    reveal_strlit("traceparent");
    reveal_strlit("tracestate");
    reveal_strlit("id");
    reveal_strlit("method");
    reveal_strlit("params");
    reveal_strlit("trace");
    reveal_strlit("result");
    reveal_strlit("error");
    reveal_strlit("code");
    reveal_strlit("data");
    reveal_strlit("message");
    assert("traceparent"@.len() == 11 && "tracestate"@.len() == 10);
    assert("id"@.len() == 2 && "method"@.len() == 6 && "params"@.len() == 6 && "trace"@.len() == 5);
    assert("method"@[0] == 'm' && "params"@[0] == 'p');
    assert("result"@.len() == 6 && "error"@.len() == 5);
    assert("code"@.len() == 4 && "data"@.len() == 4 && "message"@.len() == 7);
    assert("code"@[0] == 'c' && "data"@[0] == 'd');
}

// ---------------------------------------------------------------------------
// The wire form of each type

/// A string id is written as a string, an integer id as a number.
pub open spec fn id_json(id: RequestIdView) -> Json {
    match id {
        RequestIdView::String(text) => Json::Text(text),
        RequestIdView::Integer(number) => Json::Integer(number),
    }
}

/// An id is a string, or an integer that fits in an `i64`.
pub open spec fn id_from_json(json: Json) -> Option<RequestIdView> {
    match json {
        Json::Text(text) => Some(RequestIdView::String(text)),
        Json::Integer(number) => if is_i64(json) {
            Some(RequestIdView::Integer(number))
        } else {
            None
        },
        _ => None,
    }
}

/// A required field that holds an id.
pub open spec fn id_field(field: Option<Json>) -> Option<RequestIdView> {
    match field {
        Some(json) => id_from_json(json),
        None => None,
    }
}

/// An optional string, written as a member where it is there.
pub open spec fn optional_text_json(text: Option<Seq<char>>) -> Option<Json> {
    match text {
        Some(text) => Some(Json::Text(text)),
        None => None,
    }
}

/// An optional field that holds a string where it holds anything.
pub open spec fn optional_text_field(field: Option<Json>) -> Option<Option<Seq<char>>> {
    match optional(field) {
        None => Some(None),
        Some(Json::Text(text)) => Some(Some(text)),
        Some(_) => None,
    }
}

/// A trace context is written with the fields that are there.
pub open spec fn trace_json(trace: TraceView) -> Json {
    Json::Object(
        with_optional(
            with_optional(
                no_members(),
                "traceparent"@,
                optional_text_json(trace.traceparent),
            ),
            "tracestate"@,
            optional_text_json(trace.tracestate),
        ),
    )
}

/// A trace context is an object, whose other members are not looked at, or an
/// array of at most two elements.
pub open spec fn trace_from_json(json: Json) -> Option<TraceView> {
    let names = trace_names();
    let record = json is Object || json is Array && fits(json, names);
    match (
        optional_text_field(field(json, names, 0)),
        optional_text_field(field(json, names, 1)),
    ) {
        (Some(traceparent), Some(tracestate)) if record => Some(
            TraceView { traceparent, tracestate },
        ),
        _ => None,
    }
}

/// An optional field that holds a trace context where it holds anything.
pub open spec fn trace_field(field: Option<Json>) -> Option<Option<TraceView>> {
    match optional(field) {
        None => Some(None),
        Some(json) => match trace_from_json(json) {
            Some(trace) => Some(Some(trace)),
            None => None,
        },
    }
}

/// An optional trace context, written as a member where it is there.
pub open spec fn optional_trace_json(trace: Option<TraceView>) -> Option<Json> {
    match trace {
        Some(trace) => Some(trace_json(trace)),
        None => None,
    }
}

/// A request is written with its id, its method, and the optional fields that are there.
pub open spec fn request_json(request: RequestView) -> Json {
    Json::Object(
        with_optional(
            with_optional(
                no_members().insert("id"@, id_json(request.id)).insert(
                    "method"@,
                    Json::Text(request.method),
                ),
                "params"@,
                request.params,
            ),
            "trace"@,
            optional_trace_json(request.trace),
        ),
    )
}

/// A request has an id and a method, and may have parameters and a trace context.
pub open spec fn request_from_json(json: Json) -> Option<RequestView> {
    let names = request_names();
    match (
        id_field(field(json, names, 0)),
        text_field(field(json, names, 1)),
        trace_field(field(json, names, 3)),
    ) {
        (Some(id), Some(method), Some(trace)) if fits(json, names) => Some(
            RequestView { id, method, params: optional(field(json, names, 2)), trace },
        ),
        _ => None,
    }
}

/// A notification is written with its method, and its parameters where it has any.
pub open spec fn notification_json(notification: NotificationView) -> Json {
    Json::Object(
        with_optional(
            no_members().insert("method"@, Json::Text(notification.method)),
            "params"@,
            notification.params,
        ),
    )
}

/// A notification has a method and may have parameters.
pub open spec fn notification_from_json(json: Json) -> Option<NotificationView> {
    let names = notification_names();
    match text_field(field(json, names, 0)) {
        Some(method) if fits(json, names) => Some(
            NotificationView { method, params: optional(field(json, names, 1)) },
        ),
        _ => None,
    }
}

/// A response is written with its id and its result.
pub open spec fn response_json(response: ResponseView) -> Json {
    Json::Object(
        no_members().insert("id"@, id_json(response.id)).insert("result"@, response.result),
    )
}

/// A response has an id and a result, which may be `null`.
pub open spec fn response_from_json(json: Json) -> Option<ResponseView> {
    let names = response_names();
    match (id_field(field(json, names, 0)), field(json, names, 1)) {
        (Some(id), Some(result)) if fits(json, names) => Some(ResponseView { id, result }),
        _ => None,
    }
}

/// The detail of an error is written with its code, its data where it has any, and its
/// message.
pub open spec fn error_error_json(error: ErrorErrorView) -> Json {
    Json::Object(
        with_optional(
            no_members().insert("code"@, Json::Integer(error.code)),
            "data"@,
            error.data,
        ).insert("message"@, Json::Text(error.message)),
    )
}

/// A required field that holds an integer that fits in an `i64`.
pub open spec fn code_field(field: Option<Json>) -> Option<int> {
    match field {
        Some(Json::Integer(code)) if is_i64(Json::Integer(code)) => Some(code),
        _ => None,
    }
}

/// The detail of an error has a code and a message, and may have data.
pub open spec fn error_error_from_json(json: Json) -> Option<ErrorErrorView> {
    let names = error_error_names();
    match (code_field(field(json, names, 0)), text_field(field(json, names, 2))) {
        (Some(code), Some(message)) if fits(json, names) => Some(
            ErrorErrorView { code, data: optional(field(json, names, 1)), message },
        ),
        _ => None,
    }
}

/// An error response is written with its detail and its id.
pub open spec fn error_json(error: ErrorView) -> Json {
    Json::Object(
        no_members().insert("error"@, error_error_json(error.error)).insert(
            "id"@,
            id_json(error.id),
        ),
    )
}

/// A required field that holds the detail of an error.
pub open spec fn error_error_field(field: Option<Json>) -> Option<ErrorErrorView> {
    match field {
        Some(json) => error_error_from_json(json),
        None => None,
    }
}

/// An error response has a detail and an id.
pub open spec fn error_from_json(json: Json) -> Option<ErrorView> {
    let names = error_names();
    match (error_error_field(field(json, names, 0)), id_field(field(json, names, 1))) {
        (Some(error), Some(id)) if fits(json, names) => Some(ErrorView { error, id }),
        _ => None,
    }
}

/// A message is written as what it is, with nothing that says which it is.
pub open spec fn message_json(message: MessageView) -> Json {
    match message {
        MessageView::Request(request) => request_json(request),
        MessageView::Notification(notification) => notification_json(notification),
        MessageView::Response(response) => response_json(response),
        MessageView::Error(error) => error_json(error),
    }
}

/// A message is the first of request, notification, response and error that the
/// value can be read as.
pub open spec fn message_from_json(json: Json) -> Option<MessageView> {
    if let Some(request) = request_from_json(json) {
        Some(MessageView::Request(request))
    } else if let Some(notification) = notification_from_json(json) {
        Some(MessageView::Notification(notification))
    } else if let Some(response) = response_from_json(json) {
        Some(MessageView::Response(response))
    } else if let Some(error) = error_from_json(json) {
        Some(MessageView::Error(error))
    } else {
        None
    }
}

/// The text of an id: the string itself, or the decimal numeral.
pub open spec fn id_text(id: RequestIdView) -> Seq<char> {
    match id {
        RequestIdView::String(text) => text,
        RequestIdView::Integer(number) => signed_decimal(number),
    }
}

// ---------------------------------------------------------------------------
// Reading parts of a record

/// The payload of an optional field: absent and `null` are the same.
fn optional_payload(found: Option<&serde_json::Value>) -> (payload: Option<serde_json::Value>)
    ensures
        payload_of(payload) == optional(found_json(found)),
{
    match found {
        Some(value) => if value.is_null() {
            None
        } else {
            Some(value.clone())
        },
        None => None,
    }
}

/// The string of a required field.
fn required_text(found: Option<&serde_json::Value>) -> (text: Option<String>)
    ensures
        text_of(text) == text_field(found_json(found)),
{
    match found {
        Some(value) => match value.as_str() {
            Some(text) => Some(text.to_string()),
            None => None,
        },
        None => None,
    }
}

/// The string of an optional field; `Err` where the field holds something else.
fn optional_text(found: Option<&serde_json::Value>) -> (text: Result<Option<String>, DecodeError>)
    ensures
        match text {
            Ok(text) => optional_text_field(found_json(found)) == Some(text_of(text)),
            Err(_) => optional_text_field(found_json(found)) is None,
        },
{
    match found {
        Some(value) => if value.is_null() {
            Ok(None)
        } else {
            match value.as_str() {
                Some(text) => Ok(Some(text.to_string())),
                None => Err(DecodeError::Fields),
            }
        },
        None => Ok(None),
    }
}

/// The id of a required field.
fn required_id(found: Option<&serde_json::Value>) -> (id: Result<RequestId, DecodeError>)
    ensures
        reads(id, id_field(found_json(found)), DecodeError::NoVariant),
{
    match found {
        Some(value) => RequestId::from_value(value),
        None => Err(DecodeError::NoVariant),
    }
}

// ---------------------------------------------------------------------------
// The functions

impl RequestId {
    /// The id as text.
    pub fn to_string(&self) -> (text: String)
        ensures
            text@ == id_text(self@),
    {
        match self {
            RequestId::String(value) => value.clone(),
            RequestId::Integer(value) => {
                let mut text = String::new();
                append_signed_decimal(&mut text, *value);
                text
            },
        }
    }

    /// The id as a JSON value.
    pub fn to_value(&self) -> (value: serde_json::Value)
        ensures
            json_of(value) == id_json(self@),
    {
        match self {
            RequestId::String(text) => text_value(text.clone()),
            RequestId::Integer(number) => integer_value(*number),
        }
    }

    /// Reads an id: a string, or an integer that fits in an `i64`.
    pub fn from_value(value: &serde_json::Value) -> (id: Result<RequestId, DecodeError>)
        ensures
            reads(id, id_from_json(json_of(*value)), DecodeError::NoVariant),
    {
        if let Some(text) = value.as_str() {
            return Ok(RequestId::String(text.to_string()));
        }
        if let Some(number) = value.as_i64() {
            return Ok(RequestId::Integer(number));
        }
        Err(DecodeError::NoVariant)
    }
}

impl W3cTraceContext {
    /// The trace context as a JSON value.
    pub fn to_value(&self) -> (value: serde_json::Value)
        ensures
            json_of(value) == trace_json(self@),
    {
        let mut map = serde_json::Map::new();
        if let Some(traceparent) = &self.traceparent {
            map.insert("traceparent".to_string(), text_value(traceparent.clone()));
        }
        if let Some(tracestate) = &self.tracestate {
            map.insert("tracestate".to_string(), text_value(tracestate.clone()));
        }
        object_value(map)
    }

    /// Reads a trace context.
    pub fn from_value(value: &serde_json::Value) -> (trace: Result<W3cTraceContext, DecodeError>)
        ensures
            reads(trace, trace_from_json(json_of(*value)), DecodeError::Fields),
    {
        let names: Vec<&'static str> = vec!["traceparent", "tracestate"];
        proof {
            reveal_names();
            assert(names_of(names@) =~= trace_names());
        }
        if value.as_object().is_none() && !record_fits(value, &names) {
            return Err(DecodeError::Fields);
        }
        let traceparent = match optional_text(record_field(value, &names, 0)) {
            Ok(text) => text,
            Err(_) => return Err(DecodeError::Fields),
        };
        let tracestate = match optional_text(record_field(value, &names, 1)) {
            Ok(text) => text,
            Err(_) => return Err(DecodeError::Fields),
        };
        Ok(W3cTraceContext { traceparent, tracestate })
    }
}

/// The trace context of an optional field.
fn optional_trace(found: Option<&serde_json::Value>) -> (trace: Result<
    Option<W3cTraceContext>,
    DecodeError,
>)
    ensures
        match trace {
            Ok(trace) => trace_field(found_json(found)) == Some(
                match trace {
                    Some(trace) => Some(trace@),
                    None => None,
                },
            ),
            Err(_) => trace_field(found_json(found)) is None,
        },
{
    match found {
        Some(value) => if value.is_null() {
            Ok(None)
        } else {
            match W3cTraceContext::from_value(value) {
                Ok(trace) => Ok(Some(trace)),
                Err(error) => Err(error),
            }
        },
        None => Ok(None),
    }
}

impl JSONRPCRequest {
    /// The request as a JSON value.
    pub fn to_value(&self) -> (value: serde_json::Value)
        ensures
            json_of(value) == request_json(self@),
    {
        let mut map = serde_json::Map::new();
        map.insert("id".to_string(), self.id.to_value());
        map.insert("method".to_string(), text_value(self.method.clone()));
        if let Some(params) = &self.params {
            map.insert("params".to_string(), params.clone());
        }
        if let Some(trace) = &self.trace {
            map.insert("trace".to_string(), trace.to_value());
        }
        object_value(map)
    }

    /// Reads a request.
    pub fn from_value(value: &serde_json::Value) -> (request: Result<JSONRPCRequest, DecodeError>)
        ensures
            reads(request, request_from_json(json_of(*value)), DecodeError::Fields),
    {
        let names: Vec<&'static str> = vec!["id", "method", "params", "trace"];
        proof {
            reveal_names();
            assert(names_of(names@) =~= request_names());
        }
        if !record_fits(value, &names) {
            return Err(DecodeError::Fields);
        }
        let id = match required_id(record_field(value, &names, 0)) {
            Ok(id) => id,
            Err(_) => return Err(DecodeError::Fields),
        };
        let method = match required_text(record_field(value, &names, 1)) {
            Some(method) => method,
            None => return Err(DecodeError::Fields),
        };
        let params = optional_payload(record_field(value, &names, 2));
        let trace = match optional_trace(record_field(value, &names, 3)) {
            Ok(trace) => trace,
            Err(_) => return Err(DecodeError::Fields),
        };
        Ok(JSONRPCRequest { id, method, params, trace })
    }
}

impl JSONRPCNotification {
    /// The notification as a JSON value.
    pub fn to_value(&self) -> (value: serde_json::Value)
        ensures
            json_of(value) == notification_json(self@),
    {
        let mut map = serde_json::Map::new();
        map.insert("method".to_string(), text_value(self.method.clone()));
        if let Some(params) = &self.params {
            map.insert("params".to_string(), params.clone());
        }
        object_value(map)
    }

    /// Reads a notification.
    pub fn from_value(value: &serde_json::Value) -> (notification: Result<
        JSONRPCNotification,
        DecodeError,
    >)
        ensures
            reads(notification, notification_from_json(json_of(*value)), DecodeError::Fields),
    {
        let names: Vec<&'static str> = vec!["method", "params"];
        proof {
            reveal_names();
            assert(names_of(names@) =~= notification_names());
        }
        if !record_fits(value, &names) {
            return Err(DecodeError::Fields);
        }
        let method = match required_text(record_field(value, &names, 0)) {
            Some(method) => method,
            None => return Err(DecodeError::Fields),
        };
        let params = optional_payload(record_field(value, &names, 1));
        Ok(JSONRPCNotification { method, params })
    }
}

impl JSONRPCResponse {
    /// The response as a JSON value.
    pub fn to_value(&self) -> (value: serde_json::Value)
        ensures
            json_of(value) == response_json(self@),
    {
        let mut map = serde_json::Map::new();
        map.insert("id".to_string(), self.id.to_value());
        map.insert("result".to_string(), self.result.clone());
        object_value(map)
    }

    /// Reads a response.
    pub fn from_value(value: &serde_json::Value) -> (response: Result<
        JSONRPCResponse,
        DecodeError,
    >)
        ensures
            reads(response, response_from_json(json_of(*value)), DecodeError::Fields),
    {
        let names: Vec<&'static str> = vec!["id", "result"];
        proof {
            reveal_names();
            assert(names_of(names@) =~= response_names());
        }
        if !record_fits(value, &names) {
            return Err(DecodeError::Fields);
        }
        let id = match required_id(record_field(value, &names, 0)) {
            Ok(id) => id,
            Err(_) => return Err(DecodeError::Fields),
        };
        let result = match record_field(value, &names, 1) {
            Some(result) => result.clone(),
            None => return Err(DecodeError::Fields),
        };
        Ok(JSONRPCResponse { id, result })
    }
}

impl JSONRPCErrorError {
    /// The error detail as a JSON value.
    pub fn to_value(&self) -> (value: serde_json::Value)
        ensures
            json_of(value) == error_error_json(self@),
    {
        let mut map = serde_json::Map::new();
        map.insert("code".to_string(), integer_value(self.code));
        if let Some(data) = &self.data {
            map.insert("data".to_string(), data.clone());
        }
        map.insert("message".to_string(), text_value(self.message.clone()));
        object_value(map)
    }

    /// Reads an error detail.
    pub fn from_value(value: &serde_json::Value) -> (error: Result<JSONRPCErrorError, DecodeError>)
        ensures
            reads(error, error_error_from_json(json_of(*value)), DecodeError::Fields),
    {
        let names: Vec<&'static str> = vec!["code", "data", "message"];
        proof {
            reveal_names();
            assert(names_of(names@) =~= error_error_names());
        }
        if !record_fits(value, &names) {
            return Err(DecodeError::Fields);
        }
        let code: i64 = match record_field(value, &names, 0) {
            Some(code) => match code.as_i64() {
                Some(code) => code,
                None => return Err(DecodeError::Fields),
            },
            None => return Err(DecodeError::Fields),
        };
        let data = optional_payload(record_field(value, &names, 1));
        let message = match required_text(record_field(value, &names, 2)) {
            Some(message) => message,
            None => return Err(DecodeError::Fields),
        };
        Ok(JSONRPCErrorError { code, data, message })
    }
}

impl JSONRPCError {
    /// The error response as a JSON value.
    pub fn to_value(&self) -> (value: serde_json::Value)
        ensures
            json_of(value) == error_json(self@),
    {
        let mut map = serde_json::Map::new();
        map.insert("error".to_string(), self.error.to_value());
        map.insert("id".to_string(), self.id.to_value());
        object_value(map)
    }

    /// Reads an error response.
    pub fn from_value(value: &serde_json::Value) -> (error: Result<JSONRPCError, DecodeError>)
        ensures
            reads(error, error_from_json(json_of(*value)), DecodeError::Fields),
    {
        let names: Vec<&'static str> = vec!["error", "id"];
        proof {
            reveal_names();
            assert(names_of(names@) =~= error_names());
        }
        if !record_fits(value, &names) {
            return Err(DecodeError::Fields);
        }
        let error = match record_field(value, &names, 0) {
            Some(detail) => match JSONRPCErrorError::from_value(detail) {
                Ok(error) => error,
                Err(_) => return Err(DecodeError::Fields),
            },
            None => return Err(DecodeError::Fields),
        };
        let id = match required_id(record_field(value, &names, 1)) {
            Ok(id) => id,
            Err(_) => return Err(DecodeError::Fields),
        };
        Ok(JSONRPCError { error, id })
    }
}

impl JSONRPCMessage {
    /// The message as a JSON value.
    pub fn to_value(&self) -> (value: serde_json::Value)
        ensures
            json_of(value) == message_json(self@),
    {
        match self {
            JSONRPCMessage::Request(request) => request.to_value(),
            JSONRPCMessage::Notification(notification) => notification.to_value(),
            JSONRPCMessage::Response(response) => response.to_value(),
            JSONRPCMessage::Error(error) => error.to_value(),
        }
    }

    /// Reads a message.
    pub fn from_value(value: &serde_json::Value) -> (message: Result<JSONRPCMessage, DecodeError>)
        ensures
            reads(message, message_from_json(json_of(*value)), DecodeError::NoVariant),
    {
        if let Ok(request) = JSONRPCRequest::from_value(value) {
            return Ok(JSONRPCMessage::Request(request));
        }
        if let Ok(notification) = JSONRPCNotification::from_value(value) {
            return Ok(JSONRPCMessage::Notification(notification));
        }
        if let Ok(response) = JSONRPCResponse::from_value(value) {
            return Ok(JSONRPCMessage::Response(response));
        }
        if let Ok(error) = JSONRPCError::from_value(value) {
            return Ok(JSONRPCMessage::Error(error));
        }
        Err(DecodeError::NoVariant)
    }
}

} // verus!
