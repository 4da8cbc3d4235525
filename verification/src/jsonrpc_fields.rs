//! Where each field of a message stands on the wire, and which values are messages at all.
//!
//! The laws here speak of the fields of the types themselves and of the members, by name,
//! and elements, by place, of the JSON value.
use vstd::prelude::*;

use crate::decimal::{is_numeral, signed_numerals_are_read_back};
use crate::json::{json_of, payload_of, Json};
use crate::jsonrpc_laws::members_tell_the_kind;
use crate::jsonrpc_lite::{
    error_error_from_json, error_error_json, error_error_names, error_from_json, error_json,
    error_names, id_from_json, id_json, id_text, message_from_json, message_json,
    notification_from_json, notification_json, notification_names, reads, request_from_json,
    request_json, request_names, response_from_json, response_json, response_names, reveal_names,
    trace_from_json, trace_json, trace_names, DecodeError, JSONRPCError, JSONRPCErrorError,
    JSONRPCMessage, JSONRPCNotification, JSONRPCRequest, JSONRPCResponse, RequestId,
    W3cTraceContext, JSONRPC_VERSION,
};
use crate::wire::{is_as_sent, record_objects_are_as_sent, record_of, WireNode, WirePart};

verus! {

// ---------------------------------------------------------------------------
// Vocabulary

/// What stands under `name` in an object, or at `index` in an array.
pub open spec fn slot(json: Json, name: Seq<char>, index: int) -> Option<Json> {
    match json {
        Json::Object(object) => if object.contains_key(name) {
            Some(object[name])
        } else {
            None
        },
        Json::Array(elements) => if index < elements.len() {
            Some(elements[index])
        } else {
            None
        },
        _ => None,
    }
}

/// An object with no other names than these, or an array with no more elements.
pub open spec fn holds_only(json: Json, names: Seq<Seq<char>>) -> bool {
    match json {
        Json::Object(object) => has_only(object, names),
        Json::Array(elements) => elements.len() <= names.len(),
        _ => false,
    }
}

/// An object with no other names than these.
pub open spec fn has_only(object: Map<Seq<char>, Json>, names: Seq<Seq<char>>) -> bool {
    forall|name: Seq<char>| #[trigger] object.contains_key(name) ==> names.contains(name)
}

/// Nothing stands there, or `null` does.
pub open spec fn is_absent(found: Option<Json>) -> bool {
    found is None || found == Some(Json::Null)
}

/// `json` is the id: the string, or the integer.
pub open spec fn is_id(json: Json, id: RequestId) -> bool {
    match id {
        RequestId::String(text) => json == Json::Text(text@),
        RequestId::Integer(number) => json == Json::Integer(number as int),
    }
}

/// An id can be read from there: a string, or an integer of 64 bits with a sign.
pub open spec fn can_be_id(found: Option<Json>) -> bool {
    match found {
        Some(Json::Text(_)) => true,
        Some(Json::Integer(number)) => -0x8000_0000_0000_0000 <= number <= 0x7fff_ffff_ffff_ffff,
        _ => false,
    }
}

/// A code can be read from there: an integer of 64 bits with a sign.
pub open spec fn can_be_code(found: Option<Json>) -> bool {
    found matches Some(Json::Integer(number)) && -0x8000_0000_0000_0000 <= number
        <= 0x7fff_ffff_ffff_ffff
}

/// A string stands there.
pub open spec fn can_be_text(found: Option<Json>) -> bool {
    found matches Some(Json::Text(_))
}

/// A string stands there, or nothing.
pub open spec fn can_be_optional_text(found: Option<Json>) -> bool {
    is_absent(found) || can_be_text(found)
}

/// `text` is the string that stands there, if one does.
pub open spec fn is_optional_text(found: Option<Json>, text: Option<String>) -> bool {
    match text {
        Some(text) => found == Some(Json::Text(text@)),
        None => is_absent(found),
    }
}

/// `payload` is what stands there, if anything does.
pub open spec fn is_payload(found: Option<Json>, payload: Option<serde_json::Value>) -> bool {
    match payload {
        Some(payload) => found == Some(json_of(payload)) && !is_absent(found),
        None => is_absent(found),
    }
}

// ---------------------------------------------------------------------------
// Ids

/// The text of a string id is the string; that of an integer id is its numeral, with a
/// minus sign in front where it is negative.
pub proof fn id_texts_are_read_back(id: RequestId, text: String)
    requires
        text@ == id_text(id@),
    ensures
        match id {
            RequestId::String(value) => text@ == value@,
            RequestId::Integer(value) => if value < 0 {
                text@.len() > 0 && text@[0] == '-' && is_numeral(text@.skip(1), -value)
            } else {
                is_numeral(text@, value as int)
            },
        },
{
    if let RequestId::Integer(value) = id {
        signed_numerals_are_read_back(value as int);
    }
}

/// An id is written as the string or the integer that it is.
pub proof fn ids_are_written_as_they_are(id: RequestId, json: Json)
    requires
        json == id_json(id@),
    ensures
        is_id(json, id),
{
}

/// An id is read from every string and every integer of 64 bits, as what it is, and from
/// nothing else.
pub proof fn ids_are_read_as_they_are(json: Json, outcome: Result<RequestId, DecodeError>)
    requires
        reads(outcome, id_from_json(json), DecodeError::NoVariant),
    ensures
        match outcome {
            Ok(id) => can_be_id(Some(json)) && is_id(json, id),
            Err(reason) => !can_be_id(Some(json)) && reason == DecodeError::NoVariant,
        },
{
}

// ---------------------------------------------------------------------------
// Trace contexts

/// `json` is the trace context as it is written: each field under its name, where it is
/// there, and nothing else.
pub open spec fn is_written_trace(json: Json, trace: W3cTraceContext) -> bool {
    json matches Json::Object(object) && {
        &&& has_only(object, seq!["traceparent"@, "tracestate"@])
        &&& match trace.traceparent {
            Some(text) => object.contains_key("traceparent"@) && object["traceparent"@]
                == Json::Text(text@),
            None => !object.contains_key("traceparent"@),
        }
        &&& match trace.tracestate {
            Some(text) => object.contains_key("tracestate"@) && object["tracestate"@]
                == Json::Text(text@),
            None => !object.contains_key("tracestate"@),
        }
    }
}

/// A trace context can be read: an object, or an array of at most two, with strings or
/// nothing for the two fields.
pub open spec fn can_be_trace(json: Json) -> bool {
    &&& json is Object || (json matches Json::Array(elements) && elements.len() <= 2)
    &&& can_be_optional_text(slot(json, "traceparent"@, 0))
    &&& can_be_optional_text(slot(json, "tracestate"@, 1))
}

/// The trace context has the fields that stand in `json`.
pub open spec fn is_read_trace(json: Json, trace: W3cTraceContext) -> bool {
    &&& is_optional_text(slot(json, "traceparent"@, 0), trace.traceparent)
    &&& is_optional_text(slot(json, "tracestate"@, 1), trace.tracestate)
}

/// Each field of a trace context is written under its own name.
pub proof fn traces_are_written_by_field(trace: W3cTraceContext, json: Json)
    requires
        json == trace_json(trace@),
    ensures
        is_written_trace(json, trace),
{
    reveal_names();
    let names = trace_names();
    assert(names[0] != names[1]);
    assert(names.contains(names[0]) && names.contains(names[1]));
}

/// Each field of a trace context is read from its own name or place.
pub proof fn traces_are_read_by_field(json: Json, outcome: Result<W3cTraceContext, DecodeError>)
    requires
        reads(outcome, trace_from_json(json), DecodeError::Fields),
    ensures
        match outcome {
            Ok(trace) => can_be_trace(json) && is_read_trace(json, trace),
            Err(reason) => !can_be_trace(json) && reason == DecodeError::Fields,
        },
{
}

// ---------------------------------------------------------------------------
// Requests

/// `json` is the request as it is written.
pub open spec fn is_written_request(json: Json, request: JSONRPCRequest) -> bool {
    json matches Json::Object(object) && {
        &&& has_only(object, seq!["id"@, "method"@, "params"@, "trace"@])
        &&& object.contains_key("id"@) && is_id(object["id"@], request.id)
        &&& object.contains_key("method"@) && object["method"@] == Json::Text(request.method@)
        &&& match request.params {
            Some(params) => object.contains_key("params"@) && object["params"@] == json_of(params),
            None => !object.contains_key("params"@),
        }
        &&& match request.trace {
            Some(trace) => object.contains_key("trace"@) && is_written_trace(
                object["trace"@],
                trace,
            ),
            None => !object.contains_key("trace"@),
        }
    }
}

/// A request can be read.
pub open spec fn can_be_request(json: Json) -> bool {
    &&& holds_only(json, seq!["id"@, "method"@, "params"@, "trace"@])
    &&& can_be_id(slot(json, "id"@, 0))
    &&& can_be_text(slot(json, "method"@, 1))
    &&& is_absent(slot(json, "trace"@, 3)) || can_be_trace(slot(json, "trace"@, 3)->0)
}

/// The request has the fields that stand in `json`.
pub open spec fn is_read_request(json: Json, request: JSONRPCRequest) -> bool {
    &&& slot(json, "id"@, 0) matches Some(id) && is_id(id, request.id)
    &&& slot(json, "method"@, 1) == Some(Json::Text(request.method@))
    &&& is_payload(slot(json, "params"@, 2), request.params)
    &&& match request.trace {
        Some(trace) => !is_absent(slot(json, "trace"@, 3)) && is_read_trace(
            slot(json, "trace"@, 3)->0,
            trace,
        ),
        None => is_absent(slot(json, "trace"@, 3)),
    }
}

/// Each field of a request is written under its own name.
pub proof fn requests_are_written_by_field(request: JSONRPCRequest, json: Json)
    requires
        json == request_json(request@),
    ensures
        is_written_request(json, request),
{
    reveal_names();
    let names = request_names();
    assert(names[0] != names[1] && names[0] != names[2] && names[0] != names[3]);
    assert(names[1] != names[2] && names[1] != names[3] && names[2] != names[3]);
    assert(names.contains(names[0]) && names.contains(names[1]));
    assert(names.contains(names[2]) && names.contains(names[3]));
    if let Some(trace) = request.trace {
        traces_are_written_by_field(trace, trace_json(trace@));
    }
}

/// Each field of a request is read from its own name or place, and a request is read
/// exactly where these hold what they must and there is nothing else.
pub proof fn requests_are_read_by_field(json: Json, outcome: Result<JSONRPCRequest, DecodeError>)
    requires
        reads(outcome, request_from_json(json), DecodeError::Fields),
    ensures
        match outcome {
            Ok(request) => can_be_request(json) && is_read_request(json, request),
            Err(reason) => !can_be_request(json) && reason == DecodeError::Fields,
        },
{
    assert(request_names() =~= seq!["id"@, "method"@, "params"@, "trace"@]);
}

// ---------------------------------------------------------------------------
// Notifications

/// `json` is the notification as it is written.
pub open spec fn is_written_notification(json: Json, notification: JSONRPCNotification) -> bool {
    json matches Json::Object(object) && {
        &&& has_only(object, seq!["method"@, "params"@])
        &&& object.contains_key("method"@) && object["method"@] == Json::Text(
            notification.method@,
        )
        &&& match notification.params {
            Some(params) => object.contains_key("params"@) && object["params"@] == json_of(params),
            None => !object.contains_key("params"@),
        }
    }
}

/// A notification can be read.
pub open spec fn can_be_notification(json: Json) -> bool {
    &&& holds_only(json, seq!["method"@, "params"@])
    &&& can_be_text(slot(json, "method"@, 0))
}

/// The notification has the fields that stand in `json`.
pub open spec fn is_read_notification(json: Json, notification: JSONRPCNotification) -> bool {
    &&& slot(json, "method"@, 0) == Some(Json::Text(notification.method@))
    &&& is_payload(slot(json, "params"@, 1), notification.params)
}

/// Each field of a notification is written under its own name.
pub proof fn notifications_are_written_by_field(notification: JSONRPCNotification, json: Json)
    requires
        json == notification_json(notification@),
    ensures
        is_written_notification(json, notification),
{
    reveal_names();
    let names = notification_names();
    assert(names[0] != names[1]);
    assert(names.contains(names[0]) && names.contains(names[1]));
}

/// Each field of a notification is read from its own name or place, and a notification is
/// read exactly where these hold what they must and there is nothing else.
pub proof fn notifications_are_read_by_field(
    json: Json,
    outcome: Result<JSONRPCNotification, DecodeError>,
)
    requires
        reads(outcome, notification_from_json(json), DecodeError::Fields),
    ensures
        match outcome {
            Ok(notification) => can_be_notification(json) && is_read_notification(
                json,
                notification,
            ),
            Err(reason) => !can_be_notification(json) && reason == DecodeError::Fields,
        },
{
    assert(notification_names() =~= seq!["method"@, "params"@]);
}

// ---------------------------------------------------------------------------
// Responses

/// `json` is the response as it is written.
pub open spec fn is_written_response(json: Json, response: JSONRPCResponse) -> bool {
    json matches Json::Object(object) && {
        &&& has_only(object, seq!["id"@, "result"@])
        &&& object.contains_key("id"@) && is_id(object["id"@], response.id)
        &&& object.contains_key("result"@) && object["result"@] == json_of(response.result)
    }
}

/// A response can be read. Its result may be anything, `null` too, but must be there.
pub open spec fn can_be_response(json: Json) -> bool {
    &&& holds_only(json, seq!["id"@, "result"@])
    &&& can_be_id(slot(json, "id"@, 0))
    &&& slot(json, "result"@, 1) is Some
}

/// The response has the fields that stand in `json`.
pub open spec fn is_read_response(json: Json, response: JSONRPCResponse) -> bool {
    &&& slot(json, "id"@, 0) matches Some(id) && is_id(id, response.id)
    &&& slot(json, "result"@, 1) == Some(json_of(response.result))
}

/// Each field of a response is written under its own name.
pub proof fn responses_are_written_by_field(response: JSONRPCResponse, json: Json)
    requires
        json == response_json(response@),
    ensures
        is_written_response(json, response),
{
    reveal_names();
    let names = response_names();
    assert(names[0] != names[1]);
    assert(names.contains(names[0]) && names.contains(names[1]));
}

/// Each field of a response is read from its own name or place, and a response is read
/// exactly where these hold what they must and there is nothing else.
pub proof fn responses_are_read_by_field(json: Json, outcome: Result<JSONRPCResponse, DecodeError>)
    requires
        reads(outcome, response_from_json(json), DecodeError::Fields),
    ensures
        match outcome {
            Ok(response) => can_be_response(json) && is_read_response(json, response),
            Err(reason) => !can_be_response(json) && reason == DecodeError::Fields,
        },
{
    assert(response_names() =~= seq!["id"@, "result"@]);
}

// ---------------------------------------------------------------------------
// Errors

/// `json` is the detail of an error as it is written.
pub open spec fn is_written_detail(json: Json, detail: JSONRPCErrorError) -> bool {
    json matches Json::Object(object) && {
        &&& has_only(object, seq!["code"@, "data"@, "message"@])
        &&& object.contains_key("code"@) && object["code"@] == Json::Integer(detail.code as int)
        &&& object.contains_key("message"@) && object["message"@] == Json::Text(detail.message@)
        &&& match detail.data {
            Some(data) => object.contains_key("data"@) && object["data"@] == json_of(data),
            None => !object.contains_key("data"@),
        }
    }
}

/// The detail of an error can be read.
pub open spec fn can_be_detail(json: Json) -> bool {
    &&& holds_only(json, seq!["code"@, "data"@, "message"@])
    &&& can_be_code(slot(json, "code"@, 0))
    &&& can_be_text(slot(json, "message"@, 2))
}

/// The detail has the fields that stand in `json`.
pub open spec fn is_read_detail(json: Json, detail: JSONRPCErrorError) -> bool {
    &&& slot(json, "code"@, 0) == Some(Json::Integer(detail.code as int))
    &&& is_payload(slot(json, "data"@, 1), detail.data)
    &&& slot(json, "message"@, 2) == Some(Json::Text(detail.message@))
}

/// `json` is the error response as it is written.
pub open spec fn is_written_error(json: Json, error: JSONRPCError) -> bool {
    json matches Json::Object(object) && {
        &&& has_only(object, seq!["error"@, "id"@])
        &&& object.contains_key("error"@) && is_written_detail(object["error"@], error.error)
        &&& object.contains_key("id"@) && is_id(object["id"@], error.id)
    }
}

/// An error response can be read.
pub open spec fn can_be_error(json: Json) -> bool {
    &&& holds_only(json, seq!["error"@, "id"@])
    &&& slot(json, "error"@, 0) matches Some(detail) && can_be_detail(detail)
    &&& can_be_id(slot(json, "id"@, 1))
}

/// The error response has the fields that stand in `json`.
pub open spec fn is_read_error(json: Json, error: JSONRPCError) -> bool {
    &&& slot(json, "error"@, 0) matches Some(detail) && is_read_detail(detail, error.error)
    &&& slot(json, "id"@, 1) matches Some(id) && is_id(id, error.id)
}

/// Each field of the detail of an error is written under its own name: the code as an
/// integer, the message as a string, and the data as it is.
pub proof fn details_are_written_by_field(detail: JSONRPCErrorError, json: Json)
    requires
        json == error_error_json(detail@),
    ensures
        is_written_detail(json, detail),
{
    reveal_names();
    let names = error_error_names();
    assert(names[0] != names[1] && names[0] != names[2] && names[1] != names[2]);
    assert(names.contains(names[0]) && names.contains(names[1]) && names.contains(names[2]));
}

/// Each field of the detail of an error is read from its own name or place, and a detail is
/// read exactly where these hold what they must and there is nothing else.
pub proof fn details_are_read_by_field(json: Json, outcome: Result<JSONRPCErrorError, DecodeError>)
    requires
        reads(outcome, error_error_from_json(json), DecodeError::Fields),
    ensures
        match outcome {
            Ok(detail) => can_be_detail(json) && is_read_detail(json, detail),
            Err(reason) => !can_be_detail(json) && reason == DecodeError::Fields,
        },
{
    assert(error_error_names() =~= seq!["code"@, "data"@, "message"@]);
}

/// Each field of an error response is written under its own name.
pub proof fn errors_are_written_by_field(error: JSONRPCError, json: Json)
    requires
        json == error_json(error@),
    ensures
        is_written_error(json, error),
{
    reveal_names();
    let names = error_names();
    assert(names[0] != names[1]);
    assert(names.contains(names[0]) && names.contains(names[1]));
    details_are_written_by_field(error.error, error_error_json(error.error@));
}

/// Each field of an error response is read from its own name or place, and an error
/// response is read exactly where these hold what they must and there is nothing else.
pub proof fn errors_are_read_by_field(json: Json, outcome: Result<JSONRPCError, DecodeError>)
    requires
        reads(outcome, error_from_json(json), DecodeError::Fields),
    ensures
        match outcome {
            Ok(error) => can_be_error(json) && is_read_error(json, error),
            Err(reason) => !can_be_error(json) && reason == DecodeError::Fields,
        },
{
    assert(error_names() =~= seq!["error"@, "id"@]);
    assert(error_error_names() =~= seq!["code"@, "data"@, "message"@]);
}

// ---------------------------------------------------------------------------
// Messages

/// A message is written as what it is, field by field.
pub proof fn messages_are_written_by_field(message: JSONRPCMessage, json: Json)
    requires
        json == message_json(message@),
    ensures
        match message {
            JSONRPCMessage::Request(request) => is_written_request(json, request),
            JSONRPCMessage::Notification(notification) => is_written_notification(
                json,
                notification,
            ),
            JSONRPCMessage::Response(response) => is_written_response(json, response),
            JSONRPCMessage::Error(error) => is_written_error(json, error),
        },
{
    match message {
        JSONRPCMessage::Request(request) => requests_are_written_by_field(request, json),
        JSONRPCMessage::Notification(notification) => notifications_are_written_by_field(
            notification,
            json,
        ),
        JSONRPCMessage::Response(response) => responses_are_written_by_field(response, json),
        JSONRPCMessage::Error(error) => errors_are_written_by_field(error, json),
    }
}

/// A message is read as the first of request, notification, response and error that it can
/// be, field by field, and refused exactly where it can be none of them.
pub proof fn messages_are_read_by_field(json: Json, outcome: Result<JSONRPCMessage, DecodeError>)
    requires
        reads(outcome, message_from_json(json), DecodeError::NoVariant),
    ensures
        match outcome {
            Ok(JSONRPCMessage::Request(request)) => can_be_request(json) && is_read_request(
                json,
                request,
            ),
            Ok(JSONRPCMessage::Notification(notification)) => {
                &&& !can_be_request(json)
                &&& can_be_notification(json)
                &&& is_read_notification(json, notification)
            },
            Ok(JSONRPCMessage::Response(response)) => {
                &&& !can_be_request(json)
                &&& !can_be_notification(json)
                &&& can_be_response(json)
                &&& is_read_response(json, response)
            },
            Ok(JSONRPCMessage::Error(error)) => {
                &&& !can_be_request(json)
                &&& !can_be_notification(json)
                &&& !can_be_response(json)
                &&& can_be_error(json)
                &&& is_read_error(json, error)
            },
            Err(reason) => {
                &&& !can_be_request(json)
                &&& !can_be_notification(json)
                &&& !can_be_response(json)
                &&& !can_be_error(json)
                &&& reason == DecodeError::NoVariant
            },
        },
{
    lemma_kinds(json);
    match outcome {
        Ok(JSONRPCMessage::Request(request)) => requests_are_read_by_field(json, Ok(request)),
        Ok(JSONRPCMessage::Notification(notification)) => notifications_are_read_by_field(
            json,
            Ok(notification),
        ),
        Ok(JSONRPCMessage::Response(response)) => responses_are_read_by_field(json, Ok(response)),
        Ok(JSONRPCMessage::Error(error)) => errors_are_read_by_field(json, Ok(error)),
        Err(_) => {},
    }
}

proof fn lemma_kinds(json: Json)
    ensures
        request_from_json(json) is None ==> !can_be_request(json),
        notification_from_json(json) is None ==> !can_be_notification(json),
        response_from_json(json) is None ==> !can_be_response(json),
        error_from_json(json) is None ==> !can_be_error(json),
{
    if request_from_json(json) is None {
        requests_are_read_by_field(json, Err(DecodeError::Fields));
    }
    if notification_from_json(json) is None {
        notifications_are_read_by_field(json, Err(DecodeError::Fields));
    }
    if response_from_json(json) is None {
        responses_are_read_by_field(json, Err(DecodeError::Fields));
    }
    if error_from_json(json) is None {
        errors_are_read_by_field(json, Err(DecodeError::Fields));
    }
}

/// The version that is named and never written is 2.0.
pub proof fn the_version_is_two()
    ensures
        JSONRPC_VERSION@ == "2.0"@,
{
}

// ---------------------------------------------------------------------------
// From the text to the message

/// A response that is read from a text has the result that was sent.
pub proof fn responses_keep_the_result_that_was_sent(
    entries: Vec<(String, WirePart)>,
    value: serde_json::Value,
    outcome: Result<JSONRPCMessage, DecodeError>,
    i: int,
)
    requires
        payload_of(Some(value)) == record_of(WireNode::Object(entries)@),
        reads(outcome, message_from_json(json_of(value)), DecodeError::NoVariant),
        0 <= i < entries@.len(),
        entries@[i].0@ == "result"@,
    ensures
        outcome matches Ok(message) ==> {
            &&& message matches JSONRPCMessage::Response(response)
            &&& is_as_sent(json_of(response.result), entries@[i].1)
        },
{
    record_objects_are_as_sent(entries, Some(value));
    messages_are_read_by_field(json_of(value), outcome);
    let object = json_of(value)->Object_0;
    assert(is_as_sent(object[entries@[i].0@], entries@[i].1));
    assert(object.contains_key("result"@));
    members_tell_the_kind(object);
}

/// A request or a notification that is read from a text has the parameters that were
/// sent, except that `null` stands for none.
pub proof fn calls_keep_the_parameters_that_were_sent(
    entries: Vec<(String, WirePart)>,
    value: serde_json::Value,
    outcome: Result<JSONRPCMessage, DecodeError>,
    i: int,
)
    requires
        payload_of(Some(value)) == record_of(WireNode::Object(entries)@),
        reads(outcome, message_from_json(json_of(value)), DecodeError::NoVariant),
        0 <= i < entries@.len(),
        entries@[i].0@ == "params"@,
        !is_as_sent(Json::Null, entries@[i].1),
    ensures
        match outcome {
            Ok(JSONRPCMessage::Request(request)) => request.params matches Some(params)
                && is_as_sent(json_of(params), entries@[i].1),
            Ok(JSONRPCMessage::Notification(notification)) => notification.params matches Some(
                params,
            ) && is_as_sent(json_of(params), entries@[i].1),
            Ok(JSONRPCMessage::Response(_)) => false,
            Ok(JSONRPCMessage::Error(_)) => false,
            Err(_) => true,
        },
{
    record_objects_are_as_sent(entries, Some(value));
    messages_are_read_by_field(json_of(value), outcome);
    let object = json_of(value)->Object_0;
    assert(is_as_sent(object[entries@[i].0@], entries@[i].1));
    assert(object.contains_key("params"@));
    reveal_strlit("params");
    reveal_strlit("id");
    reveal_strlit("result");
    reveal_strlit("error");
    assert("params"@.len() == 6 && "id"@.len() == 2 && "error"@.len() == 5);
    assert("params"@[0] != "result"@[0]);
    let answers = seq!["id"@, "result"@];
    let failures = seq!["error"@, "id"@];
    assert(!answers.contains("params"@));
    assert(!failures.contains("params"@));
}

} // verus!
