//! What holds of the protocol's messages as a whole.
use vstd::prelude::*;

use crate::decimal::{
    lemma_decimal_starts_with_digit, lemma_signed_decimal_injective, signed_decimal,
};
use crate::json::{is_i64, json_text, Json};
use crate::jsonrpc_lite::{
    error_error_from_json, error_error_json, error_error_names, error_from_json, error_json,
    error_names, id_from_json, id_json, id_text, message_from_json, message_json,
    notification_from_json, notification_json, notification_names, request_from_json, request_json,
    request_names, response_from_json, response_json, response_names, reveal_names,
    trace_from_json, trace_json, trace_names, ErrorErrorView, ErrorView, JSONRPCError,
    JSONRPCErrorError, JSONRPCMessage, JSONRPCNotification, JSONRPCRequest, JSONRPCResponse,
    MessageView, NotificationView, RequestId, RequestIdView, RequestView, ResponseView, TraceView,
    W3cTraceContext,
};
use crate::quoting::{quoted, quoted_texts_differ};
use crate::record::{distinct, field, only_named};

verus! {

/// An id that the program can hold: an integer id fits in an `i64`.
pub open spec fn valid_id(id: RequestIdView) -> bool {
    id matches RequestIdView::Integer(number) ==> is_i64(Json::Integer(number))
}

/// No optional payload of the message is a JSON `null`.
pub open spec fn no_null_payload(message: MessageView) -> bool {
    match message {
        MessageView::Request(request) => request.params != Some(Json::Null),
        MessageView::Notification(notification) => notification.params != Some(Json::Null),
        MessageView::Response(_) => true,
        MessageView::Error(error) => error.error.data != Some(Json::Null),
    }
}

/// Every member name that a message can have, and the version member.
pub open spec fn member_names() -> Seq<Seq<char>> {
    seq!["id"@, "method"@, "params"@, "trace"@, "result"@, "error"@, "jsonrpc"@]
}

proof fn reveal_member_names()
    ensures
        distinct(member_names()),
{
    reveal_strlit("id");
    reveal_strlit("method");
    reveal_strlit("params");
    reveal_strlit("trace");
    reveal_strlit("result");
    reveal_strlit("error");
    reveal_strlit("jsonrpc");
    let names = member_names();
    assert(names[0].len() == 2 && names[1].len() == 6 && names[2].len() == 6 && names[3].len() == 5
        && names[4].len() == 6 && names[5].len() == 5 && names[6].len() == 7);
    assert(names[1][0] == 'm' && names[2][0] == 'p' && names[4][0] == 'r');
    assert(names[3][0] == 't' && names[5][0] == 'e');
}

proof fn lemma_id_round_trips(id: RequestIdView)
    requires
        valid_id(id),
    ensures
        id_from_json(id_json(id)) == Some(id),
{
}

proof fn lemma_trace_round_trips(trace: TraceView)
    ensures
        trace_from_json(trace_json(trace)) == Some(trace),
        !(trace_json(trace) is Null),
{
    reveal_names();
    let names = trace_names();
    assert(names[0] != names[1]);
}

proof fn lemma_request_round_trips(request: RequestView)
    requires
        valid_id(request.id),
        request.params != Some(Json::Null),
    ensures
        request_from_json(request_json(request)) == Some(request),
{
    reveal_names();
    let names = request_names();
    assert(names[0] != names[1] && names[0] != names[2] && names[0] != names[3]);
    assert(names[1] != names[2] && names[1] != names[3] && names[2] != names[3]);
    lemma_id_round_trips(request.id);
    if let Some(trace) = request.trace {
        lemma_trace_round_trips(trace);
    }
    assert(only_named(request_json(request)->Object_0, names)) by {
        assert(names.contains(names[0]) && names.contains(names[1]));
        assert(names.contains(names[2]) && names.contains(names[3]));
    }
}

proof fn lemma_notification_round_trips(notification: NotificationView)
    requires
        notification.params != Some(Json::Null),
    ensures
        notification_from_json(notification_json(notification)) == Some(notification),
{
    reveal_names();
    let names = notification_names();
    assert(names[0] != names[1]);
    assert(only_named(notification_json(notification)->Object_0, names)) by {
        assert(names.contains(names[0]) && names.contains(names[1]));
    }
}

proof fn lemma_response_round_trips(response: ResponseView)
    requires
        valid_id(response.id),
    ensures
        response_from_json(response_json(response)) == Some(response),
{
    reveal_names();
    let names = response_names();
    assert(names[0] != names[1]);
    lemma_id_round_trips(response.id);
    assert(only_named(response_json(response)->Object_0, names)) by {
        assert(names.contains(names[0]) && names.contains(names[1]));
    }
}

proof fn lemma_error_error_round_trips(error: ErrorErrorView)
    requires
        is_i64(Json::Integer(error.code)),
        error.data != Some(Json::Null),
    ensures
        error_error_from_json(error_error_json(error)) == Some(error),
{
    reveal_names();
    let names = error_error_names();
    assert(names[0] != names[1] && names[0] != names[2] && names[1] != names[2]);
    assert(only_named(error_error_json(error)->Object_0, names)) by {
        assert(names.contains(names[0]) && names.contains(names[1]) && names.contains(names[2]));
    }
}

proof fn lemma_error_round_trips(error: ErrorView)
    requires
        valid_id(error.id),
        is_i64(Json::Integer(error.error.code)),
        error.error.data != Some(Json::Null),
    ensures
        error_from_json(error_json(error)) == Some(error),
{
    reveal_names();
    let names = error_names();
    assert(names[0] != names[1]);
    lemma_id_round_trips(error.id);
    lemma_error_error_round_trips(error.error);
    assert(only_named(error_json(error)->Object_0, names)) by {
        assert(names.contains(names[0]) && names.contains(names[1]));
    }
}

// ---------------------------------------------------------------------------
// What a read gives back of a write

/// Reading an id that was written gives that id.
pub proof fn ids_round_trip(id: RequestId)
    ensures
        id_from_json(id_json(id@)) == Some(id@),
{
}

/// Reading a trace context that was written gives that trace context.
pub proof fn traces_round_trip(trace: W3cTraceContext)
    ensures
        trace_from_json(trace_json(trace@)) == Some(trace@),
{
    lemma_trace_round_trips(trace@);
}

/// Reading a request that was written gives that request. A `null` for its parameters
/// would read as no parameters.
pub proof fn requests_round_trip(request: JSONRPCRequest)
    requires
        request@.params != Some(Json::Null),
    ensures
        request_from_json(request_json(request@)) == Some(request@),
{
    lemma_request_round_trips(request@);
}

/// Reading a notification that was written gives that notification. A `null` for its
/// parameters would read as no parameters.
pub proof fn notifications_round_trip(notification: JSONRPCNotification)
    requires
        notification@.params != Some(Json::Null),
    ensures
        notification_from_json(notification_json(notification@)) == Some(notification@),
{
    lemma_notification_round_trips(notification@);
}

/// Reading a response that was written gives that response.
pub proof fn responses_round_trip(response: JSONRPCResponse)
    ensures
        response_from_json(response_json(response@)) == Some(response@),
{
    lemma_response_round_trips(response@);
}

/// Reading an error that was written gives that error. A `null` for its data would
/// read as no data.
pub proof fn errors_round_trip(error: JSONRPCError)
    requires
        error@.error.data != Some(Json::Null),
    ensures
        error_from_json(error_json(error@)) == Some(error@),
{
    lemma_error_round_trips(error@);
}

/// Reading the detail of an error that was written gives that detail.
pub proof fn error_details_round_trip(error: JSONRPCErrorError)
    requires
        error@.data != Some(Json::Null),
    ensures
        error_error_from_json(error_error_json(error@)) == Some(error@),
{
    lemma_error_error_round_trips(error@);
}

proof fn lemma_message_round_trips(message: MessageView)
    requires
        no_null_payload(message),
        valid_message(message),
    ensures
        message_from_json(message_json(message)) == Some(message),
{
    message_objects_have_one_reading(message_json(message));
    match message {
        MessageView::Request(request) => {
            lemma_request_round_trips(request);
        },
        MessageView::Notification(notification) => {
            lemma_notification_round_trips(notification);
        },
        MessageView::Response(response) => {
            lemma_response_round_trips(response);
        },
        MessageView::Error(error) => {
            lemma_error_round_trips(error);
        },
    }
}

/// Reading a message that was written gives that message, although nothing in it says
/// which kind of message it is. A `null` for an optional payload would read as no
/// payload.
pub proof fn messages_round_trip(message: JSONRPCMessage)
    requires
        no_null_payload(message@),
    ensures
        message_from_json(message_json(message@)) == Some(message@),
{
    lemma_message_round_trips(message@);
}

/// The integers of the message fit in an `i64`.
pub open spec fn valid_message(message: MessageView) -> bool {
    match message {
        MessageView::Request(request) => valid_id(request.id),
        MessageView::Notification(_) => true,
        MessageView::Response(response) => valid_id(response.id),
        MessageView::Error(error) => valid_id(error.id) && is_i64(Json::Integer(error.error.code)),
    }
}

/// What was read once is read the same again after it was written: the only thing that
/// reading and writing can change about a value is its form.
pub proof fn reading_settles(json: Json)
    ensures
        message_from_json(json) matches Some(message) ==> message_from_json(message_json(message))
            == Some(message),
{
    if let Some(message) = message_from_json(json) {
        lemma_message_round_trips(message);
    }
}

// ---------------------------------------------------------------------------
// What is written

/// An optional field of a request is written exactly when it is there.
pub proof fn absent_request_fields_are_left_out(request: RequestView)
    ensures
        request_json(request) matches Json::Object(object) && {
            &&& object.contains_key("params"@) <==> request.params is Some
            &&& object.contains_key("trace"@) <==> request.trace is Some
        },
{
    reveal_names();
    let names = request_names();
    assert(names[0] != names[2] && names[1] != names[2] && names[3] != names[2]);
    assert(names[0] != names[3] && names[1] != names[3]);
}

/// The parameters of a notification are written exactly when they are there.
pub proof fn absent_notification_fields_are_left_out(notification: NotificationView)
    ensures
        notification_json(notification) matches Json::Object(object) && {
            object.contains_key("params"@) <==> notification.params is Some
        },
{
    reveal_names();
    let names = notification_names();
    assert(names[0] != names[1]);
}

/// The data of an error is written exactly when it is there.
pub proof fn absent_error_fields_are_left_out(error: ErrorErrorView)
    ensures
        error_error_json(error) matches Json::Object(object) && {
            object.contains_key("data"@) <==> error.data is Some
        },
{
    reveal_names();
    let names = error_error_names();
    assert(names[0] != names[1] && names[2] != names[1]);
}

/// An optional field of a trace context is written exactly when it is there.
pub proof fn absent_trace_fields_are_left_out(trace: TraceView)
    ensures
        trace_json(trace) matches Json::Object(object) && {
            &&& object.contains_key("traceparent"@) <==> trace.traceparent is Some
            &&& object.contains_key("tracestate"@) <==> trace.tracestate is Some
        },
{
    reveal_names();
    let names = trace_names();
    assert(names[0] != names[1]);
}

/// A message is written as an object, and never with a version member.
pub proof fn no_version_is_written(message: MessageView)
    ensures
        message_json(message) matches Json::Object(object) && !object.contains_key("jsonrpc"@),
{
    reveal_member_names();
    let names = member_names();
    assert(names[0] != names[6] && names[1] != names[6] && names[2] != names[6]);
    assert(names[3] != names[6] && names[4] != names[6] && names[5] != names[6]);
}

// ---------------------------------------------------------------------------
// What is read

/// An object with a member that no message has is no message; the version member of
/// JSON-RPC 2.0 is one of those.
pub proof fn unknown_members_are_refused(object: Map<Seq<char>, Json>, name: Seq<char>)
    requires
        object.contains_key(name),
        !request_names().contains(name),
        !response_names().contains(name),
        !error_names().contains(name),
    ensures
        message_from_json(Json::Object(object)) is None,
{
    if only_named(object, notification_names()) {
        let names = notification_names();
        assert(names.contains(name));
        assert(name == names[0] || name == names[1]);
        assert(request_names()[1] == names[0] && request_names()[2] == names[1]);
    }
}

/// No message has a version member.
pub proof fn no_version_is_expected(object: Map<Seq<char>, Json>)
    requires
        object.contains_key("jsonrpc"@),
    ensures
        message_from_json(Json::Object(object)) is None,
{
    reveal_member_names();
    let names = member_names();
    assert(names[0] != names[6] && names[1] != names[6] && names[2] != names[6]);
    assert(names[3] != names[6] && names[4] != names[6] && names[5] != names[6]);
    unknown_members_are_refused(object, "jsonrpc"@);
}

/// An object that has a method and also the result or the error of a response is no
/// message.
pub proof fn requests_with_response_members_are_refused(object: Map<Seq<char>, Json>)
    requires
        object.contains_key("method"@),
        object.contains_key("result"@) || object.contains_key("error"@),
    ensures
        message_from_json(Json::Object(object)) is None,
{
    reveal_member_names();
    let names = member_names();
    assert(names[1] != names[0] && names[1] != names[4] && names[1] != names[5]);
    assert(names[4] != names[0] && names[4] != names[2] && names[4] != names[3]);
    assert(names[5] != names[0] && names[5] != names[2] && names[5] != names[3]);
    if object.contains_key("result"@) {
        assert(!request_names().contains("result"@));
        assert(!notification_names().contains("result"@));
    } else {
        assert(!request_names().contains("error"@));
        assert(!notification_names().contains("error"@));
    }
    assert(!response_names().contains("method"@));
    assert(!error_names().contains("method"@));
}

/// An object can be read as at most one kind of message, so that the order in which the
/// kinds are tried does not matter.
pub proof fn message_objects_have_one_reading(json: Json)
    requires
        json is Object,
    ensures
        !(request_from_json(json) is Some && notification_from_json(json) is Some),
        !(request_from_json(json) is Some && response_from_json(json) is Some),
        !(request_from_json(json) is Some && error_from_json(json) is Some),
        !(notification_from_json(json) is Some && response_from_json(json) is Some),
        !(notification_from_json(json) is Some && error_from_json(json) is Some),
        !(response_from_json(json) is Some && error_from_json(json) is Some),
{
    reveal_member_names();
    let names = member_names();
    let object = json->Object_0;
    assert(names[0] != names[1] && names[0] != names[2] && names[0] != names[4] && names[0]
        != names[5]);
    assert(names[1] != names[4] && names[1] != names[5] && names[4] != names[5]);
    assert(!notification_names().contains("id"@));
    assert(!response_names().contains("method"@));
    assert(!error_names().contains("method"@));
    assert(!error_names().contains("result"@));
}

/// A message object is a request or a notification if it has a method, a request if it
/// also has an id, a response if it has a result and an error if it has an error.
pub proof fn members_tell_the_kind(object: Map<Seq<char>, Json>)
    ensures
        message_from_json(Json::Object(object)) matches Some(message) ==> {
            &&& message is Request <==> object.contains_key("method"@) && object.contains_key("id"@)
            &&& message is Notification <==> object.contains_key("method"@)
                && !object.contains_key("id"@)
            &&& message is Response <==> object.contains_key("result"@)
            &&& message is Error <==> object.contains_key("error"@)
        },
{
    reveal_member_names();
    let names = member_names();
    let json = Json::Object(object);
    assert(names[0] != names[1] && names[0] != names[2] && names[0] != names[4] && names[0]
        != names[5]);
    assert(names[1] != names[4] && names[1] != names[5] && names[4] != names[5]);
    assert(names[2] != names[4] && names[2] != names[5] && names[3] != names[4] && names[3]
        != names[5]);
    assert(!notification_names().contains("id"@));
    assert(!notification_names().contains("result"@) && !notification_names().contains("error"@));
    assert(!request_names().contains("result"@) && !request_names().contains("error"@));
    assert(!response_names().contains("method"@) && !response_names().contains("error"@));
    assert(!error_names().contains("method"@) && !error_names().contains("result"@));
    assert(field(json, request_names(), 0) is Some <==> object.contains_key("id"@));
}

// ---------------------------------------------------------------------------
// Ids

/// The text of an id is what its wire value holds: the characters of the string, which
/// the JSON text has in quotes, or the JSON text of the integer, which is its numeral.
pub proof fn id_texts_match_the_wire(id: RequestIdView)
    ensures
        id_json(id) matches Json::Text(text) ==> {
            &&& id_text(id) == text
            &&& json_text(id_json(id)) == quoted(id_text(id))
        },
        id_json(id) matches Json::Integer(number) ==> {
            &&& id_text(id) == json_text(id_json(id))
            &&& id_text(id) == signed_decimal(number)
        },
{
}

/// An id that is read from a JSON string is that string, and its text is the string's
/// characters; one that is read from a JSON integer is that integer, and its text is
/// the JSON text that it was read from. No id is read from anything else.
pub proof fn ids_keep_what_they_are_read_from(json: Json)
    ensures
        id_from_json(json) matches Some(id) ==> match json {
            Json::Text(text) => id == RequestIdView::String(text) && id_text(id) == text,
            Json::Integer(number) => id == RequestIdView::Integer(number) && id_text(id)
                == json_text(json),
            _ => false,
        },
        id_from_json(json) is Some <==> json is Text || is_i64(json),
{
}

/// Different ids of one kind have different texts.
pub proof fn id_texts_tell_ids_apart(one: RequestIdView, two: RequestIdView)
    requires
        one is String <==> two is String,
        id_text(one) == id_text(two),
    ensures
        one == two,
{
    if let RequestIdView::Integer(a) = one {
        if let RequestIdView::Integer(b) = two {
            lemma_signed_decimal_injective(a, b);
        }
    }
}

/// Different ids, of one kind or not, have different JSON texts.
pub proof fn id_json_texts_tell_ids_apart(one: RequestIdView, two: RequestIdView)
    requires
        json_text(id_json(one)) == json_text(id_json(two)),
    ensures
        one == two,
{
    match (one, two) {
        (RequestIdView::String(a), RequestIdView::String(b)) => quoted_texts_differ(a, b),
        (RequestIdView::Integer(a), RequestIdView::Integer(b)) => {
            lemma_signed_decimal_injective(a, b)
        },
        (RequestIdView::String(a), RequestIdView::Integer(b)) => {
            lemma_numeral_has_no_quote(b);
            assert(quoted(a)[0] == '"');
        },
        (RequestIdView::Integer(a), RequestIdView::String(b)) => {
            lemma_numeral_has_no_quote(a);
            assert(quoted(b)[0] == '"');
        },
    }
}

proof fn lemma_numeral_has_no_quote(n: int)
    ensures
        signed_decimal(n).len() > 0,
        signed_decimal(n)[0] != '"',
{
    lemma_decimal_starts_with_digit(if n < 0 {
        (-n) as nat
    } else {
        n as nat
    });
}

} // verus!
