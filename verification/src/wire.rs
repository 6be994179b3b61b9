//! The wire form of JSON-RPC messages.
//!
//! A message is written as a JSON object and recognised by the members that an
//! object has, without a tag: an object with a `method` and a usable `id` is a
//! request; one with a `method` and no usable `id` is a notification; one
//! without `method` is a response, if its `error` and `id`, where present, are
//! well formed. The `params` of a request or a notification may be left out,
//! and are null then. Every message carries `"jsonrpc": "2.0"`, and an object
//! with another version, or none, is no message.
//!
//! The spec functions here define both directions over the views of the
//! messages. The executable functions are proved against them, and
//! [`lemma_message_round_trip`] shows that reading is the inverse of writing.
use crate::json::{
    as_i64, as_str, as_u64, entries_view, from_i64, from_string, from_u64, is_null, json_parse,
    json_text, json_view, lemma_lookup_finds, lemma_lookup_misses, member, null, object, parse,
    to_text, Json, JsonNumber,
};
use crate::jsonrpc::{
    error_view, id_view, protocol_version, Error, ErrorCode, ErrorView, Id, IdView, Message,
    MessageView, Notification, NotificationView, Request, RequestView, Response, ResponseView,
};
use crate::text::str_eq;
use vstd::prelude::*;

verus! {

/// A member that is missing, or present with the value null, counts as
/// absent where the wire form lets a member be left out.
pub open spec fn present(member: Option<Json>) -> Option<Json> {
    match member {
        Some(Json::Null) => None,
        other => other,
    }
}

/// The entry list of a member that is written only when it has a value.
pub open spec fn optional_entry(key: Seq<char>, value: Option<Json>) -> Seq<(Seq<char>, Json)> {
    match value {
        Some(value) => seq![(key, value)],
        None => seq![],
    }
}

/// Whether a document is an object that carries the protocol version.
pub open spec fn has_version(document: Json) -> bool {
    match document.get("jsonrpc"@) {
        Some(version) => version.as_str() == Some(protocol_version()),
        None => false,
    }
}

/// The document that stands for an identifier.
pub open spec fn id_to_json(id: IdView) -> Json {
    match id {
        IdView::Number(n) => Json::Number(JsonNumber::Integer(n as int)),
        IdView::String(s) => Json::String(s),
    }
}

/// The identifier that a document stands for: an integer that fits `u64`, or
/// a string.
pub open spec fn id_from_json(document: Json) -> Option<IdView> {
    match document.as_u64() {
        Some(n) => Some(IdView::Number(n)),
        None => match document.as_str() {
            Some(s) => Some(IdView::String(s)),
            None => None,
        },
    }
}

/// The error code that a document stands for: an integer that is one of the
/// eight codes.
pub open spec fn code_from_json(document: Json) -> Option<ErrorCode> {
    match document.as_i64() {
        Some(n) => ErrorCode::of_value(n as int),
        None => None,
    }
}

/// The document that stands for an error. `data` is left out when absent.
pub open spec fn error_to_json(error: ErrorView) -> Json {
    Json::Object(
        seq![
            ("code"@, Json::Number(JsonNumber::Integer(error.code.value()))),
            ("message"@, Json::String(error.message)),
        ] + optional_entry("data"@, error.data),
    )
}

/// The error that a document stands for.
pub open spec fn error_from_json(document: Json) -> Option<ErrorView> {
    match (document.get("code"@), document.get("message"@)) {
        (Some(code), Some(message)) => match (code_from_json(code), message.as_str()) {
            (Some(code), Some(message)) => Some(
                ErrorView { code, message, data: present(document.get("data"@)) },
            ),
            _ => None,
        },
        _ => None,
    }
}

/// The document that stands for a request.
pub open spec fn request_to_json(request: RequestView) -> Json {
    Json::Object(
        seq![
            ("jsonrpc"@, Json::String(request.jsonrpc)),
            ("method"@, Json::String(request.method)),
            ("params"@, request.params),
            ("id"@, id_to_json(request.id)),
        ],
    )
}

/// The name of the method that a document calls: its member `method`, if
/// that is a string.
pub open spec fn method_of(document: Json) -> Option<Seq<char>> {
    match document.get("method"@) {
        Some(method) => method.as_str(),
        None => None,
    }
}

/// The parameters that a document hands to a method: its member `params`,
/// and null where the member is left out.
pub open spec fn params_of(document: Json) -> Json {
    match document.get("params"@) {
        Some(params) => params,
        None => Json::Null,
    }
}

/// The identifier under which a document asks for an answer: its member
/// `id`, if that stands for an identifier.
pub open spec fn request_id_of(document: Json) -> Option<IdView> {
    match document.get("id"@) {
        Some(id) => id_from_json(id),
        None => None,
    }
}

/// The request that a document stands for: the document carries the
/// version, names a method, and has a usable `id`.
pub open spec fn request_from_json(document: Json) -> Option<RequestView> {
    if !has_version(document) {
        None
    } else {
        match (method_of(document), request_id_of(document)) {
            (Some(method), Some(id)) => Some(
                RequestView {
                    jsonrpc: protocol_version(),
                    method,
                    params: params_of(document),
                    id,
                },
            ),
            _ => None,
        }
    }
}

/// The document that stands for a notification.
pub open spec fn notification_to_json(notification: NotificationView) -> Json {
    Json::Object(
        seq![
            ("jsonrpc"@, Json::String(notification.jsonrpc)),
            ("method"@, Json::String(notification.method)),
            ("params"@, notification.params),
        ],
    )
}

/// The notification that a document stands for: the document carries the
/// version and names a method. Whether it has an `id` is not asked here: a
/// document with a usable `id` is a request before it is a notification.
pub open spec fn notification_from_json(document: Json) -> Option<NotificationView> {
    if !has_version(document) {
        None
    } else {
        match method_of(document) {
            Some(method) => Some(
                NotificationView {
                    jsonrpc: protocol_version(),
                    method,
                    params: params_of(document),
                },
            ),
            None => None,
        }
    }
}

/// The document that stands for an optional error.
pub open spec fn optional_error_to_json(error: Option<ErrorView>) -> Option<Json> {
    match error {
        Some(error) => Some(error_to_json(error)),
        None => None,
    }
}

/// The document that stands for the identifier of a response: null where the
/// response has none.
pub open spec fn optional_id_to_json(id: Option<IdView>) -> Json {
    match id {
        Some(id) => id_to_json(id),
        None => Json::Null,
    }
}

/// The document that stands for a response. `result` and `error` are left out
/// when absent; `id` is always written.
pub open spec fn response_to_json(response: ResponseView) -> Json {
    Json::Object(
        seq![("jsonrpc"@, Json::String(response.jsonrpc))] + optional_entry(
            "result"@,
            response.result,
        ) + optional_entry("error"@, optional_error_to_json(response.error)) + seq![
            ("id"@, optional_id_to_json(response.id)),
        ],
    )
}

/// The error member of a response: `Some(None)` where it is absent, `None`
/// where it is present and stands for no error.
pub open spec fn optional_error_from_json(member: Option<Json>) -> Option<Option<ErrorView>> {
    match present(member) {
        None => Some(None),
        Some(document) => match error_from_json(document) {
            Some(error) => Some(Some(error)),
            None => None,
        },
    }
}

/// The id member of a response: `Some(None)` where it is absent, `None` where
/// it is present and stands for no identifier.
pub open spec fn optional_id_from_json(member: Option<Json>) -> Option<Option<IdView>> {
    match present(member) {
        None => Some(None),
        Some(document) => match id_from_json(document) {
            Some(id) => Some(Some(id)),
            None => None,
        },
    }
}

/// The response that a document stands for. A document with a member
/// `method` is no response. A `result` member counts as present whatever its
/// value, null included.
pub open spec fn response_from_json(document: Json) -> Option<ResponseView> {
    if !has_version(document) || document.get("method"@) is Some {
        None
    } else {
        match (
            optional_error_from_json(document.get("error"@)),
            optional_id_from_json(document.get("id"@)),
        ) {
            (Some(error), Some(id)) => Some(
                ResponseView {
                    jsonrpc: protocol_version(),
                    result: document.get("result"@),
                    error,
                    id,
                },
            ),
            _ => None,
        }
    }
}

/// The document that stands for a message.
pub open spec fn message_to_json(message: MessageView) -> Json {
    match message {
        MessageView::Request(request) => request_to_json(request),
        MessageView::Notification(notification) => notification_to_json(notification),
        MessageView::Response(response) => response_to_json(response),
    }
}

/// The message that a document stands for: a request, else a notification,
/// else a response. Which of them is decided by the members `method` and `id`
/// alone, as [`lemma_message_kind`] says.
pub open spec fn message_from_json(document: Json) -> Option<MessageView> {
    match request_from_json(document) {
        Some(request) => Some(MessageView::Request(request)),
        None => match notification_from_json(document) {
            Some(notification) => Some(MessageView::Notification(notification)),
            None => match response_from_json(document) {
                Some(response) => Some(MessageView::Response(response)),
                None => None,
            },
        },
    }
}

/// The text that is sent for a message.
pub open spec fn message_text(message: MessageView) -> Seq<char> {
    json_text(message_to_json(message))
}

/// The message that a text stands for: the text is a JSON document, and the
/// document stands for a message.
pub open spec fn message_from_text(text: Seq<char>) -> Option<MessageView> {
    match json_parse(text) {
        Some(document) => message_from_json(document),
        None => None,
    }
}

/// The request that a text stands for.
pub open spec fn request_from_text(text: Seq<char>) -> Option<RequestView> {
    match json_parse(text) {
        Some(document) => request_from_json(document),
        None => None,
    }
}

/// The notification that a text stands for.
pub open spec fn notification_from_text(text: Seq<char>) -> Option<NotificationView> {
    match json_parse(text) {
        Some(document) => notification_from_json(document),
        None => None,
    }
}

/// The response that a text stands for.
pub open spec fn response_from_text(text: Seq<char>) -> Option<ResponseView> {
    match json_parse(text) {
        Some(document) => response_from_json(document),
        None => None,
    }
}

/// Whether a message can be written and read back. The version must be the
/// protocol's, and the data of an error may not be null: on the wire null data
/// and absent data look the same.
pub open spec fn has_wire_form(message: MessageView) -> bool {
    match message {
        MessageView::Request(request) => request.jsonrpc == protocol_version(),
        MessageView::Notification(notification) => notification.jsonrpc == protocol_version(),
        MessageView::Response(response) => {
            &&& response.jsonrpc == protocol_version()
            &&& match response.error {
                Some(error) => error.data != Some(Json::Null),
                None => true,
            }
        },
    }
}

/// The names of the members are pairwise different.
pub proof fn lemma_member_names()
    ensures
        "jsonrpc"@ != "method"@,
        "jsonrpc"@ != "params"@,
        "jsonrpc"@ != "id"@,
        "jsonrpc"@ != "result"@,
        "jsonrpc"@ != "error"@,
        "method"@ != "params"@,
        "method"@ != "id"@,
        "method"@ != "result"@,
        "method"@ != "error"@,
        "params"@ != "id"@,
        "params"@ != "result"@,
        "params"@ != "error"@,
        "id"@ != "result"@,
        "id"@ != "error"@,
        "result"@ != "error"@,
        "code"@ != "message"@,
        "code"@ != "data"@,
        "message"@ != "data"@,
{
    reveal_strlit("jsonrpc");
    reveal_strlit("method");
    reveal_strlit("params");
    reveal_strlit("id");
    reveal_strlit("result");
    reveal_strlit("error");
    reveal_strlit("code");
    reveal_strlit("message");
    reveal_strlit("data");
    assert("jsonrpc"@.len() == 7 && "method"@.len() == 6 && "params"@.len() == 6);
    assert("id"@.len() == 2 && "result"@.len() == 6 && "error"@.len() == 5);
    assert("code"@.len() == 4 && "message"@.len() == 7 && "data"@.len() == 4);
    assert("method"@[0] != "params"@[0]);
    assert("method"@[0] != "result"@[0]);
    assert("params"@[0] != "result"@[0]);
    assert("code"@[0] != "data"@[0]);
}

/// Reading the document of an identifier gives the identifier.
pub proof fn lemma_id_round_trip(id: IdView)
    ensures
        id_from_json(id_to_json(id)) == Some(id),
{
}

/// On the wire an error holds its code as the exact integer, and its
/// message; it has a member `data` only where the error has data.
pub proof fn lemma_error_document(error: ErrorView)
    ensures
        error_to_json(error).get("code"@) == Some(
            Json::Number(JsonNumber::Integer(error.code.value())),
        ),
        error_to_json(error).get("message"@) == Some(Json::String(error.message)),
        error_to_json(error).get("data"@) == error.data,
{
    lemma_member_names();
    let entries = error_to_json(error)->Object_0;
    lemma_lookup_finds(entries, 0);
    lemma_lookup_finds(entries, 1);
    match error.data {
        Some(data) => {
            lemma_lookup_finds(entries, 2);
        },
        None => {
            lemma_lookup_misses(entries, "data"@);
        },
    }
}

/// On the wire a response has a member `result` only where it has a result,
/// be it null, and a member `error` only where it has an error; its `id` is
/// always a member, null where the response has none.
pub proof fn lemma_response_document(response: ResponseView)
    ensures
        response_to_json(response).get("jsonrpc"@) == Some(Json::String(response.jsonrpc)),
        response_to_json(response).get("result"@) == response.result,
        response_to_json(response).get("error"@) == optional_error_to_json(response.error),
        response_to_json(response).get("id"@) == Some(optional_id_to_json(response.id)),
        response_to_json(response).get("method"@) is None,
{
    lemma_member_names();
    let entries = response_to_json(response)->Object_0;
    let results = optional_entry("result"@, response.result);
    let errors = optional_entry("error"@, optional_error_to_json(response.error));
    let last: int = (1 + results.len() + errors.len()) as int;
    assert(entries.len() == last + 1);
    assert(entries[0].0 == "jsonrpc"@);
    assert(entries[last].0 == "id"@);
    assert(forall|j: int| 0 < j < last ==> (#[trigger] entries[j]).0 == "result"@ || entries[j].0
        == "error"@);
    lemma_lookup_finds(entries, 0);
    lemma_lookup_finds(entries, last);
    lemma_lookup_misses(entries, "method"@);
    match response.result {
        Some(result) => {
            assert(entries[1] == ("result"@, result));
            lemma_lookup_finds(entries, 1);
        },
        None => {
            lemma_lookup_misses(entries, "result"@);
        },
    }
    match response.error {
        Some(error) => {
            assert(entries[last - 1] == ("error"@, error_to_json(error)));
            lemma_lookup_finds(entries, last - 1);
        },
        None => {
            lemma_lookup_misses(entries, "error"@);
        },
    }
}

/// Reading the document of an error gives the error, unless its data is null.
pub proof fn lemma_error_round_trip(error: ErrorView)
    requires
        error.data != Some(Json::Null),
    ensures
        error_from_json(error_to_json(error)) == Some(error),
        error_to_json(error) != Json::Null,
{
    lemma_error_document(error);
    ErrorCode::lemma_code_round_trip(error.code, 0);
}

/// Reading the document of a request gives the request.
pub proof fn lemma_request_round_trip(request: RequestView)
    requires
        request.jsonrpc == protocol_version(),
    ensures
        request_from_json(request_to_json(request)) == Some(request),
{
    lemma_member_names();
    lemma_id_round_trip(request.id);
    let entries = request_to_json(request)->Object_0;
    lemma_lookup_finds(entries, 0);
    lemma_lookup_finds(entries, 1);
    lemma_lookup_finds(entries, 2);
    lemma_lookup_finds(entries, 3);
}

/// Reading the document of a notification gives the notification, and the
/// document does not stand for a request.
pub proof fn lemma_notification_round_trip(notification: NotificationView)
    requires
        notification.jsonrpc == protocol_version(),
    ensures
        request_from_json(notification_to_json(notification)) is None,
        notification_from_json(notification_to_json(notification)) == Some(notification),
{
    lemma_member_names();
    let entries = notification_to_json(notification)->Object_0;
    lemma_lookup_finds(entries, 0);
    lemma_lookup_finds(entries, 1);
    lemma_lookup_finds(entries, 2);
    lemma_lookup_misses(entries, "id"@);
}

/// Reading the document of a response gives the response, and the document
/// stands neither for a request nor for a notification.
pub proof fn lemma_response_round_trip(response: ResponseView)
    requires
        has_wire_form(MessageView::Response(response)),
    ensures
        request_from_json(response_to_json(response)) is None,
        notification_from_json(response_to_json(response)) is None,
        response_from_json(response_to_json(response)) == Some(response),
{
    lemma_response_document(response);
    match response.error {
        Some(error) => {
            lemma_error_round_trip(error);
        },
        None => {},
    }
    match response.id {
        Some(id) => {
            lemma_id_round_trip(id);
        },
        None => {},
    }
}

/// Which message a document stands for is decided by its members `method`
/// and `id`. A document that carries the version and names a method is a
/// request if it has a usable `id`, and a notification if it has none: it is
/// never a response, whether or not it has `params`. A document that is read
/// as a response has no member `method`.
pub proof fn lemma_message_kind(document: Json)
    ensures
        has_version(document) && method_of(document) is Some && request_id_of(document) is Some
            ==> message_from_json(document) == Some(
            MessageView::Request(
                RequestView {
                    jsonrpc: protocol_version(),
                    method: method_of(document)->Some_0,
                    params: params_of(document),
                    id: request_id_of(document)->Some_0,
                },
            ),
        ),
        has_version(document) && method_of(document) is Some && request_id_of(document) is None
            ==> message_from_json(document) == Some(
            MessageView::Notification(
                NotificationView {
                    jsonrpc: protocol_version(),
                    method: method_of(document)->Some_0,
                    params: params_of(document),
                },
            ),
        ),
        message_from_json(document) matches Some(MessageView::Response(_)) ==> document.get(
            "method"@,
        ) is None,
        response_from_json(document) is Some ==> document.get("method"@) is None,
        !has_version(document) ==> message_from_json(document) is None,
{
}

/// Reading what was written gives back the message: for every message that
/// has a wire form, the document written for it stands for that message and
/// for no other. In particular a response whose result is null and one whose
/// result is absent are read back as they were.
pub proof fn lemma_message_round_trip(message: MessageView)
    requires
        has_wire_form(message),
    ensures
        message_from_json(message_to_json(message)) == Some(message),
{
    match message {
        MessageView::Request(request) => {
            lemma_request_round_trip(request);
        },
        MessageView::Notification(notification) => {
            lemma_notification_round_trip(notification);
        },
        MessageView::Response(response) => {
            lemma_response_round_trip(response);
        },
    }
}

fn entry(name: &str, value: serde_json::Value) -> (entry: (String, serde_json::Value))
    ensures
        entry.0@ == name@,
        entry.1 == value,
{
    (name.to_owned(), value)
}

/// Whether a document carries the protocol version.
fn check_version(value: &serde_json::Value) -> (ok: bool)
    ensures
        ok == has_version(json_view(*value)),
{
    match member(value, "jsonrpc") {
        Some(version) => match as_str(version) {
            Some(version) => str_eq(version, "2.0"),
            None => false,
        },
        None => false,
    }
}

/// The name of the method that a document calls.
fn read_method(value: &serde_json::Value) -> (method: Option<String>)
    ensures
        match method {
            Some(method) => method_of(json_view(*value)) == Some(method@),
            None => method_of(json_view(*value)) is None,
        },
{
    match member(value, "method") {
        Some(method) => match as_str(method) {
            Some(method) => Some(method.to_owned()),
            None => None,
        },
        None => None,
    }
}

/// The parameters that a document hands to a method.
fn read_params(value: &serde_json::Value) -> (params: serde_json::Value)
    ensures
        json_view(params) == params_of(json_view(*value)),
{
    match member(value, "params") {
        Some(params) => params.clone(),
        None => null(),
    }
}

impl Id {
    /// The document that stands for the identifier.
    pub fn to_value(&self) -> (value: serde_json::Value)
        ensures
            json_view(value) == id_to_json(self@),
    {
        match self {
            Id::Number(n) => from_u64(*n),
            Id::String(s) => from_string(s.clone()),
        }
    }

    /// The identifier that a document stands for, if it stands for one.
    pub fn from_value(value: &serde_json::Value) -> (id: Option<Id>)
        ensures
            id_view(id) == id_from_json(json_view(*value)),
    {
        match as_u64(value) {
            Some(n) => Some(Id::Number(n)),
            None => match as_str(value) {
                Some(s) => Some(Id::String(s.to_owned())),
                None => None,
            },
        }
    }
}

impl Error {
    /// The document that stands for the error.
    pub fn to_value(&self) -> (value: serde_json::Value)
        ensures
            json_view(value) == error_to_json(self@),
    {
        let mut entries: Vec<(String, serde_json::Value)> = Vec::new();
        entries.push(entry("code", from_i64(self.code.code() as i64)));
        entries.push(entry("message", from_string(self.message.clone())));
        match &self.data {
            Some(data) => {
                entries.push(entry("data", data.clone()));
            },
            None => {},
        }
        proof {
            lemma_member_names();
            assert(entries_view(entries@) =~= error_to_json(self@)->Object_0);
        }
        object(entries)
    }

    /// The error that a document stands for, if it stands for one.
    pub fn from_value(value: &serde_json::Value) -> (error: Option<Error>)
        ensures
            error_view(error) == error_from_json(json_view(*value)),
    {
        let code = match member(value, "code") {
            Some(code) => match as_i64(code) {
                Some(n) => if -2147483648 <= n && n <= 2147483647 {
                    ErrorCode::from_code(n as i32)
                } else {
                    None
                },
                None => None,
            },
            None => None,
        };
        let message = match member(value, "message") {
            Some(message) => as_str(message),
            None => None,
        };
        let data = match member(value, "data") {
            Some(data) => if is_null(data) {
                None
            } else {
                Some(data.clone())
            },
            None => None,
        };
        match (code, message) {
            (Some(code), Some(message)) => Some(Error { code, message: message.to_owned(), data }),
            _ => None,
        }
    }
}

impl Request {
    /// The document that stands for the request.
    pub fn to_value(&self) -> (value: serde_json::Value)
        ensures
            json_view(value) == request_to_json(self@),
    {
        let mut entries: Vec<(String, serde_json::Value)> = Vec::new();
        entries.push(entry("jsonrpc", from_string(self.jsonrpc.clone())));
        entries.push(entry("method", from_string(self.method.clone())));
        entries.push(entry("params", self.params.clone()));
        entries.push(entry("id", self.id.to_value()));
        proof {
            lemma_member_names();
            assert(entries_view(entries@) =~= request_to_json(self@)->Object_0);
        }
        object(entries)
    }

    /// The request that a document stands for, if it stands for one.
    pub fn from_value(value: &serde_json::Value) -> (request: Option<Request>)
        ensures
            match request {
                Some(request) => request_from_json(json_view(*value)) == Some(request@),
                None => request_from_json(json_view(*value)) is None,
            },
    {
        if !check_version(value) {
            return None;
        }
        let id = match member(value, "id") {
            Some(id) => Id::from_value(id),
            None => None,
        };
        match (read_method(value), id) {
            (Some(method), Some(id)) => Some(Request::new(method, read_params(value), id)),
            _ => None,
        }
    }

    /// The text that is sent for the request.
    pub fn to_json_string(&self) -> (text: String)
        ensures
            text@ == json_text(request_to_json(self@)),
    {
        let value = self.to_value();
        match to_text(&value) {
            Some(text) => text,
            None => String::new(),
        }
    }

    /// The request that a text stands for; `None` where the text is no JSON
    /// document or the document is no request.
    pub fn from_json_str(text: &str) -> (request: Option<Request>)
        ensures
            match request {
                Some(request) => request_from_text(text@) == Some(request@),
                None => request_from_text(text@) is None,
            },
    {
        match parse(text) {
            Some(value) => Request::from_value(&value),
            None => None,
        }
    }
}

impl Notification {
    /// The document that stands for the notification.
    pub fn to_value(&self) -> (value: serde_json::Value)
        ensures
            json_view(value) == notification_to_json(self@),
    {
        let mut entries: Vec<(String, serde_json::Value)> = Vec::new();
        entries.push(entry("jsonrpc", from_string(self.jsonrpc.clone())));
        entries.push(entry("method", from_string(self.method.clone())));
        entries.push(entry("params", self.params.clone()));
        proof {
            lemma_member_names();
            assert(entries_view(entries@) =~= notification_to_json(self@)->Object_0);
        }
        object(entries)
    }

    /// The notification that a document stands for, if it stands for one.
    pub fn from_value(value: &serde_json::Value) -> (notification: Option<Notification>)
        ensures
            match notification {
                Some(notification) => notification_from_json(json_view(*value)) == Some(
                    notification@,
                ),
                None => notification_from_json(json_view(*value)) is None,
            },
    {
        if !check_version(value) {
            return None;
        }
        match read_method(value) {
            Some(method) => Some(Notification::new(method, read_params(value))),
            None => None,
        }
    }

    /// The text that is sent for the notification.
    pub fn to_json_string(&self) -> (text: String)
        ensures
            text@ == json_text(notification_to_json(self@)),
    {
        let value = self.to_value();
        match to_text(&value) {
            Some(text) => text,
            None => String::new(),
        }
    }

    /// The notification that a text stands for; `None` where the text is no JSON
    /// document or the document is no notification.
    pub fn from_json_str(text: &str) -> (notification: Option<Notification>)
        ensures
            match notification {
                Some(notification) => notification_from_text(text@) == Some(notification@),
                None => notification_from_text(text@) is None,
            },
    {
        match parse(text) {
            Some(value) => Notification::from_value(&value),
            None => None,
        }
    }
}

impl Response {
    /// The document that stands for the response.
    pub fn to_value(&self) -> (value: serde_json::Value)
        ensures
            json_view(value) == response_to_json(self@),
    {
        let mut entries: Vec<(String, serde_json::Value)> = Vec::new();
        entries.push(entry("jsonrpc", from_string(self.jsonrpc.clone())));
        match &self.result {
            Some(result) => {
                entries.push(entry("result", result.clone()));
            },
            None => {},
        }
        match &self.error {
            Some(error) => {
                entries.push(entry("error", error.to_value()));
            },
            None => {},
        }
        let id = match &self.id {
            Some(id) => id.to_value(),
            None => null(),
        };
        entries.push(entry("id", id));
        proof {
            lemma_member_names();
            assert(entries_view(entries@) =~= response_to_json(self@)->Object_0);
        }
        object(entries)
    }

    /// The response that a document stands for, if it stands for one.
    pub fn from_value(value: &serde_json::Value) -> (response: Option<Response>)
        ensures
            match response {
                Some(response) => response_from_json(json_view(*value)) == Some(response@),
                None => response_from_json(json_view(*value)) is None,
            },
    {
        if !check_version(value) || member(value, "method").is_some() {
            return None;
        }
        let result = match member(value, "result") {
            Some(result) => Some(result.clone()),
            None => None,
        };
        let error = match member(value, "error") {
            Some(document) => if is_null(document) {
                None
            } else {
                match Error::from_value(document) {
                    Some(error) => Some(error),
                    None => {
                        return None;
                    },
                }
            },
            None => None,
        };
        let id = match member(value, "id") {
            Some(document) => if is_null(document) {
                None
            } else {
                match Id::from_value(document) {
                    Some(id) => Some(id),
                    None => {
                        return None;
                    },
                }
            },
            None => None,
        };
        Some(Response { jsonrpc: "2.0".to_owned(), result, error, id })
    }

    /// The text that is sent for the response.
    pub fn to_json_string(&self) -> (text: String)
        ensures
            text@ == json_text(response_to_json(self@)),
    {
        let value = self.to_value();
        match to_text(&value) {
            Some(text) => text,
            None => String::new(),
        }
    }

    /// The response that a text stands for; `None` where the text is no JSON
    /// document or the document is no response.
    pub fn from_json_str(text: &str) -> (response: Option<Response>)
        ensures
            match response {
                Some(response) => response_from_text(text@) == Some(response@),
                None => response_from_text(text@) is None,
            },
    {
        match parse(text) {
            Some(value) => Response::from_value(&value),
            None => None,
        }
    }
}

impl Message {
    /// The document that stands for the message.
    pub fn to_value(&self) -> (value: serde_json::Value)
        ensures
            json_view(value) == message_to_json(self@),
    {
        match self {
            Message::Request(request) => request.to_value(),
            Message::Notification(notification) => notification.to_value(),
            Message::Response(response) => response.to_value(),
        }
    }

    /// The message that a document stands for, if it stands for one.
    pub fn from_value(value: &serde_json::Value) -> (message: Option<Message>)
        ensures
            match message {
                Some(message) => message_from_json(json_view(*value)) == Some(message@),
                None => message_from_json(json_view(*value)) is None,
            },
    {
        match Request::from_value(value) {
            Some(request) => Some(Message::Request(request)),
            None => match Notification::from_value(value) {
                Some(notification) => Some(Message::Notification(notification)),
                None => match Response::from_value(value) {
                    Some(response) => Some(Message::Response(response)),
                    None => None,
                },
            },
        }
    }

    /// The text that is sent for the message.
    pub fn to_json_string(&self) -> (text: String)
        ensures
            text@ == message_text(self@),
    {
        let value = self.to_value();
        match to_text(&value) {
            Some(text) => text,
            None => String::new(),
        }
    }

    /// The message that a text stands for; `None` where the text is no JSON
    /// document or the document is no message.
    pub fn from_json_str(text: &str) -> (message: Option<Message>)
        ensures
            match message {
                Some(message) => message_from_text(text@) == Some(message@),
                None => message_from_text(text@) is None,
            },
    {
        match parse(text) {
            Some(value) => Message::from_value(&value),
            None => None,
        }
    }
}

} // verus!
