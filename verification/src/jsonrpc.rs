//! Types for JSON-RPC messages.
//!
//! Each type has a view, a plain mathematical value, and every contract in the
//! library speaks of messages through their views. The wire form of a message
//! (which JSON document stands for it, and which message a document stands
//! for) is defined over the views in the module `wire`.
use crate::json::{json_view, null, Json};
use vstd::prelude::*;

verus! {

/// The version string that every message carries.
pub open spec fn protocol_version() -> Seq<char> {
    "2.0"@
}

/// The identifier that is used in a JSON-RPC message.
#[derive(Debug, Eq, Hash)]
pub enum Id {
    Number(u64),
    String(String),
}

/// An identifier as a plain value. A number and a string are never equal,
/// whatever the string holds.
pub enum IdView {
    Number(u64),
    String(Seq<char>),
}

impl View for Id {
    type V = IdView;

    open spec fn view(&self) -> IdView {
        match self {
            Id::Number(n) => IdView::Number(*n),
            Id::String(s) => IdView::String(s@),
        }
    }
}

impl Clone for Id {
    fn clone(&self) -> (copy: Self)
        ensures
            copy@ == self@,
    {
        match self {
            Id::Number(n) => Id::Number(*n),
            Id::String(s) => Id::String(s.clone()),
        }
    }
}

impl PartialEq for Id {
    fn eq(&self, other: &Self) -> (same: bool) {
        match (self, other) {
            (Id::Number(a), Id::Number(b)) => *a == *b,
            (Id::String(a), Id::String(b)) => *a == *b,
            _ => false,
        }
    }
}

impl vstd::std_specs::cmp::PartialEqSpecImpl for Id {
    open spec fn obeys_eq_spec() -> bool {
        true
    }

    open spec fn eq_spec(&self, other: &Self) -> bool {
        self@ == other@
    }
}

/// The JSON-RPC error codes.
#[derive(Clone, Copy, Debug, PartialEq, Eq, Structural)]
pub enum ErrorCode {
    ParseError,
    InvalidRequest,
    MethodNotFound,
    InvalidParams,
    InternalError,
    ServerNotInitialized,
    UnknownErrorCode,
    RequestCancelled,
}

impl ErrorCode {
    /// The integer that stands for the code on the wire.
    pub open spec fn value(self) -> int {
        match self {
            ErrorCode::ParseError => -32700,
            ErrorCode::InvalidRequest => -32600,
            ErrorCode::MethodNotFound => -32601,
            ErrorCode::InvalidParams => -32602,
            ErrorCode::InternalError => -32603,
            ErrorCode::ServerNotInitialized => -32002,
            ErrorCode::UnknownErrorCode => -32001,
            ErrorCode::RequestCancelled => -32800,
        }
    }

    /// The code that an integer stands for, if it stands for one.
    pub open spec fn of_value(value: int) -> Option<ErrorCode> {
        if value == -32700 {
            Some(ErrorCode::ParseError)
        } else if value == -32600 {
            Some(ErrorCode::InvalidRequest)
        } else if value == -32601 {
            Some(ErrorCode::MethodNotFound)
        } else if value == -32602 {
            Some(ErrorCode::InvalidParams)
        } else if value == -32603 {
            Some(ErrorCode::InternalError)
        } else if value == -32002 {
            Some(ErrorCode::ServerNotInitialized)
        } else if value == -32001 {
            Some(ErrorCode::UnknownErrorCode)
        } else if value == -32800 {
            Some(ErrorCode::RequestCancelled)
        } else {
            None
        }
    }

    /// The integer that stands for the code on the wire.
    pub fn code(self) -> (value: i32)
        ensures
            value == self.value(),
    {
        match self {
            ErrorCode::ParseError => -32700,
            ErrorCode::InvalidRequest => -32600,
            ErrorCode::MethodNotFound => -32601,
            ErrorCode::InvalidParams => -32602,
            ErrorCode::InternalError => -32603,
            ErrorCode::ServerNotInitialized => -32002,
            ErrorCode::UnknownErrorCode => -32001,
            ErrorCode::RequestCancelled => -32800,
        }
    }

    /// The code that an integer stands for; `None` for every integer that is
    /// not one of the eight codes.
    pub fn from_code(value: i32) -> (code: Option<ErrorCode>)
        ensures
            code == ErrorCode::of_value(value as int),
    {
        if value == -32700 {
            Some(ErrorCode::ParseError)
        } else if value == -32600 {
            Some(ErrorCode::InvalidRequest)
        } else if value == -32601 {
            Some(ErrorCode::MethodNotFound)
        } else if value == -32602 {
            Some(ErrorCode::InvalidParams)
        } else if value == -32603 {
            Some(ErrorCode::InternalError)
        } else if value == -32002 {
            Some(ErrorCode::ServerNotInitialized)
        } else if value == -32001 {
            Some(ErrorCode::UnknownErrorCode)
        } else if value == -32800 {
            Some(ErrorCode::RequestCancelled)
        } else {
            None
        }
    }

    /// Reading back the integer of a code gives the code, and no integer
    /// stands for two codes.
    pub proof fn lemma_code_round_trip(code: ErrorCode, value: int)
        ensures
            ErrorCode::of_value(code.value()) == Some(code),
            ErrorCode::of_value(value) == Some(code) ==> value == code.value(),
    {
    }
}

/// The error type for JSON-RPC messages.
#[derive(Debug, PartialEq)]
pub struct Error {
    pub code: ErrorCode,
    pub message: String,
    pub data: Option<serde_json::Value>,
}

/// An error as a plain value.
pub struct ErrorView {
    pub code: ErrorCode,
    pub message: Seq<char>,
    pub data: Option<Json>,
}

/// The view of an optional payload.
pub open spec fn payload_view(payload: Option<serde_json::Value>) -> Option<Json> {
    match payload {
        Some(value) => Some(json_view(value)),
        None => None,
    }
}

/// The view of an optional identifier.
pub open spec fn id_view(id: Option<Id>) -> Option<IdView> {
    match id {
        Some(id) => Some(id@),
        None => None,
    }
}

/// The view of an optional error.
pub open spec fn error_view(error: Option<Error>) -> Option<ErrorView> {
    match error {
        Some(error) => Some(error@),
        None => None,
    }
}

fn clone_payload(payload: &Option<serde_json::Value>) -> (copy: Option<serde_json::Value>)
    ensures
        payload_view(copy) == payload_view(*payload),
{
    match payload {
        Some(value) => Some(value.clone()),
        None => None,
    }
}

impl View for Error {
    type V = ErrorView;

    open spec fn view(&self) -> ErrorView {
        ErrorView { code: self.code, message: self.message@, data: payload_view(self.data) }
    }
}

impl Clone for Error {
    fn clone(&self) -> (copy: Self)
        ensures
            copy@ == self@,
    {
        Error { code: self.code, message: self.message.clone(), data: clone_payload(&self.data) }
    }
}

impl ErrorView {
    /// An error without data.
    pub open spec fn plain(code: ErrorCode, message: Seq<char>) -> ErrorView {
        ErrorView { code, message, data: None }
    }
}

impl Error {
    /// Returns an `Error` with the code `ParseError`.
    pub fn parse_error() -> (error: Self)
        ensures
            error@ == ErrorView::plain(ErrorCode::ParseError, "Could not parse the input"@),
    {
        Self {
            code: ErrorCode::ParseError,
            message: "Could not parse the input".to_owned(),
            data: None,
        }
    }

    /// Returns an `Error` with the code `MethodNotFound`.
    pub fn method_not_found_error() -> (error: Self)
        ensures
            error@ == ErrorView::plain(ErrorCode::MethodNotFound, "Method not found"@),
    {
        Self { code: ErrorCode::MethodNotFound, message: "Method not found".to_owned(), data: None }
    }

    /// Returns an `Error` with the code `InvalidParams`.
    pub fn deserialize_error() -> (error: Self)
        ensures
            error@ == ErrorView::plain(
                ErrorCode::InvalidParams,
                "Could not deserialize parameter object"@,
            ),
    {
        Self {
            code: ErrorCode::InvalidParams,
            message: "Could not deserialize parameter object".to_owned(),
            data: None,
        }
    }

    /// Returns the `Error` that is delivered to those who still wait for a
    /// response when the connection ends: `RequestCancelled`.
    pub fn connection_closed() -> (error: Self)
        ensures
            error@ == ErrorView::plain(ErrorCode::RequestCancelled, "Connection closed"@),
    {
        Self {
            code: ErrorCode::RequestCancelled,
            message: "Connection closed".to_owned(),
            data: None,
        }
    }

    /// Returns an `Error` with the code `InternalError` and the given message.
    pub fn internal_error(message: String) -> (error: Self)
        ensures
            error@ == ErrorView::plain(ErrorCode::InternalError, message@),
    {
        Self { code: ErrorCode::InternalError, message, data: None }
    }
}

/// A specialized Result type for JSON-RPC operations.
pub type Result<T, E = Error> = std::result::Result<T, E>;

/// The request type for JSON-RPC messages.
#[derive(Debug, PartialEq)]
pub struct Request {
    pub jsonrpc: String,
    pub method: String,
    pub params: serde_json::Value,
    pub id: Id,
}

/// A request as a plain value.
pub struct RequestView {
    pub jsonrpc: Seq<char>,
    pub method: Seq<char>,
    pub params: Json,
    pub id: IdView,
}

impl View for Request {
    type V = RequestView;

    open spec fn view(&self) -> RequestView {
        RequestView {
            jsonrpc: self.jsonrpc@,
            method: self.method@,
            params: json_view(self.params),
            id: self.id@,
        }
    }
}

impl Clone for Request {
    fn clone(&self) -> (copy: Self)
        ensures
            copy@ == self@,
    {
        Request {
            jsonrpc: self.jsonrpc.clone(),
            method: self.method.clone(),
            params: self.params.clone(),
            id: self.id.clone(),
        }
    }
}

impl Request {
    /// Creates a new `Request`.
    pub fn new(method: String, params: serde_json::Value, id: Id) -> (request: Self)
        ensures
            request@ == (RequestView {
                jsonrpc: protocol_version(),
                method: method@,
                params: json_view(params),
                id: id@,
            }),
    {
        Self { jsonrpc: "2.0".to_owned(), method, params, id }
    }
}

/// The response type for JSON-RPC messages.
#[derive(Debug, PartialEq)]
pub struct Response {
    pub jsonrpc: String,
    pub result: Option<serde_json::Value>,
    pub error: Option<Error>,
    pub id: Option<Id>,
}

/// A response as a plain value. A result that is present and null differs
/// from a result that is absent.
pub struct ResponseView {
    pub jsonrpc: Seq<char>,
    pub result: Option<Json>,
    pub error: Option<ErrorView>,
    pub id: Option<IdView>,
}

impl View for Response {
    type V = ResponseView;

    open spec fn view(&self) -> ResponseView {
        ResponseView {
            jsonrpc: self.jsonrpc@,
            result: payload_view(self.result),
            error: error_view(self.error),
            id: id_view(self.id),
        }
    }
}

impl Clone for Response {
    fn clone(&self) -> (copy: Self)
        ensures
            copy@ == self@,
    {
        Response {
            jsonrpc: self.jsonrpc.clone(),
            result: clone_payload(&self.result),
            error: match &self.error {
                Some(error) => Some(error.clone()),
                None => None,
            },
            id: match &self.id {
                Some(id) => Some(id.clone()),
                None => None,
            },
        }
    }
}

impl ResponseView {
    /// The response that carries a result for the request `id`.
    pub open spec fn success(result: Json, id: IdView) -> ResponseView {
        ResponseView { jsonrpc: protocol_version(), result: Some(result), error: None, id: Some(id) }
    }

    /// The response that carries an error.
    pub open spec fn failure(error: ErrorView, id: Option<IdView>) -> ResponseView {
        ResponseView { jsonrpc: protocol_version(), result: None, error: Some(error), id }
    }
}

impl Response {
    /// Returns a `Response` with the given `result`.
    pub fn result(result: serde_json::Value, id: Id) -> (response: Self)
        ensures
            response@ == ResponseView::success(json_view(result), id@),
    {
        Self { jsonrpc: "2.0".to_owned(), result: Some(result), error: None, id: Some(id) }
    }

    /// Returns a `Response` with the given `error`.
    pub fn error(error: Error, id: Option<Id>) -> (response: Self)
        ensures
            response@ == ResponseView::failure(error@, id_view(id)),
    {
        Self { jsonrpc: "2.0".to_owned(), result: None, error: Some(error), id }
    }

    /// What a response delivers to the party that waits for it: its error if it
    /// has one, else its result, with null for a result that was left out.
    pub open spec fn outcome_of(response: ResponseView) -> Result<Json, ErrorView> {
        match response.error {
            Some(error) => Err(error),
            None => match response.result {
                Some(result) => Ok(result),
                None => Ok(Json::Null),
            },
        }
    }

    /// Takes the response apart into what it delivers.
    pub fn into_outcome(self) -> (outcome: Result<serde_json::Value, Error>)
        ensures
            outcome_view(outcome) == Response::outcome_of(self@),
    {
        match self.error {
            Some(error) => Err(error),
            None => match self.result {
                Some(result) => Ok(result),
                None => Ok(null()),
            },
        }
    }
}

/// The view of what a request handler, or the peer, delivers.
pub open spec fn outcome_view(outcome: Result<serde_json::Value, Error>) -> Result<
    Json,
    ErrorView,
> {
    match outcome {
        Ok(value) => Ok(json_view(value)),
        Err(error) => Err(error@),
    }
}

/// The notification type for JSON-RPC messages.
#[derive(Debug, PartialEq)]
pub struct Notification {
    pub jsonrpc: String,
    pub method: String,
    pub params: serde_json::Value,
}

/// A notification as a plain value.
pub struct NotificationView {
    pub jsonrpc: Seq<char>,
    pub method: Seq<char>,
    pub params: Json,
}

impl View for Notification {
    type V = NotificationView;

    open spec fn view(&self) -> NotificationView {
        NotificationView {
            jsonrpc: self.jsonrpc@,
            method: self.method@,
            params: json_view(self.params),
        }
    }
}

impl Clone for Notification {
    fn clone(&self) -> (copy: Self)
        ensures
            copy@ == self@,
    {
        Notification {
            jsonrpc: self.jsonrpc.clone(),
            method: self.method.clone(),
            params: self.params.clone(),
        }
    }
}

impl Notification {
    /// Creates a new `Notification`.
    pub fn new(method: String, params: serde_json::Value) -> (notification: Self)
        ensures
            notification@ == (NotificationView {
                jsonrpc: protocol_version(),
                method: method@,
                params: json_view(params),
            }),
    {
        Self { jsonrpc: "2.0".to_owned(), method, params }
    }
}

/// Represents a JSON-RPC message.
#[derive(Debug, PartialEq)]
pub enum Message {
    Request(Request),
    Notification(Notification),
    Response(Response),
}

/// A message as a plain value.
pub enum MessageView {
    Request(RequestView),
    Notification(NotificationView),
    Response(ResponseView),
}

impl View for Message {
    type V = MessageView;

    open spec fn view(&self) -> MessageView {
        match self {
            Message::Request(request) => MessageView::Request(request@),
            Message::Notification(notification) => MessageView::Notification(notification@),
            Message::Response(response) => MessageView::Response(response@),
        }
    }
}

impl Clone for Message {
    fn clone(&self) -> (copy: Self)
        ensures
            copy@ == self@,
    {
        match self {
            Message::Request(request) => Message::Request(request.clone()),
            Message::Notification(notification) => Message::Notification(notification.clone()),
            Message::Response(response) => Message::Response(response.clone()),
        }
    }
}

} // verus!
