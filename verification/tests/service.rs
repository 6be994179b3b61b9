use language_server::client::ProtocolViolation;
use language_server::codec::{FramingError, LspCodec};
use language_server::jsonrpc::{Error, Id, Message, Notification, Request, Response};
use language_server::middleware::{LoggingMiddleware, Middleware};
use language_server::server::{language_server_methods, JsonRpcMethodArgs, MethodKind};
use language_server::service::{Action, Dispatcher, Received};
use lsp_types::{
    InitializeParams, InitializeResult, InitializedParams, LogMessageParams, MessageType,
    ShowMessageRequestParams,
};
use serde_json::Value;
use std::sync::Arc;

fn service() -> Dispatcher<&'static str> {
    Dispatcher::new(language_server_methods(), Vec::new())
}

fn frame(body: &str) -> Vec<u8> {
    format!("Content-Length: {}\r\n\r\n{}", body.len(), body).into_bytes()
}

/// Takes the one frame that `bytes` holds and hands back what to do.
fn receive(service: &mut Dispatcher<&'static str>, bytes: &[u8]) -> Action<&'static str> {
    match service.receive(bytes) {
        Received::Frame { consumed, action } => {
            assert_eq!(consumed, bytes.len());
            action
        }
        _ => panic!("no frame"),
    }
}

/// Reads what the service wrote and holds it against the expected message, as
/// a peer would: the header gives the length of the expected text, and the
/// body stands for the expected message.
fn read_message(written: &[u8], expected: Message) {
    let length = expected.to_json_string().len();
    let header = format!("Content-Length: {}\r\n\r\n", length);
    assert!(written.starts_with(header.as_bytes()));
    let body = std::str::from_utf8(&written[header.len()..]).unwrap();
    assert_eq!(body.len(), length);
    println!("{}", body);
    assert_eq!(Message::from_json_str(body), Some(expected));
}

#[test]
fn simple_request_success() {
    let mut service = service();
    let action = receive(
        &mut service,
        b"Content-Length: 75\n\n{\"jsonrpc\":\"2.0\",\"method\":\"initialize\",\"id\":0,\"params\":{\"capabilities\":{}}}",
    );
    let request = match action {
        Action::Spawn(request) => request,
        _ => panic!("failed to spawn server"),
    };
    assert_eq!(request.method, "initialize");
    let _params: InitializeParams = serde_json::from_value(request.params.clone()).unwrap();
    let result = serde_json::to_value(InitializeResult::default()).unwrap();
    let written = service.write(service.respond(&request, Ok(result)));

    let response = Response::result(
        serde_json::to_value(InitializeResult::default()).unwrap(),
        Id::Number(0),
    );
    read_message(&written, Message::Response(response));
    assert_eq!(
        written,
        frame(r#"{"jsonrpc":"2.0","result":{"capabilities":{}},"id":0}"#)
    );
}

#[test]
fn notification_with_client_notification_success() {
    let mut service = service();
    let action = receive(
        &mut service,
        b"Content-Length: 52\n\n{\"jsonrpc\":\"2.0\",\"method\":\"initialized\",\"params\":{}}",
    );
    let notification = match action {
        Action::Notify(notification) => notification,
        _ => panic!("failed to spawn server"),
    };
    assert_eq!(notification.method, "initialized");
    let _params: InitializedParams = serde_json::from_value(notification.params).unwrap();
    let params = LogMessageParams {
        typ: MessageType::Info,
        message: "Hello World!".into(),
    };
    let message = service.send_notification(
        "window/logMessage".into(),
        serde_json::to_value(params).unwrap(),
    );
    let written = service.write(message);
    service.notification_handled();

    let notification = Notification::new(
        "window/logMessage".into(),
        serde_json::to_value(LogMessageParams {
            typ: MessageType::Info,
            message: "Hello World!".into(),
        })
        .unwrap(),
    );
    read_message(&written, Message::Notification(notification));
    assert_eq!(
        written,
        frame(r#"{"jsonrpc":"2.0","method":"window/logMessage","params":{"type":3,"message":"Hello World!"}}"#)
    );
}

#[test]
fn request_with_client_request_success() {
    let mut service = service();
    let action = receive(
        &mut service,
        b"Content-Length: 58\n\n{\"jsonrpc\":\"2.0\",\"method\":\"shutdown\",\"id\":0,\"params\":null}",
    );
    let shutdown = match action {
        Action::Spawn(request) => request,
        _ => panic!("failed to spawn server"),
    };
    serde_json::from_value::<()>(shutdown.params.clone()).unwrap();

    // The handler asks the peer, and waits.
    let params = ShowMessageRequestParams {
        actions: None,
        message: "Hello World!".into(),
        typ: MessageType::Info,
    };
    let message = service.send_request(
        "window/showMessageRequest".into(),
        serde_json::to_value(params).unwrap(),
        "shutdown handler",
    ).unwrap();
    let written = service.write(message);
    let request = Request::new(
        "window/showMessageRequest".into(),
        serde_json::to_value(ShowMessageRequestParams {
            actions: None,
            message: "Hello World!".into(),
            typ: MessageType::Info,
        })
        .unwrap(),
        Id::Number(0),
    );
    read_message(&written, Message::Request(request));

    // The peer answers, and the handler goes on.
    let action = receive(
        &mut service,
        b"Content-Length: 38\n\n{\"jsonrpc\":\"2.0\",\"id\":0,\"result\":null}",
    );
    match action {
        Action::Resolve(sender, outcome) => {
            assert_eq!(sender, "shutdown handler");
            assert_eq!(outcome, Ok(Value::Null));
        }
        _ => panic!("not resolved"),
    }
    let written = service.write(service.respond(&shutdown, Ok(serde_json::to_value(()).unwrap())));

    let response = Response::result(serde_json::Value::Null, Id::Number(0));
    read_message(&written, Message::Response(response));
    assert_eq!(written, frame(r#"{"jsonrpc":"2.0","result":null,"id":0}"#));
}

#[test]
fn request_framed_with_cr_lf() {
    let mut service = service();
    let action = receive(
        &mut service,
        b"Content-Length: 75\r\n\r\n{\"jsonrpc\":\"2.0\",\"method\":\"initialize\",\"id\":0,\"params\":{\"capabilities\":{}}}",
    );
    let request = match action {
        Action::Spawn(request) => request,
        _ => panic!("no request"),
    };
    assert_eq!(
        request,
        Request::new(
            "initialize".into(),
            serde_json::from_str(r#"{"capabilities":{}}"#).unwrap(),
            Id::Number(0)
        )
    );
    let result = serde_json::to_value(InitializeResult::default()).unwrap();
    assert_eq!(
        service.write(service.respond(&request, Ok(result))),
        b"Content-Length: 53\r\n\r\n{\"jsonrpc\":\"2.0\",\"result\":{\"capabilities\":{}},\"id\":0}".to_vec()
    );
}

#[test]
fn peer_result_object_resolves_the_request() {
    let mut service = service();
    service.send_request("window/showMessageRequest".into(), Value::Null, "waiting").unwrap();
    let action = receive(&mut service, &frame(r#"{"jsonrpc":"2.0","id":0,"result":{}}"#));
    match action {
        Action::Resolve(sender, outcome) => {
            assert_eq!(sender, "waiting");
            assert_eq!(outcome, Ok(serde_json::from_str::<Value>("{}").unwrap()));
        }
        _ => panic!("not resolved"),
    }
}

#[test]
fn body_that_is_no_message_is_answered_with_a_parse_error() {
    let mut service = service();
    let action = receive(&mut service, b"Content-Length: 4\r\n\r\nHUH!");
    let message = match action {
        Action::Send(message) => message,
        _ => panic!("nothing to send"),
    };
    assert_eq!(
        message,
        Message::Response(Response::error(Error::parse_error(), None))
    );
    assert_eq!(
        service.write(message),
        frame(r#"{"jsonrpc":"2.0","error":{"code":-32700,"message":"Could not parse the input"},"id":null}"#)
    );
    // The connection goes on.
    let action = receive(
        &mut service,
        &frame(r#"{"jsonrpc":"2.0","method":"shutdown","id":1,"params":null}"#),
    );
    assert!(matches!(action, Action::Spawn(_)));
}

#[test]
fn unknown_request_method_is_turned_down() {
    let mut service = service();
    let action = receive(
        &mut service,
        &frame(r#"{"jsonrpc":"2.0","method":"no/such/method","id":17,"params":{}}"#),
    );
    let message = match action {
        Action::Send(message) => message,
        _ => panic!("nothing to send"),
    };
    assert_eq!(
        message,
        Message::Response(Response::error(
            Error::method_not_found_error(),
            Some(Id::Number(17))
        ))
    );
    assert_eq!(
        service.write(message),
        frame(r#"{"jsonrpc":"2.0","error":{"code":-32601,"message":"Method not found"},"id":17}"#)
    );
    // A notification's name does not bind a request.
    let action = receive(
        &mut service,
        &frame(r#"{"jsonrpc":"2.0","method":"initialized","id":"x","params":{}}"#),
    );
    match action {
        Action::Send(Message::Response(response)) => {
            assert_eq!(response.id, Some(Id::String("x".into())));
            assert_eq!(response.error, Some(Error::method_not_found_error()));
            assert_eq!(response.result, None);
        }
        _ => panic!("nothing to send"),
    }
}

#[test]
fn unknown_notification_method_is_dropped_with_a_warning() {
    let mut service = service();
    let action = receive(
        &mut service,
        &frame(r#"{"jsonrpc":"2.0","method":"no/such/method","params":{}}"#),
    );
    match action {
        Action::Warn(text) => assert_eq!(text, "Method not found: no/such/method"),
        _ => panic!("no warning"),
    }
    assert!(!service.is_notifying());
    // A request's name does not bind a notification.
    let action = receive(
        &mut service,
        &frame(r#"{"jsonrpc":"2.0","method":"initialize","params":{}}"#),
    );
    match action {
        Action::Warn(text) => assert_eq!(text, "Method not found: initialize"),
        _ => panic!("no warning"),
    }
}

#[test]
fn responses_that_nothing_awaits_are_flagged() {
    let mut service = service();
    let action = receive(&mut service, &frame(r#"{"jsonrpc":"2.0","id":0,"result":null}"#));
    assert!(matches!(action, Action::Flag(ProtocolViolation::UnexpectedResponse)));
    let action = receive(&mut service, &frame(r#"{"jsonrpc":"2.0","id":null,"result":null}"#));
    assert!(matches!(action, Action::Flag(ProtocolViolation::ResponseWithoutId)));
    service.send_request("foo".into(), Value::Null, "waiting").unwrap();
    let action = receive(
        &mut service,
        &frame(r#"{"jsonrpc":"2.0","id":0,"error":{"code":-32603,"message":"bar"}}"#),
    );
    match action {
        Action::Resolve(sender, outcome) => {
            assert_eq!(sender, "waiting");
            assert_eq!(outcome, Err(Error::internal_error("bar".into())));
        }
        _ => panic!("not resolved"),
    }
    let action = receive(&mut service, &frame(r#"{"jsonrpc":"2.0","id":0,"result":null}"#));
    assert!(matches!(action, Action::Flag(ProtocolViolation::UnexpectedResponse)));
}

#[test]
fn nothing_is_read_while_a_notification_is_handled() {
    let mut service = service();
    let mut bytes = frame(r#"{"jsonrpc":"2.0","method":"textDocument/didOpen","params":1}"#);
    let first = bytes.len();
    bytes.extend_from_slice(&frame(r#"{"jsonrpc":"2.0","method":"textDocument/didClose","params":2}"#));
    let consumed = match service.receive(&bytes) {
        Received::Frame { consumed, action } => {
            match action {
                Action::Notify(notification) => {
                    assert_eq!(
                        notification,
                        Notification::new("textDocument/didOpen".into(), Value::from(1))
                    )
                }
                _ => panic!("no notification"),
            }
            consumed
        }
        _ => panic!("no frame"),
    };
    assert_eq!(consumed, first);
    assert!(service.is_notifying());
    assert!(matches!(service.receive(&bytes[consumed..]), Received::Busy));
    assert!(matches!(service.receive(&bytes[consumed..]), Received::Busy));
    assert!(matches!(service.receive(b"garbage\r\n\r\n"), Received::Busy));
    service.notification_handled();
    assert!(!service.is_notifying());
    match service.receive(&bytes[consumed..]) {
        Received::Frame { consumed, action } => {
            assert_eq!(consumed, bytes.len() - first);
            match action {
                Action::Notify(notification) => {
                    assert_eq!(
                        notification,
                        Notification::new("textDocument/didClose".into(), Value::from(2))
                    )
                }
                _ => panic!("no notification"),
            }
        }
        _ => panic!("no frame"),
    }
}

#[test]
fn requests_do_not_wait_for_each_other() {
    let mut service = service();
    let mut bytes = frame(r#"{"jsonrpc":"2.0","method":"textDocument/hover","id":1,"params":1}"#);
    let first = bytes.len();
    bytes.extend_from_slice(&frame(r#"{"jsonrpc":"2.0","method":"textDocument/hover","id":2,"params":2}"#));
    let one = match service.receive(&bytes) {
        Received::Frame { action: Action::Spawn(request), .. } => request,
        _ => panic!("no request"),
    };
    let two = match service.receive(&bytes[first..]) {
        Received::Frame { action: Action::Spawn(request), .. } => request,
        _ => panic!("no request"),
    };
    assert_eq!(one.id, Id::Number(1));
    assert_eq!(two.id, Id::Number(2));
    // The answers may be written in any order.
    assert_eq!(
        service.write(service.respond(&two, Ok(Value::from("b")))),
        frame(r#"{"jsonrpc":"2.0","result":"b","id":2}"#)
    );
    assert_eq!(
        service.write(service.respond(&one, Err(Error::deserialize_error()))),
        frame(r#"{"jsonrpc":"2.0","error":{"code":-32602,"message":"Could not deserialize parameter object"},"id":1}"#)
    );
}

#[test]
fn incomplete_and_faulty_frames() {
    let mut service = service();
    assert!(matches!(service.receive(b""), Received::Incomplete));
    assert!(matches!(service.receive(b"Content-Length: 4\r\n\r\nHU"), Received::Incomplete));
    assert!(matches!(
        service.receive(b"Content-Type: text/plain\r\n\r\n{}"),
        Received::Closed(FramingError::MissingContentLength)
    ));
    assert!(matches!(
        service.receive(b"Content-Length\r\n\r\n{}"),
        Received::Closed(FramingError::MalformedHeader)
    ));
    assert!(matches!(
        service.receive(b"Content-Length: many\r\n\r\n{}"),
        Received::Closed(FramingError::InvalidLength)
    ));
    assert!(matches!(
        service.receive(b"Content-Length: "),
        Received::Incomplete
    ));
}

/// Marks every message that passes.
struct Stamp;

impl Middleware for Stamp {
    fn on_incoming_message(&self, message: &mut Message) {
        if let Message::Request(request) = message {
            request.params = Value::from("seen");
        }
    }

    fn on_outgoing_response(&self, request: &Request, response: &mut Response) {
        response.result = Some(Value::from(format!("answer to {}", request.method)));
        response.error = None;
    }

    fn on_outgoing_request(&self, request: &mut Request) {
        request.params = Value::from("stamped");
    }

    fn on_outgoing_notification(&self, notification: &mut Notification) {
        notification.params = Value::from("stamped");
    }
}

#[test]
fn middlewares_see_every_message() {
    let methods = vec![JsonRpcMethodArgs::new("known", MethodKind::Request)];
    let middlewares: Vec<Arc<dyn Middleware>> = vec![Arc::new(LoggingMiddleware), Arc::new(Stamp)];
    let mut service: Dispatcher<u8> = Dispatcher::new(methods, middlewares);
    let request = match service.handle_message(Message::Request(Request::new(
        "known".into(),
        Value::Null,
        Id::Number(1),
    ))) {
        Action::Spawn(request) => request,
        _ => panic!("no request"),
    };
    assert_eq!(request.params, Value::from("seen"));
    assert_eq!(
        service.respond(&request, Ok(Value::Null)),
        Message::Response(Response::result(Value::from("answer to known"), Id::Number(1)))
    );
    match service.handle_message(Message::Request(Request::new(
        "unknown".into(),
        Value::Null,
        Id::Number(2),
    ))) {
        Action::Send(message) => assert_eq!(
            message,
            Message::Response(Response::result(Value::from("answer to unknown"), Id::Number(2)))
        ),
        _ => panic!("nothing to send"),
    }
    let message = service.send_request("ask".into(), Value::Null, 0).unwrap();
    assert_eq!(
        service.write(message),
        LspCodec.encode(r#"{"jsonrpc":"2.0","method":"ask","params":"stamped","id":0}"#)
    );
    let message = service.send_notification("tell".into(), Value::Null);
    assert_eq!(
        service.write(message),
        LspCodec.encode(r#"{"jsonrpc":"2.0","method":"tell","params":"stamped"}"#)
    );
    // A response is written as it is handed in.
    assert_eq!(
        service.write(Message::Response(Response::result(Value::Null, Id::Number(3)))),
        LspCodec.encode(r#"{"jsonrpc":"2.0","result":null,"id":3}"#)
    );
}

#[test]
fn outbound_requests_of_a_service_count_up() {
    let mut service: Dispatcher<u8> = Dispatcher::new(Vec::new(), Vec::new());
    for expected in 0..5u64 {
        match service.send_request("ask".into(), Value::Null, 0).unwrap() {
            Message::Request(request) => assert_eq!(request.id, Id::Number(expected)),
            _ => panic!("no request"),
        }
    }
    // The peer numbers its requests by itself: an inbound request with an id
    // that is in use outbound is a request like any other.
    match service.handle_message(Message::Request(Request::new("x".into(), Value::Null, Id::Number(0)))) {
        Action::Send(Message::Response(response)) => assert_eq!(response.id, Some(Id::Number(0))),
        _ => panic!("nothing to send"),
    }
}

#[test]
fn closing_hands_back_the_senders_that_wait() {
    let mut service: Dispatcher<&str> = Dispatcher::new(Vec::new(), Vec::new());
    service.send_request("a".into(), Value::Null, "zero").unwrap();
    service.send_request("b".into(), Value::Null, "one").unwrap();
    assert_eq!(
        service.handle_message(Message::Response(Response::result(Value::Null, Id::Number(0)))),
        Action::Resolve("zero", Ok(Value::Null))
    );
    assert_eq!(service.close(), vec![(1, "one")]);
    assert_eq!(service.close(), Vec::new());
    assert_eq!(
        service.handle_message(Message::Response(Response::result(Value::Null, Id::Number(1)))),
        Action::Flag(ProtocolViolation::UnexpectedResponse)
    );
}

#[test]
fn actions_compare_by_value() {
    let mut service = service();
    assert_eq!(
        service.read("HUH!"),
        Action::Send(Message::Response(Response::error(Error::parse_error(), None)))
    );
    assert_eq!(
        service.read(r#"{"jsonrpc":"2.0","method":"exit","params":null}"#),
        Action::Notify(Notification::new("exit".into(), Value::Null))
    );
    assert_eq!(service.receive(b"Content-Length: 2\r\n\r\n{}"), Received::Busy);
    service.notification_handled();
    assert_eq!(
        service.receive(b"Content-Length: 2\r\n\r\n{}"),
        Received::Frame {
            consumed: 23,
            action: Action::Send(Message::Response(Response::error(Error::parse_error(), None)))
        }
    );
    assert_eq!(
        service.serialize(Message::Response(Response::result(Value::Null, Id::Number(42)))),
        r#"{"jsonrpc":"2.0","result":null,"id":42}"#
    );
}

#[test]
fn nothing_is_acted_on_while_a_notification_is_handled() {
    let mut service = service();
    let first = Message::Notification(Notification::new("textDocument/didOpen".into(), Value::from(1)));
    let second = Message::Notification(Notification::new("textDocument/didClose".into(), Value::from(2)));
    let request = Message::Request(Request::new("shutdown".into(), Value::Null, Id::Number(1)));
    let response = Message::Response(Response::result(Value::Null, Id::Number(0)));
    service.send_request("ask".into(), Value::Null, "waiting").unwrap();
    assert_eq!(
        service.handle_message(first.clone()),
        Action::Notify(Notification::new("textDocument/didOpen".into(), Value::from(1)))
    );
    assert_eq!(service.handle_message(second.clone()), Action::Defer(second.clone()));
    assert_eq!(service.handle_message(request.clone()), Action::Defer(request.clone()));
    assert_eq!(service.handle_message(response.clone()), Action::Defer(response.clone()));
    assert_eq!(
        service.read(r#"{"jsonrpc":"2.0","method":"textDocument/didClose","params":2}"#),
        Action::Defer(second.clone())
    );
    service.notification_handled();
    assert_eq!(
        service.handle_message(second),
        Action::Notify(Notification::new("textDocument/didClose".into(), Value::from(2)))
    );
    service.notification_handled();
    assert_eq!(
        service.handle_message(request),
        Action::Spawn(Request::new("shutdown".into(), Value::Null, Id::Number(1)))
    );
    assert_eq!(
        service.handle_message(response),
        Action::Resolve("waiting", Ok(Value::Null))
    );
}

#[test]
fn body_that_is_no_text_is_answered_with_a_parse_error() {
    let mut service = service();
    assert_eq!(
        service.receive(b"Content-Length: 2\r\n\r\n\xff\xfe"),
        Received::Frame {
            consumed: 23,
            action: Action::Send(Message::Response(Response::error(Error::parse_error(), None)))
        }
    );
    assert_eq!(
        service.read_bytes(b"{\"jsonrpc\":\"2.0\",\"method\":\"ex\xc3\",\"params\":null}"),
        Action::Send(Message::Response(Response::error(Error::parse_error(), None)))
    );
    assert_eq!(
        service.read_bytes("{\"jsonrpc\":\"2.0\",\"method\":\"\u{e9}\",\"params\":null}".as_bytes()),
        Action::Warn("Method not found: \u{e9}".to_owned())
    );
    // The connection goes on.
    assert_eq!(
        service.read_bytes(b"{\"jsonrpc\":\"2.0\",\"method\":\"exit\",\"params\":null}"),
        Action::Notify(Notification::new("exit".into(), Value::Null))
    );
}

#[test]
fn request_without_params_is_a_request() {
    let mut service = service();
    let action = receive(
        &mut service,
        &frame(r#"{"jsonrpc":"2.0","id":1,"method":"shutdown"}"#),
    );
    let request = match action {
        Action::Spawn(request) => request,
        other => panic!("not a request: {:?}", other),
    };
    assert_eq!(
        request,
        Request::new("shutdown".into(), Value::Null, Id::Number(1))
    );
    serde_json::from_value::<()>(request.params.clone()).unwrap();
    assert_eq!(
        service.write(service.respond(&request, Ok(serde_json::to_value(()).unwrap()))),
        frame(r#"{"jsonrpc":"2.0","result":null,"id":1}"#)
    );
    // Nothing went to the client, and the service reads on.
    service.send_request("ask".into(), Value::Null, "waiting").unwrap();
    let action = receive(
        &mut service,
        &frame(r#"{"jsonrpc":"2.0","id":0,"method":"no/such/method"}"#),
    );
    assert_eq!(
        action,
        Action::Send(Message::Response(Response::error(
            Error::method_not_found_error(),
            Some(Id::Number(0))
        )))
    );
    let action = receive(&mut service, &frame(r#"{"jsonrpc":"2.0","id":0,"result":1}"#));
    assert_eq!(action, Action::Resolve("waiting", Ok(Value::from(1))));
}

#[test]
fn notification_without_params_is_a_notification() {
    let mut service = service();
    let action = receive(&mut service, &frame(r#"{"jsonrpc":"2.0","method":"exit"}"#));
    assert_eq!(
        action,
        Action::Notify(Notification::new("exit".into(), Value::Null))
    );
    service.notification_handled();
    let action = receive(&mut service, &frame(r#"{"jsonrpc":"2.0","method":"no/such/method"}"#));
    assert_eq!(action, Action::Warn("Method not found: no/such/method".to_owned()));
}

#[test]
fn inbound_ids_do_not_move_the_outbound_counter() {
    let mut service: Dispatcher<u8> = Dispatcher::new(language_server_methods(), Vec::new());
    assert_eq!(service.next_id(), 0);
    for id in [7u64, 0, 1, 7] {
        let action = service.handle_message(Message::Request(Request::new(
            "shutdown".into(),
            Value::Null,
            Id::Number(id),
        )));
        assert!(matches!(action, Action::Spawn(_)));
        assert_eq!(service.next_id(), 0);
    }
    assert_eq!(
        service.send_request("ask".into(), Value::Null, 1).unwrap(),
        Message::Request(Request::new("ask".into(), Value::Null, Id::Number(0)))
    );
    assert_eq!(
        service.send_request("ask".into(), Value::Null, 2).unwrap(),
        Message::Request(Request::new("ask".into(), Value::Null, Id::Number(1)))
    );
    assert_eq!(service.next_id(), 2);
}
