//! The dispatcher of a connection.
//!
//! A [`Dispatcher`] holds what a service decides with: the table of bound
//! methods, the chain of middlewares and the client. It reads no stream and
//! runs no handler. The host feeds it the bytes that it has received and gets
//! back, frame by frame, what to do: run the handler of a request or of a
//! notification, resume the sender of an outbound request, send a message, or
//! report what the peer did wrong. The host reports back when the handler of a
//! notification is done, and hands in what the handler of a request
//! delivered; the dispatcher then says which bytes to write.
use crate::client::{drained, Client, ClientView, ProtocolViolation, Resolution};
use crate::codec::{
    decode_frame, frame, lemma_frame_round_trip, Decoded, FramingError, LspCodec,
};
use crate::json::{json_parse, json_view, Json};
use crate::jsonrpc::{
    outcome_view, protocol_version, Error, ErrorCode, ErrorView, Message, MessageView,
    Notification, NotificationView, Request, RequestView, Response, ResponseView,
};
use crate::middleware::{
    chain_incoming, chain_outgoing_notification, chain_outgoing_request, chain_outgoing_response,
    AggregateMiddleware, Middleware,
};
use crate::server::{
    answer, bindings, binds, is_bound, lemma_answer_echoes_id, refusal, refuse, respond,
    JsonRpcMethodArgs, MethodKind,
};
use crate::text::{from_utf8, text_of};
use crate::wire::{
    has_version, lemma_message_kind, message_from_text, message_text, method_of, request_id_of,
};
use std::sync::Arc;
use vstd::prelude::*;
use vstd::string::StringExecFns;
use vstd::utf8::{encode_utf8, encode_utf8_decode_utf8, encode_utf8_valid_utf8};

verus! {

/// What the host is to do about a message that has come in.
#[derive(Debug, PartialEq)]
pub enum Action<S> {
    /// Run the handler of this request, concurrently with what follows, and
    /// hand what it delivers to [`Dispatcher::respond`].
    Spawn(Request),
    /// Run the handler of this notification to its end, then call
    /// [`Dispatcher::notification_handled`]. Until then no frame is read and
    /// no message is acted on.
    Notify(Notification),
    /// Resume the sender of an outbound request with what the peer answered.
    Resolve(S, Result<serde_json::Value, Error>),
    /// Send this message.
    Send(Message),
    /// Nothing is bound to the method of a notification: warn with this
    /// text, and go on.
    Warn(String),
    /// The peer sent a response that it should not have sent.
    Flag(ProtocolViolation),
    /// The handler of a notification is running, and nothing is acted on
    /// until it is done: hand this message in again then.
    Defer(Message),
}

/// An action as a plain value.
pub enum ActionView<S> {
    Spawn(RequestView),
    Notify(NotificationView),
    Resolve(S, Result<Json, ErrorView>),
    Send(MessageView),
    Warn(Seq<char>),
    Flag(ProtocolViolation),
    Defer(MessageView),
}

impl<S> View for Action<S> {
    type V = ActionView<S>;

    open spec fn view(&self) -> ActionView<S> {
        match self {
            Action::Spawn(request) => ActionView::Spawn(request@),
            Action::Notify(notification) => ActionView::Notify(notification@),
            Action::Resolve(sender, outcome) => ActionView::Resolve(*sender, outcome_view(*outcome)),
            Action::Send(message) => ActionView::Send(message@),
            Action::Warn(text) => ActionView::Warn(text@),
            Action::Flag(violation) => ActionView::Flag(*violation),
            Action::Defer(message) => ActionView::Defer(message@),
        }
    }
}

/// What the bytes received so far gave.
#[derive(Debug, PartialEq)]
pub enum Received<S> {
    /// The handler of a notification is still running: nothing was read.
    Busy,
    /// No complete frame has arrived yet.
    Incomplete,
    /// The bytes are no frame. The connection is at its end.
    Closed(FramingError),
    /// A frame was read: it took up the first `consumed` bytes, and `action`
    /// is what to do about it.
    Frame { consumed: usize, action: Action<S> },
}

/// What was received, as a plain value.
pub enum ReceivedView<S> {
    Busy,
    Incomplete,
    Closed(FramingError),
    Frame { consumed: int, action: ActionView<S> },
}

impl<S> View for Received<S> {
    type V = ReceivedView<S>;

    open spec fn view(&self) -> ReceivedView<S> {
        match self {
            Received::Busy => ReceivedView::Busy,
            Received::Incomplete => ReceivedView::Incomplete,
            Received::Closed(error) => ReceivedView::Closed(*error),
            Received::Frame { consumed, action } => ReceivedView::Frame {
                consumed: *consumed as int,
                action: action@,
            },
        }
    }
}

/// The state of a dispatcher as a plain value.
pub struct DispatcherView<S> {
    /// The methods to which the host has bound a handler.
    pub methods: Seq<(Seq<char>, MethodKind)>,
    /// The middlewares, in the order of their registration.
    pub middlewares: Seq<Arc<dyn Middleware>>,
    /// The outbound requests in flight.
    pub client: ClientView<S>,
    /// Whether the handler of a notification is running.
    pub notifying: bool,
}

/// The response that reports a frame whose body is no message. It names no
/// request.
pub open spec fn parse_failure() -> ResponseView {
    ResponseView::failure(ErrorView::plain(ErrorCode::ParseError, "Could not parse the input"@), None)
}

/// The warning about a notification to whose method nothing is bound.
pub open spec fn unbound_warning(method: Seq<char>) -> Seq<char> {
    "Method not found: "@ + method
}

impl<S> DispatcherView<S> {
    /// What a message does that has come in while no handler of a
    /// notification is running. The middlewares see it first. Then a request
    /// goes to its handler, or is turned down if nothing is bound to its
    /// method; a notification goes to its handler, or is dropped with a
    /// warning; a response goes to the client.
    pub open spec fn route(self, message: MessageView) -> (DispatcherView<S>, ActionView<S>) {
        match chain_incoming(self.middlewares, message) {
            MessageView::Request(request) => if binds(
                self.methods,
                request.method,
                MethodKind::Request,
            ) {
                (self, ActionView::Spawn(request))
            } else {
                (self, ActionView::Send(MessageView::Response(self.response(request, refusal(request)))))
            },
            MessageView::Notification(notification) => if binds(
                self.methods,
                notification.method,
                MethodKind::Notification,
            ) {
                (DispatcherView { notifying: true, ..self }, ActionView::Notify(notification))
            } else {
                (self, ActionView::Warn(unbound_warning(notification.method)))
            },
            MessageView::Response(response) => match self.client.resolve(response) {
                Resolution::Resolved { client, sender, outcome } => (
                    DispatcherView { client, ..self },
                    ActionView::Resolve(sender, outcome),
                ),
                Resolution::Flagged(violation) => (self, ActionView::Flag(violation)),
            },
        }
    }

    /// What a message does that has come in. While the handler of a
    /// notification runs, the message is handed back untouched; else it is
    /// routed.
    pub open spec fn dispatch(self, message: MessageView) -> (DispatcherView<S>, ActionView<S>) {
        if self.notifying {
            (self, ActionView::Defer(message))
        } else {
            self.route(message)
        }
    }

    /// What the body of a frame does. A body that is no message is reported
    /// to the peer, and the connection goes on.
    pub open spec fn read(self, body: Seq<char>) -> (DispatcherView<S>, ActionView<S>) {
        match message_from_text(body) {
            Some(message) => self.dispatch(message),
            None => (self, ActionView::Send(MessageView::Response(parse_failure()))),
        }
    }

    /// What the body of a frame does, as the bytes that came: bytes that are
    /// no UTF-8 text are no message either.
    pub open spec fn read_bytes(self, body: Seq<u8>) -> (DispatcherView<S>, ActionView<S>) {
        match text_of(body) {
            Some(text) => self.read(text),
            None => (self, ActionView::Send(MessageView::Response(parse_failure()))),
        }
    }

    /// What the bytes received so far do. While the handler of a notification
    /// runs, nothing is read.
    pub open spec fn receive(self, buffer: Seq<u8>) -> (DispatcherView<S>, ReceivedView<S>) {
        if self.notifying {
            (self, ReceivedView::Busy)
        } else {
            match decode_frame(buffer) {
                Decoded::Incomplete => (self, ReceivedView::Incomplete),
                Decoded::Invalid(error) => (self, ReceivedView::Closed(error)),
                Decoded::Frame { body, consumed } => (
                    self.read_bytes(body).0,
                    ReceivedView::Frame { consumed, action: self.read_bytes(body).1 },
                ),
            }
        }
    }

    /// A response to `request` as it is sent: after the middlewares have seen
    /// it.
    pub open spec fn response(self, request: RequestView, response: ResponseView) -> ResponseView {
        chain_outgoing_response(self.middlewares, request, response)
    }

    /// A message as it is written: a request and a notification after the
    /// middlewares have seen them, a response as it is.
    pub open spec fn outgoing(self, message: MessageView) -> MessageView {
        match message {
            MessageView::Request(request) => MessageView::Request(
                chain_outgoing_request(self.middlewares, request),
            ),
            MessageView::Notification(notification) => MessageView::Notification(
                chain_outgoing_notification(self.middlewares, notification),
            ),
            MessageView::Response(response) => MessageView::Response(response),
        }
    }

    /// The text that is sent for a message.
    pub open spec fn serialized(self, message: MessageView) -> Seq<char> {
        message_text(self.outgoing(message))
    }

    /// The bytes that are written for a message: the frame that carries its
    /// text.
    pub open spec fn written(self, message: MessageView) -> Seq<u8> {
        frame(encode_utf8(self.serialized(message)))
    }
}

/// The decisions of a service for one connection.
pub struct Dispatcher<S> {
    methods: Vec<JsonRpcMethodArgs>,
    middleware: AggregateMiddleware,
    client: Client<S>,
    notifying: bool,
}

impl<S> View for Dispatcher<S> {
    type V = DispatcherView<S>;

    closed spec fn view(&self) -> DispatcherView<S> {
        DispatcherView {
            methods: bindings(self.methods@),
            middlewares: self.middleware.middlewares@,
            client: self.client@,
            notifying: self.notifying,
        }
    }
}

impl<S> Dispatcher<S> {
    /// A dispatcher for a new connection: with these bound methods and these
    /// middlewares, a client that has sent nothing, and no handler running.
    pub fn new(methods: Vec<JsonRpcMethodArgs>, middlewares: Vec<Arc<dyn Middleware>>) -> (dispatcher:
        Self)
        ensures
            dispatcher@ == (DispatcherView {
                methods: bindings(methods@),
                middlewares: middlewares@,
                client: ClientView::<S>::fresh(),
                notifying: false,
            }),
    {
        Dispatcher {
            methods,
            middleware: AggregateMiddleware { middlewares },
            client: Client::new(),
            notifying: false,
        }
    }

    /// Whether the handler of a notification is running.
    pub fn is_notifying(&self) -> (notifying: bool)
        ensures
            notifying == self@.notifying,
    {
        self.notifying
    }

    /// The identifier that the next outbound request gets.
    pub fn next_id(&self) -> (id: u64)
        ensures
            id == self@.client.next_id,
    {
        self.client.next_id()
    }

    /// Decides what to do about a message that has come in. While the handler
    /// of a notification runs, the message is handed back as it came.
    pub fn handle_message(&mut self, message: Message) -> (action: Action<S>)
        ensures
            (final(self)@, action@) == old(self)@.dispatch(message@),
    {
        if self.notifying {
            return Action::Defer(message);
        }
        let mut message = message;
        self.middleware.on_incoming_message(&mut message);
        match message {
            Message::Request(request) => {
                if is_bound(&self.methods, request.method.as_str(), MethodKind::Request) {
                    Action::Spawn(request)
                } else {
                    let mut response = refuse(&request);
                    self.middleware.on_outgoing_response(&request, &mut response);
                    Action::Send(Message::Response(response))
                }
            },
            Message::Notification(notification) => {
                if is_bound(&self.methods, notification.method.as_str(), MethodKind::Notification) {
                    self.notifying = true;
                    Action::Notify(notification)
                } else {
                    let warning = String::from_str("Method not found: ").concat(
                        notification.method.as_str(),
                    );
                    Action::Warn(warning)
                }
            },
            Message::Response(response) => match self.client.handle(response) {
                Ok((sender, outcome)) => Action::Resolve(sender, outcome),
                Err(violation) => Action::Flag(violation),
            },
        }
    }

    /// Decides what to do about the body of a frame: a body that stands for a
    /// message is handled as [`Dispatcher::handle_message`] says, and any other
    /// is answered with a parse error.
    pub fn read(&mut self, body: &str) -> (action: Action<S>)
        ensures
            (final(self)@, action@) == old(self)@.read(body@),
    {
        match Message::from_json_str(body) {
            Some(message) => self.handle_message(message),
            None => Action::Send(Message::Response(Response::error(Error::parse_error(), None))),
        }
    }

    /// Decides what to do about the body of a frame, as the bytes that came.
    /// Bytes that are no UTF-8 text are answered with a parse error, like any
    /// other body that is no message.
    pub fn read_bytes(&mut self, body: &[u8]) -> (action: Action<S>)
        ensures
            (final(self)@, action@) == old(self)@.read_bytes(body@),
    {
        match from_utf8(body) {
            Some(text) => self.read(text),
            None => Action::Send(Message::Response(Response::error(Error::parse_error(), None))),
        }
    }

    /// Reads the first frame from the bytes received so far and decides what
    /// to do about it. The host drops the bytes that the frame took up and
    /// calls again. While the handler of a notification runs, nothing is read:
    /// no later message is acted on before that handler is done.
    pub fn receive(&mut self, buffer: &[u8]) -> (received: Received<S>)
        ensures
            (final(self)@, received@) == old(self)@.receive(buffer@),
            received matches Received::Frame { consumed, .. } ==> 0 < consumed <= buffer@.len(),
    {
        if self.notifying {
            return Received::Busy;
        }
        let codec = LspCodec;
        match codec.decode(buffer) {
            Ok(None) => Received::Incomplete,
            Err(error) => Received::Closed(error),
            Ok(Some((body, consumed))) => {
                let action = self.read_bytes(body);
                Received::Frame { consumed, action }
            },
        }
    }

    /// Takes note that the handler of the last notification is done.
    pub fn notification_handled(&mut self)
        ensures
            final(self)@ == (DispatcherView { notifying: false, ..old(self)@ }),
    {
        self.notifying = false;
    }

    /// The message that answers `request` with what its handler delivered,
    /// after the middlewares have seen it.
    pub fn respond(&self, request: &Request, outcome: Result<serde_json::Value, Error>) -> (message:
        Message)
        ensures
            message@ == MessageView::Response(
                self@.response(request@, answer(request@, outcome_view(outcome))),
            ),
    {
        let mut response = respond(request, outcome);
        self.middleware.on_outgoing_response(request, &mut response);
        Message::Response(response)
    }

    /// Issues a request to the peer: the message to send. `sender` is kept
    /// until the response comes in. A dispatcher whose client has no
    /// identifier left issues nothing and hands the sender back.
    pub fn send_request(&mut self, method: String, params: serde_json::Value, sender: S) -> (sent:
        Result<Message, S>)
        ensures
            final(self)@ == (DispatcherView {
                client: old(self)@.client.issue(sender),
                ..old(self)@
            }),
            old(self)@.client.valid() ==> final(self)@.client.valid(),
            match sent {
                Ok(message) => {
                    &&& old(self)@.client.can_issue()
                    &&& message@ == MessageView::Request(
                        old(self)@.client.request(method@, json_view(params)),
                    )
                    &&& old(self)@.client.valid() ==> !old(self)@.client.pending.contains_key(
                        old(self)@.client.next_id,
                    )
                },
                Err(unsent) => !old(self)@.client.can_issue() && unsent == sender,
            },
    {
        self.client.send_request(method, params, sender)
    }

    /// The message to send for a notification to the peer.
    pub fn send_notification(&self, method: String, params: serde_json::Value) -> (message: Message)
        ensures
            message@ == MessageView::Notification(
                NotificationView {
                    jsonrpc: protocol_version(),
                    method: method@,
                    params: json_view(params),
                },
            ),
    {
        self.client.send_notification(method, params)
    }

    /// Ends the connection: takes out the senders of the outbound requests
    /// that still await a response, each with the number of its request. No
    /// response will resume them any more; the host tells them so, with
    /// [`Error::connection_closed`].
    pub fn close(&mut self) -> (abandoned: Vec<(u64, S)>)
        ensures
            final(self)@ == (DispatcherView { client: old(self)@.client.drain(), ..old(self)@ }),
            drained(old(self)@.client.pending, abandoned@),
    {
        self.client.drain()
    }

    /// The text to send for a message. The middlewares see a request and a
    /// notification first; a response has been through them when it was made.
    pub fn serialize(&self, message: Message) -> (text: String)
        ensures
            text@ == self@.serialized(message@),
    {
        let mut message = message;
        match &mut message {
            Message::Request(request) => {
                self.middleware.on_outgoing_request(request);
            },
            Message::Notification(notification) => {
                self.middleware.on_outgoing_notification(notification);
            },
            Message::Response(_) => {},
        }
        message.to_json_string()
    }

    /// The bytes to write for a message: one frame, which carries the text of
    /// the message as the middlewares leave it.
    pub fn write(&self, message: Message) -> (bytes: Vec<u8>)
        ensures
            bytes@ == self@.written(message@),
    {
        let text = self.serialize(message);
        let codec = LspCodec;
        codec.encode(text.as_str())
    }
}

/// What is written for a message is one frame: whatever is written after it,
/// the bytes decode to the text of the message and to nothing less or more.
pub proof fn lemma_written_is_one_frame<S>(
    dispatcher: DispatcherView<S>,
    message: MessageView,
    rest: Seq<u8>,
)
    requires
        encode_utf8(dispatcher.serialized(message)).len() <= usize::MAX,
    ensures
        decode_frame(dispatcher.written(message) + rest) == (Decoded::Frame {
            body: encode_utf8(dispatcher.serialized(message)),
            consumed: dispatcher.written(message).len() as int,
        }),
        text_of(encode_utf8(dispatcher.serialized(message))) == Some(
            dispatcher.serialized(message),
        ),
{
    lemma_frame_round_trip(encode_utf8(dispatcher.serialized(message)), rest);
    encode_utf8_valid_utf8(dispatcher.serialized(message));
    encode_utf8_decode_utf8(dispatcher.serialized(message));
}

/// Whether the middlewares leave the identifier of every response to
/// `request` as it is.
pub open spec fn keeps_response_ids(
    middlewares: Seq<Arc<dyn Middleware>>,
    request: RequestView,
) -> bool {
    forall|response: ResponseView|
        (#[trigger] chain_outgoing_response(middlewares, request, response)).id == response.id
}

/// Every request that comes in is answered under its own identifier. The
/// request that the middlewares hand on goes to its handler, and whatever the
/// handler delivers, the answer names the request and holds either a result
/// or an error; or nothing is bound to its method, and the refusal names it.
/// The dispatcher stays as it was. The answer still names the request when
/// it is sent, unless a middleware rewrites the identifier.
pub proof fn lemma_request_answered<S>(
    dispatcher: DispatcherView<S>,
    message: MessageView,
    request: RequestView,
    outcome: Result<Json, ErrorView>,
)
    requires
        !dispatcher.notifying,
        chain_incoming(dispatcher.middlewares, message) == MessageView::Request(request),
    ensures
        dispatcher.dispatch(message).0 == dispatcher,
        binds(dispatcher.methods, request.method, MethodKind::Request) ==> {
            &&& dispatcher.dispatch(message).1 == ActionView::<S>::Spawn(request)
            &&& answer(request, outcome).id == Some(request.id)
            &&& answer(request, outcome).result is Some <==> outcome is Ok
            &&& answer(request, outcome).error is Some <==> outcome is Err
        },
        !binds(dispatcher.methods, request.method, MethodKind::Request) ==> {
            &&& dispatcher.dispatch(message).1 == ActionView::<S>::Send(
                MessageView::Response(dispatcher.response(request, refusal(request))),
            )
            &&& refusal(request).id == Some(request.id)
            &&& refusal(request).result is None
            &&& refusal(request).error == Some(
                ErrorView::plain(ErrorCode::MethodNotFound, "Method not found"@),
            )
        },
        keeps_response_ids(dispatcher.middlewares, request) ==> {
            &&& dispatcher.response(request, answer(request, outcome)).id == Some(request.id)
            &&& dispatcher.response(request, refusal(request)).id == Some(request.id)
        },
        dispatcher.middlewares.len() == 0 ==> {
            &&& request == message->Request_0
            &&& keeps_response_ids(dispatcher.middlewares, request)
            &&& dispatcher.response(request, answer(request, outcome)) == answer(request, outcome)
            &&& dispatcher.response(request, refusal(request)) == refusal(request)
        },
{
    lemma_answer_echoes_id(request, outcome);
}

/// Notifications are handled one after the other: once a notification has
/// gone to its handler, the dispatcher reads nothing, whatever bytes it is
/// given, and acts on no message, until the host has reported that the handler
/// is done.
pub proof fn lemma_notifications_in_order<S>(
    dispatcher: DispatcherView<S>,
    message: MessageView,
    later: MessageView,
    bytes: Seq<u8>,
)
    requires
        dispatcher.dispatch(message).1 is Notify,
    ensures
        dispatcher.dispatch(message).0.notifying,
        dispatcher.dispatch(message).0.dispatch(later) == (
            dispatcher.dispatch(message).0,
            ActionView::<S>::Defer(later),
        ),
        dispatcher.dispatch(message).0.receive(bytes) == (
            dispatcher.dispatch(message).0,
            ReceivedView::<S>::Busy,
        ),
{
}

/// A body that names a method never reaches the client: it is a request or a
/// notification, with or without `params`, and is dispatched as one. Unless a
/// middleware makes a response of it, the table of outbound requests stays as
/// it is, nothing is resolved and nothing is flagged.
pub proof fn lemma_call_is_no_response<S>(
    dispatcher: DispatcherView<S>,
    body: Seq<char>,
    document: Json,
)
    requires
        json_parse(body) == Some(document),
        has_version(document),
        method_of(document) is Some,
    ensures
        message_from_text(body) is Some,
        !(message_from_text(body)->Some_0 is Response),
        request_id_of(document) is Some <==> message_from_text(body)->Some_0 is Request,
        !(chain_incoming(dispatcher.middlewares, message_from_text(body)->Some_0) is Response)
            ==> {
            &&& dispatcher.read(body).0.client == dispatcher.client
            &&& !(dispatcher.read(body).1 is Resolve)
            &&& !(dispatcher.read(body).1 is Flag)
        },
        dispatcher.middlewares.len() == 0 ==> !(chain_incoming(
            dispatcher.middlewares,
            message_from_text(body)->Some_0,
        ) is Response),
{
    lemma_message_kind(document);
}

/// What comes in from the peer does not move the counter of outbound
/// requests: a request of the peer, whatever its identifier, and a
/// notification leave the client as it is, and a response takes at most its
/// own sender out of the table.
pub proof fn lemma_inbound_keeps_counter<S>(dispatcher: DispatcherView<S>, message: MessageView)
    requires
        dispatcher.client.valid(),
    ensures
        dispatcher.dispatch(message).0.client.next_id == dispatcher.client.next_id,
        dispatcher.dispatch(message).0.client.valid(),
        !(dispatcher.dispatch(message).1 is Resolve) ==> dispatcher.dispatch(message).0.client
            == dispatcher.client,
        dispatcher.dispatch(message).0.methods == dispatcher.methods,
        dispatcher.dispatch(message).0.middlewares == dispatcher.middlewares,
{
}

/// Only a notification that goes to its handler makes the dispatcher wait,
/// and only the report that the handler is done ends the wait: no other
/// message changes whether the dispatcher waits.
pub proof fn lemma_waits_for_notifications_only<S>(
    dispatcher: DispatcherView<S>,
    message: MessageView,
)
    ensures
        dispatcher.dispatch(message).0.notifying == (dispatcher.notifying || dispatcher.dispatch(
            message,
        ).1 is Notify),
        dispatcher.dispatch(message).1 is Defer <==> dispatcher.notifying,
{
}

/// A notification to whose method nothing is bound leaves no trace: nothing
/// is sent, the host is told to warn, and the dispatcher stays as it was.
pub proof fn lemma_unbound_notification_dropped<S>(
    dispatcher: DispatcherView<S>,
    message: MessageView,
    notification: NotificationView,
)
    requires
        !dispatcher.notifying,
        chain_incoming(dispatcher.middlewares, message) == MessageView::Notification(notification),
        !binds(dispatcher.methods, notification.method, MethodKind::Notification),
    ensures
        dispatcher.dispatch(message) == (
            dispatcher,
            ActionView::<S>::Warn(unbound_warning(notification.method)),
        ),
{
}

/// A frame whose body is no message is answered with a parse error that names
/// no request, and the connection goes on: the dispatcher stays as it was and
/// reads the next frame like any other.
pub proof fn lemma_unreadable_body_answered<S>(dispatcher: DispatcherView<S>, body: Seq<u8>)
    requires
        match text_of(body) {
            Some(text) => message_from_text(text) is None,
            None => true,
        },
    ensures
        dispatcher.read_bytes(body) == (
            dispatcher,
            ActionView::<S>::Send(MessageView::Response(parse_failure())),
        ),
        parse_failure().id is None,
        parse_failure().result is None,
        parse_failure().error->Some_0.code == ErrorCode::ParseError,
{
}

} // verus!
