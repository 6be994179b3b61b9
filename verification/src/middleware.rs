//! Middlewares: interceptors that see every message on its way in and on its
//! way out, and may change it.
//!
//! What a hook makes of a message is a function of the middleware and the
//! message, named by a spec function of the trait. That lets the chain say
//! exactly what it does: it applies its middlewares in the order in which they
//! were registered. A middleware is taken to leave messages as they are unless
//! it says otherwise; one that changes them states what it makes of them in
//! place of the trait's own spec functions.
use crate::json::{json_pretty_text, json_view, to_pretty_text, Json};
use crate::jsonrpc::{
    Message, MessageView, Notification, NotificationView, Request, RequestView, Response,
    ResponseView,
};
use crate::wire::{message_to_json, notification_to_json, request_to_json, response_to_json};
use std::sync::Arc;
use vstd::prelude::*;
use vstd::string::StringExecFns;

verus! {

/// Allows to do additional work before and/or after processing the message.
pub trait Middleware: Send + Sync {
    /// What the middleware makes of an incoming message.
    open spec fn incoming(&self, message: MessageView) -> MessageView {
        message
    }

    /// What the middleware makes of a response that answers `request`.
    open spec fn outgoing_response(
        &self,
        request: RequestView,
        response: ResponseView,
    ) -> ResponseView {
        response
    }

    /// What the middleware makes of an outgoing request.
    open spec fn outgoing_request(&self, request: RequestView) -> RequestView {
        request
    }

    /// What the middleware makes of an outgoing notification.
    open spec fn outgoing_notification(&self, notification: NotificationView) -> NotificationView {
        notification
    }

    /// Method invoked before an incoming message is being processed.
    fn on_incoming_message(&self, message: &mut Message)
        ensures
            final(message)@ == self.incoming(old(message)@),
    ;

    /// Method invoked before an outgoing response is being sent.
    fn on_outgoing_response(&self, request: &Request, response: &mut Response)
        ensures
            final(response)@ == self.outgoing_response(request@, old(response)@),
    ;

    /// Method invoked before an outgoing request is being sent.
    fn on_outgoing_request(&self, request: &mut Request)
        ensures
            final(request)@ == self.outgoing_request(old(request)@),
    ;

    /// Method invoked before an outgoing notification is being sent.
    fn on_outgoing_notification(&self, notification: &mut Notification)
        ensures
            final(notification)@ == self.outgoing_notification(old(notification)@),
    ;
}

/// An incoming message after the middlewares have seen it, first to last.
pub open spec fn chain_incoming(
    middlewares: Seq<Arc<dyn Middleware>>,
    message: MessageView,
) -> MessageView
    decreases middlewares.len(),
{
    if middlewares.len() == 0 {
        message
    } else {
        middlewares.last().incoming(chain_incoming(middlewares.drop_last(), message))
    }
}

/// A response to `request` after the middlewares have seen it, first to last.
pub open spec fn chain_outgoing_response(
    middlewares: Seq<Arc<dyn Middleware>>,
    request: RequestView,
    response: ResponseView,
) -> ResponseView
    decreases middlewares.len(),
{
    if middlewares.len() == 0 {
        response
    } else {
        middlewares.last().outgoing_response(
            request,
            chain_outgoing_response(middlewares.drop_last(), request, response),
        )
    }
}

/// An outgoing request after the middlewares have seen it, first to last.
pub open spec fn chain_outgoing_request(
    middlewares: Seq<Arc<dyn Middleware>>,
    request: RequestView,
) -> RequestView
    decreases middlewares.len(),
{
    if middlewares.len() == 0 {
        request
    } else {
        middlewares.last().outgoing_request(
            chain_outgoing_request(middlewares.drop_last(), request),
        )
    }
}

/// An outgoing notification after the middlewares have seen it, first to
/// last.
pub open spec fn chain_outgoing_notification(
    middlewares: Seq<Arc<dyn Middleware>>,
    notification: NotificationView,
) -> NotificationView
    decreases middlewares.len(),
{
    if middlewares.len() == 0 {
        notification
    } else {
        middlewares.last().outgoing_notification(
            chain_outgoing_notification(middlewares.drop_last(), notification),
        )
    }
}

/// The chain of the middlewares that are registered with a service, in the
/// order of their registration.
pub struct AggregateMiddleware {
    pub middlewares: Vec<Arc<dyn Middleware>>,
}

impl Middleware for AggregateMiddleware {
    open spec fn incoming(&self, message: MessageView) -> MessageView {
        chain_incoming(self.middlewares@, message)
    }

    open spec fn outgoing_response(
        &self,
        request: RequestView,
        response: ResponseView,
    ) -> ResponseView {
        chain_outgoing_response(self.middlewares@, request, response)
    }

    open spec fn outgoing_request(&self, request: RequestView) -> RequestView {
        chain_outgoing_request(self.middlewares@, request)
    }

    open spec fn outgoing_notification(&self, notification: NotificationView) -> NotificationView {
        chain_outgoing_notification(self.middlewares@, notification)
    }

    fn on_incoming_message(&self, message: &mut Message) {
        let mut i: usize = 0;
        while i < self.middlewares.len()
            invariant
                i <= self.middlewares@.len(),
                message@ == chain_incoming(self.middlewares@.take(i as int), old(message)@),
            decreases self.middlewares@.len() - i,
        {
            proof {
                assert(self.middlewares@.take(i + 1).drop_last() =~= self.middlewares@.take(
                    i as int,
                ));
            }
            self.middlewares[i].on_incoming_message(message);
            i = i + 1;
        }
        proof {
            assert(self.middlewares@.take(i as int) =~= self.middlewares@);
        }
    }

    fn on_outgoing_response(&self, request: &Request, response: &mut Response) {
        let mut i: usize = 0;
        while i < self.middlewares.len()
            invariant
                i <= self.middlewares@.len(),
                response@ == chain_outgoing_response(
                    self.middlewares@.take(i as int),
                    request@,
                    old(response)@,
                ),
            decreases self.middlewares@.len() - i,
        {
            proof {
                assert(self.middlewares@.take(i + 1).drop_last() =~= self.middlewares@.take(
                    i as int,
                ));
            }
            self.middlewares[i].on_outgoing_response(request, response);
            i = i + 1;
        }
        proof {
            assert(self.middlewares@.take(i as int) =~= self.middlewares@);
        }
    }

    fn on_outgoing_request(&self, request: &mut Request) {
        let mut i: usize = 0;
        while i < self.middlewares.len()
            invariant
                i <= self.middlewares@.len(),
                request@ == chain_outgoing_request(
                    self.middlewares@.take(i as int),
                    old(request)@,
                ),
            decreases self.middlewares@.len() - i,
        {
            proof {
                assert(self.middlewares@.take(i + 1).drop_last() =~= self.middlewares@.take(
                    i as int,
                ));
            }
            self.middlewares[i].on_outgoing_request(request);
            i = i + 1;
        }
        proof {
            assert(self.middlewares@.take(i as int) =~= self.middlewares@);
        }
    }

    fn on_outgoing_notification(&self, notification: &mut Notification) {
        let mut i: usize = 0;
        while i < self.middlewares.len()
            invariant
                i <= self.middlewares@.len(),
                notification@ == chain_outgoing_notification(
                    self.middlewares@.take(i as int),
                    old(notification)@,
                ),
            decreases self.middlewares@.len() - i,
        {
            proof {
                assert(self.middlewares@.take(i + 1).drop_last() =~= self.middlewares@.take(
                    i as int,
                ));
            }
            self.middlewares[i].on_outgoing_notification(notification);
            i = i + 1;
        }
        proof {
            assert(self.middlewares@.take(i as int) =~= self.middlewares@);
        }
    }
}

/// A middleware that leaves every message as it is.
pub struct NoOpMiddleware;

impl Middleware for NoOpMiddleware {
    fn on_incoming_message(&self, message: &mut Message) {
    }

    fn on_outgoing_response(&self, request: &Request, response: &mut Response) {
    }

    fn on_outgoing_request(&self, request: &mut Request) {
    }

    fn on_outgoing_notification(&self, notification: &mut Notification) {
    }
}

/// The record of a message for the log: a headline, a colon, and the message
/// as indented JSON on lines of its own.
pub open spec fn log_record(headline: Seq<char>, document: Json) -> Seq<char> {
    headline + ":\n"@ + json_pretty_text(document) + "\n"@
}

/// The headline under which an incoming message is logged.
pub open spec fn received_headline(message: MessageView) -> Seq<char> {
    match message {
        MessageView::Request(_) => "Received request (->)"@,
        MessageView::Notification(_) => "Received notification (->)"@,
        MessageView::Response(_) => "Received response (->)"@,
    }
}

/// Middleware that records every incoming and outgoing message for the log.
///
/// It changes no message. What it has to say of a message is a text, which
/// the host writes to its log at the level "trace".
pub struct LoggingMiddleware;

impl LoggingMiddleware {
    /// The record of `value` under `headline`.
    pub fn log_message(value: &serde_json::Value, headline: &str) -> (record: String)
        ensures
            record@ == log_record(headline@, json_view(*value)),
    {
        let mut record = headline.to_owned();
        record.append(":\n");
        match to_pretty_text(value) {
            Some(text) => {
                record.append(text.as_str());
            },
            None => {},
        }
        record.append("\n");
        record
    }

    /// The record of an incoming message.
    pub fn received(message: &Message) -> (record: String)
        ensures
            record@ == log_record(received_headline(message@), message_to_json(message@)),
    {
        let headline = match message {
            Message::Request(_) => "Received request (->)",
            Message::Notification(_) => "Received notification (->)",
            Message::Response(_) => "Received response (->)",
        };
        Self::log_message(&message.to_value(), headline)
    }

    /// The record of an outgoing response.
    pub fn sent_response(response: &Response) -> (record: String)
        ensures
            record@ == log_record("Sent response (<-)"@, response_to_json(response@)),
    {
        Self::log_message(&response.to_value(), "Sent response (<-)")
    }

    /// The record of an outgoing request.
    pub fn sent_request(request: &Request) -> (record: String)
        ensures
            record@ == log_record("Sent request (<-)"@, request_to_json(request@)),
    {
        Self::log_message(&request.to_value(), "Sent request (<-)")
    }

    /// The record of an outgoing notification.
    pub fn sent_notification(notification: &Notification) -> (record: String)
        ensures
            record@ == log_record("Sent notification (<-)"@, notification_to_json(notification@)),
    {
        Self::log_message(&notification.to_value(), "Sent notification (<-)")
    }
}

impl Middleware for LoggingMiddleware {
    fn on_incoming_message(&self, message: &mut Message) {
    }

    fn on_outgoing_response(&self, request: &Request, response: &mut Response) {
    }

    fn on_outgoing_request(&self, request: &mut Request) {
    }

    fn on_outgoing_notification(&self, notification: &mut Notification) {
    }
}

} // verus!
