//! The outbound side of a connection: requests and notifications that the
//! server sends to its peer, and the responses that come back.
//!
//! A [`Client`] mints the identifiers of outbound requests from a counter and
//! keeps, for every request that awaits its response, the sender through which
//! the waiting party is resumed. The kind of sender is the caller's choice.
//! The counter only counts up and never starts over, so no identifier is
//! given out twice in the life of a client: a client whose counter has come to
//! its end issues no more requests.
//! The client never touches the byte stream: it hands back the message to
//! send, and for a response the sender to resume together with what to deliver.
use crate::json::{json_view, Json};
use crate::jsonrpc::{
    outcome_view, protocol_version, Error, ErrorView, Id, IdView, Message, MessageView,
    Notification, NotificationView, Request, RequestView, Response, ResponseView,
};
use std::collections::HashMap;
use vstd::prelude::*;
use vstd::std_specs::hash::group_hash_axioms;

verus! {

broadcast use group_hash_axioms;

/// A response that the peer should not have sent.
#[derive(Clone, Copy, Debug, PartialEq, Eq, Structural)]
pub enum ProtocolViolation {
    /// The response names no request.
    ResponseWithoutId,
    /// No request with the identifier of the response awaits a response:
    /// none was sent, or it has been answered already.
    UnexpectedResponse,
}

impl ProtocolViolation {
    /// The words in which the violation is reported.
    pub fn describe(&self) -> (text: String)
        ensures
            text@ == match *self {
                ProtocolViolation::ResponseWithoutId => "Expected response with id"@,
                ProtocolViolation::UnexpectedResponse => "Unexpected response received"@,
            },
    {
        match self {
            ProtocolViolation::ResponseWithoutId => "Expected response with id".to_owned(),
            ProtocolViolation::UnexpectedResponse => "Unexpected response received".to_owned(),
        }
    }
}

/// The state of a client as a plain value: the identifier that the next
/// request gets, and the senders of the requests that await a response.
pub struct ClientView<S> {
    pub next_id: u64,
    pub pending: Map<u64, S>,
}

/// What happens to a client in the course of a connection.
pub enum ClientEvent<S> {
    /// The client is asked to issue a request, whose response the sender
    /// awaits.
    Issue(S),
    /// A response comes in from the peer.
    Respond(ResponseView),
    /// The table is emptied.
    Drain,
}

/// How many of the events ask for a request.
pub open spec fn issues<S>(events: Seq<ClientEvent<S>>) -> nat
    decreases events.len(),
{
    if events.len() == 0 {
        0
    } else if events.last() is Issue {
        issues(events.drop_last()) + 1
    } else {
        issues(events.drop_last())
    }
}

/// What a response does to a client.
pub enum Resolution<S> {
    /// The request awaited its response: its sender is taken out of the table
    /// and gets the outcome.
    Resolved { client: ClientView<S>, sender: S, outcome: Result<Json, ErrorView> },
    /// The response is flagged and the client stays as it was.
    Flagged(ProtocolViolation),
}

impl<S> ClientView<S> {
    /// A client that has sent nothing yet.
    pub open spec fn fresh() -> ClientView<S> {
        ClientView { next_id: 0, pending: Map::empty() }
    }

    /// Whether everything that awaits a response lies below the counter, as
    /// it does in every client that began as a fresh one: what awaits a
    /// response was issued before.
    pub open spec fn valid(self) -> bool {
        forall|id: u64| self.pending.contains_key(id) ==> id < self.next_id
    }

    /// Whether the counter has an identifier left to give out.
    pub open spec fn can_issue(self) -> bool {
        self.next_id < u64::MAX
    }

    /// The client after it was asked to issue a request, whose response
    /// `sender` awaits: the counter has gone up by one and the sender is filed
    /// under the identifier given out. A client without an identifier left
    /// stays as it is.
    pub open spec fn issue(self, sender: S) -> ClientView<S> {
        if self.can_issue() {
            ClientView {
                next_id: (self.next_id + 1) as u64,
                pending: self.pending.insert(self.next_id, sender),
            }
        } else {
            self
        }
    }

    /// The client after a response has come in.
    pub open spec fn respond(self, response: ResponseView) -> ClientView<S> {
        match self.resolve(response) {
            Resolution::Resolved { client, sender, outcome } => client,
            Resolution::Flagged(_) => self,
        }
    }

    /// The client after every sender was taken out of its table.
    pub open spec fn drain(self) -> ClientView<S> {
        ClientView { next_id: self.next_id, pending: Map::empty() }
    }

    /// The client after one event.
    pub open spec fn step(self, event: ClientEvent<S>) -> ClientView<S> {
        match event {
            ClientEvent::Issue(sender) => self.issue(sender),
            ClientEvent::Respond(response) => self.respond(response),
            ClientEvent::Drain => self.drain(),
        }
    }

    /// The client after a run of events, first to last.
    pub open spec fn run(self, events: Seq<ClientEvent<S>>) -> ClientView<S>
        decreases events.len(),
    {
        if events.len() == 0 {
            self
        } else {
            self.run(events.drop_last()).step(events.last())
        }
    }

    /// The request that the client issues next.
    pub open spec fn request(self, method: Seq<char>, params: Json) -> RequestView {
        RequestView {
            jsonrpc: protocol_version(),
            method,
            params,
            id: IdView::Number(self.next_id),
        }
    }

    /// Whether a request with this identifier awaits its response.
    pub open spec fn awaits(self, id: IdView) -> bool {
        match id {
            IdView::Number(n) => self.pending.contains_key(n),
            IdView::String(_) => false,
        }
    }

    /// What a response does to the client.
    pub open spec fn resolve(self, response: ResponseView) -> Resolution<S> {
        match response.id {
            None => Resolution::Flagged(ProtocolViolation::ResponseWithoutId),
            Some(IdView::Number(n)) => if self.pending.contains_key(n) {
                Resolution::Resolved {
                    client: ClientView { next_id: self.next_id, pending: self.pending.remove(n) },
                    sender: self.pending[n],
                    outcome: Response::outcome_of(response),
                }
            } else {
                Resolution::Flagged(ProtocolViolation::UnexpectedResponse)
            },
            Some(IdView::String(_)) => Resolution::Flagged(ProtocolViolation::UnexpectedResponse),
        }
    }
}

/// Whether `senders` holds what was filed in `pending`: every number once,
/// each with its sender.
pub open spec fn drained<S>(pending: Map<u64, S>, senders: Seq<(u64, S)>) -> bool {
    &&& forall|i: int, j: int|
        0 <= i < j < senders.len() ==> (#[trigger] senders[i]).0 != (#[trigger] senders[j]).0
    &&& forall|i: int|
        0 <= i < senders.len() ==> pending.contains_key((#[trigger] senders[i]).0)
            && pending[senders[i].0] == senders[i].1
    &&& forall|id: u64|
        pending.contains_key(id) ==> exists|i: int|
            0 <= i < senders.len() && (#[trigger] senders[i]).0 == id
}

/// The requests in flight towards the peer, and the counter that numbers
/// them.
pub struct Client<S> {
    request_id: u64,
    senders_by_id: HashMap<u64, S>,
}

impl<S> View for Client<S> {
    type V = ClientView<S>;

    closed spec fn view(&self) -> ClientView<S> {
        ClientView { next_id: self.request_id, pending: self.senders_by_id@ }
    }
}

impl<S> Client<S> {
    /// A client that has sent nothing yet: the first request gets the
    /// identifier 0.
    pub fn new() -> (client: Self)
        ensures
            client@ == ClientView::<S>::fresh(),
            client@.valid(),
    {
        Client { request_id: 0, senders_by_id: HashMap::new() }
    }

    /// The identifier that the next request gets.
    pub fn next_id(&self) -> (id: u64)
        ensures
            id == self@.next_id,
    {
        self.request_id
    }

    /// Whether a request with this identifier awaits its response.
    pub fn is_pending(&self, id: &Id) -> (pending: bool)
        ensures
            pending == self@.awaits(id@),
    {
        match id {
            Id::Number(n) => self.senders_by_id.contains_key(n),
            Id::String(_) => false,
        }
    }

    /// Issues a request: takes the next identifier, files `sender` under it,
    /// and hands back the message to send. In a valid client, and every client
    /// that began with [`Client::new`] is one, nothing was filed under that
    /// identifier, so no sender is overwritten. A client whose counter has come
    /// to its end issues nothing and hands the sender back.
    pub fn send_request(&mut self, method: String, params: serde_json::Value, sender: S) -> (sent:
        Result<Message, S>)
        ensures
            final(self)@ == old(self)@.issue(sender),
            old(self)@.valid() ==> final(self)@.valid(),
            match sent {
                Ok(message) => {
                    &&& old(self)@.can_issue()
                    &&& message@ == MessageView::Request(
                        old(self)@.request(method@, json_view(params)),
                    )
                    &&& old(self)@.valid() ==> !old(self)@.pending.contains_key(
                        old(self)@.next_id,
                    )
                },
                Err(unsent) => !old(self)@.can_issue() && unsent == sender,
            },
    {
        let id: u64 = self.request_id;
        if id == u64::MAX {
            return Err(sender);
        }
        self.request_id = id + 1;
        let request = Request::new(method, params, Id::Number(id));
        self.senders_by_id.insert(id, sender);
        Ok(Message::Request(request))
    }

    /// The message to send for a notification. The client keeps no trace of
    /// it.
    pub fn send_notification(&self, method: String, params: serde_json::Value) -> (message: Message)
        ensures
            message@ == MessageView::Notification(
                NotificationView {
                    jsonrpc: protocol_version(),
                    method: method@,
                    params: json_view(params),
                },
            ),
    {
        Message::Notification(Notification::new(method, params))
    }

    /// Takes in a response from the peer. Where a request with its identifier
    /// awaits it, the sender of that request is taken out of the table and
    /// handed back with the outcome to deliver: the error of the response, else
    /// its result, null where the peer left the result out. A response without
    /// identifier, and one that no request awaits, is flagged, and the table
    /// stays as it was.
    pub fn handle(&mut self, response: Response) -> (resolved: Result<
        (S, Result<serde_json::Value, Error>),
        ProtocolViolation,
    >)
        ensures
            match old(self)@.resolve(response@) {
                Resolution::Resolved { client, sender, outcome } => {
                    &&& resolved is Ok
                    &&& resolved->Ok_0.0 == sender
                    &&& outcome_view(resolved->Ok_0.1) == outcome
                    &&& final(self)@ == client
                },
                Resolution::Flagged(violation) => {
                    &&& resolved == Err::<(S, Result<serde_json::Value, Error>), _>(violation)
                    &&& final(self)@ == old(self)@
                },
            },
    {
        let number = match &response.id {
            None => {
                return Err(ProtocolViolation::ResponseWithoutId);
            },
            Some(Id::Number(n)) => *n,
            Some(Id::String(_)) => {
                return Err(ProtocolViolation::UnexpectedResponse);
            },
        };
        let removed = self.senders_by_id.remove(&number);
        proof {
            let before = old(self)@.pending;
            assert(self@.pending == before.remove(number));
            if !before.contains_key(number) {
                assert(before.remove(number) =~= before);
            }
        }
        match removed {
            Some(sender) => Ok((sender, response.into_outcome())),
            None => Err(ProtocolViolation::UnexpectedResponse),
        }
    }

    /// Takes every sender out of the table, each with the number under which
    /// it was filed: for the end of a connection, when no response will come
    /// any more. The order is not fixed.
    pub fn drain(&mut self) -> (senders: Vec<(u64, S)>)
        ensures
            final(self)@ == old(self)@.drain(),
            drained(old(self)@.pending, senders@),
    {
        let mut keys: Vec<u64> = Vec::new();
        for key in iter: self.senders_by_id.keys()
            invariant
                keys@.len() == iter.index(),
                forall|j: int|
                    #![trigger keys@[j]]
                    #![trigger iter.seq().unref()[j]]
                    0 <= j < keys@.len() ==> keys@[j] == iter.seq().unref()[j],
                iter.seq().unref().to_set() == self.senders_by_id@.dom(),
                iter.seq().no_duplicates(),
        {
            keys.push(*key);
        }
        let ghost before = old(self)@.pending;
        assert(keys@.no_duplicates());
        assert forall|j: int| 0 <= j < keys@.len() implies before.contains_key(
            #[trigger] keys@[j],
        ) by {
            assert(before.dom().contains(keys@[j]));
        }
        assert forall|id: u64| before.contains_key(id) implies keys@.contains(id) by {
            assert(before.dom().contains(id));
        }
        let mut senders: Vec<(u64, S)> = Vec::new();
        let mut i: usize = 0;
        while i < keys.len()
            invariant
                i <= keys@.len(),
                self@.next_id == old(self)@.next_id,
                keys@.no_duplicates(),
                forall|j: int| 0 <= j < keys@.len() ==> before.contains_key(#[trigger] keys@[j]),
                forall|id: u64|
                    self@.pending.contains_key(id) <==> before.contains_key(id) && !keys@.take(
                        i as int,
                    ).contains(id),
                forall|id: u64|
                    self@.pending.contains_key(id) ==> self@.pending[id] == before[id],
                senders@.len() == i,
                forall|j: int|
                    0 <= j < i ==> (#[trigger] senders@[j]).0 == keys@[j] && senders@[j].1
                        == before[keys@[j]],
            decreases keys@.len() - i,
        {
            let key: u64 = keys[i];
            proof {
                let shorter = keys@.take(i as int);
                if shorter.contains(key) {
                    let at = shorter.index_of(key);
                    assert(keys@[at] == keys@[i as int]);
                }
            }
            let ghost earlier = self@.pending;
            let removed = self.senders_by_id.remove(&key);
            proof {
                let shorter = keys@.take(i as int);
                let longer = keys@.take(i + 1);
                assert(self@.pending == earlier.remove(key));
                assert forall|id: u64|
                    self@.pending.contains_key(id) <==> before.contains_key(id)
                        && !longer.contains(id) by {
                    if id != key {
                        if longer.contains(id) {
                            let at = longer.index_of(id);
                            assert(shorter[at] == id);
                        }
                        if shorter.contains(id) {
                            let at = shorter.index_of(id);
                            assert(longer[at] == id);
                        }
                    } else {
                        assert(longer[i as int] == key);
                    }
                }
            }
            match removed {
                Some(sender) => {
                    senders.push((key, sender));
                },
                None => {},
            }
            i = i + 1;
        }
        proof {
            assert(keys@.take(i as int) =~= keys@);
            assert forall|id: u64| !self@.pending.contains_key(id) by {
                if before.contains_key(id) {
                    assert(keys@.contains(id));
                }
            }
            assert(self@.pending =~= Map::<u64, S>::empty());
            assert forall|id: u64| before.contains_key(id) implies exists|j: int|
                0 <= j < senders@.len() && (#[trigger] senders@[j]).0 == id by {
                let j = keys@.index_of(id);
                assert(senders@[j].0 == id);
            }
        }
        senders
    }
}

/// A run of events can be cut in two: the client after the whole run is the
/// client after the first part, taken through the second.
pub proof fn lemma_run_split<S>(
    client: ClientView<S>,
    first: Seq<ClientEvent<S>>,
    second: Seq<ClientEvent<S>>,
)
    ensures
        client.run(first + second) == client.run(first).run(second),
        issues(first + second) == issues(first) + issues(second),
    decreases second.len(),
{
    if second.len() == 0 {
        assert(first + second =~= first);
    } else {
        assert((first + second).drop_last() =~= first + second.drop_last());
        lemma_run_split(client, first, second.drop_last());
    }
}

/// Whatever happens to a client, it stays valid, and its counter never goes
/// down: it stands at the number of requests asked for since the start, or at
/// its end. Responses, whether they bring a result or an error, and the
/// emptying of the table leave the counter where it is.
pub proof fn lemma_run<S>(client: ClientView<S>, events: Seq<ClientEvent<S>>)
    requires
        client.valid(),
    ensures
        client.run(events).valid(),
        client.next_id <= client.run(events).next_id,
        client.run(events).next_id == if client.next_id + issues(events) <= u64::MAX {
            client.next_id + issues(events)
        } else {
            u64::MAX as int
        },
    decreases events.len(),
{
    if events.len() > 0 {
        lemma_run(client, events.drop_last());
    }
}

/// A request gets an identifier that is new: nothing is filed under it, so
/// no sender is overwritten, and every sender that was filed stays filed as
/// it was. The request itself now awaits its response.
pub proof fn lemma_issue_is_fresh<S>(client: ClientView<S>, sender: S)
    requires
        client.valid(),
        client.can_issue(),
    ensures
        !client.pending.contains_key(client.next_id),
        client.issue(sender).pending.contains_key(client.next_id),
        client.issue(sender).pending[client.next_id] == sender,
        forall|id: u64| #[trigger]
            client.pending.contains_key(id) ==> client.issue(sender).pending.contains_key(id)
                && client.issue(sender).pending[id] == client.pending[id],
        client.issue(sender).valid(),
{
}

/// The identifiers of the requests that a client issues are strictly
/// increasing, and so pairwise distinct, whatever happens in between: of two
/// requests that were issued, the later has the greater identifier, however
/// many responses came in and however often the table was emptied. No
/// identifier is given out again, not even after its response has arrived.
pub proof fn lemma_request_ids_increase<S>(
    client: ClientView<S>,
    events: Seq<ClientEvent<S>>,
    i: int,
    j: int,
)
    requires
        client.valid(),
        0 <= i < j < events.len(),
        events[i] is Issue,
        events[j] is Issue,
        client.run(events.take(j)).can_issue(),
    ensures
        client.run(events.take(i)).can_issue(),
        client.run(events.take(i)).next_id < client.run(events.take(j)).next_id,
        !client.run(events.take(j)).pending.contains_key(client.run(events.take(j)).next_id),
{
    let before = events.take(i);
    let through = events.take(i + 1);
    let between = events.subrange(i + 1, j);
    assert(through.drop_last() =~= before);
    assert(through.last() == events[i]);
    assert(events.take(j) =~= through + between);
    lemma_run(client, before);
    lemma_run(client, events.take(j));
    lemma_run_split(client, through, between);
    lemma_run(client.run(before).step(events[i]), between);
}

/// A client that starts from nothing numbers its requests 0, 1, 2 and so on:
/// a request gets as its identifier the number of requests that were asked
/// for before it.
pub proof fn lemma_request_ids_count_up<S>(events: Seq<ClientEvent<S>>, i: int)
    requires
        0 <= i < events.len(),
        events[i] is Issue,
        issues(events.take(i)) < u64::MAX,
    ensures
        ClientView::<S>::fresh().run(events.take(i)).can_issue(),
        ClientView::<S>::fresh().run(events.take(i)).next_id == issues(events.take(i)),
{
    lemma_run(ClientView::<S>::fresh(), events.take(i));
}

/// A request that has been issued awaits its response, under the identifier
/// that the request carries.
pub proof fn lemma_issued_request_awaits<S>(
    client: ClientView<S>,
    method: Seq<char>,
    params: Json,
    sender: S,
)
    requires
        client.can_issue(),
    ensures
        client.issue(sender).awaits(client.request(method, params).id),
        client.issue(sender).pending[client.next_id] == sender,
{
}

/// A sender is resumed at most once: after a response has resolved a request,
/// a second response with the same identifier is flagged as unexpected, and
/// leaves the client as it is.
pub proof fn lemma_response_resolves_once<S>(
    client: ClientView<S>,
    first: ResponseView,
    second: ResponseView,
)
    requires
        client.resolve(first) is Resolved,
        second.id == first.id,
    ensures
        client.resolve(first)->client.resolve(second) == Resolution::<S>::Flagged(
            ProtocolViolation::UnexpectedResponse,
        ),
{
}

} // verus!
