//! The protocol itself: how a responder answers one connection, step by
//! step, and how an initiator reads the reply to its request.
//!
//! The responder's side is a state machine. The caller owns the connection:
//! it reads the request stream to its end, waits for decisions and for the
//! peer to close, and reports each as an [`Event`]; the service answers with
//! the [`Action`] to perform and keeps the friend gate, the decision queues
//! and the chat registry up to date.

use vstd::prelude::*;
use crate::chat::ChatRegistry;
use crate::connections::ConnectionTable;
use crate::codec::{
    ChatError, Request, Response, ResponseView, decode_request, decode_response, encode_response,
    lemma_request_round_trip, lemma_response_round_trip, request_bytes, request_parse,
    response_bytes, response_parse, user_info_fits,
};
use crate::friends::FriendSet;
use crate::identity::PeerIdentity;
use crate::pending::{ChatRequest, DecisionQueue, FriendRequest};
use crate::profile::{UserInfo, UserInfoView};

verus! {

/// Where the handling of one inbound connection stands.
#[derive(Clone, Copy, Debug, PartialEq, Eq, Structural)]
pub enum HandlerState {
    /// The request has not been read yet.
    AwaitRequest,
    /// A friend request waits for the application's decision.
    AwaitFriendDecision,
    /// A chat request waits for the application's decision.
    AwaitChatDecision,
    /// The response is written; the peer has not closed yet.
    AwaitClose,
    /// The connection is no longer handled and was not kept.
    Closed,
    /// The connection has become a chat channel and belongs to whoever
    /// accepted the chat.
    HandedOff,
}

/// What happened on a connection.
#[derive(Debug, PartialEq, Eq)]
pub enum Event {
    /// The request stream was read to its end; these are its bytes.
    Request(Vec<u8>),
    /// The application answered the pending request.
    Decision(bool),
    /// The pending request was dropped without an answer.
    DecisionDropped,
    /// The peer closed the connection.
    PeerClosed,
}

/// Mathematical value of an event.
pub enum EventView {
    Request(Seq<u8>),
    Decision(bool),
    DecisionDropped,
    PeerClosed,
}

impl View for Event {
    type V = EventView;

    open spec fn view(&self) -> EventView {
        match *self {
            Event::Request(bytes) => EventView::Request(bytes@),
            Event::Decision(b) => EventView::Decision(b),
            Event::DecisionDropped => EventView::DecisionDropped,
            Event::PeerClosed => EventView::PeerClosed,
        }
    }
}

/// What the caller has to do with the connection next.
#[derive(Debug, PartialEq, Eq)]
pub enum Action {
    /// The event does not apply in this state: nothing is to be done.
    Ignore,
    /// Let the connection go without writing a response.
    Drop,
    /// Suspend until the pending request is answered or dropped.
    Wait,
    /// Write these bytes, signal the end of writes, wait for the peer to
    /// close.
    Reply(Vec<u8>),
    /// Write these bytes, signal the end of writes; the connection is not
    /// kept.
    ReplyAndClose(Vec<u8>),
    /// Write these bytes, signal the end of writes; the connection is now a
    /// chat channel.
    ReplyAndHandOff(Vec<u8>),
    /// The peer has closed: the handling ends.
    Finish,
}

/// Mathematical value of an action.
pub enum ActionView {
    Ignore,
    Drop,
    Wait,
    Reply(Seq<u8>),
    ReplyAndClose(Seq<u8>),
    ReplyAndHandOff(Seq<u8>),
    Finish,
}

impl View for Action {
    type V = ActionView;

    open spec fn view(&self) -> ActionView {
        match *self {
            Action::Ignore => ActionView::Ignore,
            Action::Drop => ActionView::Drop,
            Action::Wait => ActionView::Wait,
            Action::Reply(bytes) => ActionView::Reply(bytes@),
            Action::ReplyAndClose(bytes) => ActionView::ReplyAndClose(bytes@),
            Action::ReplyAndHandOff(bytes) => ActionView::ReplyAndHandOff(bytes@),
            Action::Finish => ActionView::Finish,
        }
    }
}

/// The handling of one inbound connection: the peer at its other end, the
/// connection's handle, and the state reached.
#[derive(Clone, Copy, Debug, PartialEq, Eq)]
pub struct Handler {
    pub remote: PeerIdentity,
    pub connection: usize,
    pub state: HandlerState,
}

/// Why a request of the initiator failed at the protocol level.
#[derive(Clone, Copy, Debug, PartialEq, Eq, Structural)]
pub enum RequestError {
    /// The reply is not the encoding of any response; an empty reply, which
    /// a peer leaves that never answers, is one such.
    Decode,
    /// The reply is a response to another kind of request.
    UnexpectedResponse,
    /// The responder does not count the initiator among its friends.
    NotFriend,
}

// ---------------------------------------------------------------------------
// The responder's rules
// ---------------------------------------------------------------------------

/// The responder's transition: the state reached and the action to perform
/// when `event` happens in `state`, for a responder whose profile is
/// `profile` and for which `is_friend` says whether the peer is a friend.
pub open spec fn transition(
    state: HandlerState,
    event: EventView,
    profile: UserInfoView,
    is_friend: bool,
) -> (HandlerState, ActionView) {
    match (state, event) {
        (HandlerState::AwaitRequest, EventView::Request(bytes)) => match request_parse(bytes) {
            None => (HandlerState::Closed, ActionView::Drop),
            Some(Request::UserInfo) => (
                HandlerState::AwaitClose,
                ActionView::Reply(response_bytes(ResponseView::UserInfo(profile))),
            ),
            Some(Request::Friend) => (HandlerState::AwaitFriendDecision, ActionView::Wait),
            Some(Request::Chat) => if is_friend {
                (HandlerState::AwaitChatDecision, ActionView::Wait)
            } else {
                (
                    HandlerState::Closed,
                    ActionView::ReplyAndClose(
                        response_bytes(ResponseView::Chat(Some(ChatError::NotFriend))),
                    ),
                )
            },
        },
        (HandlerState::AwaitFriendDecision, EventView::Decision(answer)) => (
            HandlerState::AwaitClose,
            ActionView::Reply(response_bytes(ResponseView::Friend(answer))),
        ),
        (HandlerState::AwaitFriendDecision, EventView::DecisionDropped) => (
            HandlerState::AwaitClose,
            ActionView::Reply(response_bytes(ResponseView::Friend(false))),
        ),
        (HandlerState::AwaitChatDecision, EventView::Decision(answer)) => if answer {
            (
                HandlerState::HandedOff,
                ActionView::ReplyAndHandOff(response_bytes(ResponseView::Chat(None))),
            )
        } else {
            (HandlerState::Closed, ActionView::Drop)
        },
        (HandlerState::AwaitChatDecision, EventView::DecisionDropped) => (
            HandlerState::Closed,
            ActionView::Drop,
        ),
        (HandlerState::AwaitClose, EventView::PeerClosed) => (
            HandlerState::Closed,
            ActionView::Finish,
        ),
        _ => (state, ActionView::Ignore),
    }
}

/// Whether `event` in `state` puts a friend request into the queue.
pub open spec fn queues_friend(state: HandlerState, event: EventView) -> bool {
    state is AwaitRequest && (event matches EventView::Request(bytes) && request_parse(bytes)
        == Some(Request::Friend))
}

/// Whether `event` in `state` puts a chat request into the queue.
pub open spec fn queues_chat(state: HandlerState, event: EventView, is_friend: bool) -> bool {
    state is AwaitRequest && is_friend && (event matches EventView::Request(bytes)
        && request_parse(bytes) == Some(Request::Chat))
}

/// Whether `event` in `state` turns the connection into a chat channel.
pub open spec fn hands_off(state: HandlerState, event: EventView) -> bool {
    state is AwaitChatDecision && event == EventView::Decision(true)
}

// ---------------------------------------------------------------------------
// The initiator's rules
// ---------------------------------------------------------------------------

/// What a reply means to the initiator of a profile request.
pub open spec fn user_info_reply(reply: Seq<u8>) -> Result<UserInfoView, RequestError> {
    match response_parse(reply) {
        None => Err(RequestError::Decode),
        Some(ResponseView::UserInfo(info)) => Ok(info),
        Some(_) => Err(RequestError::UnexpectedResponse),
    }
}

/// What a reply means to the initiator of a friend request.
pub open spec fn friend_reply(reply: Seq<u8>) -> Result<bool, RequestError> {
    match response_parse(reply) {
        None => Err(RequestError::Decode),
        Some(ResponseView::Friend(answer)) => Ok(answer),
        Some(_) => Err(RequestError::UnexpectedResponse),
    }
}

/// Why a reply fails the initiator of a chat request; `None` where the
/// reply grants the chat.
pub open spec fn chat_refusal(reply: Seq<u8>) -> Option<RequestError> {
    match response_parse(reply) {
        None => Some(RequestError::Decode),
        Some(ResponseView::Chat(None)) => None,
        Some(ResponseView::Chat(Some(ChatError::NotFriend))) => Some(RequestError::NotFriend),
        Some(_) => Some(RequestError::UnexpectedResponse),
    }
}

/// Whether a step from `before` to `after` ends the handling of a connection
/// that was not handed off, so that its handle is given back.
pub open spec fn closes(before: HandlerState, after: HandlerState) -> bool {
    before != HandlerState::Closed && after == HandlerState::Closed
}

// ---------------------------------------------------------------------------
// The service
// ---------------------------------------------------------------------------

/// One peer's side of the protocol: its profile, its friends, its open
/// connections, its chats and the requests that wait for its decision.
pub struct Service {
    pub user_info: UserInfo,
    pub friends: FriendSet,
    pub connections: ConnectionTable,
    pub chats: ChatRegistry,
    pub friend_requests: DecisionQueue<FriendRequest>,
    pub chat_requests: DecisionQueue<ChatRequest>,
}

impl Handler {
    /// The handling of a connection just accepted from `remote`, for a caller
    /// that has entered the connection under the handle `connection`.
    pub fn new(remote: PeerIdentity, connection: usize) -> (r: Handler)
        ensures
            r == (Handler { remote, connection, state: HandlerState::AwaitRequest }),
    {
        Handler { remote, connection, state: HandlerState::AwaitRequest }
    }
}

impl Service {
    /// A service with the given profile, no friends, no chats and nothing
    /// pending.
    pub fn new(user_info: UserInfo) -> (r: Service)
        ensures
            r.user_info == user_info,
            r.friends@ == Set::<PeerIdentity>::empty(),
            r.connections@ == Map::<usize, Seq<u8>>::empty(),
            r.chats@ == Map::<PeerIdentity, usize>::empty(),
            r.friend_requests@ == Seq::<FriendRequest>::empty(),
            r.chat_requests@ == Seq::<ChatRequest>::empty(),
    {
        Service {
            user_info,
            friends: FriendSet::new(),
            connections: ConnectionTable::new(),
            chats: ChatRegistry::new(),
            friend_requests: DecisionQueue::new(),
            chat_requests: DecisionQueue::new(),
        }
    }

    /// A copy of the profile.
    pub fn user_info(&self) -> (r: UserInfo)
        ensures
            r@ == self.user_info@,
    {
        self.user_info.duplicate()
    }

    /// Replaces the profile; nothing else changes.
    pub fn set_user_info(&mut self, user_info: UserInfo)
        ensures
            final(self).user_info == user_info,
            final(self).friends == old(self).friends,
            final(self).connections == old(self).connections,
            final(self).chats == old(self).chats,
            final(self).friend_requests == old(self).friend_requests,
            final(self).chat_requests == old(self).chat_requests,
    {
        self.user_info = user_info;
    }

    /// Replaces the friends by the peers of `list`; nothing else changes.
    pub fn set_friends(&mut self, list: Vec<PeerIdentity>)
        ensures
            final(self).friends@ == list@.to_set(),
            final(self).user_info == old(self).user_info,
            final(self).connections == old(self).connections,
            final(self).chats == old(self).chats,
            final(self).friend_requests == old(self).friend_requests,
            final(self).chat_requests == old(self).chat_requests,
    {
        self.friends.set_friends(list);
    }

    /// The friend request that has waited longest, if any waits.
    pub fn next_friend_request(&mut self) -> (r: Option<FriendRequest>)
        ensures
            old(self).friend_requests@.len() == 0 ==> r is None && final(self).friend_requests@
                == old(self).friend_requests@,
            old(self).friend_requests@.len() > 0 ==> r == Some(old(self).friend_requests@[0])
                && final(self).friend_requests@ == old(self).friend_requests@.drop_first(),
            final(self).user_info == old(self).user_info,
            final(self).friends == old(self).friends,
            final(self).connections == old(self).connections,
            final(self).chats == old(self).chats,
            final(self).chat_requests == old(self).chat_requests,
    {
        self.friend_requests.next()
    }

    /// The chat request that has waited longest, if any waits.
    pub fn next_chat_request(&mut self) -> (r: Option<ChatRequest>)
        ensures
            old(self).chat_requests@.len() == 0 ==> r is None && final(self).chat_requests@
                == old(self).chat_requests@,
            old(self).chat_requests@.len() > 0 ==> r == Some(old(self).chat_requests@[0])
                && final(self).chat_requests@ == old(self).chat_requests@.drop_first(),
            final(self).user_info == old(self).user_info,
            final(self).friends == old(self).friends,
            final(self).connections == old(self).connections,
            final(self).chats == old(self).chats,
            final(self).friend_requests == old(self).friend_requests,
    {
        self.chat_requests.next()
    }

    /// Accepts an inbound connection from `remote`: enters it in the
    /// connection table and starts its handling.
    pub fn accept(&mut self, remote: PeerIdentity) -> (handler: Handler)
        ensures
            handler.remote == remote,
            handler.state == HandlerState::AwaitRequest,
            !old(self).connections@.contains_key(handler.connection),
            final(self).connections@ == old(self).connections@.insert(handler.connection, remote@),
            final(self).user_info == old(self).user_info,
            final(self).friends == old(self).friends,
            final(self).chats == old(self).chats,
            final(self).friend_requests == old(self).friend_requests,
            final(self).chat_requests == old(self).chat_requests,
    {
        let connection: usize = self.connections.open(remote);
        Handler { remote, connection, state: HandlerState::AwaitRequest }
    }

    /// Gives back the handle of a connection that the caller has lost or
    /// closed, and returns the peer that was at its other end, if the
    /// connection was open.
    pub fn release(&mut self, connection: usize) -> (r: Option<PeerIdentity>)
        ensures
            r is Some <==> old(self).connections@.contains_key(connection),
            r matches Some(peer) ==> peer@ == old(self).connections@[connection],
            final(self).connections@ == old(self).connections@.remove(connection),
            final(self).user_info == old(self).user_info,
            final(self).friends == old(self).friends,
            final(self).chats == old(self).chats,
            final(self).friend_requests == old(self).friend_requests,
            final(self).chat_requests == old(self).chat_requests,
    {
        self.connections.close(connection)
    }

    /// The stream on which the chat with `peer` arrives: the handle entered
    /// in the chat registry, as long as the connection under that handle is
    /// open and is one to `peer`.
    pub fn chat_stream(&self, peer: &PeerIdentity) -> (r: Option<usize>)
        ensures
            r == (if self.chats@.contains_key(*peer) && self.connections@.contains_key(
                self.chats@[*peer],
            ) && self.connections@[self.chats@[*peer]] == peer@ {
                Some(self.chats@[*peer])
            } else {
                None
            }),
    {
        match self.chats.get(peer) {
            Some(stream) => match self.connections.peer_of(stream) {
                Some(owner) => if owner.same(peer) {
                    Some(stream)
                } else {
                    None
                },
                None => None,
            },
            None => None,
        }
    }

    /// Handles one event on one inbound connection: moves the handler to its
    /// next state, returns the action to perform, queues the pending request
    /// where the event is a friend request or a friend's chat request, enters
    /// the connection in the chat registry where a chat was accepted, and
    /// gives its handle back where the handling ends without a hand-off.
    pub fn handle_connection(&mut self, handler: &mut Handler, event: Event) -> (action: Action)
        ensures
            final(handler).remote == old(handler).remote,
            final(handler).connection == old(handler).connection,
            (final(handler).state, action@) == transition(
                old(handler).state,
                event@,
                old(self).user_info@,
                old(self).friends@.contains(old(handler).remote),
            ),
            final(self).user_info == old(self).user_info,
            final(self).friends == old(self).friends,
            final(self).connections@ == (if closes(old(handler).state, final(handler).state) {
                old(self).connections@.remove(old(handler).connection)
            } else {
                old(self).connections@
            }),
            final(self).friend_requests@ == (if queues_friend(old(handler).state, event@) {
                old(self).friend_requests@.push(FriendRequest::fresh(old(handler).remote))
            } else {
                old(self).friend_requests@
            }),
            final(self).chat_requests@ == (if queues_chat(
                old(handler).state,
                event@,
                old(self).friends@.contains(old(handler).remote),
            ) {
                old(self).chat_requests@.push(
                    ChatRequest::fresh(old(handler).remote, old(handler).connection),
                )
            } else {
                old(self).chat_requests@
            }),
            final(self).chats@ == (if hands_off(old(handler).state, event@) {
                old(self).chats@.insert(old(handler).remote, old(handler).connection)
            } else {
                old(self).chats@
            }),
    {
        let before: HandlerState = handler.state;
        let action = self.step(handler, event);
        if before != HandlerState::Closed && handler.state == HandlerState::Closed {
            let _ = self.connections.close(handler.connection);
        }
        action
    }

    /// The step itself, without the release of the handle.
    fn step(&mut self, handler: &mut Handler, event: Event) -> (action: Action)
        ensures
            final(self).connections == old(self).connections,
            final(handler).remote == old(handler).remote,
            final(handler).connection == old(handler).connection,
            (final(handler).state, action@) == transition(
                old(handler).state,
                event@,
                old(self).user_info@,
                old(self).friends@.contains(old(handler).remote),
            ),
            final(self).user_info == old(self).user_info,
            final(self).friends == old(self).friends,
            final(self).friend_requests@ == (if queues_friend(old(handler).state, event@) {
                old(self).friend_requests@.push(FriendRequest::fresh(old(handler).remote))
            } else {
                old(self).friend_requests@
            }),
            final(self).chat_requests@ == (if queues_chat(
                old(handler).state,
                event@,
                old(self).friends@.contains(old(handler).remote),
            ) {
                old(self).chat_requests@.push(
                    ChatRequest::fresh(old(handler).remote, old(handler).connection),
                )
            } else {
                old(self).chat_requests@
            }),
            final(self).chats@ == (if hands_off(old(handler).state, event@) {
                old(self).chats@.insert(old(handler).remote, old(handler).connection)
            } else {
                old(self).chats@
            }),
    {
        match handler.state {
            HandlerState::AwaitRequest => match event {
                Event::Request(bytes) => match decode_request(bytes.as_slice()) {
                    Err(_) => {
                        handler.state = HandlerState::Closed;
                        Action::Drop
                    },
                    Ok(Request::UserInfo) => {
                        let reply = encode_response(&Response::UserInfo(self.user_info.duplicate()));
                        handler.state = HandlerState::AwaitClose;
                        Action::Reply(reply)
                    },
                    Ok(Request::Friend) => {
                        self.friend_requests.push(FriendRequest::new(handler.remote));
                        handler.state = HandlerState::AwaitFriendDecision;
                        Action::Wait
                    },
                    Ok(Request::Chat) => {
                        if self.friends.is_friend(&handler.remote) {
                            self.chat_requests.push(
                                ChatRequest::new(handler.remote, handler.connection),
                            );
                            handler.state = HandlerState::AwaitChatDecision;
                            Action::Wait
                        } else {
                            let reply = encode_response(
                                &Response::Chat(Err(ChatError::NotFriend)),
                            );
                            handler.state = HandlerState::Closed;
                            Action::ReplyAndClose(reply)
                        }
                    },
                },
                _ => Action::Ignore,
            },
            HandlerState::AwaitFriendDecision => {
                let answer: bool = match event {
                    Event::Decision(answer) => answer,
                    Event::DecisionDropped => false,
                    _ => { return Action::Ignore; },
                };
                let reply = encode_response(&Response::Friend(answer));
                handler.state = HandlerState::AwaitClose;
                Action::Reply(reply)
            },
            HandlerState::AwaitChatDecision => {
                let answer: bool = match event {
                    Event::Decision(answer) => answer,
                    Event::DecisionDropped => false,
                    _ => { return Action::Ignore; },
                };
                if answer {
                    let reply = encode_response(&Response::Chat(Ok(())));
                    let _ = self.chats.register(handler.remote, handler.connection);
                    handler.state = HandlerState::HandedOff;
                    Action::ReplyAndHandOff(reply)
                } else {
                    handler.state = HandlerState::Closed;
                    Action::Drop
                }
            },
            HandlerState::AwaitClose => match event {
                Event::PeerClosed => {
                    handler.state = HandlerState::Closed;
                    Action::Finish
                },
                _ => Action::Ignore,
            },
            HandlerState::Closed => Action::Ignore,
            HandlerState::HandedOff => Action::Ignore,
        }
    }

    /// Reads the reply to a profile request: the profile, if the reply is a
    /// profile response.
    pub fn request_user_info(&self, reply: &[u8]) -> (r: Result<UserInfo, RequestError>)
        ensures
            match r {
                Ok(info) => user_info_reply(reply@) == Ok::<UserInfoView, RequestError>(info@),
                Err(e) => user_info_reply(reply@) == Err::<UserInfoView, RequestError>(e),
            },
    {
        match decode_response(reply) {
            Err(_) => Err(RequestError::Decode),
            Ok(Response::UserInfo(info)) => Ok(info),
            Ok(_) => Err(RequestError::UnexpectedResponse),
        }
    }

    /// Reads the reply to a friend request: the responder's decision, if the
    /// reply is a friend decision.
    pub fn request_friend(&self, reply: &[u8]) -> (r: Result<bool, RequestError>)
        ensures
            r == friend_reply(reply@),
    {
        match decode_response(reply) {
            Err(_) => Err(RequestError::Decode),
            Ok(Response::Friend(answer)) => Ok(answer),
            Ok(_) => Err(RequestError::UnexpectedResponse),
        }
    }

    /// Reads the reply to a chat request made to `peer`. Where the chat is
    /// granted, the connection on which it was asked is now the chat channel:
    /// it is entered in the connection table, and its handle returned.
    pub fn request_chat(&mut self, reply: &[u8], peer: PeerIdentity) -> (r: Result<usize, RequestError>)
        ensures
            match chat_refusal(reply@) {
                None => (r matches Ok(handle) && !old(self).connections@.contains_key(handle)
                    && final(self).connections@ == old(self).connections@.insert(handle, peer@)),
                Some(e) => r == Err::<usize, RequestError>(e) && final(self).connections@
                    == old(self).connections@,
            },
            final(self).user_info == old(self).user_info,
            final(self).friends == old(self).friends,
            final(self).chats == old(self).chats,
            final(self).friend_requests == old(self).friend_requests,
            final(self).chat_requests == old(self).chat_requests,
    {
        match decode_response(reply) {
            Err(_) => Err(RequestError::Decode),
            Ok(Response::Chat(Ok(_))) => Ok(self.connections.open(peer)),
            Ok(Response::Chat(Err(ChatError::NotFriend))) => Err(RequestError::NotFriend),
            Ok(_) => Err(RequestError::UnexpectedResponse),
        }
    }
}

// ---------------------------------------------------------------------------
// Laws of the exchange
// ---------------------------------------------------------------------------

/// A profile request is answered with the responder's profile, and the
/// initiator reads exactly that profile from the reply.
pub proof fn lemma_profile_reaches_initiator(profile: UserInfoView, is_friend: bool)
    requires
        user_info_fits(profile),
    ensures
        ({
            let (state, action) = transition(
                HandlerState::AwaitRequest,
                EventView::Request(request_bytes(Request::UserInfo)),
                profile,
                is_friend,
            );
            &&& state == HandlerState::AwaitClose
            &&& action matches ActionView::Reply(bytes) && user_info_reply(bytes) == Ok::<
                UserInfoView,
                RequestError,
            >(profile)
        }),
{
    lemma_request_round_trip(Request::UserInfo);
    lemma_response_round_trip(ResponseView::UserInfo(profile));
}

/// A friend request is queued and answered by nothing but the decision:
/// while it waits, a request or a close of the peer changes nothing and
/// writes nothing.
pub proof fn lemma_friend_request_waits(event: EventView, profile: UserInfoView, is_friend: bool)
    ensures
        queues_friend(
            HandlerState::AwaitRequest,
            EventView::Request(request_bytes(Request::Friend)),
        ),
        transition(
            HandlerState::AwaitRequest,
            EventView::Request(request_bytes(Request::Friend)),
            profile,
            is_friend,
        ) == (HandlerState::AwaitFriendDecision, ActionView::Wait),
        event is Request || event is PeerClosed ==> transition(
            HandlerState::AwaitFriendDecision,
            event,
            profile,
            is_friend,
        ) == (HandlerState::AwaitFriendDecision, ActionView::Ignore),
{
    lemma_request_round_trip(Request::Friend);
}

/// The decision on a friend request reaches the initiator: accepting yields
/// `true` to it, rejecting `false`.
pub proof fn lemma_friend_answer_reaches_initiator(
    answer: bool,
    profile: UserInfoView,
    is_friend: bool,
)
    ensures
        ({
            let (state, action) = transition(
                HandlerState::AwaitFriendDecision,
                EventView::Decision(answer),
                profile,
                is_friend,
            );
            &&& state == HandlerState::AwaitClose
            &&& action matches ActionView::Reply(bytes) && friend_reply(bytes) == Ok::<
                bool,
                RequestError,
            >(answer)
        }),
{
    lemma_response_round_trip(ResponseView::Friend(answer));
}

/// The friend gate: a chat request of a peer that is no friend is refused
/// with `NotFriend` and never reaches the decision queue; that of a friend is
/// queued and waits.
pub proof fn lemma_chat_gate(profile: UserInfoView, is_friend: bool)
    ensures
        ({
            let event = EventView::Request(request_bytes(Request::Chat));
            let (state, action) = transition(HandlerState::AwaitRequest, event, profile, is_friend);
            &&& queues_chat(HandlerState::AwaitRequest, event, is_friend) == is_friend
            &&& is_friend ==> state == HandlerState::AwaitChatDecision && action
                == ActionView::Wait
            &&& !is_friend ==> state == HandlerState::Closed && (action matches ActionView::ReplyAndClose(
                bytes,
            ) && chat_refusal(bytes) == Some(RequestError::NotFriend))
        }),
{
    lemma_request_round_trip(Request::Chat);
    lemma_response_round_trip(ResponseView::Chat(Some(ChatError::NotFriend)));
}

/// An accepted chat hands the connection off: the responder keeps it open
/// and enters it in the chat registry under the peer, where a lookup finds
/// it, and the initiator reads the reply as a grant.
pub proof fn lemma_accepted_chat_hands_off(
    chats: Map<PeerIdentity, usize>,
    remote: PeerIdentity,
    connection: usize,
    profile: UserInfoView,
    is_friend: bool,
)
    ensures
        ({
            let event = EventView::Decision(true);
            let (state, action) = transition(
                HandlerState::AwaitChatDecision,
                event,
                profile,
                is_friend,
            );
            &&& hands_off(HandlerState::AwaitChatDecision, event)
            &&& state == HandlerState::HandedOff
            &&& !closes(HandlerState::AwaitChatDecision, state)
            &&& action matches ActionView::ReplyAndHandOff(bytes) && chat_refusal(bytes) is None
            &&& chats.insert(remote, connection).contains_key(remote)
            &&& chats.insert(remote, connection)[remote] == connection
        }),
{
    lemma_response_round_trip(ResponseView::Chat(None));
}

/// Whether an action writes a response.
pub open spec fn replies(action: ActionView) -> bool {
    action is Reply || action is ReplyAndClose || action is ReplyAndHandOff
}

/// Whether a response has been written, or never will be, in `state`.
pub open spec fn settled(state: HandlerState) -> bool {
    state is AwaitClose || state is Closed || state is HandedOff
}

/// A request gets at most one response: a step that writes one ends in a
/// state in which no step writes another.
pub proof fn lemma_one_response(
    state: HandlerState,
    event: EventView,
    later: EventView,
    profile: UserInfoView,
    is_friend: bool,
)
    ensures
        ({
            let (next, action) = transition(state, event, profile, is_friend);
            &&& replies(action) ==> !settled(state) && settled(next)
            &&& settled(next) ==> settled(transition(next, later, profile, is_friend).0)
                && !replies(transition(next, later, profile, is_friend).1)
        }),
{
}

/// An undecodable request is dropped without a response, and a handling that
/// has ended ignores every event.
pub proof fn lemma_terminal(bytes: Seq<u8>, event: EventView, profile: UserInfoView, is_friend: bool)
    ensures
        request_parse(bytes) is None ==> transition(
            HandlerState::AwaitRequest,
            EventView::Request(bytes),
            profile,
            is_friend,
        ) == (HandlerState::Closed, ActionView::Drop),
        transition(HandlerState::Closed, event, profile, is_friend) == (
            HandlerState::Closed,
            ActionView::Ignore,
        ),
        transition(HandlerState::HandedOff, event, profile, is_friend) == (
            HandlerState::HandedOff,
            ActionView::Ignore,
        ),
{
}

} // verus!
