use peer_protocol::codec::{encode_request, encode_response, ChatError, Request, Response};
use peer_protocol::identity::PeerIdentity;
use peer_protocol::profile::UserInfo;
use peer_protocol::service::{Action, Event, Handler, HandlerState, RequestError, Service};

fn peer(tag: u8) -> PeerIdentity {
    let mut bytes = [0u8; 32];
    bytes[0] = tag;
    PeerIdentity::from_bytes(&bytes).unwrap()
}

fn service_named(name: &str) -> Service {
    Service::new(UserInfo::new(String::from(name), None, None))
}

fn reply_of(action: Action) -> Vec<u8> {
    match action {
        Action::Reply(bytes) => bytes,
        Action::ReplyAndClose(bytes) => bytes,
        Action::ReplyAndHandOff(bytes) => bytes,
        other => panic!("no reply in {:?}", other),
    }
}

#[test]
fn fetch_profile_returns_the_responders_profile() {
    let mut responder = service_named("A");
    let initiator = service_named("B");
    let mut handler = responder.accept(peer(1));
    let action =
        responder.handle_connection(&mut handler, Event::Request(encode_request(Request::UserInfo)));
    assert_eq!(handler.state, HandlerState::AwaitClose);
    assert!(matches!(action, Action::Reply(_)));
    let got = initiator.request_user_info(&reply_of(action));
    assert_eq!(got, Ok(UserInfo::new(String::from("A"), None, None)));
    let done = responder.handle_connection(&mut handler, Event::PeerClosed);
    assert_eq!(done, Action::Finish);
    assert_eq!(handler.state, HandlerState::Closed);
}

#[test]
fn fetch_profile_carries_avatar_and_bio() {
    let profile = UserInfo::new(String::from("N"), Some(vec![1, 2, 3]), Some(String::from("bio")));
    let mut responder = Service::new(profile.duplicate());
    let mut handler = responder.accept(peer(1));
    let action =
        responder.handle_connection(&mut handler, Event::Request(encode_request(Request::UserInfo)));
    assert_eq!(service_named("B").request_user_info(&reply_of(action)), Ok(profile));
}

#[test]
fn profile_accessors_read_and_replace() {
    let mut service = service_named("A");
    assert_eq!(service.user_info().name(), "A");
    service.set_user_info(UserInfo::new(String::from("C"), None, Some(String::from("x"))));
    assert_eq!(service.user_info(), UserInfo::new(String::from("C"), None, Some(String::from("x"))));
}

#[test]
fn friend_request_resolves_after_accept() {
    let mut responder = service_named("A");
    let initiator = service_named("B");
    let mut handler = responder.accept(peer(9));
    let action =
        responder.handle_connection(&mut handler, Event::Request(encode_request(Request::Friend)));
    assert_eq!(action, Action::Wait);
    assert_eq!(handler.state, HandlerState::AwaitFriendDecision);
    // Nothing is written while the request waits.
    assert_eq!(responder.handle_connection(&mut handler, Event::PeerClosed), Action::Ignore);
    assert_eq!(
        responder.handle_connection(&mut handler, Event::Request(vec![1u8])),
        Action::Ignore
    );
    assert_eq!(handler.state, HandlerState::AwaitFriendDecision);

    let mut pending = responder.next_friend_request().unwrap();
    assert_eq!(pending.remote_node_id(), peer(9));
    assert_eq!(pending.accept(), Ok(()));
    let answer = pending.decision().unwrap();
    let action = responder.handle_connection(&mut handler, Event::Decision(answer));
    assert_eq!(action, Action::Reply(vec![1u8, 1u8]));
    assert_eq!(handler.state, HandlerState::AwaitClose);
    assert_eq!(initiator.request_friend(&reply_of(action)), Ok(true));
    assert!(pending.accept().is_err());
    assert!(pending.reject().is_err());
    assert!(responder.next_friend_request().is_none());
}

#[test]
fn friend_request_rejected_yields_false() {
    let mut responder = service_named("A");
    let mut handler = responder.accept(peer(9));
    responder.handle_connection(&mut handler, Event::Request(encode_request(Request::Friend)));
    let mut pending = responder.next_friend_request().unwrap();
    assert_eq!(pending.reject(), Ok(()));
    let action = responder.handle_connection(&mut handler, Event::Decision(pending.decision().unwrap()));
    assert_eq!(action, Action::Reply(vec![1u8, 0u8]));
    assert_eq!(service_named("B").request_friend(&reply_of(action)), Ok(false));
}

#[test]
fn dropped_friend_decision_counts_as_reject() {
    let mut responder = service_named("A");
    let mut handler = responder.accept(peer(9));
    responder.handle_connection(&mut handler, Event::Request(encode_request(Request::Friend)));
    let action = responder.handle_connection(&mut handler, Event::DecisionDropped);
    assert_eq!(action, Action::Reply(vec![1u8, 0u8]));
    assert_eq!(handler.state, HandlerState::AwaitClose);
}

#[test]
fn chat_from_a_stranger_is_refused_without_queueing() {
    let mut responder = service_named("A");
    let mut handler = responder.accept(peer(4));
    let action =
        responder.handle_connection(&mut handler, Event::Request(encode_request(Request::Chat)));
    assert_eq!(action, Action::ReplyAndClose(vec![2u8, 1u8]));
    assert_eq!(handler.state, HandlerState::Closed);
    assert!(responder.next_chat_request().is_none());
    assert_eq!(responder.chats.get(&peer(4)), None);
    assert_eq!(responder.connections.peer_of(handler.connection), None);
    let mut initiator = service_named("B");
    assert_eq!(
        initiator.request_chat(&reply_of(action), peer(1)),
        Err(RequestError::NotFriend)
    );
    assert_eq!(initiator.connections.peer_of(0), None);
}

#[test]
fn chat_from_a_friend_is_queued_and_handed_off_on_accept() {
    let mut responder = service_named("A");
    responder.set_friends(vec![peer(4)]);
    let mut handler = responder.accept(peer(4));
    let action =
        responder.handle_connection(&mut handler, Event::Request(encode_request(Request::Chat)));
    assert_eq!(action, Action::Wait);
    assert_eq!(handler.state, HandlerState::AwaitChatDecision);
    assert_eq!(responder.chats.get(&peer(4)), None);

    let mut pending = responder.next_chat_request().unwrap();
    assert_eq!(pending.remote_node_id(), peer(4));
    assert_eq!(pending.accept(), Ok(handler.connection));
    let action = responder.handle_connection(&mut handler, Event::Decision(true));
    assert_eq!(action, Action::ReplyAndHandOff(vec![2u8, 0u8]));
    assert_eq!(handler.state, HandlerState::HandedOff);
    assert_eq!(responder.chats.get(&peer(4)), Some(handler.connection));
    assert_eq!(responder.chat_stream(&peer(4)), Some(handler.connection));
    assert_eq!(responder.connections.peer_of(handler.connection), Some(peer(4)));
    let mut initiator = service_named("B");
    let channel = initiator.request_chat(&reply_of(action), peer(1)).unwrap();
    assert_eq!(initiator.connections.peer_of(channel), Some(peer(1)));
    // The connection is no longer handled.
    assert_eq!(responder.handle_connection(&mut handler, Event::PeerClosed), Action::Ignore);
    assert_eq!(handler.state, HandlerState::HandedOff);
}

#[test]
fn rejected_chat_is_let_go_without_a_response() {
    let mut responder = service_named("A");
    responder.set_friends(vec![peer(4)]);
    let mut handler = responder.accept(peer(4));
    responder.handle_connection(&mut handler, Event::Request(encode_request(Request::Chat)));
    let mut pending = responder.next_chat_request().unwrap();
    assert_eq!(pending.reject(), Ok(()));
    let action = responder.handle_connection(&mut handler, Event::Decision(false));
    assert_eq!(action, Action::Drop);
    assert_eq!(handler.state, HandlerState::Closed);
    assert_eq!(responder.chats.get(&peer(4)), None);
    assert_eq!(responder.connections.peer_of(handler.connection), None);

    let mut other = responder.accept(peer(4));
    responder.handle_connection(&mut other, Event::Request(encode_request(Request::Chat)));
    assert_eq!(responder.handle_connection(&mut other, Event::DecisionDropped), Action::Drop);
    assert_eq!(other.state, HandlerState::Closed);
}

#[test]
fn friend_gate_follows_set_friends() {
    let mut responder = service_named("A");
    responder.set_friends(vec![peer(4)]);
    responder.set_friends(vec![peer(5)]);
    let mut handler = responder.accept(peer(4));
    let action =
        responder.handle_connection(&mut handler, Event::Request(encode_request(Request::Chat)));
    assert_eq!(action, Action::ReplyAndClose(vec![2u8, 1u8]));
    let mut handler = responder.accept(peer(5));
    let action =
        responder.handle_connection(&mut handler, Event::Request(encode_request(Request::Chat)));
    assert_eq!(action, Action::Wait);
}

#[test]
fn undecodable_request_is_dropped() {
    let mut responder = service_named("A");
    for bytes in [Vec::new(), vec![9u8], vec![1u8, 1u8]] {
        let mut handler = responder.accept(peer(1));
        let handle = handler.connection;
        let action = responder.handle_connection(&mut handler, Event::Request(bytes));
        assert_eq!(responder.connections.peer_of(handle), None);
        assert_eq!(action, Action::Drop);
        assert_eq!(handler.state, HandlerState::Closed);
        assert_eq!(responder.handle_connection(&mut handler, Event::Decision(true)), Action::Ignore);
        assert_eq!(handler.state, HandlerState::Closed);
    }
    assert!(responder.next_friend_request().is_none());
    assert!(responder.next_chat_request().is_none());
}

#[test]
fn events_out_of_turn_are_ignored() {
    let mut responder = service_named("A");
    let mut handler = responder.accept(peer(1));
    let fresh = handler;
    assert_eq!(fresh, Handler::new(peer(1), handler.connection));
    assert_eq!(responder.handle_connection(&mut handler, Event::Decision(true)), Action::Ignore);
    assert_eq!(responder.handle_connection(&mut handler, Event::DecisionDropped), Action::Ignore);
    assert_eq!(responder.handle_connection(&mut handler, Event::PeerClosed), Action::Ignore);
    assert_eq!(handler, fresh);
    assert_eq!(responder.connections.peer_of(handler.connection), Some(peer(1)));
    responder.handle_connection(&mut handler, Event::Request(encode_request(Request::UserInfo)));
    assert_eq!(responder.handle_connection(&mut handler, Event::Decision(true)), Action::Ignore);
    assert_eq!(handler.state, HandlerState::AwaitClose);
}

#[test]
fn friend_requests_are_drained_in_arrival_order() {
    let mut responder = service_named("A");
    let mut first = responder.accept(peer(20));
    let mut second = responder.accept(peer(10));
    responder.handle_connection(&mut first, Event::Request(encode_request(Request::Friend)));
    responder.handle_connection(&mut second, Event::Request(encode_request(Request::Friend)));
    assert_eq!(responder.next_friend_request().unwrap().remote_node_id(), peer(20));
    assert_eq!(responder.next_friend_request().unwrap().remote_node_id(), peer(10));
    assert!(responder.next_friend_request().is_none());
}

#[test]
fn chat_requests_are_drained_in_arrival_order() {
    let mut responder = service_named("A");
    responder.set_friends(vec![peer(1), peer(2)]);
    let mut first = responder.accept(peer(2));
    let mut second = responder.accept(peer(1));
    responder.handle_connection(&mut first, Event::Request(encode_request(Request::Chat)));
    responder.handle_connection(&mut second, Event::Request(encode_request(Request::Chat)));
    let mut a = responder.next_chat_request().unwrap();
    let mut b = responder.next_chat_request().unwrap();
    assert_eq!(a.remote_node_id(), peer(2));
    assert_eq!(b.remote_node_id(), peer(1));
    assert_eq!(a.accept(), Ok(first.connection));
    assert_eq!(b.accept(), Ok(second.connection));
    assert_ne!(first.connection, second.connection);
}

#[test]
fn mismatched_response_is_a_protocol_violation() {
    let mut client = service_named("B");
    let friend = encode_response(&Response::Friend(true));
    let chat = encode_response(&Response::Chat(Ok(())));
    let refused = encode_response(&Response::Chat(Err(ChatError::NotFriend)));
    let profile = encode_response(&Response::UserInfo(UserInfo::new(String::from("A"), None, None)));
    assert_eq!(client.request_user_info(&friend), Err(RequestError::UnexpectedResponse));
    assert_eq!(client.request_user_info(&chat), Err(RequestError::UnexpectedResponse));
    assert_eq!(client.request_friend(&chat), Err(RequestError::UnexpectedResponse));
    assert_eq!(client.request_friend(&refused), Err(RequestError::UnexpectedResponse));
    assert_eq!(client.request_friend(&profile), Err(RequestError::UnexpectedResponse));
    assert_eq!(client.request_chat(&friend, peer(1)), Err(RequestError::UnexpectedResponse));
    assert_eq!(client.request_chat(&profile, peer(1)), Err(RequestError::UnexpectedResponse));
}

#[test]
fn silent_peer_is_a_failure() {
    let mut client = service_named("B");
    assert_eq!(client.request_user_info(&[]), Err(RequestError::Decode));
    assert_eq!(client.request_friend(&[]), Err(RequestError::Decode));
    assert_eq!(client.request_chat(&[], peer(1)), Err(RequestError::Decode));
    assert_eq!(client.request_friend(&[1u8]), Err(RequestError::Decode));
    assert_eq!(client.request_chat(&[2u8, 7u8], peer(1)), Err(RequestError::Decode));
}

#[test]
fn finished_exchange_gives_the_handle_back() {
    let mut responder = service_named("A");
    let mut handler = responder.accept(peer(1));
    let handle = handler.connection;
    assert_eq!(responder.connections.peer_of(handle), Some(peer(1)));
    responder.handle_connection(&mut handler, Event::Request(encode_request(Request::UserInfo)));
    assert_eq!(responder.connections.peer_of(handle), Some(peer(1)));
    responder.handle_connection(&mut handler, Event::PeerClosed);
    assert_eq!(handler.state, HandlerState::Closed);
    assert_eq!(responder.connections.peer_of(handle), None);
    // A later connection may get the handle; the ended handling leaves it alone.
    let other = responder.accept(peer(2));
    assert_eq!(responder.handle_connection(&mut handler, Event::PeerClosed), Action::Ignore);
    assert_eq!(responder.connections.peer_of(other.connection), Some(peer(2)));
}

#[test]
fn chat_stream_needs_an_open_connection_to_the_peer() {
    let mut responder = service_named("A");
    responder.set_friends(vec![peer(4)]);
    assert_eq!(responder.chat_stream(&peer(4)), None);
    let mut handler = responder.accept(peer(4));
    responder.handle_connection(&mut handler, Event::Request(encode_request(Request::Chat)));
    responder.handle_connection(&mut handler, Event::Decision(true));
    assert_eq!(responder.chat_stream(&peer(4)), Some(handler.connection));
    assert_eq!(responder.release(handler.connection), Some(peer(4)));
    assert_eq!(responder.release(handler.connection), None);
    assert_eq!(responder.chat_stream(&peer(4)), None);
    // The handle now names a connection to somebody else.
    let other = responder.accept(peer(6));
    if other.connection == handler.connection {
        assert_eq!(responder.chats.get(&peer(4)), Some(other.connection));
    }
    assert_eq!(responder.chat_stream(&peer(4)), None);
}
