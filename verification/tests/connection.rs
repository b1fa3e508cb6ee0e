use taco_chat::bus::{names, Delivery, MessageBus, Subscription, WsMessage, MAX_MESSAGES};
use taco_chat::connection::{Connection, ConnectionAction, ConnectionEvent};
use taco_chat::mutation::{chat_created, create_chat, MutationError};
use taco_chat::requests::{
    ChatWithMembers, CreateChat, Session, WsChatMessage, WsCreateChat, WsMessageData,
};
use taco_chat::session::{AuthError, AuthorizationHeader};

fn session(user: &str) -> Session {
    Session { session_id: format!("s-{user}"), user_id: user.to_string() }
}

fn streaming(user: &str) -> Connection {
    Connection::Streaming { user_id: user.to_string() }
}

fn text_event(chat: &str, to: &[&str]) -> WsMessage {
    let members: Vec<String> = to.iter().map(|m| m.to_string()).collect();
    WsMessage::new(
        &members,
        WsMessageData::ChatMessage(WsChatMessage {
            chat_id: chat.to_string(),
            sender_id: "alice".to_string(),
            message_id: "m1".to_string(),
            message: "hi".to_string(),
            reply_to: None,
            created_at: 1,
        }),
    )
}

/// Drains what the bus holds for one socket and returns what was forwarded.
fn drain(connection: Connection, subscription: &mut Subscription) -> (Connection, Vec<WsMessageData>) {
    let mut connection = connection;
    let mut forwarded = Vec::new();
    while let Some(event) = Connection::heard(subscription.next()) {
        let (next, action) = connection.step(event);
        connection = next;
        match action {
            ConnectionAction::Forward(data) => forwarded.push(data),
            ConnectionAction::Release => break,
            _ => {}
        }
    }
    (connection, forwarded)
}

#[test]
fn bus_keeps_a_hundred_events() {
    assert_eq!(MAX_MESSAGES, 100);
}

#[test]
fn message_recipients_form_a_set() {
    let members = vec!["alice".to_string(), "bob".to_string(), "alice".to_string()];
    let event = WsMessage::new(
        &members,
        WsMessageData::CreateChat(WsCreateChat { chat_id: "c1".to_string(), members: members.clone() }),
    );
    assert_eq!(event.recipient_ids(), &vec!["alice".to_string(), "bob".to_string()]);
    assert!(event.is_for(&"alice".to_string()));
    assert!(event.is_for(&"bob".to_string()));
    assert!(!event.is_for(&"carol".to_string()));
    assert!(!event.is_for(&"".to_string()));
    let copy = event.clone();
    assert_eq!(copy.recipient_ids(), event.recipient_ids());
    assert_eq!(copy.data(), event.data());
}

#[test]
fn message_for_nobody_reaches_nobody() {
    let event = WsMessage::new(&vec![], text_event("c1", &[]).data().clone());
    assert!(event.recipient_ids().is_empty());
    assert!(!event.is_for(&"alice".to_string()));
}

#[test]
fn names_finds_whole_ids_only() {
    let ids = vec!["alice".to_string(), "bob".to_string()];
    assert!(names(&ids, &"bob".to_string()));
    assert!(!names(&ids, &"bo".to_string()));
    assert!(!names(&vec![], &"bob".to_string()));
}

#[test]
fn connection_walks_from_upgrade_to_stream() {
    let connection = Connection::new();
    assert_eq!(connection, Connection::Connecting);
    let (connection, action) = connection
        .step(ConnectionEvent::Upgrade(AuthorizationHeader::Value("Bearer tok".to_string())));
    assert_eq!(connection, Connection::Authenticating { session_id: "tok".to_string() });
    assert_eq!(action, ConnectionAction::CheckSession { session_id: "tok".to_string() });
    let (connection, action) =
        connection.step(ConnectionEvent::SessionChecked(Some("alice".to_string())));
    assert_eq!(connection, streaming("alice"));
    assert_eq!(action, ConnectionAction::Subscribe);
    assert!(!connection.is_closed());
}

#[test]
fn upgrade_without_header_is_rejected() {
    let (connection, action) =
        Connection::new().step(ConnectionEvent::Upgrade(AuthorizationHeader::Missing));
    assert!(connection.is_closed());
    assert_eq!(action, ConnectionAction::Reject(AuthError::MissingHeader));
}

#[test]
fn upgrade_with_unreadable_header_is_rejected() {
    let (connection, action) =
        Connection::new().step(ConnectionEvent::Upgrade(AuthorizationHeader::Unreadable));
    assert!(connection.is_closed());
    assert_eq!(action, ConnectionAction::Reject(AuthError::InvalidCharacters));
}

#[test]
fn upgrade_with_another_scheme_is_rejected() {
    let (connection, action) = Connection::new()
        .step(ConnectionEvent::Upgrade(AuthorizationHeader::Value("Basic tok".to_string())));
    assert!(connection.is_closed());
    assert_eq!(action, ConnectionAction::Reject(AuthError::NotBearer));
}

#[test]
fn invalid_session_ends_the_connection_before_any_stream() {
    let connection = Connection::Authenticating { session_id: "tok".to_string() };
    let (connection, action) = connection.step(ConnectionEvent::SessionChecked(None));
    assert!(connection.is_closed());
    assert_eq!(action, ConnectionAction::Reject(AuthError::InvalidSession));
    let (connection, action) = connection.step(ConnectionEvent::Published(text_event("c1", &["alice"])));
    assert!(connection.is_closed());
    assert_eq!(action, ConnectionAction::Nothing);
}

#[test]
fn events_before_the_stream_are_not_forwarded() {
    let (connection, action) =
        Connection::new().step(ConnectionEvent::Published(text_event("c1", &["alice"])));
    assert_eq!(connection, Connection::Connecting);
    assert_eq!(action, ConnectionAction::Nothing);
    let waiting = Connection::Authenticating { session_id: "tok".to_string() };
    let (connection, action) = waiting.step(ConnectionEvent::Published(text_event("c1", &["alice"])));
    assert_eq!(connection, Connection::Authenticating { session_id: "tok".to_string() });
    assert_eq!(action, ConnectionAction::Nothing);
    let (connection, action) = connection.step(ConnectionEvent::SocketClosed);
    assert!(connection.is_closed());
    assert_eq!(action, ConnectionAction::Nothing);
}

#[test]
fn stream_forwards_to_recipients_only() {
    let event = text_event("c1", &["alice", "bob"]);
    let (connection, action) = streaming("bob").step(ConnectionEvent::Published(event.clone()));
    assert_eq!(connection, streaming("bob"));
    assert_eq!(action, ConnectionAction::Forward(event.data().clone()));
    let (connection, action) = streaming("carol").step(ConnectionEvent::Published(event));
    assert_eq!(connection, streaming("carol"));
    assert_eq!(action, ConnectionAction::Nothing);
}

#[test]
fn lag_does_not_end_the_stream() {
    let (connection, action) = streaming("bob").step(ConnectionEvent::Lagged(7));
    assert_eq!(connection, streaming("bob"));
    assert_eq!(action, ConnectionAction::Nothing);
}

#[test]
fn stream_ends_on_failure_and_stays_closed() {
    for end in [ConnectionEvent::SendFailed, ConnectionEvent::SocketClosed, ConnectionEvent::BusClosed] {
        let (connection, action) = streaming("bob").step(end);
        assert!(connection.is_closed());
        assert_eq!(action, ConnectionAction::Release);
        let (connection, action) =
            connection.step(ConnectionEvent::SessionChecked(Some("bob".to_string())));
        assert!(connection.is_closed());
        assert_eq!(action, ConnectionAction::Nothing);
    }
}

#[test]
fn new_chat_reaches_both_members_and_nobody_else() {
    let bus = MessageBus::new();
    let mut alice_socket = bus.subscribe();
    let mut alice_second_socket = bus.subscribe();
    let mut bob_socket = bus.subscribe();
    let mut carol_socket = bus.subscribe();

    let request = CreateChat { other_members: "bob".to_string() };
    let members = create_chat(&session("alice"), &request, true).unwrap();
    assert_eq!(members, vec!["alice".to_string(), "bob".to_string()]);
    let stored = ChatWithMembers { id: "c1".to_string(), members, last_updated: 1_000 };
    bus.publish(chat_created(&stored));

    let expected = WsMessageData::CreateChat(WsCreateChat {
        chat_id: "c1".to_string(),
        members: vec!["alice".to_string(), "bob".to_string()],
    });
    let (state, got) = drain(streaming("alice"), &mut alice_socket);
    assert_eq!(state, streaming("alice"));
    assert_eq!(got, vec![expected.clone()]);
    let (_, got) = drain(streaming("alice"), &mut alice_second_socket);
    assert_eq!(got, vec![expected.clone()]);
    let (_, got) = drain(streaming("bob"), &mut bob_socket);
    assert_eq!(got, vec![expected]);
    let (state, got) = drain(streaming("carol"), &mut carol_socket);
    assert_eq!(state, streaming("carol"));
    assert_eq!(got, Vec::<WsMessageData>::new());
}

#[test]
fn chat_with_oneself_is_a_conflict_and_publishes_nothing() {
    let bus = MessageBus::new();
    let mut alice_socket = bus.subscribe();
    let mut bob_socket = bus.subscribe();

    let request = CreateChat { other_members: "alice".to_string() };
    let refused = create_chat(&session("alice"), &request, true);
    assert_eq!(refused, Err(MutationError::SelfChat));
    assert_eq!(refused.as_ref().unwrap_err().status(), 409);
    if let Ok(members) = refused {
        let stored = ChatWithMembers { id: "c1".to_string(), members, last_updated: 1_000 };
        bus.publish(chat_created(&stored));
    }

    let (_, got) = drain(streaming("alice"), &mut alice_socket);
    assert_eq!(got, Vec::<WsMessageData>::new());
    let (_, got) = drain(streaming("bob"), &mut bob_socket);
    assert_eq!(got, Vec::<WsMessageData>::new());
}

#[test]
fn events_arrive_in_publish_order() {
    let bus = MessageBus::new();
    let mut bob_socket = bus.subscribe();
    let first = text_event("c1", &["alice", "bob"]);
    let second = text_event("c2", &["bob"]);
    let third = text_event("c3", &["alice"]);
    let fourth = text_event("c4", &["bob", "carol"]);
    for event in [&first, &second, &third, &fourth] {
        bus.publish(event.clone());
    }
    let (_, got) = drain(streaming("bob"), &mut bob_socket);
    assert_eq!(got, vec![first.data().clone(), second.data().clone(), fourth.data().clone()]);
}

#[test]
fn a_failed_socket_does_not_disturb_the_others() {
    let bus = MessageBus::new();
    let mut bob_socket = bus.subscribe();
    let (alice, action) = streaming("alice").step(ConnectionEvent::SendFailed);
    assert!(alice.is_closed());
    assert_eq!(action, ConnectionAction::Release);
    let event = text_event("c1", &["alice", "bob"]);
    bus.publish(event.clone());
    let (bob, got) = drain(streaming("bob"), &mut bob_socket);
    assert_eq!(bob, streaming("bob"));
    assert_eq!(got, vec![event.data().clone()]);
}

#[test]
fn a_slow_socket_misses_the_oldest_events_and_goes_on() {
    let bus = MessageBus::new();
    let mut slow = bus.subscribe();
    let sent = 3 * MAX_MESSAGES;
    for i in 0..sent {
        bus.publish(text_event(&format!("c{i}"), &["bob"]));
    }
    let (state, got) = drain(streaming("bob"), &mut slow);
    assert_eq!(state, streaming("bob"));
    assert!(got.len() < sent);
    assert!(got.len() >= MAX_MESSAGES);
    assert_eq!(got.last().unwrap().chat_id(), &format!("c{}", sent - 1));
    assert_ne!(got.first().unwrap().chat_id(), "c0");
}

#[test]
fn publish_counts_the_subscriptions() {
    let bus = MessageBus::new();
    assert_eq!(bus.publish(text_event("c1", &["bob"])), None);
    let mut first = bus.subscribe();
    let second = bus.subscribe();
    assert_eq!(bus.publish(text_event("c2", &["bob"])), Some(2));
    drop(second);
    assert_eq!(bus.publish(text_event("c3", &["bob"])), Some(1));
    let (_, got) = drain(streaming("bob"), &mut first);
    let chats: Vec<&str> = got.iter().map(|data| data.chat_id().as_str()).collect();
    assert_eq!(chats, vec!["c2", "c3"]);
}

#[test]
fn subscription_sees_what_is_published_after_it_was_made() {
    let bus = MessageBus::new();
    let mut early = bus.subscribe();
    bus.publish(text_event("c1", &["bob"]));
    let mut late = bus.subscribe();
    bus.publish(text_event("c2", &["bob"]));
    let (_, got) = drain(streaming("bob"), &mut early);
    assert_eq!(got.len(), 2);
    let (_, got) = drain(streaming("bob"), &mut late);
    assert_eq!(got.len(), 1);
    assert_eq!(got[0].chat_id(), "c2");
    assert!(matches!(late.next(), Delivery::Empty));
}

#[test]
fn poll_takes_one_delivery_at_a_time() {
    let bus = MessageBus::new();
    let mut subscription = bus.subscribe();
    let (connection, action) = streaming("bob").poll(&mut subscription);
    assert_eq!(connection, streaming("bob"));
    assert_eq!(action, ConnectionAction::Nothing);
    let event = text_event("c1", &["bob"]);
    bus.publish(event.clone());
    bus.publish(text_event("c2", &["alice"]));
    let (connection, action) = connection.poll(&mut subscription);
    assert_eq!(action, ConnectionAction::Forward(event.data().clone()));
    let (connection, action) = connection.poll(&mut subscription);
    assert_eq!(action, ConnectionAction::Nothing);
    drop(bus);
    let (connection, action) = connection.poll(&mut subscription);
    assert!(connection.is_closed());
    assert_eq!(action, ConnectionAction::Release);
}

#[test]
fn the_receiving_half_can_be_waited_on() {
    let bus = MessageBus::new();
    let mut receiver = bus.subscribe().into_receiver();
    let event = text_event("c1", &["bob"]);
    bus.publish(event.clone());
    let heard = receiver.try_recv().unwrap();
    assert_eq!(heard.data(), event.data());
}
