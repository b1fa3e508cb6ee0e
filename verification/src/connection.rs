//! The life of one server-side socket: from the upgrade request, through
//! the check of its session, to the forwarding of events, to its end.

use vstd::prelude::*;
use crate::bearer::{bearer_token, bearer_token_of};
use crate::bus::{Delivery, Subscription, WsMessage};
use crate::requests::{WsMessageData, WsMessageDataView};
use crate::session::{AuthError, AuthorizationHeader};

verus! {

/// Where a connection stands.
#[derive(Debug, PartialEq)]
pub enum Connection {
    /// The upgrade request has not been looked at.
    Connecting,
    /// The request named a session; the session authority has yet to answer.
    Authenticating { session_id: String },
    /// Events for `user_id` are forwarded to the socket.
    Streaming { user_id: String },
    /// The connection is over.
    Closed,
}

/// `Connection` as contracts see it.
pub enum ConnectionView {
    Connecting,
    Authenticating { session_id: Seq<char> },
    Streaming { user_id: Seq<char> },
    Closed,
}

impl View for Connection {
    type V = ConnectionView;

    open spec fn view(&self) -> ConnectionView {
        match self {
            Connection::Connecting => ConnectionView::Connecting,
            Connection::Authenticating { session_id } => ConnectionView::Authenticating {
                session_id: session_id@,
            },
            Connection::Streaming { user_id } => ConnectionView::Streaming { user_id: user_id@ },
            Connection::Closed => ConnectionView::Closed,
        }
    }
}

/// What happens to a connection.
#[derive(Debug)]
pub enum ConnectionEvent {
    /// The upgrade request arrived with this `Authorization` header.
    Upgrade(AuthorizationHeader),
    /// The session authority answered: the user of the session, or `None`
    /// for a session that is unknown or expired.
    SessionChecked(Option<String>),
    /// The bus delivered an event.
    Published(WsMessage),
    /// The bus dropped events that this connection was too slow to take.
    Lagged(u64),
    /// The bus was shut down.
    BusClosed,
    /// Writing to the socket failed.
    SendFailed,
    /// The peer closed the socket.
    SocketClosed,
}

/// What the owner of the socket is to do next.
#[derive(Debug, PartialEq)]
pub enum ConnectionAction {
    /// Nothing; wait for the next event.
    Nothing,
    /// Ask the session authority to check and renew the session and report
    /// its answer as `SessionChecked`.
    CheckSession { session_id: String },
    /// Refuse the upgrade.
    Reject(AuthError),
    /// Complete the upgrade and subscribe to the bus.
    Subscribe,
    /// Write the event to the socket.
    Forward(WsMessageData),
    /// Unsubscribe from the bus and let go of the socket.
    Release,
}

impl ConnectionView {
    /// The state that follows `event`.
    ///
    /// Authentication happens once, on the upgrade request. A connection
    /// leaves `Streaming` only when its socket is closed or fails or the bus
    /// is shut down; events that it missed do not end it. `Closed` is final.
    pub open spec fn next(self, event: ConnectionEvent) -> ConnectionView {
        match (self, event) {
            (ConnectionView::Connecting, ConnectionEvent::Upgrade(AuthorizationHeader::Value(value))) => {
                match bearer_token_of(value@) {
                    Some(token) => ConnectionView::Authenticating { session_id: token },
                    None => ConnectionView::Closed,
                }
            },
            (ConnectionView::Connecting, ConnectionEvent::Upgrade(_)) => ConnectionView::Closed,
            (ConnectionView::Authenticating { .. }, ConnectionEvent::SessionChecked(Some(user))) => {
                ConnectionView::Streaming { user_id: user@ }
            },
            (ConnectionView::Authenticating { .. }, ConnectionEvent::SessionChecked(None)) => {
                ConnectionView::Closed
            },
            (ConnectionView::Streaming { .. }, ConnectionEvent::BusClosed) => ConnectionView::Closed,
            (ConnectionView::Streaming { .. }, ConnectionEvent::SendFailed) => ConnectionView::Closed,
            (ConnectionView::Streaming { .. }, ConnectionEvent::SocketClosed) => {
                ConnectionView::Closed
            },
            (ConnectionView::Connecting, ConnectionEvent::SocketClosed) => ConnectionView::Closed,
            (ConnectionView::Authenticating { .. }, ConnectionEvent::SocketClosed) => {
                ConnectionView::Closed
            },
            _ => self,
        }
    }

    /// Whether `action` is what the connection asks for when `event` happens
    /// in this state.
    pub open spec fn asks(self, event: ConnectionEvent, action: ConnectionAction) -> bool {
        match (self, event) {
            (ConnectionView::Connecting, ConnectionEvent::Upgrade(AuthorizationHeader::Missing)) => {
                action == ConnectionAction::Reject(AuthError::MissingHeader)
            },
            (
                ConnectionView::Connecting,
                ConnectionEvent::Upgrade(AuthorizationHeader::Unreadable),
            ) => action == ConnectionAction::Reject(AuthError::InvalidCharacters),
            (ConnectionView::Connecting, ConnectionEvent::Upgrade(AuthorizationHeader::Value(value))) => {
                match bearer_token_of(value@) {
                    Some(token) => {
                        &&& action matches ConnectionAction::CheckSession { session_id }
                        &&& session_id@ == token
                    },
                    None => action == ConnectionAction::Reject(AuthError::NotBearer),
                }
            },
            (ConnectionView::Authenticating { .. }, ConnectionEvent::SessionChecked(Some(_))) => {
                action is Subscribe
            },
            (ConnectionView::Authenticating { .. }, ConnectionEvent::SessionChecked(None)) => {
                action == ConnectionAction::Reject(AuthError::InvalidSession)
            },
            (ConnectionView::Streaming { user_id }, ConnectionEvent::Published(message)) => {
                if message@.recipient_ids.contains(user_id) {
                    action matches ConnectionAction::Forward(data) && data@ == message@.data
                } else {
                    action is Nothing
                }
            },
            (ConnectionView::Streaming { .. }, ConnectionEvent::BusClosed) => action is Release,
            (ConnectionView::Streaming { .. }, ConnectionEvent::SendFailed) => action is Release,
            (ConnectionView::Streaming { .. }, ConnectionEvent::SocketClosed) => action is Release,
            _ => action is Nothing,
        }
    }
}

/// The event that a delivery of the bus is to a connection; none when the
/// bus had nothing waiting.
pub open spec fn event_of(delivery: Delivery) -> Option<ConnectionEvent> {
    match delivery {
        Delivery::Event(message) => Some(ConnectionEvent::Published(message)),
        Delivery::Lagged(missed) => Some(ConnectionEvent::Lagged(missed)),
        Delivery::Closed => Some(ConnectionEvent::BusClosed),
        Delivery::Empty => None,
    }
}

impl Connection {
    /// A connection whose upgrade request has just arrived.
    pub fn new() -> (connection: Self)
        ensures
            connection@ is Connecting,
    {
        Connection::Connecting
    }

    /// Whether the connection is over.
    pub fn is_closed(&self) -> (closed: bool)
        ensures
            closed == (self@ is Closed),
    {
        match self {
            Connection::Closed => true,
            _ => false,
        }
    }

    /// The event that a delivery of the bus is to the connection.
    pub fn heard(delivery: Delivery) -> (event: Option<ConnectionEvent>)
        ensures
            event == event_of(delivery),
    {
        match delivery {
            Delivery::Event(message) => Some(ConnectionEvent::Published(message)),
            Delivery::Lagged(missed) => Some(ConnectionEvent::Lagged(missed)),
            Delivery::Closed => Some(ConnectionEvent::BusClosed),
            Delivery::Empty => None,
        }
    }

    /// Takes what the bus has for the connection right now, if anything, and
    /// returns the state that follows and what to do. Whatever the bus
    /// delivers, the connection acts on it as `step` says; when nothing is
    /// waiting, nothing changes and nothing is asked.
    pub fn poll(self, subscription: &mut Subscription) -> (outcome: (Connection, ConnectionAction))
        ensures
            exists|delivery: Delivery|
                match #[trigger] event_of(delivery) {
                    Some(event) => outcome.0@ == self@.next(event) && self@.asks(event, outcome.1),
                    None => outcome.0@ == self@ && outcome.1 is Nothing,
                },
    {
        let delivery = subscription.next();
        let ghost seen = delivery;
        let outcome = match Connection::heard(delivery) {
            Some(event) => self.step(event),
            None => (self, ConnectionAction::Nothing),
        };
        assert(match event_of(seen) {
            Some(event) => outcome.0@ == self@.next(event) && self@.asks(event, outcome.1),
            None => outcome.0@ == self@ && outcome.1 is Nothing,
        });
        outcome
    }

    /// Takes one event and returns the state that follows and what to do.
    pub fn step(self, event: ConnectionEvent) -> (outcome: (Connection, ConnectionAction))
        ensures
            outcome.0@ == self@.next(event),
            self@.asks(event, outcome.1),
    {
        match self {
            Connection::Connecting => match event {
                ConnectionEvent::Upgrade(AuthorizationHeader::Missing) => (
                    Connection::Closed,
                    ConnectionAction::Reject(AuthError::MissingHeader),
                ),
                ConnectionEvent::Upgrade(AuthorizationHeader::Unreadable) => (
                    Connection::Closed,
                    ConnectionAction::Reject(AuthError::InvalidCharacters),
                ),
                ConnectionEvent::Upgrade(AuthorizationHeader::Value(value)) => {
                    match bearer_token(&value) {
                        Some(session_id) => (
                            Connection::Authenticating { session_id: session_id.clone() },
                            ConnectionAction::CheckSession { session_id },
                        ),
                        None => (Connection::Closed, ConnectionAction::Reject(AuthError::NotBearer)),
                    }
                },
                ConnectionEvent::SocketClosed => (Connection::Closed, ConnectionAction::Nothing),
                _ => (Connection::Connecting, ConnectionAction::Nothing),
            },
            Connection::Authenticating { session_id } => match event {
                ConnectionEvent::SessionChecked(Some(user_id)) => (
                    Connection::Streaming { user_id },
                    ConnectionAction::Subscribe,
                ),
                ConnectionEvent::SessionChecked(None) => (
                    Connection::Closed,
                    ConnectionAction::Reject(AuthError::InvalidSession),
                ),
                ConnectionEvent::SocketClosed => (Connection::Closed, ConnectionAction::Nothing),
                _ => (Connection::Authenticating { session_id }, ConnectionAction::Nothing),
            },
            Connection::Streaming { user_id } => match event {
                ConnectionEvent::Published(message) => {
                    let action = if message.is_for(&user_id) {
                        ConnectionAction::Forward(message.data().clone())
                    } else {
                        ConnectionAction::Nothing
                    };
                    (Connection::Streaming { user_id }, action)
                },
                ConnectionEvent::BusClosed | ConnectionEvent::SendFailed
                | ConnectionEvent::SocketClosed => (Connection::Closed, ConnectionAction::Release),
                _ => (Connection::Streaming { user_id }, ConnectionAction::Nothing),
            },
            Connection::Closed => (Connection::Closed, ConnectionAction::Nothing),
        }
    }
}

/// An event reaches a socket only if the connection is streaming for a user
/// whom the event names as a recipient, and then it is forwarded as it was
/// published. Nobody else's socket sees it.
pub proof fn law_forward_only_to_recipients(
    state: ConnectionView,
    event: ConnectionEvent,
    action: ConnectionAction,
)
    requires
        state.asks(event, action),
        action is Forward,
    ensures
        ({
            &&& state matches ConnectionView::Streaming { user_id }
            &&& event matches ConnectionEvent::Published(message)
            &&& message@.recipient_ids.contains(user_id)
            &&& action->Forward_0@ == message@.data
        }),
{
}

/// A streaming connection forwards every event that names its user.
pub proof fn law_recipients_are_served(
    user_id: Seq<char>,
    message: WsMessage,
    action: ConnectionAction,
)
    requires
        (ConnectionView::Streaming { user_id }).asks(ConnectionEvent::Published(message), action),
        message@.recipient_ids.contains(user_id),
    ensures
        action matches ConnectionAction::Forward(data) && data@ == message@.data,
        (ConnectionView::Streaming { user_id }).next(ConnectionEvent::Published(message))
            == (ConnectionView::Streaming { user_id }),
{
}

/// A closed connection stays closed and asks for nothing.
pub proof fn law_closed_is_final(event: ConnectionEvent, action: ConnectionAction)
    requires
        ConnectionView::Closed.asks(event, action),
    ensures
        ConnectionView::Closed.next(event) is Closed,
        action is Nothing,
{
}

/// Only a session that the authority accepted gets a stream: a connection
/// that streams after an event either streamed before, for the same user, or
/// was waiting for the authority, which named its user.
pub proof fn law_stream_needs_session(state: ConnectionView, event: ConnectionEvent)
    requires
        state.next(event) is Streaming,
    ensures
        state != state.next(event) ==> {
            &&& state is Authenticating
            &&& event matches ConnectionEvent::SessionChecked(Some(user))
            &&& state.next(event) == (ConnectionView::Streaming { user_id: user@ })
        },
{
}

/// The events that a stream for `user_id` owes its socket, given what the
/// bus delivered to it: those that name the user, in the order delivered.
pub open spec fn owed(user_id: Seq<char>, delivered: Seq<WsMessage>) -> Seq<WsMessageDataView>
    decreases delivered.len(),
{
    if delivered.len() == 0 {
        Seq::empty()
    } else if delivered.last()@.recipient_ids.contains(user_id) {
        owed(user_id, delivered.drop_last()).push(delivered.last()@.data)
    } else {
        owed(user_id, delivered.drop_last())
    }
}

/// The events that a series of actions writes to the socket, in order.
pub open spec fn written(actions: Seq<ConnectionAction>) -> Seq<WsMessageDataView>
    decreases actions.len(),
{
    if actions.len() == 0 {
        Seq::empty()
    } else {
        match actions.last() {
            ConnectionAction::Forward(data) => written(actions.drop_last()).push(data@),
            _ => written(actions.drop_last()),
        }
    }
}

/// A stream writes what it owes, no more, no less, and in order. Whatever
/// the bus delivers to a streaming connection, the socket gets exactly the
/// events that name the connection's user, each once and in the order of
/// delivery, and the connection goes on streaming for that user.
pub proof fn law_stream_writes_what_it_owes(
    user_id: Seq<char>,
    delivered: Seq<WsMessage>,
    actions: Seq<ConnectionAction>,
)
    requires
        actions.len() == delivered.len(),
        forall|i: int|
            0 <= i < delivered.len() ==> (ConnectionView::Streaming { user_id }).asks(
                ConnectionEvent::Published(#[trigger] delivered[i]),
                actions[i],
            ),
    ensures
        written(actions) == owed(user_id, delivered),
        forall|i: int|
            0 <= i < delivered.len() ==> (ConnectionView::Streaming { user_id }).next(
                ConnectionEvent::Published(#[trigger] delivered[i]),
            ) == (ConnectionView::Streaming { user_id }),
    decreases delivered.len(),
{
    if delivered.len() > 0 {
        let earlier = delivered.drop_last();
        let before = actions.drop_last();
        assert forall|i: int| 0 <= i < earlier.len() implies (ConnectionView::Streaming {
            user_id,
        }).asks(ConnectionEvent::Published(#[trigger] earlier[i]), before[i]) by {
            assert(earlier[i] == delivered[i]);
            assert(before[i] == actions[i]);
        }
        law_stream_writes_what_it_owes(user_id, earlier, before);
        let last = delivered.len() - 1;
        assert((ConnectionView::Streaming { user_id }).asks(
            ConnectionEvent::Published(delivered[last]),
            actions[last],
        ));
    }
}

} // verus!
