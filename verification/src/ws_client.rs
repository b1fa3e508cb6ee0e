//! The client's end of the event socket.

use vstd::prelude::*;
use crate::bearer::{bearer_header, bearer_value};
use crate::requests::WsMessageData;

verus! {

/// What the socket reports to the rest of the client.
#[derive(Debug, PartialEq)]
pub enum WsEvent {
    /// The socket is connected and authenticated.
    Ready,
    /// The server pushed an event.
    Message(WsMessageData),
}

/// Where the client's socket stands.
#[derive(Debug, Clone, Copy, PartialEq, Eq)]
pub enum State {
    /// There is no connection; the next step is to make one.
    Starting,
    /// The connection stands; the next step is to wait for an event.
    Ready,
}

/// What the owner of the socket is to do next.
#[derive(Debug, PartialEq)]
pub enum SocketStep {
    /// Open the socket with this `Authorization` header and report
    /// `Connected` or `Failed`.
    Connect { authorization: String },
    /// Wait for the next frame and report it as `Frame`, or `Failed`.
    Receive,
}

/// What the socket's owner reports back.
#[derive(Debug, PartialEq)]
pub enum SocketInput {
    /// The connection was made.
    Connected,
    /// The server sent an event.
    Frame(WsMessageData),
    /// The connection could not be made, or was lost.
    Failed,
}

/// The first step of a client that holds the session `session`: it starts
/// without a connection and is to make one under that session.
pub fn connect(session: String) -> (start: (State, SocketStep))
    ensures
        start.0 == State::Starting,
        start.1 matches SocketStep::Connect { authorization } && authorization@ == bearer_value(
            session@,
        ),
{
    (State::Starting, next_step(State::Starting, &session))
}

/// What to do in a state, for a client that holds the session `session`.
/// Every connection, the first and each later one, presents the session as
/// it is at that moment.
pub fn next_step(state: State, session: &String) -> (step: SocketStep)
    ensures
        match state {
            State::Starting => step matches SocketStep::Connect { authorization }
                && authorization@ == bearer_value(session@),
            State::Ready => step is Receive,
        },
{
    match state {
        State::Starting => SocketStep::Connect { authorization: bearer_header(session) },
        State::Ready => SocketStep::Receive,
    }
}

/// The state that follows a report of the socket's owner.
pub open spec fn advanced(state: State, input: SocketInput) -> State {
    match (state, input) {
        (State::Starting, SocketInput::Connected) => State::Ready,
        (State::Ready, SocketInput::Failed) => State::Starting,
        _ => state,
    }
}

/// Takes a report of the socket's owner and returns the state that follows
/// and the event for the rest of the client, if there is one. A new
/// connection reports `Ready`, also after a lost one, so that the client can
/// reload what it may have missed; a frame is passed on; a lost connection
/// leads back to `Starting`.
pub fn advance(state: State, input: SocketInput) -> (outcome: (State, Option<WsEvent>))
    ensures
        outcome.0 == advanced(state, input),
        match (state, input) {
            (State::Starting, SocketInput::Connected) => outcome.1 == Some(WsEvent::Ready),
            (State::Ready, SocketInput::Frame(data)) => outcome.1 == Some(WsEvent::Message(data)),
            _ => outcome.1 is None,
        },
{
    match state {
        State::Starting => match input {
            SocketInput::Connected => (State::Ready, Some(WsEvent::Ready)),
            _ => (State::Starting, None),
        },
        State::Ready => match input {
            SocketInput::Frame(data) => (State::Ready, Some(WsEvent::Message(data))),
            SocketInput::Failed => (State::Starting, None),
            SocketInput::Connected => (State::Ready, None),
        },
    }
}

} // verus!
