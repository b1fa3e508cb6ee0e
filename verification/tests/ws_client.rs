use taco_chat::requests::{WsDeleteMessage, WsMessageData};
use taco_chat::ws_client::{advance, connect, next_step, SocketInput, SocketStep, State, WsEvent};

#[test]
fn client_socket_starts_by_connecting_with_the_session() {
    assert_eq!(
        connect("tok".to_string()),
        (State::Starting, SocketStep::Connect { authorization: "Bearer tok".to_string() })
    );
    assert_eq!(next_step(State::Ready, &"tok".to_string()), SocketStep::Receive);
}

#[test]
fn client_socket_reports_ready_and_frames() {
    assert_eq!(advance(State::Starting, SocketInput::Connected), (State::Ready, Some(WsEvent::Ready)));
    let data = WsMessageData::DeleteMessage(WsDeleteMessage {
        chat_id: "c1".to_string(),
        message_id: "m1".to_string(),
    });
    assert_eq!(
        advance(State::Ready, SocketInput::Frame(data.clone())),
        (State::Ready, Some(WsEvent::Message(data.clone())))
    );
    assert_eq!(advance(State::Starting, SocketInput::Frame(data)), (State::Starting, None));
    assert_eq!(advance(State::Ready, SocketInput::Connected), (State::Ready, None));
}

#[test]
fn client_socket_reconnects_with_the_current_session_after_a_loss() {
    let (state, event) = advance(State::Ready, SocketInput::Failed);
    assert_eq!((state, event), (State::Starting, None));
    assert_eq!(
        next_step(state, &"renewed".to_string()),
        SocketStep::Connect { authorization: "Bearer renewed".to_string() }
    );
    assert_eq!(advance(State::Starting, SocketInput::Failed), (State::Starting, None));
    assert_eq!(advance(State::Starting, SocketInput::Connected), (State::Ready, Some(WsEvent::Ready)));
}
