use rust_servers::websocket::{
    blocking_step, echo_reply, keeps_session, BlockingEvent, CloseInfo, EchoSession, SessionAction, SessionEvent, SessionPhase, WsMessage,
};

#[test]
fn blocking_server_echoes_text() {
    let r = echo_reply(WsMessage::Text("hi".to_string()));
    assert_eq!(r.reply, Some(WsMessage::Text("hi".to_string())));
    assert!(!r.stop);
}

#[test]
fn blocking_server_echoes_binary() {
    let r = echo_reply(WsMessage::Binary(vec![1, 2, 3]));
    assert_eq!(r.reply, Some(WsMessage::Binary(vec![1, 2, 3])));
    assert!(!r.stop);
}

#[test]
fn blocking_server_leaves_ping_to_protocol() {
    let r = echo_reply(WsMessage::Ping(vec![9]));
    assert_eq!(r.reply, None);
    assert!(!r.stop);
}

#[test]
fn blocking_server_ignores_pong_and_frame() {
    let r = echo_reply(WsMessage::Pong(vec![9]));
    assert_eq!(r.reply, None);
    assert!(!r.stop);
    let r = echo_reply(WsMessage::Frame);
    assert_eq!(r.reply, None);
    assert!(!r.stop);
}

#[test]
fn blocking_server_answers_close_and_stops() {
    let r = echo_reply(WsMessage::Close(Some(CloseInfo { code: 1000, reason: "bye".to_string() })));
    assert_eq!(r.reply, Some(WsMessage::Close(None)));
    assert!(r.stop);
}

#[test]
fn session_echoes_text_then_continues_on_success() {
    let mut s = EchoSession::new();
    assert_eq!(s.phase(), SessionPhase::Listening);
    let a = s.step(SessionEvent::Received(WsMessage::Text("hello".to_string())));
    assert_eq!(a, SessionAction::Send(WsMessage::Text("hello".to_string())));
    assert_eq!(s.phase(), SessionPhase::AwaitingSend);
    assert_eq!(s.step(SessionEvent::SendResult(true)), SessionAction::Continue);
    assert_eq!(s.phase(), SessionPhase::Listening);
}

#[test]
fn session_answers_ping_with_pong_of_same_payload() {
    let mut s = EchoSession::new();
    let a = s.step(SessionEvent::Received(WsMessage::Ping(vec![4, 5])));
    assert_eq!(a, SessionAction::Send(WsMessage::Pong(vec![4, 5])));
}

#[test]
fn session_heartbeat_sends_empty_ping() {
    let mut s = EchoSession::new();
    let a = s.step(SessionEvent::HeartbeatDue);
    assert_eq!(a, SessionAction::Send(WsMessage::Ping(Vec::new())));
    assert_eq!(s.step(SessionEvent::SendResult(false)), SessionAction::Disconnect);
    assert!(s.is_closed());
}

#[test]
fn session_closes_on_close_message() {
    let mut s = EchoSession::new();
    assert_eq!(s.step(SessionEvent::Received(WsMessage::Close(None))), SessionAction::Disconnect);
    assert_eq!(s.phase(), SessionPhase::Closed);
}

#[test]
fn session_closes_on_stream_end_and_error() {
    let mut s = EchoSession::new();
    assert_eq!(s.step(SessionEvent::StreamEnded), SessionAction::Disconnect);
    assert!(s.is_closed());
    let mut t = EchoSession::new();
    assert_eq!(t.step(SessionEvent::ReceiveFailed), SessionAction::Disconnect);
    assert!(t.is_closed());
}

#[test]
fn session_ignores_pong() {
    let mut s = EchoSession::new();
    assert_eq!(s.step(SessionEvent::Received(WsMessage::Pong(vec![1]))), SessionAction::Continue);
    assert_eq!(s.phase(), SessionPhase::Listening);
    assert_eq!(s.step(SessionEvent::Received(WsMessage::Frame)), SessionAction::Continue);
}

#[test]
fn session_echoes_binary_and_closes_on_failed_send() {
    let mut s = EchoSession::new();
    let a = s.step(SessionEvent::Received(WsMessage::Binary(vec![0, 255])));
    assert_eq!(a, SessionAction::Send(WsMessage::Binary(vec![0, 255])));
    assert_eq!(s.step(SessionEvent::SendResult(false)), SessionAction::Disconnect);
    assert_eq!(s.phase(), SessionPhase::Closed);
}

#[test]
fn blocking_session_ends_when_echo_cannot_be_sent() {
    let r = echo_reply(WsMessage::Text("hi".to_string()));
    assert!(keeps_session(&r, true));
    assert!(!keeps_session(&r, false));
}

#[test]
fn blocking_session_ends_after_close_even_if_sent() {
    let r = echo_reply(WsMessage::Close(None));
    assert!(!keeps_session(&r, true));
    assert!(!keeps_session(&r, false));
}

#[test]
fn blocking_session_goes_on_without_reply() {
    let r = echo_reply(WsMessage::Ping(vec![1]));
    assert!(keeps_session(&r, true));
}

#[test]
fn blocking_session_ends_on_failed_read() {
    let r = blocking_step(BlockingEvent::ReadFailed);
    assert_eq!(r.reply, None);
    assert!(r.stop);
    assert!(!keeps_session(&r, true));
}

#[test]
fn blocking_step_echoes_received_text() {
    let r = blocking_step(BlockingEvent::Received(WsMessage::Text("yo".to_string())));
    assert_eq!(r.reply, Some(WsMessage::Text("yo".to_string())));
    assert!(!r.stop);
}
