//! Message handling of the WebSocket echo servers.
//!
//! The network side (handshake, reading and writing frames) is done by the
//! caller; it hands every received message, and every outcome of the network
//! operations, to the functions of this module and carries out what they
//! decide.

use vstd::prelude::*;

verus! {

/// The status code and reason of a close frame.
#[derive(Clone, Debug, PartialEq, Eq)]
pub struct CloseInfo {
    pub code: u16,
    pub reason: String,
}

/// A WebSocket message.
#[derive(Clone, Debug, PartialEq, Eq)]
pub enum WsMessage {
    /// A text message.
    Text(String),
    /// A binary message.
    Binary(Vec<u8>),
    /// A ping with its payload.
    Ping(Vec<u8>),
    /// A pong with its payload.
    Pong(Vec<u8>),
    /// A close message, with or without a close frame.
    Close(Option<CloseInfo>),
    /// A raw frame (never produced by reading a connection).
    Frame,
}

/// What the blocking echo server does with one received message.
pub struct EchoReply {
    /// The message to send back, if any.
    pub reply: Option<WsMessage>,
    /// Whether the session ends after this message, whatever the send gives.
    pub stop: bool,
}

/// The decision of the blocking echo server for a received message: text and
/// binary messages are sent back unchanged, a ping needs no action (the
/// protocol layer answers it), a close message is answered with a close
/// message without frame and ends the session, anything else is ignored.
pub open spec fn echo_reply_spec(msg: WsMessage) -> EchoReply {
    match msg {
        WsMessage::Text(_) => EchoReply { reply: Some(msg), stop: false },
        WsMessage::Binary(_) => EchoReply { reply: Some(msg), stop: false },
        WsMessage::Close(_) => EchoReply { reply: Some(WsMessage::Close(None)), stop: true },
        _ => EchoReply { reply: None, stop: false },
    }
}

/// The blocking echo server's handling of one received message (see
/// [`echo_reply_spec`]).
pub fn echo_reply(msg: WsMessage) -> (r: EchoReply)
    ensures
        r == echo_reply_spec(msg),
{
    match msg {
        WsMessage::Text(_) => EchoReply { reply: Some(msg), stop: false },
        WsMessage::Binary(_) => EchoReply { reply: Some(msg), stop: false },
        WsMessage::Close(_) => EchoReply { reply: Some(WsMessage::Close(None)), stop: true },
        _ => EchoReply { reply: None, stop: false },
    }
}

/// What happened on the connection of a blocking echo session.
#[derive(Clone, Debug, PartialEq, Eq)]
pub enum BlockingEvent {
    /// A message arrived from the client.
    Received(WsMessage),
    /// Reading from the client failed (it disconnected or broke the protocol).
    ReadFailed,
}

/// The blocking echo server's decision for an event: a received message is
/// handled as [`echo_reply_spec`] says, and a failed read ends the session
/// without a reply.
pub open spec fn blocking_step_spec(event: BlockingEvent) -> EchoReply {
    match event {
        BlockingEvent::Received(msg) => echo_reply_spec(msg),
        BlockingEvent::ReadFailed => EchoReply { reply: None, stop: true },
    }
}

/// The blocking echo server's handling of one event (see [`blocking_step_spec`]).
pub fn blocking_step(event: BlockingEvent) -> (r: EchoReply)
    ensures
        r == blocking_step_spec(event),
{
    match event {
        BlockingEvent::Received(msg) => echo_reply(msg),
        BlockingEvent::ReadFailed => EchoReply { reply: None, stop: true },
    }
}

/// Whether the blocking echo session goes on after handling a message, given
/// whether its reply (if it had one) was sent: a reply that could not be sent
/// means the client is gone, which ends the session as a failed read does.
pub fn keeps_session(r: &EchoReply, sent: bool) -> (b: bool)
    ensures
        b == (!r.stop && (r.reply is None || sent)),
{
    if r.stop {
        false
    } else {
        match r.reply {
            None => true,
            Some(_) => sent,
        }
    }
}

/// The contents of a WebSocket message, as values.
pub enum MessageView {
    Text(Seq<char>),
    Binary(Seq<u8>),
    Ping(Seq<u8>),
    Pong(Seq<u8>),
    Close(Option<(u16, Seq<char>)>),
    Frame,
}

impl View for WsMessage {
    type V = MessageView;

    open spec fn view(&self) -> MessageView {
        match self {
            WsMessage::Text(t) => MessageView::Text(t@),
            WsMessage::Binary(b) => MessageView::Binary(b@),
            WsMessage::Ping(p) => MessageView::Ping(p@),
            WsMessage::Pong(p) => MessageView::Pong(p@),
            WsMessage::Close(c) => MessageView::Close(
                match c {
                    Some(info) => Some((info.code, info.reason@)),
                    None => None,
                },
            ),
            WsMessage::Frame => MessageView::Frame,
        }
    }
}

/// Where an asynchronous echo session stands.
#[derive(PartialEq, Eq, Structural, Clone, Copy, Debug)]
pub enum SessionPhase {
    /// Waiting for the next message or the next heartbeat.
    Listening,
    /// A message was handed out to be sent; its outcome is awaited.
    AwaitingSend,
    /// The session is over.
    Closed,
}

/// What happened on the connection of an asynchronous echo session.
#[derive(Clone, Debug, PartialEq, Eq)]
pub enum SessionEvent {
    /// A message arrived from the client.
    Received(WsMessage),
    /// Reading from the client failed.
    ReceiveFailed,
    /// The client's stream of messages ended.
    StreamEnded,
    /// The heartbeat interval elapsed.
    HeartbeatDue,
    /// The message handed out last was sent (`true`) or could not be (`false`).
    SendResult(bool),
}

/// A session event, as values.
pub enum EventView {
    Received(MessageView),
    ReceiveFailed,
    StreamEnded,
    HeartbeatDue,
    SendResult(bool),
}

impl View for SessionEvent {
    type V = EventView;

    open spec fn view(&self) -> EventView {
        match self {
            SessionEvent::Received(m) => EventView::Received(m@),
            SessionEvent::ReceiveFailed => EventView::ReceiveFailed,
            SessionEvent::StreamEnded => EventView::StreamEnded,
            SessionEvent::HeartbeatDue => EventView::HeartbeatDue,
            SessionEvent::SendResult(ok) => EventView::SendResult(*ok),
        }
    }
}

/// What an asynchronous echo session asks its caller to do.
#[derive(Clone, Debug, PartialEq, Eq)]
pub enum SessionAction {
    /// Send this message, then report the outcome with `SendResult`.
    Send(WsMessage),
    /// Keep going: wait for the next event.
    Continue,
    /// Close the connection.
    Disconnect,
}

/// A session action, as values.
pub enum ActionView {
    Send(MessageView),
    Continue,
    Disconnect,
}

impl View for SessionAction {
    type V = ActionView;

    open spec fn view(&self) -> ActionView {
        match self {
            SessionAction::Send(m) => ActionView::Send(m@),
            SessionAction::Continue => ActionView::Continue,
            SessionAction::Disconnect => ActionView::Disconnect,
        }
    }
}

/// The transition of an asynchronous echo session on an event that its
/// phase admits: data messages are echoed unchanged, a ping is answered with
/// a pong carrying the same payload, a close message or a failed or ended
/// stream ends the session, other messages are ignored, a due heartbeat
/// sends a ping with an empty payload, and a failed send ends the session.
pub open spec fn session_step(event: EventView) -> (SessionPhase, ActionView) {
    match event {
        EventView::Received(msg) => match msg {
            MessageView::Text(_) => (SessionPhase::AwaitingSend, ActionView::Send(msg)),
            MessageView::Binary(_) => (SessionPhase::AwaitingSend, ActionView::Send(msg)),
            MessageView::Ping(payload) => (
                SessionPhase::AwaitingSend,
                ActionView::Send(MessageView::Pong(payload)),
            ),
            MessageView::Close(_) => (SessionPhase::Closed, ActionView::Disconnect),
            _ => (SessionPhase::Listening, ActionView::Continue),
        },
        EventView::ReceiveFailed => (SessionPhase::Closed, ActionView::Disconnect),
        EventView::StreamEnded => (SessionPhase::Closed, ActionView::Disconnect),
        EventView::HeartbeatDue => (
            SessionPhase::AwaitingSend,
            ActionView::Send(MessageView::Ping(Seq::empty())),
        ),
        EventView::SendResult(ok) => if ok {
            (SessionPhase::Listening, ActionView::Continue)
        } else {
            (SessionPhase::Closed, ActionView::Disconnect)
        },
    }
}

/// Whether `event` may occur in `phase`: the outcome of a send comes exactly
/// when one is awaited, and nothing happens after the session closed.
pub open spec fn admits(phase: SessionPhase, event: EventView) -> bool {
    match phase {
        SessionPhase::Listening => !(event is SendResult),
        SessionPhase::AwaitingSend => event is SendResult,
        SessionPhase::Closed => false,
    }
}

/// Both servers send text and binary messages back unchanged and keep the
/// session going.
pub proof fn lemma_servers_echo_data(msg: WsMessage)
    requires
        msg is Text || msg is Binary,
    ensures
        echo_reply_spec(msg).reply == Some(msg),
        !echo_reply_spec(msg).stop,
        session_step(EventView::Received(msg@)) == (
            SessionPhase::AwaitingSend,
            ActionView::Send(msg@),
        ),
{
}

/// Every close message, with or without a close frame and whatever its code
/// and reason, ends both servers' sessions: the blocking server answers it
/// with a close message without frame and stops, and stops even if that
/// answer cannot be sent; the asynchronous server disconnects.
pub proof fn lemma_close_ends_session(c: Option<CloseInfo>, v: Option<(u16, Seq<char>)>)
    ensures
        echo_reply_spec(WsMessage::Close(c)).reply == Some(WsMessage::Close(None)),
        echo_reply_spec(WsMessage::Close(c)).stop,
        blocking_step_spec(BlockingEvent::Received(WsMessage::Close(c))).stop,
        session_step(EventView::Received(MessageView::Close(v))) == (
            SessionPhase::Closed,
            ActionView::Disconnect,
        ),
{
}

/// A failed read ends the blocking session without a reply; a failed read,
/// the end of the client's stream, or a send that fails ends the
/// asynchronous session, while a send that succeeds lets it listen again.
pub proof fn lemma_failures_end_session(ok: bool)
    ensures
        blocking_step_spec(BlockingEvent::ReadFailed).reply is None,
        blocking_step_spec(BlockingEvent::ReadFailed).stop,
        session_step(EventView::ReceiveFailed) == (SessionPhase::Closed, ActionView::Disconnect),
        session_step(EventView::StreamEnded) == (SessionPhase::Closed, ActionView::Disconnect),
        session_step(EventView::SendResult(ok)) == (if ok {
            (SessionPhase::Listening, ActionView::Continue)
        } else {
            (SessionPhase::Closed, ActionView::Disconnect)
        }),
{
}

/// Pings and pongs: the asynchronous server answers every ping with a pong
/// carrying the same payload and ignores pongs; its heartbeat is a ping with
/// an empty payload.  The blocking server leaves pings to the protocol layer
/// and ignores pongs, sending nothing and going on.
pub proof fn lemma_pings_and_pongs(payload: Seq<u8>, p: Vec<u8>)
    ensures
        session_step(EventView::Received(MessageView::Ping(payload))) == (
            SessionPhase::AwaitingSend,
            ActionView::Send(MessageView::Pong(payload)),
        ),
        session_step(EventView::Received(MessageView::Pong(payload))) == (
            SessionPhase::Listening,
            ActionView::Continue,
        ),
        session_step(EventView::HeartbeatDue) == (
            SessionPhase::AwaitingSend,
            ActionView::Send(MessageView::Ping(Seq::empty())),
        ),
        echo_reply_spec(WsMessage::Ping(p)).reply is None,
        !echo_reply_spec(WsMessage::Ping(p)).stop,
        echo_reply_spec(WsMessage::Pong(p)).reply is None,
        !echo_reply_spec(WsMessage::Pong(p)).stop,
{
}

/// An asynchronous session asks to send exactly when it then awaits the
/// outcome of a send, asks to disconnect exactly when it closes, and
/// otherwise keeps listening; once closed it admits no further event.
pub proof fn lemma_session_action_matches_phase(phase: SessionPhase, event: EventView)
    requires
        admits(phase, event),
    ensures
        (session_step(event).1 is Send) <==> session_step(event).0 == SessionPhase::AwaitingSend,
        (session_step(event).1 is Disconnect) <==> session_step(event).0 == SessionPhase::Closed,
        (session_step(event).1 is Continue) <==> session_step(event).0 == SessionPhase::Listening,
        !admits(SessionPhase::Closed, event),
{
}

/// An asynchronous echo session with one client.
pub struct EchoSession {
    phase: SessionPhase,
}

impl EchoSession {
    /// The phase the session is in.
    pub closed spec fn phase_spec(&self) -> SessionPhase {
        self.phase
    }

    /// A new session, listening.
    pub fn new() -> (s: EchoSession)
        ensures
            s.phase_spec() == SessionPhase::Listening,
    {
        EchoSession { phase: SessionPhase::Listening }
    }

    /// The phase the session is in.
    pub fn phase(&self) -> (p: SessionPhase)
        ensures
            p == self.phase_spec(),
    {
        self.phase
    }

    /// Whether the session is over.
    pub fn is_closed(&self) -> (b: bool)
        ensures
            b == (self.phase_spec() == SessionPhase::Closed),
    {
        match self.phase {
            SessionPhase::Closed => true,
            _ => false,
        }
    }

    /// Feeds one event to the session and returns what to do about it.
    pub fn step(&mut self, event: SessionEvent) -> (action: SessionAction)
        requires
            admits(old(self).phase_spec(), event@),
        ensures
            (final(self).phase_spec(), action@) == session_step(event@),
    {
        match event {
            SessionEvent::Received(msg) => match msg {
                WsMessage::Text(_) => {
                    self.phase = SessionPhase::AwaitingSend;
                    SessionAction::Send(msg)
                },
                WsMessage::Binary(_) => {
                    self.phase = SessionPhase::AwaitingSend;
                    SessionAction::Send(msg)
                },
                WsMessage::Ping(payload) => {
                    self.phase = SessionPhase::AwaitingSend;
                    SessionAction::Send(WsMessage::Pong(payload))
                },
                WsMessage::Close(_) => {
                    self.phase = SessionPhase::Closed;
                    SessionAction::Disconnect
                },
                _ => {
                    self.phase = SessionPhase::Listening;
                    SessionAction::Continue
                },
            },
            SessionEvent::ReceiveFailed => {
                self.phase = SessionPhase::Closed;
                SessionAction::Disconnect
            },
            SessionEvent::StreamEnded => {
                self.phase = SessionPhase::Closed;
                SessionAction::Disconnect
            },
            SessionEvent::HeartbeatDue => {
                self.phase = SessionPhase::AwaitingSend;
                SessionAction::Send(WsMessage::Ping(Vec::new()))
            },
            SessionEvent::SendResult(ok) => {
                if ok {
                    self.phase = SessionPhase::Listening;
                    SessionAction::Continue
                } else {
                    self.phase = SessionPhase::Closed;
                    SessionAction::Disconnect
                }
            },
        }
    }
}

} // verus!
