//! The WebSocket session: a state machine driven by the messages of the
//! client and by a periodic tick.

use crate::config::server_config::ServerConfig;
use crate::response::{text_response, ResponseDescriptor};
use crate::text::concat_str;
use vstd::prelude::*;

verus! {

/// The number of seconds between two ticks of a session.
pub const HEARTBEAT_INTERVAL: u64 = 5;

/// Whether a session is still served.
#[derive(Debug, Clone, Copy, PartialEq, Eq)]
pub enum SessionState {
    Alive,
    TimedOut,
}

/// A message of the client.
#[derive(Debug, Clone, PartialEq, Eq)]
pub enum Message {
    Ping(Vec<u8>),
    Pong(Vec<u8>),
    Text(String),
    Binary(Vec<u8>),
    Close,
    /// Any other frame, and any protocol error.
    Other,
}

/// What the session does in return for a message.
#[derive(Debug, Clone, PartialEq, Eq)]
pub enum Reaction {
    /// Answer a ping with a pong that carries the same bytes.
    Pong(Vec<u8>),
    /// Send a text message.
    Text(String),
    /// Send a binary message.
    Binary(Vec<u8>),
    /// Pass the close on and stop the session.
    CloseAndStop,
    /// Stop the session.
    Stop,
    /// Nothing is sent.
    Nothing,
}

/// What a `Reaction` holds, as mathematical values.
pub enum ReactionView {
    Pong(Seq<u8>),
    Text(Seq<char>),
    Binary(Seq<u8>),
    CloseAndStop,
    Stop,
    Nothing,
}

impl View for Reaction {
    type V = ReactionView;

    open spec fn view(&self) -> ReactionView {
        match *self {
            Reaction::Pong(bytes) => ReactionView::Pong(bytes@),
            Reaction::Text(text) => ReactionView::Text(text@),
            Reaction::Binary(bytes) => ReactionView::Binary(bytes@),
            Reaction::CloseAndStop => ReactionView::CloseAndStop,
            Reaction::Stop => ReactionView::Stop,
            Reaction::Nothing => ReactionView::Nothing,
        }
    }
}

/// What a tick of the session leads to.
#[derive(Debug, Clone, Copy, PartialEq, Eq)]
pub enum Tick {
    /// The client is pinged.
    Ping,
    /// The client has been silent for too long: the session stops.
    Stop,
}

/// One WebSocket session. Times are milliseconds on a clock that never
/// runs backwards.
#[derive(Debug, Clone, PartialEq, Eq)]
pub struct WebSocketSession {
    pub id: usize,
    pub state: SessionState,
    /// The time of the last ping or pong of the client.
    pub heartbeat: u64,
    /// The number of seconds of silence after which the session stops.
    pub timeout: u64,
}

/// The reaction to `message`.
pub open spec fn reaction_to(message: Message) -> ReactionView {
    match message {
        Message::Ping(bytes) => ReactionView::Pong(bytes@),
        Message::Pong(_) => ReactionView::Nothing,
        Message::Text(text) => ReactionView::Text("obdrzel jsem zpravu: "@ + text@),
        Message::Binary(bytes) => ReactionView::Binary(bytes@),
        Message::Close => ReactionView::CloseAndStop,
        Message::Other => ReactionView::Stop,
    }
}

/// Whether a client last heard of at `heartbeat` has, at `now`, been silent
/// for more than `timeout` seconds.
pub open spec fn silent_too_long(heartbeat: u64, now: u64, timeout: u64) -> bool {
    now > heartbeat && now - heartbeat > timeout * 1000
}

impl WebSocketSession {
    /// A session that starts at `now` with the timeout of `config`.
    pub fn new(id: usize, config: &ServerConfig, now: u64) -> (session: Self)
        ensures
            session.id == id,
            session.state == SessionState::Alive,
            session.heartbeat == now,
            session.timeout == config.websocket_timeout,
    {
        WebSocketSession {
            id: id,
            state: SessionState::Alive,
            heartbeat: now,
            timeout: config.websocket_timeout,
        }
    }

    /// Handles a message that arrives at `now`: a ping is answered with its
    /// own bytes, text with a receipt, binary data with itself; a close is
    /// passed on and ends the session, as does anything unexpected. Pings
    /// and pongs, and nothing else, count as signs of life.
    pub fn handle(&mut self, message: Message, now: u64) -> (reaction: Reaction)
        ensures
            reaction@ == reaction_to(message),
            final(self).id == old(self).id,
            final(self).state == old(self).state,
            final(self).timeout == old(self).timeout,
            final(self).heartbeat == if message is Ping || message is Pong {
                now
            } else {
                old(self).heartbeat
            },
    {
        match message {
            Message::Ping(bytes) => {
                self.heartbeat = now;
                Reaction::Pong(bytes)
            },
            Message::Pong(_) => {
                self.heartbeat = now;
                Reaction::Nothing
            },
            Message::Text(text) => Reaction::Text(
                concat_str("obdrzel jsem zpravu: ", text.as_str()),
            ),
            Message::Binary(bytes) => Reaction::Binary(bytes),
            Message::Close => Reaction::CloseAndStop,
            Message::Other => Reaction::Stop,
        }
    }

    /// A tick at `now`: the session times out and stops where the client
    /// has been silent for more than the timeout, and else pings the client.
    /// A session that has timed out stays so.
    pub fn heartbeat(&mut self, now: u64) -> (tick: Tick)
        ensures
            final(self).id == old(self).id,
            final(self).heartbeat == old(self).heartbeat,
            final(self).timeout == old(self).timeout,
            final(self).state == if old(self).state == SessionState::TimedOut || silent_too_long(
                old(self).heartbeat,
                now,
                old(self).timeout,
            ) {
                SessionState::TimedOut
            } else {
                SessionState::Alive
            },
            tick == if final(self).state == SessionState::TimedOut {
                Tick::Stop
            } else {
                Tick::Ping
            },
    {
        let timed_out = match self.state {
            SessionState::TimedOut => true,
            SessionState::Alive => now > self.heartbeat && (now - self.heartbeat) as u128
                > (self.timeout as u128) * 1000,
        };
        if timed_out {
            self.state = SessionState::TimedOut;
            Tick::Stop
        } else {
            Tick::Ping
        }
    }
}

/// Refuses a WebSocket request with `404` where WebSockets are disabled;
/// `None` lets the session start.
pub fn websocket_handler(config: &ServerConfig) -> (refusal: Option<ResponseDescriptor>)
    ensures
        match refusal {
            Some(response) => !config.enable_websockets && response@ == text_response(
                404,
                "WebSockets nejsou povoleny"@,
            ),
            None => config.enable_websockets,
        },
{
    if !config.enable_websockets {
        Some(ResponseDescriptor::text(404, "WebSockets nejsou povoleny"))
    } else {
        None
    }
}

} // verus!
