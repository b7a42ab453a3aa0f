//! The example client's side of the conversation: it pings the server on
//! connecting, and answers every pong with another ping.

use vstd::prelude::*;

verus! {

/// What the client sends.
pub const PING_MSG: &'static str = "ping";

/// What the client waits for.
pub const PONG_MSG: &'static str = "pong";

/// What the client's socket reports when it is polled.
#[derive(Clone, Debug, PartialEq, Eq)]
pub enum ClientEvent {
    /// The connection to the server stands.
    Connection,
    /// The connection to the server is gone.
    Disconnection,
    /// The server sent this message.
    Message(String),
    /// The socket failed; the text is its account.
    Error(String),
    /// Nothing happened.
    Idle,
}

pub enum ClientEventView {
    Connection,
    Disconnection,
    Message(Seq<char>),
    Error(Seq<char>),
    Idle,
}

impl View for ClientEvent {
    type V = ClientEventView;

    open spec fn view(&self) -> ClientEventView {
        match self {
            ClientEvent::Connection => ClientEventView::Connection,
            ClientEvent::Disconnection => ClientEventView::Disconnection,
            ClientEvent::Message(text) => ClientEventView::Message(text@),
            ClientEvent::Error(text) => ClientEventView::Error(text@),
            ClientEvent::Idle => ClientEventView::Idle,
        }
    }
}

/// Whether an event calls for a ping: the connection was made, or the server
/// sent a pong.
pub open spec fn calls_for_ping(event: ClientEventView) -> bool {
    match event {
        ClientEventView::Connection => true,
        ClientEventView::Message(text) => text == PONG_MSG@,
        _ => false,
    }
}

/// The message that the client sends on an event: a ping where the event
/// calls for one, and nothing otherwise.
pub fn reply_to(event: &ClientEvent) -> (reply: Option<String>)
    ensures
        reply is Some <==> calls_for_ping(event@),
        reply matches Some(text) ==> text@ == PING_MSG@,
{
    match event {
        ClientEvent::Connection => Some(PING_MSG.to_owned()),
        ClientEvent::Message(text) => {
            let pong: String = PONG_MSG.to_owned();
            if *text == pong {
                Some(PING_MSG.to_owned())
            } else {
                None
            }
        },
        _ => None,
    }
}

} // verus!
