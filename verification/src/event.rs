//! The events that a socket is told of, and the steps that it answers with.
//!
//! A `receive` is a conversation: the caller reports what happened, the
//! socket says what to do next, until the socket says what to return.

use vstd::prelude::*;
use crate::error::{SocketError, SocketErrorView};
use crate::packet::{Packet, PacketView};

verus! {

/// Something that happened, reported to the socket.
#[derive(Debug, PartialEq, Eq)]
pub enum SocketEvent {
    /// A round begins: nothing has happened yet.
    Resumed,
    /// The transport's receive completed: with a datagram from a peer, or
    /// with the transport's account of its failure.
    Inbound(Result<Packet, String>),
    /// The outbound queue yielded its next packet, or `None` once every
    /// producer handle is gone.
    Outbound(Option<Packet>),
    /// The send that the socket asked for completed; `true` on success.
    Sent(bool),
}

pub enum SocketEventView {
    Resumed,
    Inbound(Result<PacketView, Seq<char>>),
    Outbound(Option<PacketView>),
    Sent(bool),
}

impl View for SocketEvent {
    type V = SocketEventView;

    open spec fn view(&self) -> SocketEventView {
        match self {
            SocketEvent::Resumed => SocketEventView::Resumed,
            SocketEvent::Inbound(Ok(packet)) => SocketEventView::Inbound(Ok(packet@)),
            SocketEvent::Inbound(Err(text)) => SocketEventView::Inbound(Err(text@)),
            SocketEvent::Outbound(Some(packet)) => SocketEventView::Outbound(Some(packet@)),
            SocketEvent::Outbound(None) => SocketEventView::Outbound(None),
            SocketEvent::Sent(delivered) => SocketEventView::Sent(*delivered),
        }
    }
}

/// What the caller of the socket does next.
#[derive(Debug, PartialEq, Eq)]
pub enum SocketStep {
    /// Wait until the transport has a datagram or the outbound queue has a
    /// packet, whichever comes first, and report it.
    Wait,
    /// Begin another round at once: report `Resumed`.
    Again,
    /// Attempt to deliver this packet's payload to its address, and report
    /// how it went.
    Send(Packet),
    /// The receive is over, with this result.
    Return(Result<Packet, SocketError>),
    /// The outbound queue has lost all its producers while the socket still
    /// runs: a programming error that ends the task.
    Abort,
}

pub enum SocketStepView {
    Wait,
    Again,
    Send(PacketView),
    Return(Result<PacketView, SocketErrorView>),
    Abort,
}

impl View for SocketStep {
    type V = SocketStepView;

    open spec fn view(&self) -> SocketStepView {
        match self {
            SocketStep::Wait => SocketStepView::Wait,
            SocketStep::Again => SocketStepView::Again,
            SocketStep::Send(packet) => SocketStepView::Send(packet@),
            SocketStep::Return(Ok(packet)) => SocketStepView::Return(Ok(packet@)),
            SocketStep::Return(Err(error)) => SocketStepView::Return(Err(error@)),
            SocketStep::Abort => SocketStepView::Abort,
        }
    }
}

} // verus!
