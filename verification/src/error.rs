//! The failures that the socket and its sender handles report.

use vstd::prelude::*;
use crate::packet::{Packet, PacketView, PeerAddress};

verus! {

/// What a `receive` can fail with. Both failures are recoverable: the socket
/// stays usable and the caller decides whether to go on.
#[derive(Clone, Debug, PartialEq, Eq)]
pub enum SocketError {
    /// The transport failed to read; the text is the transport's own account.
    Wrapped(String),
    /// One outbound packet could not be delivered to this address.
    SendError(PeerAddress),
}

pub enum SocketErrorView {
    Wrapped(Seq<char>),
    SendError(PeerAddress),
}

impl View for SocketError {
    type V = SocketErrorView;

    open spec fn view(&self) -> SocketErrorView {
        match self {
            SocketError::Wrapped(text) => SocketErrorView::Wrapped(text@),
            SocketError::SendError(address) => SocketErrorView::SendError(*address),
        }
    }
}

/// A send on a handle whose socket is gone. The packet comes back unsent.
#[derive(Clone, Debug, PartialEq, Eq)]
pub struct QueueClosed {
    pub packet: Packet,
}

impl View for QueueClosed {
    type V = PacketView;

    open spec fn view(&self) -> PacketView {
        self.packet@
    }
}

/// No port could be bound for a listener that asked for one to be assigned.
#[derive(Clone, Copy, Debug, PartialEq, Eq, Structural)]
pub struct BindError {
    /// The address that was asked for, port `0` included.
    pub requested: PeerAddress,
}

} // verus!
