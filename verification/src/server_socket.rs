//! The socket itself: the owner of the outbound queue, and the decisions of
//! its `receive`.

use vstd::prelude::*;
use futures_channel::mpsc::{UnboundedReceiver, UnboundedSender};
use crate::error::{BindError, SocketError, SocketErrorView};
use crate::event::{SocketEvent, SocketEventView, SocketStep, SocketStepView};
use crate::message_sender::MessageSender;
use crate::packet::{Packet, PeerAddress};
use crate::queue::{connected_to, same_channel, QueueProducer};
use crate::socket::Socket;

verus! {

/// The first port that is tried when a port is to be assigned.
pub const FIRST_PROBED_PORT: u16 = 8000;

/// The end of the range of ports that are tried; it is not tried itself.
pub const PROBED_PORTS_END: u16 = 9000;

/// `port` lies in the probed range, the probe found it free, and it found
/// every lower port of the range taken.
pub open spec fn is_first_available<F: Fn(u16) -> bool>(probe: F, port: u16) -> bool {
    &&& FIRST_PROBED_PORT <= port < PROBED_PORTS_END
    &&& call_ensures(probe, (port,), true)
    &&& forall|lower: u16|
        FIRST_PROBED_PORT <= lower < port ==> #[trigger] call_ensures(probe, (lower,), false)
}

/// The probe found every port of the probed range taken.
pub open spec fn none_available<F: Fn(u16) -> bool>(probe: F) -> bool {
    forall|port: u16|
        FIRST_PROBED_PORT <= port < PROBED_PORTS_END ==> #[trigger] call_ensures(
            probe,
            (port,),
            false,
        )
}

/// Tries the ports from `FIRST_PROBED_PORT` up to `PROBED_PORTS_END` in
/// ascending order and returns the first that `port_is_available` accepts.
///
/// The probe is asked about each port at most once, and about none above the
/// one that is returned.
pub fn get_available_port<F: Fn(u16) -> bool>(port_is_available: F) -> (found: Option<u16>)
    requires
        forall|port: u16|
            FIRST_PROBED_PORT <= port < PROBED_PORTS_END ==> call_requires(
                port_is_available,
                (port,),
            ),
    ensures
        match found {
            Some(port) => is_first_available(port_is_available, port),
            None => none_available(port_is_available),
        },
{
    let mut port: u16 = FIRST_PROBED_PORT;
    while port < PROBED_PORTS_END
        invariant
            FIRST_PROBED_PORT <= port <= PROBED_PORTS_END,
            forall|p: u16|
                FIRST_PROBED_PORT <= p < PROBED_PORTS_END ==> call_requires(
                    port_is_available,
                    (p,),
                ),
            forall|lower: u16|
                FIRST_PROBED_PORT <= lower < port ==> #[trigger] call_ensures(
                    port_is_available,
                    (lower,),
                    false,
                ),
        decreases PROBED_PORTS_END - port,
    {
        if port_is_available(port) {
            return Some(port);
        }
        port += 1;
    }
    None
}

/// The socket as a mathematical value: where it listens, what it tells
/// peers, and the address of the send that is under way, if one is.
pub struct ServerSocketView {
    pub local_address: PeerAddress,
    pub public_address: PeerAddress,
    pub in_flight: Option<PeerAddress>,
}

/// What the socket does on an event, and what becomes of it.
///
/// An inbound datagram, or the transport's failure to read one, ends the
/// receive. A packet from the outbound queue is to be sent, and its address
/// is remembered until the send is reported. A send that succeeded ends
/// nothing: the socket goes on. A send that failed ends the receive with an
/// error that names the address, once; a report with no send under way is
/// passed over.
pub open spec fn direct_step(socket: ServerSocketView, event: SocketEventView) -> (
    ServerSocketView,
    SocketStepView,
) {
    match event {
        SocketEventView::Resumed => (socket, SocketStepView::Wait),
        SocketEventView::Inbound(Ok(packet)) => (socket, SocketStepView::Return(Ok(packet))),
        SocketEventView::Inbound(Err(text)) => (
            socket,
            SocketStepView::Return(Err(SocketErrorView::Wrapped(text))),
        ),
        SocketEventView::Outbound(Some(packet)) => (
            ServerSocketView { in_flight: Some(packet.address), ..socket },
            SocketStepView::Send(packet),
        ),
        SocketEventView::Outbound(None) => (socket, SocketStepView::Abort),
        SocketEventView::Sent(delivered) => (
            ServerSocketView { in_flight: None, ..socket },
            match socket.in_flight {
                Some(address) if !delivered => SocketStepView::Return(
                    Err(SocketErrorView::SendError(address)),
                ),
                _ => SocketStepView::Again,
            },
        ),
    }
}

/// A socket that talks to clients over an unordered, unreliable transport.
///
/// It owns the consumer end of its outbound queue, and one producer end from
/// which the handles that it gives out are made.
#[derive(Debug)]
pub struct ServerSocket {
    local_address: PeerAddress,
    public_address: PeerAddress,
    to_client_sender: QueueProducer,
    to_client_receiver: UnboundedReceiver<Packet>,
    in_flight: Option<PeerAddress>,
}

impl View for ServerSocket {
    type V = ServerSocketView;

    closed spec fn view(&self) -> ServerSocketView {
        ServerSocketView {
            local_address: self.local_address,
            public_address: self.public_address,
            in_flight: self.in_flight,
        }
    }
}

impl ServerSocket {
    /// The producer end from which this socket's handles are made.
    pub closed spec fn producer(&self) -> UnboundedSender<Packet> {
        self.to_client_sender.end()
    }

    /// The consumer end of the outbound queue, which this socket drains.
    pub closed spec fn consumer(&self) -> UnboundedReceiver<Packet> {
        self.to_client_receiver
    }

    /// Whether a handle feeds this socket's outbound queue.
    pub open spec fn is_fed_by(&self, handle: &MessageSender) -> bool {
        same_channel(handle.producer(), self.producer())
    }

    /// A socket for the given local address, with a new outbound queue: the
    /// producer end from which its handles are made is connected to the
    /// consumer end that it drains.
    ///
    /// An address with a port is taken as it is. Port `0` asks for a port to
    /// be assigned: the first port of the probed range that
    /// `port_is_available` accepts, and `BindError` if it accepts none.
    /// `public_address` is what peers are told to reach the socket at.
    pub fn listen<F: Fn(u16) -> bool>(
        socket_address: PeerAddress,
        public_address: PeerAddress,
        port_is_available: F,
    ) -> (bound: Result<Socket, BindError>)
        requires
            socket_address.port == 0 ==> forall|port: u16|
                FIRST_PROBED_PORT <= port < PROBED_PORTS_END ==> call_requires(
                    port_is_available,
                    (port,),
                ),
        ensures
            socket_address.port != 0 ==> bound is Ok,
            match bound {
                Ok(socket) => {
                    &&& socket matches Socket::Direct(direct)
                    &&& connected_to(direct.producer(), direct.consumer())
                    &&& direct@.public_address == public_address
                    &&& direct@.in_flight is None
                    &&& direct@.local_address.ip == socket_address.ip
                    &&& if socket_address.port != 0 {
                        direct@.local_address.port == socket_address.port
                    } else {
                        is_first_available(port_is_available, direct@.local_address.port)
                    }
                },
                Err(error) => {
                    &&& error.requested == socket_address
                    &&& none_available(port_is_available)
                },
            },
    {
        let local_address: PeerAddress = if socket_address.port != 0 {
            socket_address
        } else {
            match get_available_port(port_is_available) {
                Some(port) => socket_address.with_port(port),
                None => {
                    return Err(BindError { requested: socket_address });
                },
            }
        };
        let (to_client_sender, to_client_receiver) = QueueProducer::open();
        Ok(
            Socket::Direct(
                ServerSocket {
                    local_address,
                    public_address,
                    to_client_sender,
                    to_client_receiver,
                    in_flight: None,
                },
            ),
        )
    }

    /// The address that the socket listens on.
    pub fn local_address(&self) -> (address: PeerAddress)
        ensures
            address == self@.local_address,
    {
        self.local_address
    }

    /// The address that peers are told to reach the socket at.
    pub fn public_address(&self) -> (address: PeerAddress)
        ensures
            address == self@.public_address,
    {
        self.public_address
    }

    /// Takes one event of a receive and says what to do next.
    pub fn receive(&mut self, event: SocketEvent) -> (step: SocketStep)
        ensures
            (final(self)@, step@) == direct_step(old(self)@, event@),
            final(self).producer() == old(self).producer(),
            final(self).consumer() == old(self).consumer(),
    {
        match event {
            SocketEvent::Resumed => SocketStep::Wait,
            SocketEvent::Inbound(Ok(packet)) => SocketStep::Return(Ok(packet)),
            SocketEvent::Inbound(Err(text)) => SocketStep::Return(Err(SocketError::Wrapped(text))),
            SocketEvent::Outbound(Some(packet)) => {
                self.in_flight = Some(packet.address());
                SocketStep::Send(packet)
            },
            SocketEvent::Outbound(None) => SocketStep::Abort,
            SocketEvent::Sent(delivered) => {
                let was: Option<PeerAddress> = self.in_flight;
                self.in_flight = None;
                match was {
                    Some(address) if !delivered => SocketStep::Return(
                        Err(SocketError::SendError(address)),
                    ),
                    _ => SocketStep::Again,
                }
            },
        }
    }

    /// A new handle on the socket's outbound queue. Every handle that the
    /// socket gives out feeds the one queue that the socket drains: the new
    /// handle feeds this socket, it shares its queue with exactly the
    /// handles that feed this socket, and it feeds the consumer ends that
    /// the socket's own producer end is connected to.
    pub fn get_sender(&mut self) -> (handle: MessageSender)
        ensures
            final(self).is_fed_by(&handle),
            forall|other: MessageSender|
                #![trigger other.shares_queue_with(&handle)]
                other.shares_queue_with(&handle) == final(self).is_fed_by(&other),
            forall|consumer: UnboundedReceiver<Packet>|
                #![trigger handle.feeds(consumer)]
                handle.feeds(consumer) == connected_to(final(self).producer(), consumer),
            final(self)@ == old(self)@,
            final(self).producer() == old(self).producer(),
            final(self).consumer() == old(self).consumer(),
    {
        MessageSender::new(self.to_client_sender.handle())
    }

    /// The consumer end of the outbound queue, for the caller to wait on.
    ///
    /// What is handed out is the socket's own consumer end: it is that end
    /// as it stood, and what the caller leaves behind is the end that the
    /// socket has afterwards. Nothing else of the socket changes.
    pub fn outbound_queue(&mut self) -> (queue: &mut UnboundedReceiver<Packet>)
        ensures
            *queue == old(self).consumer(),
            final(self).consumer() == *final(queue),
            final(self)@ == old(self)@,
            final(self).producer() == old(self).producer(),
    {
        &mut self.to_client_receiver
    }
}

} // verus!
