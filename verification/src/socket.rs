//! The socket as its users see it: one contract, whether the socket stands
//! alone or inside link conditioners.

use vstd::prelude::*;
use futures_channel::mpsc::{UnboundedReceiver, UnboundedSender};
use crate::conditions::{Conditions, LinkConditionerConfig};
use crate::event::{SocketEvent, SocketEventView, SocketStep, SocketStepView};
use crate::holding::due;
use crate::link_conditioner::{conditioned, LinkConditioner, LinkConditionerView};
use crate::message_sender::MessageSender;
use crate::packet::{Packet, PeerAddress};
use crate::queue::{connected_to, same_channel};
use crate::server_socket::{direct_step, ServerSocket, ServerSocketView};

verus! {

/// A socket: the plain one, or a link conditioner around a socket.
#[derive(Debug)]
pub enum Socket {
    Direct(ServerSocket),
    Conditioned(LinkConditioner),
}

/// A socket as a mathematical value.
pub enum SocketView {
    Direct(ServerSocketView),
    Conditioned(LinkConditionerView),
}

impl SocketView {
    /// The plain socket at the core, inside every conditioner.
    pub open spec fn plain(self) -> ServerSocketView
        decreases self,
    {
        match self {
            SocketView::Direct(direct) => direct,
            SocketView::Conditioned(conditioner) => conditioner.inner.plain(),
        }
    }
}

/// What a socket does on an event under given conditions, and what becomes
/// of it.
pub open spec fn socket_step(
    socket: SocketView,
    event: SocketEventView,
    conditions: Conditions,
) -> (SocketView, SocketStepView)
    decreases socket, 1int,
{
    match socket {
        SocketView::Direct(direct) => {
            let (next, step) = direct_step(direct, event);
            (SocketView::Direct(next), step)
        },
        SocketView::Conditioned(conditioner) => {
            let (next, step) = conditioner_step(conditioner, event, conditions);
            (SocketView::Conditioned(next), step)
        },
    }
}

/// What a link conditioner does on an event under given conditions, and what
/// becomes of it.
///
/// At the start of a round a held packet that is due is returned at once.
/// Otherwise the event goes to the socket inside, and that socket's step is
/// conditioned.
pub open spec fn conditioner_step(
    conditioner: LinkConditionerView,
    event: SocketEventView,
    conditions: Conditions,
) -> (LinkConditionerView, SocketStepView)
    decreases conditioner, 0int,
{
    let waiting = due(conditioner.held, conditioner.config.reorder, conditions.now);
    if event is Resumed && waiting is Some {
        let i = waiting->0;
        (
            LinkConditionerView { held: conditioner.held.remove(i), ..conditioner },
            SocketStepView::Return(Ok(conditioner.held[i].packet)),
        )
    } else {
        let (inner, inner_step) = socket_step(*conditioner.inner, event, conditions);
        let (held, step) = conditioned(
            conditioner.held,
            conditioner.config,
            inner_step,
            conditions,
        );
        (LinkConditionerView { inner: Box::new(inner), config: conditioner.config, held }, step)
    }
}

impl View for Socket {
    type V = SocketView;

    open spec fn view(&self) -> SocketView {
        self.model()
    }
}

impl Socket {
    /// The socket as a mathematical value.
    pub open spec fn model(&self) -> SocketView
        decreases self,
    {
        match self {
            Socket::Direct(direct) => SocketView::Direct(direct@),
            Socket::Conditioned(conditioner) => SocketView::Conditioned(conditioner.model()),
        }
    }

    /// The producer end from which this socket's handles are made: that of
    /// the plain socket at its core.
    pub open spec fn producer(&self) -> UnboundedSender<Packet>
        decreases self,
    {
        match self {
            Socket::Direct(direct) => direct.producer(),
            Socket::Conditioned(conditioner) => conditioner.producer(),
        }
    }

    /// The consumer end of the outbound queue: that of the plain socket at
    /// the core.
    pub open spec fn consumer(&self) -> UnboundedReceiver<Packet>
        decreases self,
    {
        match self {
            Socket::Direct(direct) => direct.consumer(),
            Socket::Conditioned(conditioner) => conditioner.consumer(),
        }
    }

    /// Whether a handle feeds this socket's outbound queue.
    pub open spec fn is_fed_by(&self, handle: &MessageSender) -> bool {
        same_channel(handle.producer(), self.producer())
    }

    /// The address that the socket listens on.
    pub fn local_address(&self) -> (address: PeerAddress)
        ensures
            address == self@.plain().local_address,
        decreases self,
    {
        match self {
            Socket::Direct(direct) => direct.local_address(),
            Socket::Conditioned(conditioner) => conditioner.local_address(),
        }
    }

    /// The address that peers are told to reach the socket at.
    pub fn public_address(&self) -> (address: PeerAddress)
        ensures
            address == self@.plain().public_address,
        decreases self,
    {
        match self {
            Socket::Direct(direct) => direct.public_address(),
            Socket::Conditioned(conditioner) => conditioner.public_address(),
        }
    }

    /// Takes one event of a receive and says what to do next.
    ///
    /// A receive begins with `Resumed` and ends with the step `Return`. In
    /// between the caller does as each step says and reports what came of
    /// it. Where conditioners are stacked, each of them decides under the
    /// same conditions.
    pub fn receive(&mut self, event: SocketEvent, conditions: &Conditions) -> (step: SocketStep)
        ensures
            (final(self)@, step@) == socket_step(old(self)@, event@, *conditions),
            final(self).producer() == old(self).producer(),
            final(self).consumer() == old(self).consumer(),
        decreases *old(self),
    {
        match self {
            Socket::Direct(direct) => direct.receive(event),
            Socket::Conditioned(conditioner) => conditioner.receive(event, conditions),
        }
    }

    /// A new handle on the socket's outbound queue. Every handle that the
    /// socket gives out feeds the one queue that the socket drains: the new
    /// handle feeds this socket, it shares its queue with exactly the
    /// handles that feed this socket, and it feeds the consumer ends that
    /// the socket's own producer end is connected to.
    pub fn get_sender(&mut self) -> (handle: MessageSender)
        ensures
            final(self).is_fed_by(&handle),
            forall|other: MessageSender|
                #![trigger other.shares_queue_with(&handle)]
                other.shares_queue_with(&handle) == final(self).is_fed_by(&other),
            forall|consumer: UnboundedReceiver<Packet>|
                #![trigger handle.feeds(consumer)]
                handle.feeds(consumer) == connected_to(final(self).producer(), consumer),
            final(self)@ == old(self)@,
            final(self).producer() == old(self).producer(),
            final(self).consumer() == old(self).consumer(),
        decreases *old(self),
    {
        match self {
            Socket::Direct(direct) => direct.get_sender(),
            Socket::Conditioned(conditioner) => conditioner.get_sender(),
        }
    }

    /// The consumer end of the outbound queue, for the caller to wait on.
    ///
    /// What is handed out is the consumer end of the plain socket at the
    /// core: it is that end as it stood, and what the caller leaves behind
    /// is the end that the socket has afterwards. Nothing else changes.
    pub fn outbound_queue(&mut self) -> (queue: &mut UnboundedReceiver<Packet>)
        ensures
            *queue == old(self).consumer(),
            final(self).consumer() == *final(queue),
            final(self)@ == old(self)@,
            final(self).producer() == old(self).producer(),
        decreases *old(self),
    {
        match self {
            Socket::Direct(direct) => direct.outbound_queue(),
            Socket::Conditioned(conditioner) => conditioner.outbound_queue(),
        }
    }

    /// The same socket inside a link conditioner that holds nothing yet.
    pub fn with_link_conditioner(self, config: &LinkConditionerConfig) -> (socket: Socket)
        ensures
            socket@ == SocketView::Conditioned(
                LinkConditionerView {
                    inner: Box::new(self@),
                    config: *config,
                    held: Seq::empty(),
                },
            ),
            socket.producer() == self.producer(),
            socket.consumer() == self.consumer(),
    {
        Socket::Conditioned(LinkConditioner::new(config, self))
    }
}

/// Any two handles that a socket has given out feed one and the same queue:
/// a handle that feeds the socket shares its queue with every handle that
/// `get_sender` returns later.
pub proof fn lemma_handles_share_one_queue(
    socket: &Socket,
    earlier: &MessageSender,
    later: &MessageSender,
)
    requires
        socket.is_fed_by(earlier),
        forall|other: MessageSender|
            #![trigger other.shares_queue_with(later)]
            other.shares_queue_with(later) == socket.is_fed_by(&other),
    ensures
        earlier.shares_queue_with(later),
{
}

/// Every handle that a socket gives out feeds the queue that the socket
/// drains: where the socket's own producer end is connected to its consumer
/// end, as it is from `listen` on, a handle that `get_sender` returns feeds
/// that consumer end.
pub proof fn lemma_handles_feed_the_drained_queue(socket: &Socket, handle: &MessageSender)
    requires
        connected_to(socket.producer(), socket.consumer()),
        forall|consumer: UnboundedReceiver<Packet>|
            #![trigger handle.feeds(consumer)]
            handle.feeds(consumer) == connected_to(socket.producer(), consumer),
    ensures
        handle.feeds(socket.consumer()),
{
}

} // verus!
