//! The link conditioner: a socket around a socket that loses, delays and
//! reorders the packets that come in through it.

use vstd::prelude::*;
use futures_channel::mpsc::{UnboundedReceiver, UnboundedSender};
use crate::conditions::{is_lost, release_time, Conditions, LinkConditionerConfig};
use crate::event::{SocketEvent, SocketStep, SocketStepView};
use crate::holding::{due, HeldView, HoldingArea};
use crate::message_sender::MessageSender;
use crate::packet::{Packet, PacketView, PeerAddress};
use crate::queue::{connected_to, same_channel};
use crate::socket::{conditioner_step, Socket, SocketView};

verus! {

/// The conditioner as a mathematical value.
pub struct LinkConditionerView {
    pub inner: Box<SocketView>,
    pub config: LinkConditionerConfig,
    pub held: Seq<HeldView>,
}

/// The packets held once `packet` has arrived: those held before and,
/// unless it is lost, the packet with its release time.
pub open spec fn accepted(
    held: Seq<HeldView>,
    config: LinkConditionerConfig,
    packet: PacketView,
    conditions: Conditions,
) -> Seq<HeldView> {
    if is_lost(config, conditions) {
        held
    } else {
        held.push(HeldView { release_at: release_time(config, conditions), packet })
    }
}

/// What the conditioner makes of a step of the socket inside it.
///
/// A packet that the inner socket would return is taken into the holding
/// area, unless it is lost. Then the packet that is due, if one is, is
/// returned in its place; if none is due, another round begins. Every other
/// step is passed on as it is.
pub open spec fn conditioned(
    held: Seq<HeldView>,
    config: LinkConditionerConfig,
    inner_step: SocketStepView,
    conditions: Conditions,
) -> (Seq<HeldView>, SocketStepView) {
    match inner_step {
        SocketStepView::Return(Ok(packet)) => {
            let kept = accepted(held, config, packet, conditions);
            match due(kept, config.reorder, conditions.now) {
                Some(i) => (kept.remove(i), SocketStepView::Return(Ok(kept[i].packet))),
                None => (kept, SocketStepView::Again),
            }
        },
        other => (held, other),
    }
}

/// Wraps a socket and degrades what comes in through it: packets are lost
/// with the configured chance, held back for the configured time, and, where
/// that is allowed, released out of their order of arrival.
#[derive(Debug)]
pub struct LinkConditioner {
    inner: Box<Socket>,
    config: LinkConditionerConfig,
    holding: HoldingArea,
}

impl View for LinkConditioner {
    type V = LinkConditionerView;

    open spec fn view(&self) -> LinkConditionerView {
        self.model()
    }
}

impl LinkConditioner {
    /// The conditioner as a mathematical value: the socket inside, the
    /// configuration, and the packets that wait.
    pub closed spec fn model(&self) -> LinkConditionerView
        decreases self,
    {
        LinkConditionerView {
            inner: Box::new(self.inner.model()),
            config: self.config,
            held: self.holding@,
        }
    }

    /// The producer end from which handles are made: that of the socket
    /// inside.
    pub closed spec fn producer(&self) -> UnboundedSender<Packet>
        decreases self,
    {
        self.inner.producer()
    }

    /// The consumer end of the outbound queue: that of the socket inside.
    pub closed spec fn consumer(&self) -> UnboundedReceiver<Packet>
        decreases self,
    {
        self.inner.consumer()
    }

    /// Whether a handle feeds the outbound queue of the socket inside.
    pub open spec fn is_fed_by(&self, handle: &MessageSender) -> bool {
        same_channel(handle.producer(), self.producer())
    }

    /// A conditioner around `socket` that holds nothing yet.
    pub fn new(config: &LinkConditionerConfig, socket: Socket) -> (conditioner: LinkConditioner)
        ensures
            conditioner@ == (LinkConditionerView {
                inner: Box::new(socket@),
                config: *config,
                held: Seq::empty(),
            }),
            conditioner.producer() == socket.producer(),
            conditioner.consumer() == socket.consumer(),
    {
        LinkConditioner { inner: Box::new(socket), config: *config, holding: HoldingArea::new() }
    }

    /// The address that the socket inside listens on.
    pub fn local_address(&self) -> (address: PeerAddress)
        ensures
            address == self@.inner.plain().local_address,
        decreases self,
    {
        self.inner.local_address()
    }

    /// The address that peers are told to reach the socket inside at.
    pub fn public_address(&self) -> (address: PeerAddress)
        ensures
            address == self@.inner.plain().public_address,
        decreases self,
    {
        self.inner.public_address()
    }

    /// Takes one event of a receive and says what to do next.
    ///
    /// At the start of a round a held packet that is due is returned at
    /// once. Otherwise the event goes to the socket inside, and what that
    /// socket answers is conditioned.
    pub fn receive(&mut self, event: SocketEvent, conditions: &Conditions) -> (step: SocketStep)
        ensures
            (final(self)@, step@) == conditioner_step(
                old(self)@,
                event@,
                *conditions,
            ),
            final(self).producer() == old(self).producer(),
            final(self).consumer() == old(self).consumer(),
        decreases *old(self),
    {
        if let SocketEvent::Resumed = event {
            if let Some(packet) = self.holding.release(conditions.now, self.config.reorder) {
                return SocketStep::Return(Ok(packet));
            }
        }
        match self.inner.receive(event, conditions) {
            SocketStep::Return(Ok(packet)) => {
                if !conditions.loses(&self.config) {
                    self.holding.hold(conditions.release_at(&self.config), packet);
                }
                match self.holding.release(conditions.now, self.config.reorder) {
                    Some(ready) => SocketStep::Return(Ok(ready)),
                    None => SocketStep::Again,
                }
            },
            other => other,
        }
    }

    /// A new handle on the outbound queue of the socket inside.
    pub fn get_sender(&mut self) -> (handle: MessageSender)
        ensures
            final(self).is_fed_by(&handle),
            forall|other: MessageSender|
                #![trigger other.shares_queue_with(&handle)]
                other.shares_queue_with(&handle) == final(self).is_fed_by(&other),
            forall|consumer: UnboundedReceiver<Packet>|
                #![trigger handle.feeds(consumer)]
                handle.feeds(consumer) == connected_to(final(self).producer(), consumer),
            final(self)@ == old(self)@,
            final(self).producer() == old(self).producer(),
            final(self).consumer() == old(self).consumer(),
        decreases *old(self),
    {
        self.inner.get_sender()
    }

    /// The consumer end of the outbound queue of the socket inside: that
    /// end as it stood, and what the caller leaves behind is the end that
    /// the socket inside has afterwards. Nothing else changes.
    pub fn outbound_queue(&mut self) -> (queue: &mut UnboundedReceiver<Packet>)
        ensures
            *queue == old(self).consumer(),
            final(self).consumer() == *final(queue),
            final(self)@ == old(self)@,
            final(self).producer() == old(self).producer(),
        decreases *old(self),
    {
        self.inner.outbound_queue()
    }
}

} // verus!
