//! Producer handles on a socket's outbound queue.

use vstd::prelude::*;
use futures_channel::mpsc::{UnboundedReceiver, UnboundedSender};
use crate::error::QueueClosed;
use crate::packet::Packet;
use crate::queue::{
    another_handle, connected_to, enqueue, is_connected_to, same_channel, same_receiver,
};

verus! {

/// Queues packets for sending to a client. Cheap to clone; every clone feeds
/// the same queue.
#[derive(Debug)]
pub struct MessageSender {
    internal: UnboundedSender<Packet>,
}

impl Clone for MessageSender {
    /// Another handle on the same queue: compared with any third handle, or
    /// with any consumer end, the clone answers as the handle that it was
    /// made from.
    fn clone(&self) -> (handle: MessageSender)
        ensures
            forall|consumer: UnboundedReceiver<Packet>|
                #![trigger handle.feeds(consumer)]
                handle.feeds(consumer) == self.feeds(consumer),
            forall|other: MessageSender|
                #![trigger handle.shares_queue_with(&other)]
                handle.shares_queue_with(&other) == self.shares_queue_with(&other),
            forall|other: MessageSender|
                #![trigger other.shares_queue_with(&handle)]
                other.shares_queue_with(&handle) == other.shares_queue_with(self),
    {
        MessageSender { internal: another_handle(&self.internal) }
    }
}

impl MessageSender {
    /// A handle around a producer end of the outbound queue.
    pub fn new(sender: UnboundedSender<Packet>) -> (handle: MessageSender)
        ensures
            handle.producer() == sender,
    {
        MessageSender { internal: sender }
    }

    /// The producer end that this handle sends on.
    pub closed spec fn producer(&self) -> UnboundedSender<Packet> {
        self.internal
    }

    /// Whether two handles feed one and the same queue.
    pub open spec fn shares_queue_with(&self, other: &MessageSender) -> bool {
        same_channel(self.producer(), other.producer())
    }

    /// Whether this handle feeds the queue of the given consumer end.
    pub open spec fn feeds(&self, consumer: UnboundedReceiver<Packet>) -> bool {
        connected_to(self.producer(), consumer)
    }

    /// Whether this handle feeds the queue of the given consumer end.
    pub fn feeds_queue(&self, queue: &UnboundedReceiver<Packet>) -> (fed: bool)
        ensures
            fed == self.feeds(*queue),
    {
        is_connected_to(&self.internal, queue)
    }

    /// Whether this handle and the other feed one and the same queue.
    pub fn same_queue(&self, other: &MessageSender) -> (same: bool)
        ensures
            same == self.shares_queue_with(other),
    {
        same_receiver(&self.internal, &other.internal)
    }

    /// What `send` reports for an outcome of the queue: success as it is, a
    /// rejected packet as `QueueClosed` around that packet.
    pub fn report(outcome: Result<(), Packet>) -> (r: Result<(), QueueClosed>)
        ensures
            outcome is Ok <==> r is Ok,
            outcome matches Err(rejected) ==> r matches Err(closed) && closed.packet == rejected,
    {
        match outcome {
            Ok(()) => Ok(()),
            Err(rejected) => Err(QueueClosed { packet: rejected }),
        }
    }

    /// Queues a packet for sending. It never waits. It fails only when the
    /// queue's consumer is gone, and then hands the packet back.
    ///
    /// Whether the consumer is gone is the queue's to say, so nothing here
    /// promises success; a packet that is accepted has reached the socket's
    /// drain point, not the network.
    pub fn send(&mut self, packet: Packet) -> (r: Result<(), QueueClosed>)
        ensures
            final(self).producer() == old(self).producer(),
            r matches Err(closed) ==> closed.packet == packet,
    {
        Self::report(enqueue(&self.internal, packet))
    }
}

} // verus!
