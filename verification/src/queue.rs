//! The outbound queue: an unbounded multi-producer, single-consumer channel
//! of `futures_channel`.
//!
//! The channel is shared between its handles, so a handle's value says
//! nothing about what the queue holds: another handle may have changed it.
//! The contracts here therefore state only what holds of a single call, and
//! which ends belong to one channel.

use vstd::prelude::*;
use futures_channel::mpsc::{UnboundedReceiver, UnboundedSender};
use crate::packet::Packet;

verus! {

/// `futures_channel::mpsc::UnboundedSender`: a producer handle, opaque here.
#[verifier::external_type_specification]
#[verifier::external_body]
#[verifier::reject_recursive_types(T)]
pub struct ExUnboundedSender<T>(UnboundedSender<T>);

/// `futures_channel::mpsc::UnboundedReceiver`: the consumer end, opaque here.
#[verifier::external_type_specification]
#[verifier::external_body]
#[verifier::reject_recursive_types(T)]
pub struct ExUnboundedReceiver<T>(UnboundedReceiver<T>);

/// What `UnboundedSender::same_receiver` answers for two producer handles:
/// whether both are attached to one and the same channel.
pub uninterp spec fn same_channel(
    a: UnboundedSender<Packet>,
    b: UnboundedSender<Packet>,
) -> bool;

/// `UnboundedSender::same_receiver` compares the channels that two handles
/// are attached to.
#[verifier::external_body]
pub(crate) fn same_receiver(a: &UnboundedSender<Packet>, b: &UnboundedSender<Packet>) -> (same:
    bool)
    ensures
        same == same_channel(*a, *b),
{
    a.same_receiver(b)
}

/// What `UnboundedSender::is_connected_to` answers for a producer handle and
/// a consumer end: whether the handle is attached to the channel of that end.
pub uninterp spec fn connected_to(
    sender: UnboundedSender<Packet>,
    receiver: UnboundedReceiver<Packet>,
) -> bool;

/// `UnboundedSender::is_connected_to` compares the channel that a handle is
/// attached to with the channel of a consumer end.
#[verifier::external_body]
pub(crate) fn is_connected_to(
    sender: &UnboundedSender<Packet>,
    receiver: &UnboundedReceiver<Packet>,
) -> (connected: bool)
    ensures
        connected == connected_to(*sender, *receiver),
{
    sender.is_connected_to(receiver)
}

/// The producer end that a socket keeps of its own queue. It is attached to
/// that queue for as long as the socket lives, and the handles that the
/// socket gives out are made from it.
#[derive(Debug)]
pub struct QueueProducer {
    sender: UnboundedSender<Packet>,
}

impl QueueProducer {
    #[verifier::type_invariant]
    spec fn attached(self) -> bool {
        same_channel(self.sender, self.sender)
    }

    /// The producer end itself.
    pub closed spec fn end(&self) -> UnboundedSender<Packet> {
        self.sender
    }

    /// A new queue: its producer end, kept, and its consumer end. The two
    /// are the ends of one channel: the producer end is attached to a
    /// channel, and that channel is the one of the consumer end.
    pub(crate) fn open() -> (ends: (QueueProducer, UnboundedReceiver<Packet>))
        ensures
            same_channel(ends.0.end(), ends.0.end()),
            connected_to(ends.0.end(), ends.1),
    {
        let (sender, receiver) = open_queue();
        (QueueProducer { sender }, receiver)
    }

    /// Another producer end on the same queue. Compared with any third end,
    /// producer or consumer, it answers as this one does, and it is on this
    /// one's channel.
    pub(crate) fn handle(&self) -> (sender: UnboundedSender<Packet>)
        ensures
            same_channel(sender, self.end()),
            forall|consumer: UnboundedReceiver<Packet>|
                #![trigger connected_to(sender, consumer)]
                connected_to(sender, consumer) == connected_to(self.end(), consumer),
            forall|other: UnboundedSender<Packet>|
                #![trigger same_channel(sender, other)]
                same_channel(sender, other) == same_channel(self.end(), other),
            forall|other: UnboundedSender<Packet>|
                #![trigger same_channel(other, sender)]
                same_channel(other, sender) == same_channel(other, self.end()),
    {
        proof {
            use_type_invariant(self);
        }
        another_handle(&self.sender)
    }
}

/// `futures_channel::mpsc::unbounded` makes a new channel and returns its
/// two ends. The producer end is attached to that channel, so it compares as
/// on the same channel as itself, and as connected to the consumer end;
/// nothing more is claimed.
#[verifier::external_body]
fn open_queue() -> (ends: (UnboundedSender<Packet>, UnboundedReceiver<Packet>))
    ensures
        same_channel(ends.0, ends.0),
        connected_to(ends.0, ends.1),
{
    futures_channel::mpsc::unbounded()
}

/// `UnboundedSender::clone` makes another handle on the channel of the first:
/// compared with any third handle, or with any consumer end, the two answer
/// alike. (It panics once a channel has more handles than a quarter of the
/// address space, which no program reaches.)
#[verifier::external_body]
pub(crate) fn another_handle(sender: &UnboundedSender<Packet>) -> (handle: UnboundedSender<
    Packet,
>)
    ensures
        forall|other: UnboundedSender<Packet>|
            #![trigger same_channel(handle, other)]
            same_channel(handle, other) == same_channel(*sender, other),
        forall|other: UnboundedSender<Packet>|
            #![trigger same_channel(other, handle)]
            same_channel(other, handle) == same_channel(other, *sender),
        forall|consumer: UnboundedReceiver<Packet>|
            #![trigger connected_to(handle, consumer)]
            connected_to(handle, consumer) == connected_to(*sender, consumer),
{
    sender.clone()
}

/// `UnboundedSender::unbounded_send` either takes the packet into the queue
/// or, when the consumer end is closed or gone, fails with an error that
/// holds the packet; `TrySendError::into_inner` gives it back. The contract
/// claims only that the packet that comes back is the one that was handed in.
/// (It panics once the queue holds more packets than half the address space,
/// which no program reaches.)
#[verifier::external_body]
pub(crate) fn enqueue(sender: &UnboundedSender<Packet>, packet: Packet) -> (outcome: Result<
    (),
    Packet,
>)
    ensures
        outcome matches Err(rejected) ==> rejected == packet,
{
    match sender.unbounded_send(packet) {
        Ok(()) => Ok(()),
        Err(error) => Err(error.into_inner()),
    }
}

} // verus!
