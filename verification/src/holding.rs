//! The holding area of a link conditioner: packets that wait for their
//! release time, kept in the order in which they arrived.

use vstd::prelude::*;
use crate::packet::{Packet, PacketView};

verus! {

/// A held packet as a mathematical value.
pub struct HeldView {
    pub release_at: u64,
    pub packet: PacketView,
}

/// A packet and the time from which it may be handed on.
#[derive(Debug)]
struct HeldPacket {
    release_at: u64,
    packet: Packet,
}

impl View for HeldPacket {
    type V = HeldView;

    closed spec fn view(&self) -> HeldView {
        HeldView { release_at: self.release_at, packet: self.packet@ }
    }
}

/// `i` is the place of the packet that goes first where packets may overtake
/// one another: none is released earlier, and of those released at the same
/// time it has been held the longest.
pub open spec fn is_earliest(held: Seq<HeldView>, i: int) -> bool {
    &&& 0 <= i < held.len()
    &&& forall|j: int| 0 <= j < i ==> (#[trigger] held[j]).release_at > held[i].release_at
    &&& forall|j: int|
        i <= j < held.len() ==> (#[trigger] held[j]).release_at >= held[i].release_at
}

/// The place of the packet that goes next: the earliest where packets may
/// overtake, the oldest where they may not.
pub open spec fn front(held: Seq<HeldView>, reorder: bool) -> int {
    if reorder {
        choose|i: int| is_earliest(held, i)
    } else {
        0
    }
}

/// The place of the packet that is handed on at time `now`, if there is one:
/// the packet that goes next, once its release time has come.
pub open spec fn due(held: Seq<HeldView>, reorder: bool, now: u64) -> Option<int> {
    let i = front(held, reorder);
    if held.len() > 0 && held[i].release_at <= now {
        Some(i)
    } else {
        None
    }
}

/// At most one place is the earliest.
pub proof fn lemma_earliest_unique(held: Seq<HeldView>, a: int, b: int)
    requires
        is_earliest(held, a),
        is_earliest(held, b),
    ensures
        a == b,
{
    if a < b {
        assert(held[a].release_at > held[b].release_at);
        assert(held[b].release_at >= held[a].release_at);
    } else if b < a {
        assert(held[b].release_at > held[a].release_at);
        assert(held[a].release_at >= held[b].release_at);
    }
}

/// A place that is the earliest is the front where packets may overtake.
pub proof fn lemma_front_is_earliest(held: Seq<HeldView>, i: int)
    requires
        is_earliest(held, i),
    ensures
        front(held, true) == i,
{
    let chosen = choose|k: int| is_earliest(held, k);
    lemma_earliest_unique(held, chosen, i);
}

/// The packets that wait, oldest arrival first.
#[derive(Debug)]
pub struct HoldingArea {
    held: Vec<HeldPacket>,
}

impl View for HoldingArea {
    type V = Seq<HeldView>;

    closed spec fn view(&self) -> Seq<HeldView> {
        Seq::new(self.held@.len(), |i: int| self.held@[i]@)
    }
}

impl HoldingArea {
    pub fn new() -> (area: HoldingArea)
        ensures
            area@ == Seq::<HeldView>::empty(),
    {
        HoldingArea { held: Vec::new() }
    }

    /// The number of packets that wait.
    pub fn len(&self) -> (n: usize)
        ensures
            n == self@.len(),
    {
        self.held.len()
    }

    /// Takes a packet in, behind those that wait already.
    pub fn hold(&mut self, release_at: u64, packet: Packet)
        ensures
            final(self)@ == old(self)@.push(HeldView { release_at, packet: packet@ }),
    {
        self.held.push(HeldPacket { release_at, packet });
        assert(self@ =~= old(self)@.push(HeldView { release_at, packet: packet@ }));
    }

    /// Hands on the packet that is due at `now`, if there is one, and keeps
    /// the others in their order.
    pub fn release(&mut self, now: u64, reorder: bool) -> (released: Option<Packet>)
        ensures
            match due(old(self)@, reorder, now) {
                Some(i) => released matches Some(packet) && packet@ == old(self)@[i].packet
                    && final(self)@ == old(self)@.remove(i),
                None => released is None && final(self)@ == old(self)@,
            },
    {
        if self.held.len() == 0 {
            return None;
        }
        let mut best: usize = 0;
        if reorder {
            let mut k: usize = 1;
            while k < self.held.len()
                invariant
                    0 <= best < k <= self.held.len(),
                    *self == *old(self),
                    forall|j: int|
                        0 <= j < best ==> (#[trigger] self@[j]).release_at
                            > self@[best as int].release_at,
                    forall|j: int|
                        best <= j < k ==> (#[trigger] self@[j]).release_at
                            >= self@[best as int].release_at,
                decreases self.held.len() - k,
            {
                if self.held[k].release_at < self.held[best].release_at {
                    best = k;
                }
                k += 1;
            }
            proof {
                lemma_front_is_earliest(self@, best as int);
            }
        }
        if self.held[best].release_at <= now {
            let first: HeldPacket = self.held.remove(best);
            assert(self@ =~= old(self)@.remove(best as int));
            Some(first.packet)
        } else {
            None
        }
    }
}

} // verus!
