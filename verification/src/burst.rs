//! The packets of one push-to-talk session, with the time it began.

use crate::packet::{packet_bytes, packets_bytes};
use bytes::Bytes;
use vstd::prelude::*;

verus! {

/// One interval during which the talk gate stayed open: when capture started, in seconds since
/// the Unix epoch, and the packets produced, in production order.
pub struct Burst {
    pub started_at: i64,
    pub packets: Vec<Bytes>,
}

/// A burst as plain values.
pub struct BurstView {
    pub started_at: i64,
    pub packets: Seq<Seq<u8>>,
}

impl View for Burst {
    type V = BurstView;

    open spec fn view(&self) -> BurstView {
        BurstView { started_at: self.started_at, packets: packets_bytes(self.packets@) }
    }
}

impl Default for Burst {
    /// An empty burst that starts at the epoch.
    fn default() -> (b: Self)
        ensures
            b@ == (BurstView { started_at: 0, packets: Seq::empty() }),
    {
        let b = Burst { started_at: 0, packets: Vec::new() };
        assert(b@.packets =~= Seq::<Seq<u8>>::empty());
        b
    }
}

impl Clone for Burst {
    /// A burst with the same start and the same packets; each packet shares
    /// its buffer with the one it was cloned from.
    fn clone(&self) -> (c: Self)
        ensures
            c@ == self@,
    {
        let mut packets: Vec<Bytes> = Vec::new();
        let mut i: usize = 0;
        while i < self.packets.len()
            invariant
                i <= self.packets.len(),
                packets.len() == i,
                forall|k: int|
                    0 <= k < i ==> packet_bytes(#[trigger] packets[k]) == packet_bytes(
                        self.packets[k],
                    ),
            decreases self.packets.len() - i,
        {
            packets.push(self.packets[i].clone());
            i += 1;
        }
        let c = Burst { started_at: self.started_at, packets };
        assert(c@.packets =~= self@.packets);
        c
    }
}

impl Burst {
    /// An empty burst that starts at `started_at`.
    pub fn new(started_at: i64) -> (b: Self)
        ensures
            b@ == (BurstView { started_at, packets: Seq::empty() }),
    {
        let b = Burst { started_at, packets: Vec::new() };
        assert(b@.packets =~= Seq::<Seq<u8>>::empty());
        b
    }

    /// Appends a packet.
    pub fn push(&mut self, p: Bytes)
        ensures
            final(self)@ == (BurstView {
                started_at: old(self)@.started_at,
                packets: old(self)@.packets.push(packet_bytes(p)),
            }),
    {
        self.packets.push(p);
        assert(self@.packets =~= old(self)@.packets.push(packet_bytes(p)));
    }

    /// Whether the burst holds no packet.
    pub fn is_empty(&self) -> (empty: bool)
        ensures
            empty == (self@.packets.len() == 0),
    {
        self.packets.is_empty()
    }

    /// How many packets the burst holds.
    pub fn len(&self) -> (n: usize)
        ensures
            n == self@.packets.len(),
    {
        self.packets.len()
    }
}

} // verus!
