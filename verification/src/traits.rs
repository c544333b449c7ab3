//! What a consumer of packets, and a producer of them, has to offer.

use crate::burst::{Burst, BurstView};
use crate::packet::{maybe_packet_bytes, packet_bytes};
use bytes::Bytes;
use vstd::prelude::*;

verus! {

/// A consumer of packets, of completed bursts, or of both.
///
/// Each of the two events has a rule, which says how the sink may differ
/// after the event from what it was before. The rule of one sink never speaks
/// of another sink. A sink that has no use for an event leaves it as it is:
/// without a rule of its own, the event may not change the sink.
pub trait PacketSink: Sized {
    /// How the sink may change when it is handed a packet with these bytes.
    open spec fn took_packet(&self, pkt: Seq<u8>, after: Self) -> bool {
        after == *self
    }

    /// How the sink may change when it is handed this burst.
    open spec fn took_burst(&self, burst: BurstView, after: Self) -> bool {
        after == *self
    }

    /// Takes one packet. Must not block.
    fn on_packet(&mut self, pkt: Bytes)
        ensures
            old(self).took_packet(packet_bytes(pkt), *final(self)),
    ;

    /// Takes the burst of an interval that has just closed. Must not block.
    fn on_burst(&mut self, burst: Burst)
        ensures
            old(self).took_burst(burst@, *final(self)),
    ;
}

/// A producer of packets that is polled: `None` when nothing is waiting.
///
/// A source has a rule, which says what one poll may hand out and how the
/// source may differ after it from what it was before. Without a rule of
/// its own, a source may hand out anything: what waits in a queue is up to
/// whoever fills it.
pub trait PacketSource: Sized {
    /// Whether a poll may hand out a packet with these bytes, or nothing,
    /// and leave the source as `after`.
    open spec fn gave(&self, pkt: Option<Seq<u8>>, after: Self) -> bool {
        true
    }

    /// Hands out the next packet, if one is waiting. Must not block.
    fn try_recv(&mut self) -> (pkt: Option<Bytes>)
        ensures
            old(self).gave(maybe_packet_bytes(pkt), *final(self)),
    ;
}

} // verus!
