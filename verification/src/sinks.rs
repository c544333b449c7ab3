//! The sinks that hand packets or bursts to a queue.
//!
//! Each keeps the history of its hand-offs: what it offered to its queue, in
//! order, and whether the queue took it. A refused item is dropped; the
//! producer never waits and never hears of it.

use crate::burst::{Burst, BurstView};
use crate::channels::{crossbeam_try_send, offers, std_send, tokio_try_send, Handoff};
use crate::packet::{packet_bytes, packets_bytes};
use crate::traits::PacketSink;
use bytes::Bytes;
use vstd::prelude::*;

verus! {

/// Live relay: every packet goes to a bounded channel as it comes.
pub struct MpscSink {
    tx: tokio::sync::mpsc::Sender<Bytes>,
    history: Ghost<Seq<Handoff<Seq<u8>>>>,
}

impl MpscSink {
    /// The channel's sending half.
    pub closed spec fn queue(&self) -> tokio::sync::mpsc::Sender<Bytes> {
        self.tx
    }

    /// Every hand-off so far.
    pub closed spec fn history(&self) -> Seq<Handoff<Seq<u8>>> {
        self.history@
    }

    /// A sink in front of `tx` that has offered nothing yet.
    pub fn new(tx: tokio::sync::mpsc::Sender<Bytes>) -> (s: Self)
        ensures
            s.queue() == tx,
            s.history() == Seq::<Handoff<Seq<u8>>>::empty(),
    {
        MpscSink { tx, history: Ghost(Seq::empty()) }
    }
}

impl PacketSink for MpscSink {
    /// The packet is offered to the channel, which takes it or not.
    open spec fn took_packet(&self, pkt: Seq<u8>, after: Self) -> bool {
        &&& after.queue() == self.queue()
        &&& after.history().len() == self.history().len() + 1
        &&& after.history().drop_last() == self.history()
        &&& after.history().last().item == pkt
    }

    fn on_packet(&mut self, pkt: Bytes) {
        let ghost item = packet_bytes(pkt);
        let taken = tokio_try_send(&self.tx, pkt);
        proof {
            self.history@ = self.history@.push(Handoff { item, taken });
            assert(self.history@.drop_last() =~= old(self).history@);
        }
    }

    fn on_burst(&mut self, burst: Burst) {
    }
}

/// Burst-batched relay: packets are held back while the interval is open and
/// go to the channel together, oldest first, when its burst arrives.
pub struct BurstMpscSink {
    tx: tokio::sync::mpsc::Sender<Bytes>,
    buf: Vec<Bytes>,
    history: Ghost<Seq<Handoff<Seq<u8>>>>,
}

impl BurstMpscSink {
    /// The channel's sending half.
    pub closed spec fn queue(&self) -> tokio::sync::mpsc::Sender<Bytes> {
        self.tx
    }

    /// The packets held back, oldest first.
    pub closed spec fn buffered(&self) -> Seq<Seq<u8>> {
        packets_bytes(self.buf@)
    }

    /// Every hand-off so far.
    pub closed spec fn history(&self) -> Seq<Handoff<Seq<u8>>> {
        self.history@
    }

    /// A sink in front of `tx` that holds nothing and has offered nothing.
    pub fn new(tx: tokio::sync::mpsc::Sender<Bytes>) -> (s: Self)
        ensures
            s.queue() == tx,
            s.buffered() == Seq::<Seq<u8>>::empty(),
            s.history() == Seq::<Handoff<Seq<u8>>>::empty(),
    {
        let s = BurstMpscSink { tx, buf: Vec::new(), history: Ghost(Seq::empty()) };
        assert(s.buffered() =~= Seq::<Seq<u8>>::empty());
        s
    }

    /// How many packets are held back.
    pub fn held(&self) -> (n: usize)
        ensures
            n == self.buffered().len(),
    {
        self.buf.len()
    }
}

impl PacketSink for BurstMpscSink {
    /// The packet is held back; nothing is offered.
    open spec fn took_packet(&self, pkt: Seq<u8>, after: Self) -> bool {
        &&& after.queue() == self.queue()
        &&& after.buffered() == self.buffered().push(pkt)
        &&& after.history() == self.history()
    }

    /// Everything held back is offered to the channel, oldest first, and
    /// nothing stays behind. The burst itself is not looked at.
    open spec fn took_burst(&self, burst: BurstView, after: Self) -> bool {
        &&& after.queue() == self.queue()
        &&& after.buffered() == Seq::<Seq<u8>>::empty()
        &&& after.history().len() == self.history().len() + self.buffered().len()
        &&& after.history().take(self.history().len() as int) == self.history()
        &&& offers(after.history().skip(self.history().len() as int)) == self.buffered()
    }

    fn on_packet(&mut self, pkt: Bytes) {
        self.buf.push(pkt);
        assert(self.buffered() =~= old(self).buffered().push(packet_bytes(pkt)));
    }

    fn on_burst(&mut self, burst: Burst) {
        let mut local: Vec<Bytes> = Vec::new();
        std::mem::swap(&mut self.buf, &mut local);
        let ghost before = self.history@;
        let mut i: usize = 0;
        while i < local.len()
            invariant
                i <= local.len(),
                self.tx == old(self).tx,
                self.buf@.len() == 0,
                local@ == old(self).buf@,
                before == old(self).history@,
                self.history@.len() == before.len() + i,
                self.history@.take(before.len() as int) == before,
                offers(self.history@.skip(before.len() as int)) == packets_bytes(local@.take(i as int)),
            decreases local.len() - i,
        {
            let pkt = local[i].clone();
            let ghost item = packet_bytes(pkt);
            let ghost earlier = self.history@;
            let taken = tokio_try_send(&self.tx, pkt);
            proof {
                self.history@ = earlier.push(Handoff { item, taken });
                assert(self.history@.take(before.len() as int) =~= earlier.take(before.len() as int));
                assert(self.history@.skip(before.len() as int) =~= earlier.skip(
                    before.len() as int,
                ).push(Handoff { item, taken }));
                assert(local@.take(i + 1) =~= local@.take(i as int).push(local@[i as int]));
                let tail = earlier.skip(before.len() as int);
                assert(offers(tail.push(Handoff { item, taken })) =~= offers(tail).push(item));
                assert(packets_bytes(local@.take(i as int).push(local@[i as int])) =~= packets_bytes(
                    local@.take(i as int),
                ).push(item));
                assert(offers(self.history@.skip(before.len() as int)) =~= packets_bytes(
                    local@.take(i + 1),
                ));
            }
            i += 1;
        }
        proof {
            assert(local@.take(local.len() as int) =~= local@);
            assert(self.buffered() =~= Seq::<Seq<u8>>::empty());
        }
    }
}

/// Persistence: every packet goes to the thread that decodes it and appends
/// the samples to an audio file.
pub struct WavSink {
    tx: std::sync::mpsc::Sender<Bytes>,
    history: Ghost<Seq<Handoff<Seq<u8>>>>,
}

impl WavSink {
    /// The channel's sending half.
    pub closed spec fn queue(&self) -> std::sync::mpsc::Sender<Bytes> {
        self.tx
    }

    /// Every hand-off so far.
    pub closed spec fn history(&self) -> Seq<Handoff<Seq<u8>>> {
        self.history@
    }

    /// A sink in front of the writer's channel that has offered nothing yet.
    pub fn new(tx: std::sync::mpsc::Sender<Bytes>) -> (s: Self)
        ensures
            s.queue() == tx,
            s.history() == Seq::<Handoff<Seq<u8>>>::empty(),
    {
        WavSink { tx, history: Ghost(Seq::empty()) }
    }
}

impl PacketSink for WavSink {
    /// The packet is offered to the channel, which takes it unless the
    /// writer is gone.
    open spec fn took_packet(&self, pkt: Seq<u8>, after: Self) -> bool {
        &&& after.queue() == self.queue()
        &&& after.history().len() == self.history().len() + 1
        &&& after.history().drop_last() == self.history()
        &&& after.history().last().item == pkt
    }

    fn on_packet(&mut self, pkt: Bytes) {
        let ghost item = packet_bytes(pkt);
        let taken = std_send(&self.tx, pkt);
        proof {
            self.history@ = self.history@.push(Handoff { item, taken });
            assert(self.history@.drop_last() =~= old(self).history@);
        }
    }

    fn on_burst(&mut self, burst: Burst) {
    }
}

/// Recognition: every packet goes to the thread that decodes it and feeds
/// the speech recogniser.
pub struct WhisperSink {
    tx: crossbeam_channel::Sender<Bytes>,
    history: Ghost<Seq<Handoff<Seq<u8>>>>,
}

impl WhisperSink {
    /// The channel's sending half.
    pub closed spec fn queue(&self) -> crossbeam_channel::Sender<Bytes> {
        self.tx
    }

    /// Every hand-off so far.
    pub closed spec fn history(&self) -> Seq<Handoff<Seq<u8>>> {
        self.history@
    }

    /// A sink in front of the worker's channel that has offered nothing yet.
    pub fn new(tx: crossbeam_channel::Sender<Bytes>) -> (s: Self)
        ensures
            s.queue() == tx,
            s.history() == Seq::<Handoff<Seq<u8>>>::empty(),
    {
        WhisperSink { tx, history: Ghost(Seq::empty()) }
    }
}

impl PacketSink for WhisperSink {
    /// The packet is offered to the channel, which takes it or not.
    open spec fn took_packet(&self, pkt: Seq<u8>, after: Self) -> bool {
        &&& after.queue() == self.queue()
        &&& after.history().len() == self.history().len() + 1
        &&& after.history().drop_last() == self.history()
        &&& after.history().last().item == pkt
    }

    fn on_packet(&mut self, pkt: Bytes) {
        let ghost item = packet_bytes(pkt);
        let taken = crossbeam_try_send(&self.tx, pkt);
        proof {
            self.history@ = self.history@.push(Handoff { item, taken });
            assert(self.history@.drop_last() =~= old(self).history@);
        }
    }

    fn on_burst(&mut self, burst: Burst) {
    }
}

/// Relay to the network: every completed burst goes to the task that
/// serialises it and broadcasts it.
pub struct SupabaseSink {
    tx: crossbeam_channel::Sender<Burst>,
    history: Ghost<Seq<Handoff<BurstView>>>,
}

impl SupabaseSink {
    /// The channel's sending half.
    pub closed spec fn queue(&self) -> crossbeam_channel::Sender<Burst> {
        self.tx
    }

    /// Every hand-off so far.
    pub closed spec fn history(&self) -> Seq<Handoff<BurstView>> {
        self.history@
    }

    /// A sink in front of the broadcaster's channel that has offered
    /// nothing yet.
    pub fn new(tx: crossbeam_channel::Sender<Burst>) -> (s: Self)
        ensures
            s.queue() == tx,
            s.history() == Seq::<Handoff<BurstView>>::empty(),
    {
        SupabaseSink { tx, history: Ghost(Seq::empty()) }
    }
}

impl PacketSink for SupabaseSink {
    /// The burst is offered to the channel, which takes it or not.
    open spec fn took_burst(&self, burst: BurstView, after: Self) -> bool {
        &&& after.queue() == self.queue()
        &&& after.history().len() == self.history().len() + 1
        &&& after.history().drop_last() == self.history()
        &&& after.history().last().item == burst
    }

    fn on_packet(&mut self, pkt: Bytes) {
    }

    fn on_burst(&mut self, burst: Burst) {
        let ghost item = burst@;
        let taken = crossbeam_try_send(&self.tx, burst);
        proof {
            self.history@ = self.history@.push(Handoff { item, taken });
            assert(self.history@.drop_last() =~= old(self).history@);
        }
    }
}

} // verus!
