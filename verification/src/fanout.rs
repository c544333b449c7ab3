//! One event for many sinks.

use crate::burst::{Burst, BurstView};
use crate::packet::packet_bytes;
use crate::sinks::{BurstMpscSink, MpscSink, SupabaseSink, WavSink, WhisperSink};
use crate::traits::PacketSink;
use bytes::Bytes;
use vstd::prelude::*;

verus! {

/// The sinks that ship with the pipeline, as one type.
pub enum AnySink {
    Live(MpscSink),
    Batched(BurstMpscSink),
    File(WavSink),
    Speech(WhisperSink),
    Relay(SupabaseSink),
}

impl PacketSink for AnySink {
    /// The sink stays of its kind and follows the rule of its kind.
    open spec fn took_packet(&self, pkt: Seq<u8>, after: Self) -> bool {
        match (*self, after) {
            (AnySink::Live(s), AnySink::Live(t)) => s.took_packet(pkt, t),
            (AnySink::Batched(s), AnySink::Batched(t)) => s.took_packet(pkt, t),
            (AnySink::File(s), AnySink::File(t)) => s.took_packet(pkt, t),
            (AnySink::Speech(s), AnySink::Speech(t)) => s.took_packet(pkt, t),
            (AnySink::Relay(s), AnySink::Relay(t)) => s.took_packet(pkt, t),
            _ => false,
        }
    }

    /// The sink stays of its kind and follows the rule of its kind.
    open spec fn took_burst(&self, burst: BurstView, after: Self) -> bool {
        match (*self, after) {
            (AnySink::Live(s), AnySink::Live(t)) => s.took_burst(burst, t),
            (AnySink::Batched(s), AnySink::Batched(t)) => s.took_burst(burst, t),
            (AnySink::File(s), AnySink::File(t)) => s.took_burst(burst, t),
            (AnySink::Speech(s), AnySink::Speech(t)) => s.took_burst(burst, t),
            (AnySink::Relay(s), AnySink::Relay(t)) => s.took_burst(burst, t),
            _ => false,
        }
    }

    fn on_packet(&mut self, pkt: Bytes) {
        match self {
            AnySink::Live(s) => s.on_packet(pkt),
            AnySink::Batched(s) => s.on_packet(pkt),
            AnySink::File(s) => s.on_packet(pkt),
            AnySink::Speech(s) => s.on_packet(pkt),
            AnySink::Relay(s) => s.on_packet(pkt),
        }
    }

    fn on_burst(&mut self, burst: Burst) {
        match self {
            AnySink::Live(s) => s.on_burst(burst),
            AnySink::Batched(s) => s.on_burst(burst),
            AnySink::File(s) => s.on_burst(burst),
            AnySink::Speech(s) => s.on_burst(burst),
            AnySink::Relay(s) => s.on_burst(burst),
        }
    }
}

/// Hands every event to each of its sinks in turn, first to last.
pub struct FanoutSink<S: PacketSink>(pub Vec<S>);

impl<S: PacketSink> FanoutSink<S> {
    /// A fan-out over `sinks`.
    pub fn new(sinks: Vec<S>) -> (f: Self)
        ensures
            f.0 == sinks,
    {
        FanoutSink(sinks)
    }

    /// How many sinks there are.
    pub fn len(&self) -> (n: usize)
        ensures
            n == self.0@.len(),
    {
        self.0.len()
    }

    /// Adds a sink behind those already there.
    pub fn register(&mut self, sink: S)
        ensures
            final(self).0@ == old(self).0@.push(sink),
    {
        self.0.push(sink);
    }
}

impl<S: PacketSink> PacketSink for FanoutSink<S> {
    /// No sink comes or goes, and each sink follows its own rule, whatever
    /// the others did.
    open spec fn took_packet(&self, pkt: Seq<u8>, after: Self) -> bool {
        &&& after.0@.len() == self.0@.len()
        &&& forall|i: int|
            0 <= i < self.0@.len() ==> (#[trigger] self.0@[i]).took_packet(pkt, after.0@[i])
    }

    /// No sink comes or goes, and each sink follows its own rule, whatever
    /// the others did.
    open spec fn took_burst(&self, burst: BurstView, after: Self) -> bool {
        &&& after.0@.len() == self.0@.len()
        &&& forall|i: int|
            0 <= i < self.0@.len() ==> (#[trigger] self.0@[i]).took_burst(burst, after.0@[i])
    }

    fn on_packet(&mut self, pkt: Bytes) {
        let n = self.0.len();
        let mut i: usize = 0;
        while i < n
            invariant
                i <= n,
                n == self.0@.len(),
                n == old(self).0@.len(),
                forall|j: int|
                    0 <= j < i ==> (#[trigger] old(self).0@[j]).took_packet(
                        packet_bytes(pkt),
                        self.0@[j],
                    ),
                forall|j: int| i <= j < n ==> self.0@[j] == old(self).0@[j],
            decreases n - i,
        {
            self.0[i].on_packet(pkt.clone());
            i += 1;
        }
    }

    fn on_burst(&mut self, burst: Burst) {
        let n = self.0.len();
        let mut i: usize = 0;
        while i < n
            invariant
                i <= n,
                n == self.0@.len(),
                n == old(self).0@.len(),
                forall|j: int|
                    0 <= j < i ==> (#[trigger] old(self).0@[j]).took_burst(burst@, self.0@[j]),
                forall|j: int| i <= j < n ==> self.0@[j] == old(self).0@[j],
            decreases n - i,
        {
            self.0[i].on_burst(burst.clone());
            i += 1;
        }
    }
}

/// What a recorder feeds: the one sink that was registered, or a fan-out
/// over all of them when there are several.
pub enum Wiring<S: PacketSink> {
    Single(S),
    Fanout(FanoutSink<S>),
}

impl<S: PacketSink> PacketSink for Wiring<S> {
    open spec fn took_packet(&self, pkt: Seq<u8>, after: Self) -> bool {
        match (*self, after) {
            (Wiring::Single(s), Wiring::Single(t)) => s.took_packet(pkt, t),
            (Wiring::Fanout(s), Wiring::Fanout(t)) => s.took_packet(pkt, t),
            _ => false,
        }
    }

    open spec fn took_burst(&self, burst: BurstView, after: Self) -> bool {
        match (*self, after) {
            (Wiring::Single(s), Wiring::Single(t)) => s.took_burst(burst, t),
            (Wiring::Fanout(s), Wiring::Fanout(t)) => s.took_burst(burst, t),
            _ => false,
        }
    }

    fn on_packet(&mut self, pkt: Bytes) {
        match self {
            Wiring::Single(s) => s.on_packet(pkt),
            Wiring::Fanout(s) => s.on_packet(pkt),
        }
    }

    fn on_burst(&mut self, burst: Burst) {
        match self {
            Wiring::Single(s) => s.on_burst(burst),
            Wiring::Fanout(s) => s.on_burst(burst),
        }
    }
}

/// Behind a fan-out of two or more live relays, a packet that the queue of
/// one of them refuses is still offered to the queue of every other, as the
/// last thing on top of what that sink had offered before.
pub proof fn lemma_refusal_stays_with_its_sink(
    before: FanoutSink<MpscSink>,
    pkt: Seq<u8>,
    after: FanoutSink<MpscSink>,
    full: int,
)
    requires
        before.0@.len() >= 2,
        0 <= full < before.0@.len(),
        before.took_packet(pkt, after),
        !after.0@[full].history().last().taken,
    ensures
        forall|i: int|
            0 <= i < before.0@.len() && i != full ==> {
                &&& (#[trigger] after.0@[i]).history().last().item == pkt
                &&& after.0@[i].history().drop_last() == before.0@[i].history()
                &&& after.0@[i].queue() == before.0@[i].queue()
            },
{
    assert forall|i: int| 0 <= i < before.0@.len() && i != full implies {
        &&& (#[trigger] after.0@[i]).history().last().item == pkt
        &&& after.0@[i].history().drop_last() == before.0@[i].history()
        &&& after.0@[i].queue() == before.0@[i].queue()
    } by {
        assert(before.0@[i].took_packet(pkt, after.0@[i]));
    }
}

} // verus!
