//! The sequence of events that a recorder hands to its sink, and what holds
//! of every such sequence.

use crate::burst::BurstView;
use vstd::prelude::*;

verus! {

/// One delivery to a sink.
pub enum SinkEvent {
    /// A packet, by its bytes.
    Packet(Seq<u8>),
    /// The burst of an interval that closed.
    Burst(BurstView),
}

/// The position of the last burst before position `k`, or -1 if there is none.
pub open spec fn last_burst_before(trace: Seq<SinkEvent>, k: int) -> int
    decreases k,
{
    if k <= 0 {
        -1
    } else if trace[k - 1] is Burst {
        k - 1
    } else {
        last_burst_before(trace, k - 1)
    }
}

/// Where the interval begins that position `k` lies in or closes: just after
/// the last burst before `k`, or at the start.
pub open spec fn interval_start(trace: Seq<SinkEvent>, k: int) -> int {
    last_burst_before(trace, k) + 1
}

/// The packets delivered since the last burst, oldest first.
pub open spec fn pending(trace: Seq<SinkEvent>) -> Seq<Seq<u8>> {
    let start = interval_start(trace, trace.len() as int);
    Seq::new((trace.len() - start) as nat, |m: int| trace[start + m]->Packet_0)
}

/// The burst at position `k` holds the packets delivered in its interval, all
/// of them and in their order, and there is at least one.
pub open spec fn burst_closes_interval(trace: Seq<SinkEvent>, k: int) -> bool {
    let start = interval_start(trace, k);
    let burst = trace[k]->Burst_0;
    &&& trace[k] is Burst
    &&& start < k
    &&& burst.packets.len() == k - start
    &&& forall|m: int|
        0 <= m < k - start ==> #[trigger] trace[start + m] == SinkEvent::Packet(burst.packets[m])
}

/// Every burst of the trace closes its interval.
pub open spec fn lawful(trace: Seq<SinkEvent>) -> bool {
    forall|k: int|
        0 <= k < trace.len() && (#[trigger] trace[k]) is Burst ==> burst_closes_interval(trace, k)
}

/// The last burst before `k` is a burst, lies before `k`, and only packets
/// follow it up to `k`.
pub proof fn lemma_last_burst(trace: Seq<SinkEvent>, k: int)
    requires
        0 <= k <= trace.len(),
    ensures
        -1 <= last_burst_before(trace, k) < k,
        last_burst_before(trace, k) >= 0 ==> trace[last_burst_before(trace, k)] is Burst,
        forall|j: int| last_burst_before(trace, k) < j < k ==> (#[trigger] trace[j]) is Packet,
    decreases k,
{
    if k > 0 && !(trace[k - 1] is Burst) {
        lemma_last_burst(trace, k - 1);
    }
}

/// Later events do not move the last burst before `k`.
pub proof fn lemma_last_burst_of_prefix(trace: Seq<SinkEvent>, longer: Seq<SinkEvent>, k: int)
    requires
        0 <= k <= trace.len() <= longer.len(),
        forall|j: int| 0 <= j < trace.len() ==> trace[j] == longer[j],
    ensures
        last_burst_before(longer, k) == last_burst_before(trace, k),
    decreases k,
{
    if k > 0 && !(trace[k - 1] is Burst) {
        lemma_last_burst_of_prefix(trace, longer, k - 1);
    }
}

/// If only packets lie between `from` and `k`, the last burst before `k` is
/// the last burst before `from`.
pub proof fn lemma_last_burst_skips_packets(trace: Seq<SinkEvent>, from: int, k: int)
    requires
        0 <= from <= k <= trace.len(),
        forall|j: int| from <= j < k ==> (#[trigger] trace[j]) is Packet,
    ensures
        last_burst_before(trace, k) == last_burst_before(trace, from),
    decreases k - from,
{
    if from < k {
        assert(trace[k - 1] is Packet);
        lemma_last_burst_skips_packets(trace, from, k - 1);
    }
}

/// A lawful trace stays lawful when a packet is delivered, and the packet
/// joins those that are pending.
pub proof fn lemma_deliver_packet(trace: Seq<SinkEvent>, pkt: Seq<u8>)
    requires
        lawful(trace),
    ensures
        lawful(trace.push(SinkEvent::Packet(pkt))),
        pending(trace.push(SinkEvent::Packet(pkt))) == pending(trace).push(pkt),
{
    let longer = trace.push(SinkEvent::Packet(pkt));
    let n = trace.len() as int;
    assert forall|k: int| 0 <= k < longer.len() && (#[trigger] longer[k]) is Burst implies burst_closes_interval(longer, k) by {
        assert(k < n);
        assert(trace[k] is Burst);
        assert(burst_closes_interval(trace, k));
        lemma_last_burst_of_prefix(trace, longer, k);
        lemma_last_burst(trace, k);
        let start = interval_start(trace, k);
        let burst = trace[k]->Burst_0;
        assert forall|m: int| 0 <= m < k - start implies #[trigger] longer[start + m]
            == SinkEvent::Packet(burst.packets[m]) by {
            assert(trace[start + m] == SinkEvent::Packet(burst.packets[m]));
        }
    }
    lemma_last_burst_of_prefix(trace, longer, n);
    lemma_last_burst(trace, n);
    assert(pending(longer) =~= pending(trace).push(pkt));
}

/// A lawful trace stays lawful when the pending packets are delivered as a
/// burst, and nothing is pending afterwards.
pub proof fn lemma_deliver_burst(trace: Seq<SinkEvent>, burst: BurstView)
    requires
        lawful(trace),
        burst.packets == pending(trace),
        burst.packets.len() > 0,
    ensures
        lawful(trace.push(SinkEvent::Burst(burst))),
        pending(trace.push(SinkEvent::Burst(burst))) == Seq::<Seq<u8>>::empty(),
{
    let longer = trace.push(SinkEvent::Burst(burst));
    let n = trace.len() as int;
    lemma_last_burst(trace, n);
    assert forall|k: int| 0 <= k < longer.len() && (#[trigger] longer[k]) is Burst implies burst_closes_interval(longer, k) by {
        lemma_last_burst_of_prefix(trace, longer, k);
        lemma_last_burst(trace, k);
        let start = interval_start(trace, k);
        if k < n {
            assert(trace[k] is Burst);
            assert(burst_closes_interval(trace, k));
            let held = trace[k]->Burst_0;
            assert forall|m: int| 0 <= m < k - start implies #[trigger] longer[start + m]
                == SinkEvent::Packet(held.packets[m]) by {
                assert(trace[start + m] == SinkEvent::Packet(held.packets[m]));
            }
        } else {
            assert forall|m: int| 0 <= m < k - start implies #[trigger] longer[start + m]
                == SinkEvent::Packet(burst.packets[m]) by {
                assert(trace[start + m] is Packet);
            }
        }
    }
    assert(pending(longer) =~= Seq::<Seq<u8>>::empty());
}

/// A burst holds exactly the packets that were delivered since the burst
/// before it, or since the start, in the order of their delivery.
pub proof fn lemma_burst_holds_its_interval(trace: Seq<SinkEvent>, k: int)
    requires
        lawful(trace),
        0 <= k < trace.len(),
        trace[k] is Burst,
    ensures
        0 <= interval_start(trace, k) < k,
        interval_start(trace, k) == 0 || trace[interval_start(trace, k) - 1] is Burst,
        trace[k]->Burst_0.packets.len() == k - interval_start(trace, k),
        forall|i: int|
            interval_start(trace, k) <= i < k ==> #[trigger] trace[i] == SinkEvent::Packet(
                trace[k]->Burst_0.packets[i - interval_start(trace, k)],
            ),
{
    lemma_last_burst(trace, k);
    assert(burst_closes_interval(trace, k));
    let start = interval_start(trace, k);
    let burst = trace[k]->Burst_0;
    assert forall|i: int| start <= i < k implies #[trigger] trace[i] == SinkEvent::Packet(
        burst.packets[i - start],
    ) by {
        assert(trace[start + (i - start)] == SinkEvent::Packet(burst.packets[i - start]));
    }
}

/// A packet is held by the first burst that is delivered after it.
pub proof fn lemma_packet_reaches_next_burst(trace: Seq<SinkEvent>, i: int, k: int)
    requires
        lawful(trace),
        0 <= i < k < trace.len(),
        trace[i] is Packet,
        trace[k] is Burst,
        forall|j: int| i < j < k ==> (#[trigger] trace[j]) is Packet,
    ensures
        interval_start(trace, k) <= i,
        trace[i] == SinkEvent::Packet(trace[k]->Burst_0.packets[i - interval_start(trace, k)]),
{
    lemma_last_burst_skips_packets(trace, i, k);
    lemma_last_burst(trace, i);
    lemma_burst_holds_its_interval(trace, k);
}

/// A packet that lies in the interval of one burst lies in the interval of no
/// other.
pub proof fn lemma_packet_in_one_burst_only(trace: Seq<SinkEvent>, i: int, k: int, other: int)
    requires
        0 <= k < trace.len(),
        0 <= other < trace.len(),
        trace[k] is Burst,
        trace[other] is Burst,
        interval_start(trace, k) <= i < k,
        interval_start(trace, other) <= i < other,
    ensures
        other == k,
{
    lemma_last_burst(trace, k);
    lemma_last_burst(trace, other);
    if other < k {
        assert(trace[other] is Packet);
    } else if k < other {
        assert(trace[k] is Packet);
    }
}

} // verus!
