use bytes::Bytes;
use everywhere::burst::Burst;
use everywhere::fanout::{AnySink, FanoutSink, Wiring};
use everywhere::sinks::{BurstMpscSink, MpscSink, SupabaseSink, WavSink, WhisperSink};
use everywhere::traits::PacketSink;

fn packet(bytes: &[u8]) -> Bytes {
    Bytes::copy_from_slice(bytes)
}

fn burst_of(started_at: i64, packets: &[&[u8]]) -> Burst {
    let mut b = Burst::new(started_at);
    for p in packets {
        b.push(packet(p));
    }
    b
}

#[test]
fn live_relay_hands_each_packet_on() {
    let (tx, mut rx) = tokio::sync::mpsc::channel::<Bytes>(4);
    let mut sink = MpscSink::new(tx);
    sink.on_packet(packet(&[1, 2]));
    sink.on_packet(packet(&[3]));
    assert_eq!(rx.try_recv().unwrap()[..], [1, 2]);
    assert_eq!(rx.try_recv().unwrap()[..], [3]);
    assert!(rx.try_recv().is_err());
}

#[test]
fn live_relay_drops_what_a_full_queue_refuses() {
    let (tx, mut rx) = tokio::sync::mpsc::channel::<Bytes>(1);
    let mut sink = MpscSink::new(tx);
    sink.on_packet(packet(&[1]));
    sink.on_packet(packet(&[2]));
    assert_eq!(rx.try_recv().unwrap()[..], [1]);
    assert!(rx.try_recv().is_err());
    sink.on_packet(packet(&[3]));
    assert_eq!(rx.try_recv().unwrap()[..], [3]);
}

#[test]
fn live_relay_ignores_bursts() {
    let (tx, mut rx) = tokio::sync::mpsc::channel::<Bytes>(4);
    let mut sink = MpscSink::new(tx);
    sink.on_burst(burst_of(1, &[&[1], &[2]]));
    assert!(rx.try_recv().is_err());
}

#[test]
fn live_relay_outlives_its_receiver() {
    let (tx, rx) = tokio::sync::mpsc::channel::<Bytes>(4);
    drop(rx);
    let mut sink = MpscSink::new(tx);
    sink.on_packet(packet(&[1]));
}

#[test]
fn batched_relay_holds_packets_until_the_burst() {
    let (tx, mut rx) = tokio::sync::mpsc::channel::<Bytes>(8);
    let mut sink = BurstMpscSink::new(tx);
    sink.on_packet(packet(&[1]));
    sink.on_packet(packet(&[2]));
    sink.on_packet(packet(&[3]));
    assert_eq!(sink.held(), 3);
    assert!(rx.try_recv().is_err());
    sink.on_burst(Burst::default());
    assert_eq!(sink.held(), 0);
    assert_eq!(rx.try_recv().unwrap()[..], [1]);
    assert_eq!(rx.try_recv().unwrap()[..], [2]);
    assert_eq!(rx.try_recv().unwrap()[..], [3]);
    assert!(rx.try_recv().is_err());
}

#[test]
fn batched_relay_releases_its_own_packets_not_the_bursts() {
    let (tx, mut rx) = tokio::sync::mpsc::channel::<Bytes>(8);
    let mut sink = BurstMpscSink::new(tx);
    sink.on_packet(packet(&[7]));
    sink.on_burst(burst_of(1, &[&[8], &[9]]));
    assert_eq!(rx.try_recv().unwrap()[..], [7]);
    assert!(rx.try_recv().is_err());
    sink.on_burst(burst_of(2, &[&[8]]));
    assert!(rx.try_recv().is_err());
}

#[test]
fn batched_relay_drops_what_does_not_fit() {
    let (tx, mut rx) = tokio::sync::mpsc::channel::<Bytes>(2);
    let mut sink = BurstMpscSink::new(tx);
    for i in 0..5u8 {
        sink.on_packet(packet(&[i]));
    }
    sink.on_burst(Burst::default());
    assert_eq!(sink.held(), 0);
    assert_eq!(rx.try_recv().unwrap()[..], [0]);
    assert_eq!(rx.try_recv().unwrap()[..], [1]);
    assert!(rx.try_recv().is_err());
}

#[test]
fn file_sink_hands_packets_to_the_writer() {
    let (tx, rx) = std::sync::mpsc::channel::<Bytes>();
    let mut sink = WavSink::new(tx);
    sink.on_packet(packet(&[4, 5]));
    sink.on_burst(burst_of(1, &[&[6]]));
    sink.on_packet(packet(&[7]));
    assert_eq!(rx.try_recv().unwrap()[..], [4, 5]);
    assert_eq!(rx.try_recv().unwrap()[..], [7]);
    assert!(rx.try_recv().is_err());
    drop(rx);
    sink.on_packet(packet(&[8]));
}

#[test]
fn speech_sink_hands_packets_to_the_worker() {
    let (tx, rx) = crossbeam_channel::bounded::<Bytes>(1);
    let mut sink = WhisperSink::new(tx);
    sink.on_packet(packet(&[1]));
    sink.on_packet(packet(&[2]));
    sink.on_burst(burst_of(1, &[&[3]]));
    assert_eq!(rx.try_recv().unwrap()[..], [1]);
    assert!(rx.try_recv().is_err());
}

#[test]
fn network_sink_hands_bursts_to_the_broadcaster() {
    let (tx, rx) = crossbeam_channel::unbounded::<Burst>();
    let mut sink = SupabaseSink::new(tx);
    sink.on_packet(packet(&[1]));
    assert!(rx.try_recv().is_err());
    sink.on_burst(burst_of(42, &[&[1], &[2, 3]]));
    let got = rx.try_recv().unwrap();
    assert_eq!(got.started_at, 42);
    assert_eq!(got.packets.len(), 2);
    assert_eq!(got.packets[0][..], [1]);
    assert_eq!(got.packets[1][..], [2, 3]);
    assert!(rx.try_recv().is_err());
}

#[test]
fn fanout_reaches_the_sinks_behind_a_full_one() {
    let (full_tx, mut full_rx) = tokio::sync::mpsc::channel::<Bytes>(1);
    let (tx_b, mut rx_b) = tokio::sync::mpsc::channel::<Bytes>(4);
    let (tx_c, mut rx_c) = tokio::sync::mpsc::channel::<Bytes>(4);
    full_tx.try_send(packet(&[0])).unwrap();
    let mut fanout = FanoutSink::new(vec![
        MpscSink::new(tx_b),
        MpscSink::new(full_tx),
        MpscSink::new(tx_c),
    ]);
    assert_eq!(fanout.len(), 3);
    fanout.on_packet(packet(&[1, 1]));
    fanout.on_packet(packet(&[2, 2]));
    assert_eq!(rx_b.try_recv().unwrap()[..], [1, 1]);
    assert_eq!(rx_b.try_recv().unwrap()[..], [2, 2]);
    assert_eq!(rx_c.try_recv().unwrap()[..], [1, 1]);
    assert_eq!(rx_c.try_recv().unwrap()[..], [2, 2]);
    assert_eq!(full_rx.try_recv().unwrap()[..], [0]);
    assert!(full_rx.try_recv().is_err());
}

#[test]
fn fanout_reaches_the_sinks_behind_a_closed_one() {
    let (gone_tx, gone_rx) = tokio::sync::mpsc::channel::<Bytes>(1);
    let (tx, mut rx) = tokio::sync::mpsc::channel::<Bytes>(4);
    drop(gone_rx);
    let mut fanout = FanoutSink::new(vec![MpscSink::new(gone_tx), MpscSink::new(tx)]);
    fanout.on_packet(packet(&[5]));
    assert_eq!(rx.try_recv().unwrap()[..], [5]);
}

#[test]
fn fanout_gives_each_sink_the_events_it_listens_to() {
    let (live_tx, mut live_rx) = tokio::sync::mpsc::channel::<Bytes>(8);
    let (batch_tx, mut batch_rx) = tokio::sync::mpsc::channel::<Bytes>(8);
    let (burst_tx, burst_rx) = crossbeam_channel::unbounded::<Burst>();
    let mut fanout = FanoutSink::new(vec![
        AnySink::Live(MpscSink::new(live_tx)),
        AnySink::Batched(BurstMpscSink::new(batch_tx)),
        AnySink::Relay(SupabaseSink::new(burst_tx)),
    ]);
    fanout.on_packet(packet(&[1]));
    fanout.on_packet(packet(&[2]));
    assert_eq!(live_rx.try_recv().unwrap()[..], [1]);
    assert_eq!(live_rx.try_recv().unwrap()[..], [2]);
    assert!(batch_rx.try_recv().is_err());
    assert!(burst_rx.try_recv().is_err());

    fanout.on_burst(burst_of(9, &[&[1], &[2]]));
    assert!(live_rx.try_recv().is_err());
    assert_eq!(batch_rx.try_recv().unwrap()[..], [1]);
    assert_eq!(batch_rx.try_recv().unwrap()[..], [2]);
    let got = burst_rx.try_recv().unwrap();
    assert_eq!(got.started_at, 9);
    assert_eq!(got.packets.len(), 2);
    assert_eq!(got.packets[0][..], [1]);
    assert_eq!(got.packets[1][..], [2]);
}

#[test]
fn empty_fanout_takes_events() {
    let mut fanout = FanoutSink::<MpscSink>::new(Vec::new());
    fanout.on_packet(packet(&[1]));
    fanout.on_burst(Burst::default());
    assert_eq!(fanout.len(), 0);
}

#[test]
fn wiring_passes_events_on() {
    let (tx, mut rx) = tokio::sync::mpsc::channel::<Bytes>(4);
    let mut single = Wiring::Single(MpscSink::new(tx));
    single.on_packet(packet(&[1]));
    single.on_burst(Burst::default());
    assert_eq!(rx.try_recv().unwrap()[..], [1]);

    let (tx_a, mut rx_a) = tokio::sync::mpsc::channel::<Bytes>(4);
    let (tx_b, mut rx_b) = tokio::sync::mpsc::channel::<Bytes>(4);
    let mut many = Wiring::Fanout(FanoutSink::new(vec![
        BurstMpscSink::new(tx_a),
        BurstMpscSink::new(tx_b),
    ]));
    many.on_packet(packet(&[2]));
    many.on_burst(Burst::default());
    assert_eq!(rx_a.try_recv().unwrap()[..], [2]);
    assert_eq!(rx_b.try_recv().unwrap()[..], [2]);
}

#[test]
fn fanout_registers_sinks_one_by_one() {
    let (tx_a, mut rx_a) = tokio::sync::mpsc::channel::<Bytes>(4);
    let (tx_b, mut rx_b) = tokio::sync::mpsc::channel::<Bytes>(4);
    let mut fanout = FanoutSink::new(Vec::new());
    fanout.register(MpscSink::new(tx_a));
    fanout.on_packet(packet(&[1]));
    fanout.register(MpscSink::new(tx_b));
    fanout.on_packet(packet(&[2]));
    assert_eq!(fanout.len(), 2);
    assert_eq!(rx_a.try_recv().unwrap()[..], [1]);
    assert_eq!(rx_a.try_recv().unwrap()[..], [2]);
    assert_eq!(rx_b.try_recv().unwrap()[..], [2]);
    assert!(rx_b.try_recv().is_err());
}
