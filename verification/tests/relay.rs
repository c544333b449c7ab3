use bytes::Bytes;
use everywhere::burst::Burst;
use everywhere::relay::{EncodedBurst, SupabaseSource};
use everywhere::sinks::MpscSink;

#[test]
fn packets_become_base64_without_padding() {
    let mut b = Burst::new(1_722_000_000);
    b.push(Bytes::from(vec![1u8, 2, 3]));
    b.push(Bytes::copy_from_slice(b"hi"));
    b.push(Bytes::new());
    b.push(Bytes::from(vec![0xfbu8, 0xff]));
    let e = EncodedBurst::from(b);
    assert_eq!(e.started_at, 1_722_000_000);
    assert_eq!(e.packets, vec!["AQID", "aGk", "", "+/8"]);
}

#[test]
fn empty_burst_encodes_to_no_packets() {
    let e = EncodedBurst::from(Burst::default());
    assert_eq!(e.started_at, 0);
    assert!(e.packets.is_empty());
}

#[test]
fn a_received_burst_is_handed_on_in_order() {
    let (tx, mut rx) = tokio::sync::mpsc::channel::<Bytes>(8);
    let mut relay = MpscSink::new(tx);
    let e = EncodedBurst { started_at: 5, packets: vec!["AQID".to_string(), "aGk".to_string()] };
    SupabaseSource::on_broadcast(&e, &mut relay);
    assert_eq!(rx.try_recv().unwrap()[..], [1, 2, 3]);
    assert_eq!(rx.try_recv().unwrap()[..], *b"hi");
    assert!(rx.try_recv().is_err());
}

#[test]
fn a_received_burst_loses_what_is_not_base64() {
    let (tx, mut rx) = tokio::sync::mpsc::channel::<Bytes>(8);
    let mut relay = MpscSink::new(tx);
    let e = EncodedBurst {
        started_at: 5,
        packets: vec![
            "AQID".to_string(),
            "not base64!".to_string(),
            "aGk=".to_string(),
            "A".to_string(),
            "+/8".to_string(),
        ],
    };
    SupabaseSource::on_broadcast(&e, &mut relay);
    assert_eq!(rx.try_recv().unwrap()[..], [1, 2, 3]);
    assert_eq!(rx.try_recv().unwrap()[..], [0xfb, 0xff]);
    assert!(rx.try_recv().is_err());
}

#[test]
fn a_burst_survives_the_round_trip() {
    let (tx, mut rx) = tokio::sync::mpsc::channel::<Bytes>(8);
    let mut relay = MpscSink::new(tx);
    let packets: Vec<Vec<u8>> = vec![vec![], vec![0], vec![255, 254], vec![1, 2, 3, 4, 5, 6, 7]];
    let mut b = Burst::new(9);
    for p in &packets {
        b.push(Bytes::from(p.clone()));
    }
    SupabaseSource::on_broadcast(&EncodedBurst::from(b), &mut relay);
    for p in &packets {
        assert_eq!(rx.try_recv().unwrap()[..], p[..]);
    }
    assert!(rx.try_recv().is_err());
}
