use bytes::Bytes;
use everywhere::burst::Burst;
use everywhere::recorder::Recorder;
use everywhere::traits::PacketSink;

#[derive(Debug, Clone, PartialEq, Eq)]
enum Seen {
    Packet(Vec<u8>),
    Burst(i64, Vec<Vec<u8>>),
}

struct Log {
    seen: Vec<Seen>,
}

impl PacketSink for Log {
    fn on_packet(&mut self, pkt: Bytes) {
        self.seen.push(Seen::Packet(pkt.to_vec()));
    }

    fn on_burst(&mut self, burst: Burst) {
        let packets = burst.packets.iter().map(|p| p.to_vec()).collect();
        self.seen.push(Seen::Burst(burst.started_at, packets));
    }
}

fn recorder() -> Recorder<Log> {
    Recorder::new(Log { seen: Vec::new() })
}

/// Stands for the codec: the packet of a frame is its first sample's low byte
/// and a tag.
fn packet_of(frame: &[i16], tag: u8) -> Vec<u8> {
    vec![frame[0] as u8, tag]
}

#[test]
fn three_half_frames_then_release() {
    let mut rec = recorder();
    let chunk = vec![5i16; 480];
    let mut packets = 0u8;
    for _ in 0..3 {
        for frame in rec.capture(true, 100, &chunk) {
            assert_eq!(frame.len(), 960);
            assert!(rec.emit(&packet_of(&frame[..], packets)));
            packets += 1;
        }
    }
    assert_eq!(packets, 1);
    assert_eq!(rec.collected(), 1);
    assert_eq!(rec.carried(), 480);

    let frames = rec.capture(false, 101, &chunk);
    assert!(frames.is_empty());
    assert_eq!(rec.collected(), 0);
    assert_eq!(rec.carried(), 0);
    assert!(!rec.is_recording());
    assert_eq!(
        rec.sink_ref().seen,
        vec![Seen::Packet(vec![5, 0]), Seen::Burst(100, vec![vec![5, 0]])]
    );
}

#[test]
fn each_interval_gets_its_own_burst() {
    let mut rec = recorder();
    let frame = vec![1i16; 960];
    let mut tag = 0u8;
    let mut run = |rec: &mut Recorder<Log>, pressed: bool, now: i64, chunks: usize| {
        for _ in 0..chunks {
            for f in rec.capture(pressed, now, &frame) {
                rec.emit(&packet_of(&f[..], tag));
                tag += 1;
            }
        }
    };
    run(&mut rec, true, 10, 2);
    run(&mut rec, false, 11, 3);
    run(&mut rec, true, 20, 3);
    run(&mut rec, false, 21, 1);
    run(&mut rec, false, 22, 1);
    let seen = rec.into_sink().seen;
    assert_eq!(
        seen,
        vec![
            Seen::Packet(vec![1, 0]),
            Seen::Packet(vec![1, 1]),
            Seen::Burst(10, vec![vec![1, 0], vec![1, 1]]),
            Seen::Packet(vec![1, 2]),
            Seen::Packet(vec![1, 3]),
            Seen::Packet(vec![1, 4]),
            Seen::Burst(20, vec![vec![1, 2], vec![1, 3], vec![1, 4]]),
        ]
    );
}

#[test]
fn closed_gate_without_packets_delivers_nothing() {
    let mut rec = recorder();
    assert!(rec.capture(false, 1, &[1, 2, 3]).is_empty());
    assert!(rec.capture(true, 2, &vec![9i16; 100]).is_empty());
    assert_eq!(rec.carried(), 100);
    assert!(rec.capture(false, 3, &[]).is_empty());
    assert_eq!(rec.carried(), 0);
    assert!(rec.sink_ref().seen.is_empty());
}

#[test]
fn samples_of_an_interval_without_a_frame_are_dropped() {
    let mut rec = recorder();
    let half = vec![0i16; 480];
    assert!(rec.capture(true, 1, &half).is_empty());
    assert_eq!(rec.carried(), 480);
    assert!(rec.capture(false, 2, &[]).is_empty());
    assert_eq!(rec.carried(), 0);
    assert!(rec.capture(true, 3, &half).is_empty());
    assert_eq!(rec.carried(), 480);
    assert_eq!(rec.collected(), 0);
    assert!(rec.sink_ref().seen.is_empty());
}

#[test]
fn bytes_offered_while_idle_are_dropped() {
    let mut rec = recorder();
    assert!(!rec.emit(&[1, 2, 3]));
    assert_eq!(rec.collected(), 0);
    assert!(rec.sink_ref().seen.is_empty());
}

#[test]
fn frames_carry_the_samples_in_order() {
    let mut rec = recorder();
    let ramp: Vec<i16> = (0..1000).collect();
    let frames = rec.capture(true, 0, &ramp);
    assert_eq!(frames.len(), 1);
    assert!(frames[0].iter().enumerate().all(|(i, s)| *s == i as i16));
    let more: Vec<i16> = (1000..1920).collect();
    let frames = rec.capture(true, 0, &more);
    assert_eq!(frames.len(), 1);
    assert!(frames[0].iter().enumerate().all(|(i, s)| *s == 960 + i as i16));
    assert_eq!(rec.carried(), 0);
}
