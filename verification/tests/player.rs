use bytes::Bytes;
use everywhere::player::{JitterBuffer, Player};
use everywhere::traits::PacketSource;

struct Script {
    packets: Vec<Bytes>,
    polled: usize,
}

impl PacketSource for Script {
    fn try_recv(&mut self) -> Option<Bytes> {
        self.polled += 1;
        if self.packets.is_empty() {
            None
        } else {
            Some(self.packets.remove(0))
        }
    }
}

fn script(packets: &[&[u8]]) -> Script {
    Script { packets: packets.iter().map(|p| Bytes::copy_from_slice(p)).collect(), polled: 0 }
}

#[test]
fn drain_returns_what_is_buffered_in_order() {
    let mut buffer = JitterBuffer::new();
    buffer.extend(&[1, 2, 3, 4, 5]);
    assert_eq!(buffer.len(), 5);
    assert_eq!(buffer.drain(2), vec![1, 2]);
    assert_eq!(buffer.len(), 3);
    assert_eq!(buffer.drain(3), vec![3, 4, 5]);
    assert_eq!(buffer.len(), 0);
}

#[test]
fn drain_pads_the_shortfall_with_silence() {
    let mut buffer = JitterBuffer::new();
    buffer.extend(&[7, -8]);
    assert_eq!(buffer.drain(5), vec![7, -8, 0, 0, 0]);
    assert_eq!(buffer.len(), 0);
    assert_eq!(buffer.drain(3), vec![0, 0, 0]);
}

#[test]
fn drain_of_nothing_returns_nothing() {
    let mut buffer = JitterBuffer::new();
    buffer.extend(&[1]);
    assert_eq!(buffer.drain(0), Vec::<i16>::new());
    assert_eq!(buffer.len(), 1);
}

#[test]
fn drain_always_returns_the_length_asked_for() {
    for buffered in 0..6usize {
        for k in 0..9usize {
            let mut buffer = JitterBuffer::new();
            let samples: Vec<i16> = (1..=buffered as i16).collect();
            buffer.extend(&samples);
            let out = buffer.drain(k);
            assert_eq!(out.len(), k);
            for (i, s) in out.iter().enumerate() {
                assert_eq!(*s, if i < buffered { samples[i] } else { 0 });
            }
            assert_eq!(buffer.len(), buffered.saturating_sub(k));
        }
    }
}

#[test]
fn extend_appends_behind_what_is_buffered() {
    let mut buffer = JitterBuffer::new();
    buffer.extend(&[1, 2]);
    buffer.extend(&[]);
    buffer.extend(&[3]);
    assert_eq!(buffer.drain(4), vec![1, 2, 3, 0]);
}

#[test]
fn render_copies_each_sample_to_every_channel() {
    let mut player = Player::new(script(&[]), 2);
    player.feed(Some(&[10, 20, 30]));
    assert_eq!(player.render(4), vec![10, 10, 20, 20]);
    assert_eq!(player.buffered_len(), 1);
    assert_eq!(player.render(6), vec![30, 30, 0, 0, 0, 0]);
    assert_eq!(player.buffered_len(), 0);
}

#[test]
fn render_leaves_an_incomplete_last_frame_silent() {
    let mut player = Player::new(script(&[]), 2);
    player.feed(Some(&[1, 2, 3]));
    assert_eq!(player.render(5), vec![1, 1, 2, 2, 0]);
    assert_eq!(player.buffered_len(), 1);
    let mut wide = Player::new(script(&[]), 3);
    wide.feed(Some(&[4, 5]));
    assert_eq!(wide.render(7), vec![4, 4, 4, 5, 5, 5, 0]);
    let mut mono = Player::new(script(&[]), 1);
    mono.feed(Some(&[6]));
    assert_eq!(mono.render(2), vec![6, 0]);
}

#[test]
fn render_of_an_empty_buffer_is_silence() {
    let mut player = Player::new(script(&[]), 2);
    assert_eq!(player.render(8), vec![0i16; 8]);
    assert_eq!(player.render(0), Vec::<i16>::new());
}

#[test]
fn poll_asks_the_source_only_while_the_buffer_is_short() {
    let mut player = Player::new(script(&[&[1], &[2], &[3]]), 2);
    assert_eq!(player.poll(4).unwrap()[..], [1]);
    player.feed(Some(&[1, 1, 1]));
    assert_eq!(player.poll(4).unwrap()[..], [2]);
    player.feed(Some(&[2]));
    assert!(player.poll(4).is_none());
    assert!(player.poll(0).is_none());
    assert_eq!(player.buffered_len(), 4);
    assert_eq!(player.poll(5).unwrap()[..], [3]);
    assert!(player.poll(5).is_none());
}

#[test]
fn a_packet_that_did_not_decode_is_skipped() {
    let mut player = Player::new(script(&[]), 1);
    player.feed(Some(&[1, 2]));
    player.feed(None);
    player.feed(Some(&[3]));
    assert_eq!(player.buffered_len(), 3);
    assert_eq!(player.render(4), vec![1, 2, 3, 0]);
}

#[test]
fn one_playback_callback() {
    let mut player = Player::new(script(&[&[3], &[0], &[2]]), 2);
    let out_len = 8;
    while let Some(pkt) = player.poll(out_len) {
        // Stands for the codec: a packet of one byte decodes to that many samples,
        // a packet that starts with 0 does not decode.
        let decoded = if pkt[0] != 0 {
            Some(vec![pkt[0] as i16 * 100; pkt[0] as usize])
        } else {
            None
        };
        player.feed(decoded.as_deref());
    }
    assert_eq!(player.buffered_len(), 5);
    assert_eq!(player.render(out_len), vec![300, 300, 300, 300, 300, 300, 200, 200]);
    assert_eq!(player.buffered_len(), 1);
}
