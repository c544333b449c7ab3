use everywhere::transcribe::{Transcriber, FLUSH_EVERY_PACKETS};

#[test]
fn recognition_is_due_on_every_25th_packet() {
    assert_eq!(FLUSH_EVERY_PACKETS, 25);
    let mut t = Transcriber::new();
    for round in 0..3 {
        for i in 1..=25 {
            let due = t.accept(Some(&[i as i16, round]));
            assert_eq!(due, i == 25);
        }
    }
    assert_eq!(t.audio().len(), 150);
}

#[test]
fn audio_grows_packet_by_packet() {
    let mut t = Transcriber::new();
    assert!(t.audio().is_empty());
    assert!(!t.accept(Some(&[1, 2])));
    assert!(!t.accept(Some(&[])));
    assert!(!t.accept(Some(&[3])));
    assert_eq!(t.audio(), [1, 2, 3]);
}

#[test]
fn a_packet_that_did_not_decode_is_not_counted() {
    let mut t = Transcriber::new();
    for _ in 0..24 {
        assert!(!t.accept(Some(&[1])));
    }
    for _ in 0..30 {
        assert!(!t.accept(None));
    }
    assert_eq!(t.audio().len(), 24);
    assert!(t.accept(Some(&[2])));
    assert_eq!(t.audio().len(), 25);
    let mut silent = Transcriber::new();
    assert!(!silent.accept(None));
    assert!(!silent.utterance_due());
}

#[test]
fn only_new_segments_are_handed_out() {
    let mut t = Transcriber::new();
    assert_eq!(t.take_segments(0), (0, 0));
    assert_eq!(t.take_segments(3), (0, 3));
    assert_eq!(t.take_segments(3), (3, 3));
    assert_eq!(t.take_segments(5), (3, 5));
    assert_eq!(t.take_segments(2), (5, 5));
}

#[test]
fn a_timeout_finishes_an_utterance_only_if_there_is_audio() {
    let mut t = Transcriber::new();
    assert!(!t.utterance_due());
    t.accept(Some(&[]));
    assert!(!t.utterance_due());
    t.accept(Some(&[1]));
    assert!(t.utterance_due());
}

#[test]
fn reset_forgets_audio_and_counters() {
    let mut t = Transcriber::new();
    for _ in 0..24 {
        assert!(!t.accept(Some(&[1])));
    }
    t.take_segments(4);
    t.reset();
    assert!(t.audio().is_empty());
    assert!(!t.utterance_due());
    assert_eq!(t.take_segments(1), (0, 1));
    for i in 1..=25 {
        assert_eq!(t.accept(Some(&[2])), i == 25);
    }
}
