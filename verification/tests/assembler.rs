use everywhere::assembler::FrameAssembler;
use everywhere::frame::{Frame, FRAME_SAMPLES, OPUS_SR_HZ};

#[test]
fn constants_are_one_frame_of_20_ms_at_48_khz() {
    assert_eq!(OPUS_SR_HZ, 48_000);
    assert_eq!(FRAME_SAMPLES, 960);
    assert_eq!(FRAME_SAMPLES as u32 * 50, OPUS_SR_HZ);
}

#[test]
fn default_frame_is_silence() {
    let f = Frame::<960>::default();
    assert_eq!(f.len(), 960);
    assert!(f.iter().all(|s| *s == 0));
}

#[test]
fn set_overwrites_one_sample() {
    let mut f = Frame::<4>::default();
    f.set(2, -7);
    assert_eq!(*f, [0, 0, -7, 0]);
    f.set(0, i16::MAX);
    f.set(3, i16::MIN);
    assert_eq!(f[..], [i16::MAX, 0, -7, i16::MIN]);
}

#[test]
fn three_half_frames_make_one_frame() {
    let mut assembler = FrameAssembler::<960>::new();
    let chunk = vec![7i16; 480];
    assert_eq!(assembler.push(&chunk).len(), 0);
    assert_eq!(assembler.carried(), 480);
    let frames = assembler.push(&chunk);
    assert_eq!(frames.len(), 1);
    assert!(frames[0].iter().all(|s| *s == 7));
    assert_eq!(assembler.carried(), 0);
    assert_eq!(assembler.push(&chunk).len(), 0);
    assert_eq!(assembler.carried(), 480);
}

#[test]
fn chunks_that_do_not_divide_the_frame() {
    let mut assembler = FrameAssembler::<960>::new();
    let stream: Vec<i16> = (0..2331).map(|i| (i % 1000) as i16).collect();
    let mut frames = Vec::new();
    for chunk in stream.chunks(333) {
        frames.extend(assembler.push(chunk));
    }
    assert_eq!(frames.len(), 2331 / 960);
    assert_eq!(assembler.carried(), 2331 % 960);
    assert_eq!(frames[0][..], stream[..960]);
    assert_eq!(frames[1][..], stream[960..1920]);
}

#[test]
fn chunking_does_not_change_the_frames() {
    let stream: Vec<i16> = (0..50).collect();
    let mut whole = FrameAssembler::<8>::new();
    let at_once: Vec<[i16; 8]> = whole.push(&stream).iter().map(|f| **f).collect();
    for size in [1usize, 3, 7, 8, 9, 50] {
        let mut piecewise = FrameAssembler::<8>::new();
        let mut frames: Vec<[i16; 8]> = Vec::new();
        for chunk in stream.chunks(size) {
            frames.extend(piecewise.push(chunk).iter().map(|f| **f));
        }
        assert_eq!(frames, at_once);
        assert_eq!(piecewise.carried(), 50 % 8);
    }
    assert_eq!(at_once.len(), 6);
    assert_eq!(at_once[5], [40, 41, 42, 43, 44, 45, 46, 47]);
}

#[test]
fn one_chunk_may_hold_several_frames() {
    let mut assembler = FrameAssembler::<4>::new();
    let frames = assembler.push(&[1, 2, 3, 4, 5, 6, 7, 8, 9]);
    assert_eq!(frames.len(), 2);
    assert_eq!(*frames[0], [1, 2, 3, 4]);
    assert_eq!(*frames[1], [5, 6, 7, 8]);
    assert_eq!(assembler.carried(), 1);
    let frames = assembler.push(&[10, 11, 12]);
    assert_eq!(frames.len(), 1);
    assert_eq!(*frames[0], [9, 10, 11, 12]);
}

#[test]
fn empty_chunk_changes_nothing() {
    let mut assembler = FrameAssembler::<4>::new();
    assert!(assembler.push(&[1, 2]).is_empty());
    assert!(assembler.push(&[]).is_empty());
    assert_eq!(assembler.carried(), 2);
}

#[test]
fn discard_drops_the_unfinished_frame() {
    let mut assembler = FrameAssembler::<4>::new();
    assert!(assembler.push(&[1, 2, 3]).is_empty());
    assembler.discard();
    assert_eq!(assembler.carried(), 0);
    let frames = assembler.push(&[4, 5, 6, 7]);
    assert_eq!(frames.len(), 1);
    assert_eq!(*frames[0], [4, 5, 6, 7]);
}
