//! The capture side: talk gate, frame assembly and burst collection.
//!
//! A recorder is driven once per capture callback. The caller reads the talk gate
//! and hands over the chunk; the recorder answers with the frames that are to
//! be encoded. For each frame that the codec turns into a packet the caller
//! comes back with the bytes, which the recorder delivers to its sink and
//! appends to the burst of the open interval.

use crate::assembler::{carry_of, frames_in, FrameAssembler};
use crate::burst::{Burst, BurstView};
use crate::frame::{frames_samples, Frame, FRAME_SAMPLES};
use crate::packet::packet_from_slice;
use crate::trace::{lawful, lemma_deliver_burst, lemma_deliver_packet, pending, SinkEvent};
use crate::traits::PacketSink;
use vstd::prelude::*;

verus! {

/// Frame assembler, open burst and sink of one capture stream.
///
/// Idle while the talk gate is closed: nothing is carried and the burst is
/// empty. Recording while it is open: frames are cut and their packets
/// collected. When the talk gate is seen closed, the unfinished frame is
/// dropped, and the packets collected, if there are any, are delivered as
/// one burst.
pub struct Recorder<S: PacketSink> {
    assembler: FrameAssembler<FRAME_SAMPLES>,
    burst: Burst,
    sink: S,
    recording: bool,
    emitted: Ghost<Seq<SinkEvent>>,
}

impl<S: PacketSink> Recorder<S> {
    /// The sink as it is now.
    pub closed spec fn sink(&self) -> S {
        self.sink
    }

    /// Whether the talk gate was open when it was last seen.
    pub closed spec fn recording(&self) -> bool {
        self.recording
    }

    /// The samples of the unfinished frame.
    pub closed spec fn carry(&self) -> Seq<i16> {
        self.assembler.carry()
    }

    /// The burst of the open interval.
    pub closed spec fn burst(&self) -> BurstView {
        self.burst@
    }

    /// Every delivery to the sink so far, oldest first.
    pub closed spec fn emitted(&self) -> Seq<SinkEvent> {
        self.emitted@
    }

    /// The unfinished frame is shorter than a frame; while idle no sample
    /// is carried and no packet held back; every burst delivered so far
    /// closed its interval; and the open burst holds the packets delivered
    /// since.
    pub closed spec fn wf(&self) -> bool {
        &&& self.assembler.wf()
        &&& !self.recording ==> self.assembler.carry().len() == 0
        &&& !self.recording ==> self.burst@.packets.len() == 0
        &&& lawful(self.emitted@)
        &&& self.burst@.packets == pending(self.emitted@)
    }

    /// What a well-formed recorder is, in terms that a caller can use.
    pub proof fn lemma_wf(&self)
        requires
            self.wf(),
        ensures
            self.carry().len() < FRAME_SAMPLES,
            !self.recording() ==> self.carry().len() == 0,
            !self.recording() ==> self.burst().packets.len() == 0,
            lawful(self.emitted()),
            self.burst().packets == pending(self.emitted()),
    {
        self.assembler.lemma_carry_is_short();
    }

    /// An idle recorder that has delivered nothing.
    pub fn new(sink: S) -> (r: Self)
        ensures
            r.wf(),
            r.sink() == sink,
            !r.recording(),
            r.carry() == Seq::<i16>::empty(),
            r.burst() == (BurstView { started_at: 0, packets: Seq::empty() }),
            r.emitted() == Seq::<SinkEvent>::empty(),
    {
        let r = Recorder {
            assembler: FrameAssembler::new(),
            burst: Burst::default(),
            sink,
            recording: false,
            emitted: Ghost(Seq::empty()),
        };
        assert(pending(r.emitted@) =~= Seq::<Seq<u8>>::empty());
        r
    }

    /// Whether the talk gate was open when it was last seen.
    pub fn is_recording(&self) -> (open: bool)
        ensures
            open == self.recording(),
    {
        self.recording
    }

    /// How many packets the open burst holds.
    pub fn collected(&self) -> (n: usize)
        ensures
            n == self.burst().packets.len(),
    {
        self.burst.len()
    }

    /// How many samples of an unfinished frame are held.
    pub fn carried(&self) -> (n: usize)
        requires
            self.wf(),
        ensures
            n == self.carry().len(),
    {
        self.assembler.carried()
    }

    /// The sink, to look at.
    pub fn sink_ref(&self) -> (s: &S)
        ensures
            *s == self.sink(),
    {
        &self.sink
    }

    /// Gives the sink back and ends the recorder.
    pub fn into_sink(self) -> (s: S)
        ensures
            s == self.sink(),
    {
        self.sink
    }

    /// One capture callback: `pressed` is the talk gate as just read, `now` the
    /// time in seconds since the Unix epoch, `input` the chunk of samples.
    ///
    /// Gate closed: the unfinished frame is dropped, whatever it holds. If
    /// packets were collected they are delivered as one burst and a new
    /// empty burst takes its place; otherwise nothing is delivered. The
    /// chunk is ignored and no frame returned.
    ///
    /// Gate open: an interval that opens now starts at `now`. The chunk is
    /// appended to the unfinished frame and every frame that is now complete
    /// is returned, oldest first, to be encoded and handed to `emit`.
    pub fn capture(&mut self, pressed: bool, now: i64, input: &[i16]) -> (frames: Vec<
        Frame<FRAME_SAMPLES>,
    >)
        requires
            old(self).wf(),
        ensures
            final(self).wf(),
            final(self).recording() == pressed,
            pressed ==> {
                &&& frames_samples(frames@) == frames_in(
                    old(self).carry() + input@,
                    FRAME_SAMPLES as nat,
                )
                &&& final(self).carry() == carry_of(
                    old(self).carry() + input@,
                    FRAME_SAMPLES as nat,
                )
                &&& final(self).burst().packets == old(self).burst().packets
                &&& final(self).burst().started_at == if old(self).recording() {
                    old(self).burst().started_at
                } else {
                    now
                }
                &&& final(self).sink() == old(self).sink()
                &&& final(self).emitted() == old(self).emitted()
            },
            !pressed ==> frames@.len() == 0 && final(self).carry() == Seq::<i16>::empty(),
            !pressed && old(self).burst().packets.len() > 0 ==> {
                &&& old(self).sink().took_burst(old(self).burst(), final(self).sink())
                &&& final(self).burst() == (BurstView { started_at: 0, packets: Seq::empty() })
                &&& final(self).emitted() == old(self).emitted().push(
                    SinkEvent::Burst(old(self).burst()),
                )
            },
            !pressed && old(self).burst().packets.len() == 0 ==> {
                &&& final(self).sink() == old(self).sink()
                &&& final(self).emitted() == old(self).emitted()
                &&& final(self).burst() == old(self).burst()
            },
    {
        if !pressed {
            if !self.burst.is_empty() {
                let mut done = Burst::default();
                std::mem::swap(&mut self.burst, &mut done);
                proof {
                    lemma_deliver_burst(self.emitted@, done@);
                    self.emitted@ = self.emitted@.push(SinkEvent::Burst(done@));
                }
                self.sink.on_burst(done);
            }
            self.assembler.discard();
            self.recording = false;
            Vec::new()
        } else {
            if !self.recording {
                self.burst.started_at = now;
                self.recording = true;
            }
            self.assembler.push(input)
        }
    }

    /// Takes the bytes that the codec made of one frame: packs them into a
    /// packet, delivers the packet to the sink and appends it to the open
    /// burst. While idle the bytes are dropped and `false` is returned.
    pub fn emit(&mut self, encoded: &[u8]) -> (taken: bool)
        requires
            old(self).wf(),
        ensures
            final(self).wf(),
            taken == old(self).recording(),
            final(self).recording() == old(self).recording(),
            final(self).carry() == old(self).carry(),
            final(self).burst().started_at == old(self).burst().started_at,
            taken ==> {
                &&& old(self).sink().took_packet(encoded@, final(self).sink())
                &&& final(self).burst().packets == old(self).burst().packets.push(encoded@)
                &&& final(self).emitted() == old(self).emitted().push(SinkEvent::Packet(encoded@))
            },
            !taken ==> {
                &&& final(self).sink() == old(self).sink()
                &&& final(self).burst() == old(self).burst()
                &&& final(self).emitted() == old(self).emitted()
            },
    {
        if !self.recording {
            return false;
        }
        let pkt = packet_from_slice(encoded);
        proof {
            lemma_deliver_packet(self.emitted@, encoded@);
            self.emitted@ = self.emitted@.push(SinkEvent::Packet(encoded@));
        }
        self.sink.on_packet(pkt.clone());
        self.burst.push(pkt);
        true
    }
}

} // verus!
