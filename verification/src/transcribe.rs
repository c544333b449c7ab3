//! The bookkeeping of the speech-recognition worker: when the audio gathered
//! so far is due for recognition, and which segments of the result are new.
//!
//! The worker waits for packets with a timeout. What the codec makes of
//! each packet is handed to `accept`; when that answers `true`, the worker
//! runs the recogniser on `audio` and reports the number of segments to
//! `take_segments`, which names the ones to print. When the wait times out
//! and `utterance_due` answers `true`, the worker does the same once more,
//! prints the final text and calls `reset`.

use vstd::prelude::*;

verus! {

/// Packets between two interim recognitions.
pub const FLUSH_EVERY_PACKETS: usize = 25;

/// The worker's state as plain values.
pub struct TranscriberView {
    /// The audio of the utterance so far.
    pub pcm: Seq<i16>,
    /// Packets accepted since the last recognition.
    pub count: nat,
    /// The first segment that has not been printed.
    pub next_segment: nat,
}

/// Audio gathered for the utterance in progress, and two counters.
pub struct Transcriber {
    pcm: Vec<i16>,
    count: usize,
    next_segment: usize,
}

impl View for Transcriber {
    type V = TranscriberView;

    closed spec fn view(&self) -> TranscriberView {
        TranscriberView {
            pcm: self.pcm@,
            count: self.count as nat,
            next_segment: self.next_segment as nat,
        }
    }
}

impl Transcriber {
    /// A recognition is never overdue.
    pub closed spec fn wf(&self) -> bool {
        self.count < FLUSH_EVERY_PACKETS
    }

    /// A worker that has heard nothing.
    pub fn new() -> (t: Self)
        ensures
            t.wf(),
            t@ == (TranscriberView { pcm: Seq::empty(), count: 0, next_segment: 0 }),
    {
        Transcriber { pcm: Vec::new(), count: 0, next_segment: 0 }
    }

    /// Takes what the codec made of one packet. Samples are appended, and
    /// the answer says whether a recognition is due: on every 25th decoded
    /// packet since the last one. `None`, for a packet that did not decode,
    /// changes nothing and is not counted.
    pub fn accept(&mut self, decoded: Option<&[i16]>) -> (due: bool)
        requires
            old(self).wf(),
        ensures
            final(self).wf(),
            due == (decoded is Some && old(self)@.count + 1 == FLUSH_EVERY_PACKETS),
            decoded is None ==> final(self)@ == old(self)@,
            decoded is Some ==> final(self)@ == (TranscriberView {
                pcm: old(self)@.pcm + decoded->Some_0@,
                count: if due {
                    0
                } else {
                    old(self)@.count + 1
                },
                next_segment: old(self)@.next_segment,
            }),
    {
        let samples = match decoded {
            Some(samples) => samples,
            None => {
                return false;
            },
        };
        let mut i: usize = 0;
        while i < samples.len()
            invariant
                i <= samples.len(),
                self.count == old(self).count,
                self.next_segment == old(self).next_segment,
                self.pcm@ == old(self).pcm@ + samples@.take(i as int),
            decreases samples.len() - i,
        {
            self.pcm.push(samples[i]);
            assert(samples@.take(i + 1) =~= samples@.take(i as int).push(samples@[i as int]));
            i += 1;
        }
        assert(samples@.take(samples.len() as int) =~= samples@);
        let count = self.count + 1;
        if count >= FLUSH_EVERY_PACKETS {
            self.count = 0;
            true
        } else {
            self.count = count;
            false
        }
    }

    /// The audio of the utterance so far.
    pub fn audio(&self) -> (pcm: &[i16])
        ensures
            pcm@ == self@.pcm,
    {
        self.pcm.as_slice()
    }

    /// Takes note that the recogniser now offers `available` segments.
    /// Returns the range of those that are new, first and one past the last;
    /// they count as printed from now on.
    pub fn take_segments(&mut self, available: usize) -> (fresh: (usize, usize))
        ensures
            final(self).wf() == old(self).wf(),
            fresh.0 == old(self)@.next_segment,
            fresh.1 == if available > old(self)@.next_segment {
                available as nat
            } else {
                old(self)@.next_segment
            },
            final(self)@ == (TranscriberView { next_segment: fresh.1 as nat, ..old(self)@ }),
    {
        let first = self.next_segment;
        if available > first {
            self.next_segment = available;
        }
        (first, self.next_segment)
    }

    /// Whether, the wait for a packet having timed out, an utterance is
    /// there to be finished: whether any audio was gathered.
    pub fn utterance_due(&self) -> (due: bool)
        ensures
            due == (self@.pcm.len() > 0),
    {
        !self.pcm.is_empty()
    }

    /// Forgets the utterance: the audio and both counters.
    pub fn reset(&mut self)
        ensures
            final(self).wf(),
            final(self)@ == (TranscriberView { pcm: Seq::empty(), count: 0, next_segment: 0 }),
    {
        self.pcm.clear();
        self.next_segment = 0;
        self.count = 0;
    }
}

} // verus!
