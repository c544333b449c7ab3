//! The playback side: a queue of decoded samples that is drained in exact
//! amounts, and the player that keeps it filled from a packet source.
//!
//! A player is driven once per playback callback. The caller asks for
//! packets with `poll` until there are none to be had or enough is buffered,
//! decodes each and hands the outcome to `feed`, which skips a packet that
//! did not decode. Then `render` fills the output.

use crate::packet::maybe_packet_bytes;
use crate::traits::PacketSource;
use bytes::Bytes;
use std::collections::VecDeque;
use vstd::prelude::*;

verus! {

/// What draining `k` samples hands out: the buffered samples from the front
/// as far as they go, then silence.
pub open spec fn drained(buffered: Seq<i16>, k: nat) -> Seq<i16> {
    Seq::new(
        k,
        |i: int|
            if i < buffered.len() {
                buffered[i]
            } else {
                0i16
            },
    )
}

/// What stays buffered after draining `k` samples.
pub open spec fn undrained(buffered: Seq<i16>, k: nat) -> Seq<i16> {
    if k < buffered.len() {
        buffered.skip(k as int)
    } else {
        Seq::empty()
    }
}

/// What rendering `out_len` output samples hands out: each buffered sample
/// once per channel, frame after frame; silence where the buffer has run
/// out, and in a last frame that is not complete.
pub open spec fn rendered(buffered: Seq<i16>, out_len: nat, channels: nat) -> Seq<i16>
    recommends
        channels > 0,
{
    Seq::new(
        out_len,
        |i: int|
            if i / (channels as int) < out_len / channels && i / (channels as int)
                < buffered.len() {
                buffered[i / (channels as int)]
            } else {
                0i16
            },
    )
}

/// First-in, first-out queue of decoded samples. It has no bound of its own.
pub struct JitterBuffer {
    ring: VecDeque<i16>,
}

impl View for JitterBuffer {
    type V = Seq<i16>;

    /// The buffered samples, oldest first.
    closed spec fn view(&self) -> Seq<i16> {
        self.ring@
    }
}

impl JitterBuffer {
    /// An empty buffer.
    pub fn new() -> (b: Self)
        ensures
            b@ == Seq::<i16>::empty(),
    {
        JitterBuffer { ring: VecDeque::new() }
    }

    /// How many samples are buffered.
    pub fn len(&self) -> (n: usize)
        ensures
            n == self@.len(),
    {
        self.ring.len()
    }

    /// Appends decoded samples.
    pub fn extend(&mut self, samples: &[i16])
        ensures
            final(self)@ == old(self)@ + samples@,
    {
        let mut i: usize = 0;
        while i < samples.len()
            invariant
                i <= samples.len(),
                self.ring@ == old(self).ring@ + samples@.take(i as int),
            decreases samples.len() - i,
        {
            self.ring.push_back(samples[i]);
            assert(samples@.take(i + 1) =~= samples@.take(i as int).push(samples@[i as int]));
            i += 1;
        }
        assert(samples@.take(samples.len() as int) =~= samples@);
    }

    /// Takes exactly `k` samples from the front. Where fewer are buffered,
    /// the rest is silence: the call never waits and never returns short.
    pub fn drain(&mut self, k: usize) -> (out: Vec<i16>)
        ensures
            out@ == drained(old(self)@, k as nat),
            final(self)@ == undrained(old(self)@, k as nat),
    {
        let mut out: Vec<i16> = Vec::new();
        let mut i: usize = 0;
        while i < k
            invariant
                i <= k,
                out@ == drained(old(self).ring@, i as nat),
                self.ring@ == undrained(old(self).ring@, i as nat),
            decreases k - i,
        {
            let sample = match self.ring.pop_front() {
                Some(s) => s,
                None => 0,
            };
            out.push(sample);
            assert(out@ =~= drained(old(self).ring@, (i + 1) as nat));
            assert(self.ring@ =~= undrained(old(self).ring@, (i + 1) as nat));
            i += 1;
        }
        assert(out@ =~= drained(old(self).ring@, k as nat));
        out
    }
}

/// Jitter buffer, packet source and output layout of one playback stream.
pub struct Player<P: PacketSource> {
    source: P,
    buffer: JitterBuffer,
    channels: usize,
}

impl<P: PacketSource> Player<P> {
    /// The packet source as it is now.
    pub closed spec fn source(&self) -> P {
        self.source
    }

    /// The decoded samples that wait to be played, oldest first.
    pub closed spec fn buffered(&self) -> Seq<i16> {
        self.buffer@
    }

    /// How many output channels each sample is copied to.
    pub closed spec fn channels(&self) -> nat {
        self.channels as nat
    }

    /// There is at least one output channel.
    pub closed spec fn wf(&self) -> bool {
        self.channels > 0
    }

    /// What a well-formed player is, in terms that a caller can use.
    pub proof fn lemma_wf(&self)
        requires
            self.wf(),
        ensures
            self.channels() > 0,
    {
    }

    /// A player with nothing buffered.
    pub fn new(source: P, channels: usize) -> (p: Self)
        requires
            channels > 0,
        ensures
            p.wf(),
            p.source() == source,
            p.channels() == channels,
            p.buffered() == Seq::<i16>::empty(),
    {
        Player { source, buffer: JitterBuffer::new(), channels }
    }

    /// How many samples are buffered.
    pub fn buffered_len(&self) -> (n: usize)
        ensures
            n == self.buffered().len(),
    {
        self.buffer.len()
    }

    /// Asks the source for the next packet to decode, unless `out_len`
    /// samples or more are buffered already. While the buffer is short, the
    /// source is polled once and its answer handed on as it is. `None` ends
    /// the filling for this callback.
    pub fn poll(&mut self, out_len: usize) -> (pkt: Option<Bytes>)
        ensures
            final(self).wf() == old(self).wf(),
            final(self).channels() == old(self).channels(),
            final(self).buffered() == old(self).buffered(),
            old(self).buffered().len() >= out_len ==> pkt is None && final(self).source() == old(
                self,
            ).source(),
            old(self).buffered().len() < out_len ==> old(self).source().gave(
                maybe_packet_bytes(pkt),
                final(self).source(),
            ),
    {
        if self.buffer.len() < out_len {
            self.source.try_recv()
        } else {
            None
        }
    }

    /// Takes what the codec made of a packet: its samples, which are
    /// appended, or `None` for a packet that did not decode, which is
    /// skipped without a trace.
    pub fn feed(&mut self, decoded: Option<&[i16]>)
        ensures
            final(self).wf() == old(self).wf(),
            final(self).channels() == old(self).channels(),
            final(self).source() == old(self).source(),
            final(self).buffered() == match decoded {
                Some(pcm) => old(self).buffered() + pcm@,
                None => old(self).buffered(),
            },
    {
        match decoded {
            Some(pcm) => self.buffer.extend(pcm),
            None => {},
        }
    }

    /// Fills one output buffer of `out_len` interleaved samples: one
    /// buffered sample per frame, copied to every channel. Always returns
    /// exactly `out_len` samples.
    pub fn render(&mut self, out_len: usize) -> (out: Vec<i16>)
        requires
            old(self).wf(),
        ensures
            final(self).wf(),
            final(self).channels() == old(self).channels(),
            final(self).source() == old(self).source(),
            out@ == rendered(old(self).buffered(), out_len as nat, old(self).channels()),
            final(self).buffered() == undrained(
                old(self).buffered(),
                (out_len as nat) / old(self).channels(),
            ),
    {
        let frames = out_len / self.channels;
        let mono = self.buffer.drain(frames);
        let mut out: Vec<i16> = Vec::new();
        let mut i: usize = 0;
        while i < out_len
            invariant
                i <= out_len,
                self.channels > 0,
                frames == out_len / self.channels,
                mono@ == drained(old(self).buffer@, frames as nat),
                out@ == rendered(old(self).buffer@, out_len as nat, self.channels as nat).take(
                    i as int,
                ),
            decreases out_len - i,
        {
            let frame = i / self.channels;
            let sample = if frame < frames {
                mono[frame]
            } else {
                0
            };
            out.push(sample);
            assert(out@ =~= rendered(
                old(self).buffer@,
                out_len as nat,
                self.channels as nat,
            ).take(i + 1));
            i += 1;
        }
        assert(out@ =~= rendered(old(self).buffer@, out_len as nat, self.channels as nat));
        out
    }
}

} // verus!
