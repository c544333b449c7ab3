//! Fixed-size PCM frame: one codec time unit of signed 16-bit samples.

use vstd::prelude::*;

verus! {

/// Sample rate of the codec's one operating point, in hertz.
pub const OPUS_SR_HZ: u32 = 48_000;

/// Samples in one frame: 20 ms at 48 kHz, mono.
pub const FRAME_SAMPLES: usize = 960;

/// Exactly `N` samples, in time order.
#[derive(Clone, Copy)]
pub struct Frame<const N: usize>(pub [i16; N]);

impl<const N: usize> View for Frame<N> {
    type V = Seq<i16>;

    open spec fn view(&self) -> Seq<i16> {
        self.0@
    }
}

impl<const N: usize> Default for Frame<N> {
    /// A frame of silence.
    fn default() -> (f: Self)
        ensures
            f@ == Seq::new(N as nat, |i: int| 0i16),
    {
        let f = Frame([0i16; N]);
        assert(f@ =~= Seq::new(N as nat, |i: int| 0i16));
        f
    }
}

impl<const N: usize> std::ops::Deref for Frame<N> {
    type Target = [i16; N];

    fn deref(&self) -> (samples: &[i16; N])
        ensures
            samples@ == self@,
    {
        &self.0
    }
}

impl<const N: usize> Frame<N> {
    /// Overwrites the sample at `index`.
    pub fn set(&mut self, index: usize, sample: i16)
        requires
            index < N,
        ensures
            final(self)@ == old(self)@.update(index as int, sample),
    {
        self.0[index] = sample;
        assert(self@ =~= old(self)@.update(index as int, sample));
    }
}

/// The contents of each frame of a list, in the list's order.
pub open spec fn frames_samples<const N: usize>(frames: Seq<Frame<N>>) -> Seq<Seq<i16>> {
    frames.map_values(|f: Frame<N>| f@)
}

} // verus!
