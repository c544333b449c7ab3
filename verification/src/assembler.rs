//! Cuts a stream of arbitrarily sized sample chunks into exact frames.

use crate::frame::{frames_samples, Frame};
use vstd::arithmetic::div_mod::{lemma_fundamental_div_mod, lemma_fundamental_div_mod_converse};
use vstd::prelude::*;

verus! {

/// The complete frames in `all`: consecutive runs of `n` samples from the start.
pub open spec fn frames_in(all: Seq<i16>, n: nat) -> Seq<Seq<i16>>
    recommends
        n > 0,
{
    Seq::new((all.len() / n) as nat, |k: int| all.subrange(k * n, k * n + n))
}

/// What is left of `all` after its complete frames: fewer than `n` samples.
pub open spec fn carry_of(all: Seq<i16>, n: nat) -> Seq<i16>
    recommends
        n > 0,
{
    all.skip(all.len() - all.len() % n)
}

/// What a run of pushes hands out and what it leaves behind: the frames of
/// each chunk in turn, one after the other, and the samples carried at the end.
pub open spec fn pushed(carry: Seq<i16>, chunks: Seq<Seq<i16>>, n: nat) -> (Seq<Seq<i16>>, Seq<i16>)
    recommends
        n > 0,
    decreases chunks.len(),
{
    if chunks.len() == 0 {
        (Seq::empty(), carry)
    } else {
        let now = carry + chunks.first();
        let later = pushed(carry_of(now, n), chunks.drop_first(), n);
        (frames_in(now, n) + later.0, later.1)
    }
}

/// Pushing `a` and then `b` hands out the same frames, and carries the same
/// remainder, as pushing both as one chunk.
pub proof fn lemma_push_split(carry: Seq<i16>, a: Seq<i16>, b: Seq<i16>, n: nat)
    requires
        n > 0,
    ensures
        frames_in(carry + a, n) + frames_in(carry_of(carry + a, n) + b, n) == frames_in(
            carry + (a + b),
            n,
        ),
        carry_of(carry_of(carry + a, n) + b, n) == carry_of(carry + (a + b), n),
{
    let x = carry + a;
    let y = carry_of(x, n) + b;
    let z = carry + (a + b);
    let d = n as int;
    let q = x.len() as int / d;
    let r = x.len() as int % d;
    let q2 = y.len() as int / d;
    let r2 = y.len() as int % d;
    lemma_fundamental_div_mod(x.len() as int, d);
    lemma_fundamental_div_mod(y.len() as int, d);
    assert(0 <= r < d && 0 <= r2 < d && q >= 0 && q2 >= 0) by (nonlinear_arith)
        requires
            d > 0,
            x.len() >= 0,
            y.len() >= 0,
            q == x.len() as int / d,
            r == x.len() as int % d,
            q2 == y.len() as int / d,
            r2 == y.len() as int % d,
    ;
    assert(z =~= x + b);
    assert(y.len() == r + b.len());
    assert(z.len() == (q + q2) * d + r2) by (nonlinear_arith)
        requires
            x.len() == d * q + r,
            y.len() == d * q2 + r2,
            y.len() == r + b.len(),
            z.len() == x.len() + b.len(),
    ;
    lemma_fundamental_div_mod_converse(z.len() as int, d, q + q2, r2);
    assert(y =~= z.skip(q * d)) by {
        assert(x.len() - r == q * d) by (nonlinear_arith)
            requires
                x.len() == d * q + r,
        ;
    }
    let left = frames_in(x, n) + frames_in(y, n);
    let right = frames_in(z, n);
    assert(left.len() == right.len());
    assert forall|k: int| 0 <= k < right.len() implies #[trigger] left[k] == right[k] by {
        if k < q {
            assert(k * d + d <= q * d) by (nonlinear_arith)
                requires
                    0 <= k < q,
                    d > 0,
            ;
            assert(x.subrange(k * d, k * d + d) =~= z.subrange(k * d, k * d + d));
        } else {
            let j = k - q;
            assert(k * d == q * d + j * d) by (nonlinear_arith)
                requires
                    j == k - q,
            ;
            assert(j * d + d <= y.len()) by (nonlinear_arith)
                requires
                    0 <= j < q2,
                    y.len() == d * q2 + r2,
                    r2 >= 0,
                    d > 0,
            ;
            assert(y.subrange(j * d, j * d + d) =~= z.subrange(k * d, k * d + d));
        }
    }
    assert(left =~= right);
    assert(carry_of(y, n) =~= carry_of(z, n)) by {
        assert(y.len() - r2 == q2 * d) by (nonlinear_arith)
            requires
                y.len() == d * q2 + r2,
        ;
        assert(z.len() - r2 == q * d + q2 * d) by (nonlinear_arith)
            requires
                z.len() == (q + q2) * d + r2,
        ;
    }
}

/// However a stream is cut into chunks, pushing the chunks one by one hands
/// out the complete frames of the whole stream and carries its remainder: the
/// number of frames is the number of samples divided by the frame size,
/// rounded down.
pub proof fn lemma_chunking_is_invisible(carry: Seq<i16>, chunks: Seq<Seq<i16>>, n: nat)
    requires
        n > 0,
        carry.len() < n,
    ensures
        pushed(carry, chunks, n).0 == frames_in(carry + chunks.flatten(), n),
        pushed(carry, chunks, n).1 == carry_of(carry + chunks.flatten(), n),
        pushed(carry, chunks, n).0.len() == (carry.len() + chunks.flatten().len()) / n,
        pushed(carry, chunks, n).1.len() == (carry.len() + chunks.flatten().len()) % n,
    decreases chunks.len(),
{
    let stream = carry + chunks.flatten();
    if chunks.len() == 0 {
        assert(chunks.flatten() =~= Seq::<i16>::empty());
        assert(stream =~= carry);
        lemma_fundamental_div_mod_converse(carry.len() as int, n as int, 0, carry.len() as int);
        assert(frames_in(carry, n) =~= Seq::<Seq<i16>>::empty());
        assert(carry_of(carry, n) =~= carry);
    } else {
        let first = chunks.first();
        let rest = chunks.drop_first();
        let kept = carry_of(carry + first, n);
        lemma_carry_split(carry + first, n);
        lemma_chunking_is_invisible(kept, rest, n);
        lemma_push_split(carry, first, rest.flatten(), n);
        assert(chunks.flatten() =~= first + rest.flatten());
        assert(pushed(carry, chunks, n).0 == frames_in(carry + first, n) + pushed(kept, rest, n).0);
    }
    lemma_carry_split(stream, n);
}

/// The carried remainder is shorter than a frame, and with the complete
/// frames it accounts for every sample.
pub proof fn lemma_carry_split(all: Seq<i16>, n: nat)
    requires
        n > 0,
    ensures
        carry_of(all, n).len() == all.len() % n,
        carry_of(all, n).len() < n,
        frames_in(all, n).len() == all.len() / n,
        frames_in(all, n).len() * n + carry_of(all, n).len() == all.len(),
{
    lemma_fundamental_div_mod(all.len() as int, n as int);
    assert(0 <= all.len() as int % (n as int) < n && all.len() as int / (n as int) >= 0)
        by (nonlinear_arith)
        requires
            n > 0,
            all.len() >= 0,
    ;
    assert((all.len() as int / (n as int)) * n == n * (all.len() as int / (n as int)))
        by (nonlinear_arith);
}

/// Accumulates samples until `N` are there, then hands them out as a frame
/// and keeps what is left over for the next call.
pub struct FrameAssembler<const N: usize> {
    frame: Frame<N>,
    filled: usize,
}

impl<const N: usize> FrameAssembler<N> {
    /// The staging buffer is never full between calls.
    pub closed spec fn wf(&self) -> bool {
        self.filled < N
    }

    /// The samples carried over from earlier calls, oldest first.
    pub closed spec fn carry(&self) -> Seq<i16> {
        self.frame@.take(self.filled as int)
    }

    /// A well-formed assembler carries less than a frame.
    pub proof fn lemma_carry_is_short(&self)
        requires
            self.wf(),
        ensures
            self.carry().len() < N,
    {
    }

    /// An assembler that carries nothing.
    pub fn new() -> (a: Self)
        requires
            N > 0,
        ensures
            a.wf(),
            a.carry() == Seq::<i16>::empty(),
    {
        let a = FrameAssembler { frame: Frame::default(), filled: 0 };
        assert(a.carry() =~= Seq::<i16>::empty());
        a
    }

    /// How many samples are carried.
    pub fn carried(&self) -> (n: usize)
        requires
            self.wf(),
        ensures
            n == self.carry().len(),
            n < N,
    {
        self.filled
    }

    /// Appends `samples` to what is carried, returns every frame that is now
    /// complete, oldest first, and carries the remainder.
    pub fn push(&mut self, samples: &[i16]) -> (frames: Vec<Frame<N>>)
        requires
            old(self).wf(),
        ensures
            final(self).wf(),
            frames_samples(frames@) == frames_in(old(self).carry() + samples@, N as nat),
            final(self).carry() == carry_of(old(self).carry() + samples@, N as nat),
    {
        let ghost all = old(self).carry() + samples@;
        let ghost held = old(self).carry().len() as int;
        let mut frames: Vec<Frame<N>> = Vec::new();
        let mut i: usize = 0;
        proof {
            assert(self.frame@.len() == N);
            assert(held == self.filled);
            assert(frames.len() * N == 0) by (nonlinear_arith)
                requires
                    frames.len() == 0,
            ;
            assert(self.frame@.take(self.filled as int) =~= all.subrange(0, held));
        }
        while i < samples.len()
            invariant
                i <= samples.len(),
                self.filled < N,
                self.frame@.len() == N,
                all == old(self).carry() + samples@,
                held == old(self).carry().len(),
                held + i == frames.len() * N + self.filled,
                forall|k: int|
                    0 <= k < frames.len() ==> (#[trigger] frames[k])@ == all.subrange(
                        k * N,
                        k * N + N,
                    ),
                self.frame@.take(self.filled as int) == all.subrange(
                    frames.len() * N,
                    held + i,
                ),
            decreases samples.len() - i,
        {
            let ghost before = self.frame@;
            let ghost done = frames.len() as int;
            let at = self.filled;
            assert(all[held + i] == samples@[i as int]);
            self.frame.set(at, samples[i]);
            assert(self.frame@.take(at + 1) =~= all.subrange(done * N, held + i + 1)) by {
                let staged = self.frame@.take(at + 1);
                let wanted = all.subrange(done * N, held + i + 1);
                assert forall|j: int| 0 <= j < at + 1 implies #[trigger] staged[j] == wanted[j] by {
                    if j < at {
                        assert(before.take(at as int)[j] == all.subrange(done * N, held + i)[j]);
                    }
                }
            }
            if at + 1 == N {
                assert((done + 1) * N == done * N + N) by (nonlinear_arith);
                assert(self.frame@ =~= self.frame@.take(at + 1));
                frames.push(self.frame);
                self.filled = 0;
                assert(self.frame@.take(0) =~= all.subrange(frames.len() * N, held + i + 1));
            } else {
                self.filled = at + 1;
            }
            i += 1;
        }
        proof {
            let count = frames.len() as int;
            let total = all.len() as int;
            assert(total == count * N + self.filled);
            lemma_fundamental_div_mod_converse(total, N as int, count, self.filled as int);
            assert(frames_samples(frames@) =~= frames_in(all, N as nat));
            assert(self.carry() =~= carry_of(all, N as nat));
        }
        frames
    }

    /// Drops what is carried: the samples of an unfinished frame are never
    /// handed out.
    pub fn discard(&mut self)
        ensures
            old(self).wf() ==> final(self).wf(),
            final(self).carry() == Seq::<i16>::empty(),
    {
        self.filled = 0;
        assert(self.carry() =~= Seq::<i16>::empty());
    }
}

} // verus!
