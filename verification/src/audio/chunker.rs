//! Mono downmix and fixed-size chunk slicing.
//!
//! The capture callback delivers interleaved frames in whatever channel
//! count the device offers. Each frame is downmixed to one sample by the
//! arithmetic mean of its channels (summed, then divided by the channel
//! count, truncating toward zero as the source's integer division does);
//! the mono samples are then buffered and handed on in chunks of exactly
//! [`CHUNK_SAMPLES`] samples — about 100 ms at 16 kHz. A trailing partial
//! chunk stays buffered until filled, and is discarded with the slicer at
//! stream end.

use vstd::prelude::*;
use vstd::arithmetic::div_mod::{
    lemma_div_is_ordered, lemma_div_multiples_vanish, lemma_div_multiples_vanish_fancy,
    lemma_fundamental_div_mod, lemma_mod_division_less_than_divisor,
};

verus! {

/// Samples per emitted chunk: 100 ms at 16 kHz.
pub const CHUNK_SAMPLES: usize = 1600;

/// Sum of `data[lo..hi]`.
pub open spec fn frame_sum(data: Seq<i16>, lo: int, hi: int) -> int
    decreases hi - lo,
{
    if lo >= hi {
        0
    } else {
        frame_sum(data, lo, hi - 1) + data[hi - 1]
    }
}

/// Division truncating toward zero, as the machine's signed division
/// does; both variants agree with Euclidean division on the magnitudes.
pub open spec fn div_toward_zero(a: int, b: int) -> int {
    if a >= 0 {
        a / b
    } else {
        -((-a) / b)
    }
}

/// How many frames a buffer of `len` interleaved samples holds: every
/// full group of `channels` samples, plus one for a trailing short group.
pub open spec fn spec_frame_count(len: int, channels: int) -> int {
    (len + channels - 1) / channels
}

/// The mono value of frame `f`: the mean of its channel samples,
/// truncated toward zero. A trailing short frame is still divided by the
/// full channel count.
pub open spec fn spec_mono_frame(data: Seq<i16>, channels: int, f: int) -> int {
    let lo = f * channels;
    let hi = if (f + 1) * channels <= data.len() {
        (f + 1) * channels
    } else {
        data.len() as int
    };
    div_toward_zero(frame_sum(data, lo, hi), channels)
}

/// Sums bound: a run of `n` samples sums to within `[-32768 n, 32767 n]`.
proof fn lemma_frame_sum_bounds(data: Seq<i16>, lo: int, hi: int)
    requires
        0 <= lo <= hi <= data.len(),
    ensures
        -(hi - lo) * 0x8000 <= frame_sum(data, lo, hi) <= (hi - lo) * 0x7fff,
    decreases hi - lo,
{
    if lo < hi {
        lemma_frame_sum_bounds(data, lo, hi - 1);
    }
}

/// The mean of one frame, `data[start..end]`, over `channels` channels.
fn mono_frame_value(data: &[i16], start: usize, end: usize, channels: u16) -> (r: i16)
    requires
        channels >= 1,
        start <= end <= data@.len(),
        end - start <= channels,
    ensures
        r == div_toward_zero(frame_sum(data@, start as int, end as int), channels as int),
{
    let mut sum: i64 = 0;
    let mut i: usize = start;
    while i < end
        invariant
            start <= i <= end <= data@.len(),
            end - start <= channels,
            sum == frame_sum(data@, start as int, i as int),
            -(i - start) * 0x8000 <= sum <= (i - start) * 0x7fff,
        decreases end - i,
    {
        sum = sum + (data[i] as i64);
        i = i + 1;
    }
    let c = channels as u64;
    proof {
        lemma_div_multiples_vanish(0x7fff, c as int);
        lemma_div_multiples_vanish(0x8000, c as int);
        lemma_div_is_ordered(sum as int, (c as int) * 0x7fff, c as int);
        lemma_div_is_ordered(-(sum as int), (c as int) * 0x8000, c as int);
    }
    if sum >= 0 {
        (((sum as u64) / c) as i64) as i16
    } else {
        (-((((-sum) as u64) / c) as i64)) as i16
    }
}

/// Downmixes interleaved multi-channel samples to mono, frame by frame.
pub fn downmix_to_mono(data: &[i16], channels: u16) -> (r: Vec<i16>)
    requires
        channels >= 1,
    ensures
        r@.len() == spec_frame_count(data@.len() as int, channels as int),
        forall|f: int|
            0 <= f < r@.len() ==> #[trigger] r@[f] == spec_mono_frame(
                data@,
                channels as int,
                f,
            ),
{
    let c = channels as usize;
    let mut out: Vec<i16> = Vec::new();
    let mut start: usize = 0;
    proof {
        assert(0int * (c as int) == 0) by (nonlinear_arith);
    }
    while data.len() - start >= c
        invariant
            c == channels as usize,
            1 <= c,
            start <= data@.len(),
            start == out@.len() * c,
            forall|f: int|
                0 <= f < out@.len() ==> #[trigger] out@[f] == spec_mono_frame(
                    data@,
                    channels as int,
                    f,
                ),
        decreases data@.len() - start,
    {
        let value = mono_frame_value(data, start, start + c, channels);
        proof {
            let f = out@.len() as int;
            let ci = c as int;
            assert((f + 1) * ci == f * ci + ci) by (nonlinear_arith);
        }
        out.push(value);
        start = start + c;
        proof {
            let f = out@.len() as int;
            let ci = c as int;
            assert(f * ci == (f - 1) * ci + ci) by (nonlinear_arith);
        }
    }
    if start < data.len() {
        let value = mono_frame_value(data, start, data.len(), channels);
        proof {
            let len = data@.len() as int;
            let f = out@.len() as int;
            let ci = c as int;
            assert((f + 1) * ci == f * ci + ci) by (nonlinear_arith);
            assert(len + ci - 1 == ci * (f + 1) + (len - f * ci - 1)) by (nonlinear_arith);
            lemma_div_multiples_vanish_fancy(f + 1, len - f * ci - 1, ci);
        }
        out.push(value);
    } else {
        proof {
            let len = data@.len() as int;
            let k = out@.len() as int;
            let ci = c as int;
            assert(len + ci - 1 == ci * k + (ci - 1)) by (nonlinear_arith)
                requires
                    len == k * ci,
            ;
            lemma_div_multiples_vanish_fancy(k, ci - 1, ci);
        }
    }
    out
}

/// Buffers mono samples and slices them into chunks of exactly
/// [`CHUNK_SAMPLES`] samples; whatever does not fill a chunk yet stays
/// pending.
pub struct ChunkSlicer {
    /// Samples waiting for their chunk to fill; always shorter than one
    /// chunk.
    pub pending: Vec<i16>,
}

impl ChunkSlicer {
    /// Fewer than a full chunk of samples is pending.
    pub open spec fn wf(self) -> bool {
        self.pending@.len() < 1600
    }

    /// A fresh slicer with nothing pending.
    pub fn new() -> (r: ChunkSlicer)
        ensures
            r.wf(),
            r.pending@.len() == 0,
    {
        ChunkSlicer { pending: Vec::new() }
    }

    /// Takes delivered mono samples and returns every chunk that is now
    /// full, in order; the remainder stays pending. Nothing is lost and
    /// nothing is reordered: the old pending samples followed by the new
    /// ones are exactly the returned chunks followed by the new pending.
    #[verifier::rlimit(60)]
    pub fn push(&mut self, samples: &[i16]) -> (chunks: Vec<Vec<i16>>)
        requires
            old(self).wf(),
            old(self).pending@.len() + samples@.len() <= usize::MAX,
        ensures
            final(self).wf(),
            ({
                let all = old(self).pending@ + samples@;
                &&& chunks@.len() == all.len() as int / 1600
                &&& forall|i: int|
                    0 <= i < chunks@.len() ==> (#[trigger] chunks@[i])@ == all.subrange(
                        1600 * i,
                        1600 * (i + 1),
                    )
                &&& final(self).pending@ == all.subrange(
                    1600 * (all.len() as int / 1600),
                    all.len() as int,
                )
            }),
    {
        let ghost all_spec = self.pending@ + samples@;
        let mut all: Vec<i16> = Vec::new();
        let mut i: usize = 0;
        while i < self.pending.len()
            invariant
                i <= self.pending@.len(),
                all@ == self.pending@.take(i as int),
            decreases self.pending@.len() - i,
        {
            all.push(self.pending[i]);
            i = i + 1;
        }
        let mut j: usize = 0;
        while j < samples.len()
            invariant
                j <= samples@.len(),
                all@ == self.pending@ + samples@.take(j as int),
            decreases samples@.len() - j,
        {
            proof {
                assert(self.pending@ + samples@.take(j + 1) =~= (self.pending@ + samples@.take(
                    j as int,
                )).push(samples@[j as int]));
            }
            all.push(samples[j]);
            j = j + 1;
        }
        proof {
            assert(self.pending@.take(self.pending@.len() as int) =~= self.pending@);
            assert(samples@.take(samples@.len() as int) =~= samples@);
            assert(all@ =~= all_spec);
        }
        let n_chunks = all.len() / 1600;
        proof {
            lemma_fundamental_div_mod(all_spec.len() as int, 1600);
            lemma_mod_division_less_than_divisor(all_spec.len() as int, 1600);
        }
        let mut chunks: Vec<Vec<i16>> = Vec::new();
        let mut f: usize = 0;
        while f < n_chunks
            invariant
                f <= n_chunks,
                n_chunks == all@.len() as int / 1600,
                1600 * (n_chunks as int) <= all@.len(),
                all@.len() <= usize::MAX,
                all@ == all_spec,
                chunks@.len() == f,
                forall|k: int|
                    0 <= k < f ==> (#[trigger] chunks@[k])@ == all_spec.subrange(
                        1600 * k,
                        1600 * (k + 1),
                    ),
            decreases n_chunks - f,
        {
            proof {
                assert(1600 * ((f + 1) as int) <= 1600 * (n_chunks as int));
                assert(1600 * (n_chunks as int) <= all_spec.len());
            }
            let base = f * 1600;
            let mut chunk: Vec<i16> = Vec::new();
            let mut k: usize = 0;
            while k < 1600
                invariant
                    k <= 1600,
                    base == f * 1600,
                    base + 1600 <= all@.len(),
                    all@.len() <= usize::MAX,
                    all@ == all_spec,
                    chunk@ == all_spec.subrange(base as int, base as int + k as int),
                decreases 1600 - k,
            {
                proof {
                    assert(all_spec.subrange(base as int, base as int + (k + 1))
                        =~= all_spec.subrange(base as int, base as int + k as int).push(
                        all_spec[base as int + k as int],
                    ));
                }
                chunk.push(all[base + k]);
                k = k + 1;
            }
            proof {
                assert(chunk@ == all_spec.subrange(1600 * (f as int), 1600 * (f as int + 1)));
            }
            chunks.push(chunk);
            f = f + 1;
        }
        let tail_start = n_chunks * 1600;
        proof {
            assert(1600 * (all_spec.len() as int / 1600) <= all_spec.len());
        }
        let mut rest: Vec<i16> = Vec::new();
        let mut t: usize = tail_start;
        while t < all.len()
            invariant
                tail_start <= t <= all@.len(),
                tail_start == 1600 * (all_spec.len() as int / 1600),
                all@ == all_spec,
                rest@ == all_spec.subrange(tail_start as int, t as int),
            decreases all@.len() - t,
        {
            proof {
                assert(all_spec.subrange(tail_start as int, t + 1) =~= all_spec.subrange(
                    tail_start as int,
                    t as int,
                ).push(all_spec[t as int]));
            }
            rest.push(all[t]);
            t = t + 1;
        }
        proof {
            assert(all_spec.len() - 1600 * (all_spec.len() as int / 1600) < 1600);
        }
        self.pending = rest;
        chunks
    }
}

} // verus!
