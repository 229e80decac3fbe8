//! The spectrum stage's shape: how many frequency bins a block of samples
//! yields for a given rate and frequency window.
//!
//! The floating-point pipeline (mono fold, Hann window, transform, scaling)
//! lives in the application; this module pins down the integer law behind
//! it: the result's length depends only on the padded FFT size, the sample
//! rate and the frequency window.

use vstd::prelude::*;

verus! {

/// The number of mono samples after folding groups of `divider` samples.
pub open spec fn spec_chunk_count(samples_len: int, divider: int) -> int
    recommends
        divider > 0,
{
    (samples_len + divider - 1) / divider
}

/// The smallest power of two at least `n` (one for an empty block).
pub open spec fn spec_next_pow2(n: int) -> int
    decreases n,
{
    if n <= 1 {
        1
    } else {
        2 * spec_next_pow2((n + 1) / 2)
    }
}

/// The smallest power of two at least `n`.
pub fn next_pow2(n: usize) -> (r: usize)
    requires
        n <= 0x1000_0000,
    ensures
        r == spec_next_pow2(n as int),
        r >= 1,
        r >= n,
        n >= 2 ==> r <= 2 * (n - 1),
    decreases n,
{
    if n <= 1 {
        1
    } else {
        2 * next_pow2((n + 1) / 2)
    }
}

/// Whether FFT bin `i` of a transform of size `fft_size` at `rate` Hz lies
/// in the inclusive window `[min_freq, max_freq]`: the bin's frequency is
/// `i * rate / fft_size`.
pub open spec fn spec_bin_selected(
    i: int,
    fft_size: int,
    rate: int,
    min_freq: int,
    max_freq: int,
) -> bool {
    &&& 0 <= i <= fft_size / 2
    &&& i * rate >= min_freq * fft_size
    &&& i * rate <= max_freq * fft_size
}

/// How many of the bins `0 .. k` are selected.
pub open spec fn spec_bins_upto(
    k: int,
    fft_size: int,
    rate: int,
    min_freq: int,
    max_freq: int,
) -> int
    decreases k,
{
    if k <= 0 {
        0
    } else {
        spec_bins_upto(k - 1, fft_size, rate, min_freq, max_freq) + if spec_bin_selected(
            k - 1,
            fft_size,
            rate,
            min_freq,
            max_freq,
        ) {
            1int
        } else {
            0int
        }
    }
}

/// The number of FFT bins (among `0 ..= fft_size / 2`) whose frequency lies
/// in `[min_freq, max_freq]`.
pub open spec fn spec_bin_count(fft_size: int, rate: int, min_freq: int, max_freq: int) -> int {
    spec_bins_upto(fft_size / 2 + 1, fft_size, rate, min_freq, max_freq)
}

/// The parameters of the spectrum stage.
#[derive(Debug, Clone, Copy)]
pub struct Fft {
    /// How many consecutive samples fold into one mono sample.
    pub divider: usize,
    /// Lowest frequency shown, in Hz.
    pub min_freq: u32,
    /// Highest frequency shown, in Hz.
    pub max_freq: u32,
}

impl Fft {
    /// The padded FFT size for a block of `samples_len` samples: the mono
    /// fold's length rounded up to a power of two.
    pub open spec fn spec_fft_size(&self, samples_len: int) -> int {
        spec_next_pow2(spec_chunk_count(samples_len, self.divider as int))
    }

    /// The number of bins a successful run on `samples_len` samples at
    /// `rate` Hz returns: the bins of the padded FFT size whose frequency
    /// lies in the window.  (The analyzer compares bin frequencies in
    /// floating point; this integer law compares the exact products.)
    pub fn bin_count(&self, samples_len: usize, rate: u32) -> (r: usize)
        requires
            0 < self.divider <= 0x100_0000,
            samples_len <= 0x100_0000,
        ensures
            r == spec_bin_count(
                self.spec_fft_size(samples_len as int),
                rate as int,
                self.min_freq as int,
                self.max_freq as int,
            ),
    {
        let mix_len = (samples_len + self.divider - 1) / self.divider;
        proof {
            assert(mix_len <= samples_len + self.divider - 1) by (nonlinear_arith)
                requires
                    self.divider >= 1,
                    mix_len == (samples_len + self.divider - 1) as int / self.divider as int,
                    samples_len >= 0,
            ;
        }
        let fft_size = next_pow2(mix_len);
        let half = fft_size / 2;
        let mut count: usize = 0;
        let mut i: usize = 0;
        while i <= half
            invariant
                half == self.spec_fft_size(samples_len as int) / 2,
                fft_size == self.spec_fft_size(samples_len as int),
                fft_size <= 0x2000_0000,
                i <= half + 1,
                count <= i,
                count == spec_bins_upto(
                    i as int,
                    fft_size as int,
                    rate as int,
                    self.min_freq as int,
                    self.max_freq as int,
                ),
            decreases half + 1 - i,
        {
            proof {
                assert((i as int) * (rate as int) <= 0x1000_0000 * 0xFFFF_FFFF) by (
                nonlinear_arith)
                    requires
                        0 <= i as int <= 0x1000_0000,
                        0 <= rate as int <= 0xFFFF_FFFF,
                ;
                assert((self.min_freq as int) * (fft_size as int) <= 0xFFFF_FFFF * 0x2000_0000)
                    by (nonlinear_arith)
                    requires
                        0 <= self.min_freq as int <= 0xFFFF_FFFF,
                        0 <= fft_size as int <= 0x2000_0000,
                ;
                assert((self.max_freq as int) * (fft_size as int) <= 0xFFFF_FFFF * 0x2000_0000)
                    by (nonlinear_arith)
                    requires
                        0 <= self.max_freq as int <= 0xFFFF_FFFF,
                        0 <= fft_size as int <= 0x2000_0000,
                ;
            }
            let product = (i as u64) * (rate as u64);
            let low = (self.min_freq as u64) * (fft_size as u64);
            let high = (self.max_freq as u64) * (fft_size as u64);
            if product >= low && product <= high {
                count += 1;
            }
            i += 1;
        }
        count
    }
}

} // verus!
