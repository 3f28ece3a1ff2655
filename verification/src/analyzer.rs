//! Pure analysis of one sample buffer: RMS amplitude, dominant
//! frequency picked from a magnitude spectrum, and the assembled
//! metrics snapshot.
//!
//! Samples are fixed-point: millionths of the normalized unit. The
//! magnitude spectrum is supplied by the caller, who runs the windowed
//! forward transform of the first `WINDOW_SIZE` samples and quantizes
//! each bin's magnitude to an integer; every decision made on it
//! (peak selection, tie-breaking, sentinel handling, bin-to-frequency
//! conversion) is verified here for every possible spectrum.

use vstd::prelude::*;

use crate::metrics::MAX_FREQUENCY_MILLIHZ;
use crate::metrics::SignalMetrics;
use crate::metrics::lemma_wavelength_invariant;
use crate::metrics::wavelength_of;

verus! {

/// Number of samples in one analysis window, and the length of the
/// magnitude spectrum the transform yields.
pub const WINDOW_SIZE: usize = 1024;

/// Upper end (exclusive) of the scanned bin range: bin 0 is the DC
/// component and bins at or above half the window mirror the lower
/// half for real input, so only bins in `(0, HALF_WINDOW)` compete.
pub const HALF_WINDOW: usize = 512;

/// Largest sample magnitude the analyzer accepts, a machine limit that
/// keeps every sum of squares inside 128 bits. Normalized audio, at one
/// million per unit, stays a factor of two thousand below it.
pub const SAMPLE_LIMIT: i64 = 2_000_000_000;

/// Sum of the squares of a sample sequence.
pub open spec fn sum_squares(s: Seq<i64>) -> int
    decreases s.len(),
{
    if s.len() == 0 {
        0
    } else {
        sum_squares(s.drop_last()) + s.last() * s.last()
    }
}

/// `r` is the integer square root of `n`, rounded down.
pub open spec fn is_floor_sqrt(n: int, r: int) -> bool {
    r * r <= n < (r + 1) * (r + 1)
}

/// `r` is the RMS of `s`: the floor square root of the mean square,
/// with `0` for the empty sequence.
pub open spec fn rms_ok(s: Seq<i64>, r: u64) -> bool {
    if s.len() == 0 {
        r == 0
    } else {
        is_floor_sqrt(sum_squares(s) / s.len() as int, r as int)
    }
}

/// Every scanned bin of the spectrum is zero: genuine silence.
pub open spec fn spectrum_silent(mags: Seq<u64>) -> bool {
    forall|j: int| 1 <= j < HALF_WINDOW as int ==> #[trigger] mags[j] == 0
}

/// Bin `k` is the winner of the peak scan: a positive magnitude that no
/// scanned bin exceeds, and that every earlier scanned bin is strictly
/// below, since the scan replaces its running maximum only on strict
/// improvement.
pub open spec fn is_first_peak(mags: Seq<u64>, k: int) -> bool {
    &&& 1 <= k < HALF_WINDOW as int
    &&& mags[k] > 0
    &&& (forall|j: int| 1 <= j < HALF_WINDOW as int ==> #[trigger] mags[j] <= mags[k])
    &&& (forall|j: int| 1 <= j < k ==> #[trigger] mags[j] < mags[k])
}

/// Frequency in milli-hertz of bin `k` of a `WINDOW_SIZE`-point
/// transform at the given sample rate.
pub open spec fn bin_frequency_millihz(k: int, sample_rate_hz: int) -> int {
    k * sample_rate_hz * 1000 / WINDOW_SIZE as int
}

/// Everything `analyze` promises of its result: a well-formed snapshot
/// whose amplitude is the RMS of the samples, whose frequency is the
/// first-peak frequency of the spectrum — or the silence sentinel for
/// an undersized buffer or an all-zero spectrum — and whose wavelength
/// is derived from the frequency.
pub open spec fn analysis_ok(
    samples: Seq<i64>,
    spectrum: Seq<u64>,
    sample_rate_hz: u32,
    m: SignalMetrics,
) -> bool {
    &&& m.wf()
    &&& rms_ok(samples, m.amplitude)
    &&& (samples.len() < WINDOW_SIZE as nat ==> m.frequency == 0)
    &&& (samples.len() >= WINDOW_SIZE as nat && spectrum_silent(spectrum) ==> m.frequency == 0)
    &&& (samples.len() >= WINDOW_SIZE as nat && !spectrum_silent(spectrum) ==> (exists|k: int|
        is_first_peak(spectrum, k) && m.frequency == bin_frequency_millihz(
            k,
            sample_rate_hz as int,
        )))
    &&& m.wavelength == wavelength_of(m.frequency)
}

proof fn lemma_sum_squares_zero(s: Seq<i64>)
    requires
        forall|i: int| 0 <= i < s.len() ==> #[trigger] s[i] == 0,
    ensures
        sum_squares(s) == 0,
    decreases s.len(),
{
    if s.len() > 0 {
        lemma_sum_squares_zero(s.drop_last());
    }
}

/// Floor square root by binary search over the 32-bit root range.
pub fn isqrt_u64(n: u64) -> (r: u64)
    ensures
        is_floor_sqrt(n as int, r as int),
        r <= 4_294_967_295,
{
    let mut lo: u64 = 0;
    let mut hi: u64 = 4_294_967_295;
    assert((n as int) < (hi as int + 1) * (hi as int + 1)) by (nonlinear_arith)
        requires
            hi == 4_294_967_295u64,
            n as int <= 18_446_744_073_709_551_615,
    {}
    while lo < hi
        invariant
            lo <= hi,
            hi <= 4_294_967_295,
            lo as int * lo as int <= n as int,
            (n as int) < (hi as int + 1) * (hi as int + 1),
        decreases hi - lo,
    {
        let mid: u64 = lo + (hi - lo + 1) / 2;
        assert(mid as int * mid as int <= 4_294_967_295 * 4_294_967_295) by (nonlinear_arith)
            requires
                0 <= mid as int <= 4_294_967_295,
        {}
        let sq: u64 = mid * mid;
        if sq <= n {
            lo = mid;
        } else {
            hi = mid - 1;
        }
    }
    lo
}

/// RMS amplitude of a sample buffer, in the samples' own fixed-point
/// unit: the floor square root of the mean of the squares, and `0` for
/// an empty buffer. Never fails: every buffer shape degrades to a
/// defined value.
#[verifier::loop_isolation(false)]
pub fn calculate_rms(samples: &Vec<i64>) -> (r: u64)
    requires
        forall|i: int| 0 <= i < samples@.len() ==> -SAMPLE_LIMIT <= #[trigger] samples@[i]
            <= SAMPLE_LIMIT,
    ensures
        rms_ok(samples@, r),
        (forall|i: int| 0 <= i < samples@.len() ==> #[trigger] samples@[i] == 0) ==> r == 0,
{
    if samples.len() == 0 {
        return 0;
    }
    let ghost limit_sq: int = SAMPLE_LIMIT as int * SAMPLE_LIMIT as int;
    let mut acc: u128 = 0;
    let mut i: usize = 0;
    while i < samples.len()
        invariant
            0 <= i <= samples@.len(),
            acc as int == sum_squares(samples@.subrange(0, i as int)),
            acc as int <= i as int * limit_sq,
        decreases samples@.len() - i,
    {
        let ghost pre = samples@.subrange(0, i as int);
        let x: i64 = samples[i];
        assert(0 <= x as int * x as int <= limit_sq) by (nonlinear_arith)
            requires
                -SAMPLE_LIMIT as int <= x as int <= SAMPLE_LIMIT as int,
                limit_sq == SAMPLE_LIMIT as int * SAMPLE_LIMIT as int,
        {}
        let sq: i64 = x * x;
        proof {
            assert((i as int + 1) * limit_sq <= usize::MAX as int * limit_sq) by (nonlinear_arith)
                requires
                    0 <= i as int + 1 <= usize::MAX as int,
                    limit_sq > 0,
            {}
            assert(acc as int + sq as int <= (i as int + 1) * limit_sq) by (nonlinear_arith)
                requires
                    acc as int <= i as int * limit_sq,
                    sq as int <= limit_sq,
                    i as int >= 0,
            {}
        }
        acc = acc + (sq as u128);
        i = i + 1;
        proof {
            let post = samples@.subrange(0, i as int);
            assert(post.drop_last() =~= pre);
            assert(post.last() == x);
        }
    }
    assert(samples@.subrange(0, samples@.len() as int) =~= samples@);
    let len: usize = samples.len();
    proof {
        vstd::arithmetic::div_mod::lemma_multiply_divide_le(acc as int, len as int, limit_sq);
    }
    let mean: u64 = (acc / (len as u128)) as u64;
    let r = isqrt_u64(mean);
    proof {
        if forall|j: int| 0 <= j < samples@.len() ==> #[trigger] samples@[j] == 0 {
            lemma_sum_squares_zero(samples@);
            assert(r as int * r as int <= 0);
            assert(r == 0) by (nonlinear_arith)
                requires
                    r as int >= 0,
                    r as int * r as int <= 0,
            {}
        }
    }
    r
}

/// Scans bins strictly between the DC bin and half the window, keeping
/// the running maximum and replacing it only on strict improvement, so
/// ties resolve to the lowest-index bin. Returns `0`, outside the
/// scanned range, when every scanned bin is zero.
#[verifier::loop_isolation(false)]
pub fn find_peak_bin(magnitudes: &Vec<u64>) -> (k: usize)
    requires
        magnitudes@.len() == WINDOW_SIZE,
    ensures
        spectrum_silent(magnitudes@) ==> k == 0,
        !spectrum_silent(magnitudes@) ==> is_first_peak(magnitudes@, k as int),
{
    let mut best: u64 = 0;
    let mut bin: usize = 0;
    let mut i: usize = 1;
    while i < HALF_WINDOW
        invariant
            1 <= i <= HALF_WINDOW,
            bin == 0 ==> best == 0 && (forall|j: int|
                1 <= j < i as int ==> #[trigger] magnitudes@[j] == 0),
            bin != 0 ==> {
                &&& 1 <= bin < i
                &&& magnitudes@[bin as int] == best
                &&& best > 0
                &&& (forall|j: int| 1 <= j < i as int ==> #[trigger] magnitudes@[j] <= best)
                &&& (forall|j: int| 1 <= j < bin as int ==> #[trigger] magnitudes@[j] < best)
            },
        decreases HALF_WINDOW - i,
    {
        let m: u64 = magnitudes[i];
        if m > best {
            best = m;
            bin = i;
        }
        i = i + 1;
    }
    bin
}

/// Frequency in milli-hertz of transform bin `k` at the given sample
/// rate: `k * sample_rate / WINDOW_SIZE`, kept in milli-hertz so the
/// quotient is exact integer arithmetic.
pub fn bin_to_frequency(k: usize, sample_rate_hz: u32) -> (f: u64)
    requires
        k < HALF_WINDOW,
    ensures
        f == bin_frequency_millihz(k as int, sample_rate_hz as int),
        f <= MAX_FREQUENCY_MILLIHZ,
{
    proof {
        assert(k as int * sample_rate_hz as int <= 511 * 4_294_967_295) by (nonlinear_arith)
            requires
                0 <= k as int <= 511,
                0 <= sample_rate_hz as int <= 4_294_967_295,
        {}
        assert(k as int * sample_rate_hz as int * 1000 <= 511 * 4_294_967_295 * 1000);
        vstd::arithmetic::div_mod::lemma_div_is_ordered(
            k as int * sample_rate_hz as int * 1000,
            511int * 4_294_967_295 * 1000,
            WINDOW_SIZE as int,
        );
    }
    let prod: u64 = (k as u64) * (sample_rate_hz as u64) * 1000;
    prod / (WINDOW_SIZE as u64)
}

/// Dominant frequency of a full-window spectrum, in milli-hertz: the
/// frequency of the first peak bin, or the silence sentinel `0` when
/// every scanned bin is zero.
pub fn frequency_from_spectrum(magnitudes: &Vec<u64>, sample_rate_hz: u32) -> (f: u64)
    requires
        magnitudes@.len() == WINDOW_SIZE,
    ensures
        f <= MAX_FREQUENCY_MILLIHZ,
        spectrum_silent(magnitudes@) ==> f == 0,
        !spectrum_silent(magnitudes@) ==> (exists|k: int|
            is_first_peak(magnitudes@, k) && f == bin_frequency_millihz(
                k,
                sample_rate_hz as int,
            )),
{
    let k = find_peak_bin(magnitudes);
    if k == 0 {
        0
    } else {
        bin_to_frequency(k, sample_rate_hz)
    }
}

/// Analyzes one delivered buffer: RMS amplitude of the whole buffer,
/// dominant frequency of the supplied spectrum when a full window of
/// samples was available, wavelength derived from the frequency. The
/// caller runs the transform on the first `WINDOW_SIZE` samples and
/// passes the quantized magnitude spectrum; when the buffer is shorter
/// than one window the spectrum is ignored and the frequency is the
/// silence sentinel. No input shape fails: every edge case degrades to
/// a defined zero-valued output.
pub fn analyze(samples: &Vec<i64>, spectrum: &Vec<u64>, sample_rate_hz: u32) -> (m: SignalMetrics)
    requires
        forall|i: int| 0 <= i < samples@.len() ==> -SAMPLE_LIMIT <= #[trigger] samples@[i]
            <= SAMPLE_LIMIT,
        samples@.len() >= WINDOW_SIZE ==> spectrum@.len() == WINDOW_SIZE,
    ensures
        analysis_ok(samples@, spectrum@, sample_rate_hz, m),
        (forall|i: int| 0 <= i < samples@.len() ==> #[trigger] samples@[i] == 0) ==> m.amplitude
            == 0,
        (m.frequency == 0) <==> (m.wavelength == 0),
{
    let amplitude = calculate_rms(samples);
    let frequency: u64 = if samples.len() < WINDOW_SIZE {
        0
    } else {
        frequency_from_spectrum(spectrum, sample_rate_hz)
    };
    let m = SignalMetrics::from_analysis(amplitude, frequency);
    proof {
        lemma_wavelength_invariant(m);
    }
    m
}

/// Law: the floor square root is unique, so an RMS claim pins the
/// amplitude to one value.
pub proof fn lemma_floor_sqrt_unique(n: int, r1: int, r2: int)
    requires
        0 <= r1,
        0 <= r2,
        is_floor_sqrt(n, r1),
        is_floor_sqrt(n, r2),
    ensures
        r1 == r2,
{
    assert(r1 == r2) by (nonlinear_arith)
        requires
            0 <= r1,
            0 <= r2,
            r1 * r1 <= n,
            n < (r1 + 1) * (r1 + 1),
            r2 * r2 <= n,
            n < (r2 + 1) * (r2 + 1),
    {}
}

/// Law: at most one bin wins the peak scan, so a first-peak claim pins
/// the frequency to one value.
pub proof fn lemma_first_peak_unique(mags: Seq<u64>, k1: int, k2: int)
    requires
        is_first_peak(mags, k1),
        is_first_peak(mags, k2),
    ensures
        k1 == k2,
{
    if k1 < k2 {
        assert(mags[k1] < mags[k2]);
        assert(mags[k2] <= mags[k1]);
    }
    if k2 < k1 {
        assert(mags[k2] < mags[k1]);
        assert(mags[k1] <= mags[k2]);
    }
}

/// Law: the analysis is deterministic — its contract admits exactly one
/// snapshot for a given buffer, spectrum and sample rate.
pub proof fn lemma_analysis_deterministic(
    samples: Seq<i64>,
    spectrum: Seq<u64>,
    sample_rate_hz: u32,
    m1: SignalMetrics,
    m2: SignalMetrics,
)
    requires
        analysis_ok(samples, spectrum, sample_rate_hz, m1),
        analysis_ok(samples, spectrum, sample_rate_hz, m2),
    ensures
        m1 == m2,
{
    if samples.len() > 0 {
        lemma_floor_sqrt_unique(
            sum_squares(samples) / samples.len() as int,
            m1.amplitude as int,
            m2.amplitude as int,
        );
    }
    if samples.len() >= WINDOW_SIZE as nat && !spectrum_silent(spectrum) {
        let k1 = choose|k: int|
            is_first_peak(spectrum, k) && m1.frequency == bin_frequency_millihz(
                k,
                sample_rate_hz as int,
            );
        let k2 = choose|k: int|
            is_first_peak(spectrum, k) && m2.frequency == bin_frequency_millihz(
                k,
                sample_rate_hz as int,
            );
        lemma_first_peak_unique(spectrum, k1, k2);
    }
}

} // verus!
