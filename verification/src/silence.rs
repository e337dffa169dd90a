//! Silence detection for automatic recording stop.
//!
//! Audio samples are integers in micro-units: one million micro-units
//! of amplitude equal full scale.  The detector computes the RMS
//! (root mean square) of each chunk, also in micro-units, and counts
//! how many contiguous silent samples have passed since the last
//! chunk with speech.

use vstd::prelude::*;

verus! {

/// Micro-units of amplitude per full scale.
pub const FULL_SCALE: u32 = 1_000_000;

/// Default silence threshold in micro-units of RMS amplitude (0.010 of full scale).
pub const DEFAULT_SILENCE_THRESHOLD: u32 = 10_000;

/// Minimum allowed silence threshold (0.001 of full scale).
pub const MIN_SILENCE_THRESHOLD: u32 = 1_000;

/// Maximum allowed silence threshold (0.100 of full scale).
pub const MAX_SILENCE_THRESHOLD: u32 = 100_000;

/// Default duration of silence before auto-stop, in milliseconds.
pub const DEFAULT_SILENCE_DURATION_MS: u32 = 1_500;

/// Minimum allowed silence duration, in milliseconds.
pub const MIN_SILENCE_DURATION_MS: u32 = 500;

/// Maximum allowed silence duration, in milliseconds.
pub const MAX_SILENCE_DURATION_MS: u32 = 5_000;

/// The largest square of an `i32`, `(-2^31)^2 = 2^62`.
pub const MAX_SAMPLE_SQUARE: u64 = 0x4000_0000_0000_0000;

/// Sum of the squares of the samples of a chunk.
pub open spec fn sum_squares(s: Seq<i32>) -> int
    decreases s.len(),
{
    if s.len() == 0 {
        0
    } else {
        sum_squares(s.drop_last()) + s.last() * s.last()
    }
}

/// Mean of the squares of the samples of a non-empty chunk (integer division).
pub open spec fn mean_square(s: Seq<i32>) -> int
    recommends
        s.len() > 0,
{
    sum_squares(s) / s.len() as int
}

/// `r` is the integer square root of `n`, rounded down.
pub open spec fn is_sqrt_floor(n: int, r: int) -> bool {
    0 <= r && r * r <= n && n < (r + 1) * (r + 1)
}

/// The integer square root of `n`, rounded down.
pub open spec fn sqrt_floor(n: int) -> int {
    choose|r: int| #[trigger] is_sqrt_floor(n, r)
}

/// RMS of a chunk in micro-units: the integer square root of the mean
/// square.  An empty chunk has RMS zero.
pub open spec fn chunk_rms(s: Seq<i32>) -> int {
    if s.len() == 0 {
        0
    } else {
        sqrt_floor(mean_square(s))
    }
}

pub proof fn lemma_sum_squares_bounds(s: Seq<i32>)
    ensures
        0 <= sum_squares(s) <= s.len() * MAX_SAMPLE_SQUARE,
    decreases s.len(),
{
    if s.len() == 0 {
    } else {
        lemma_sum_squares_bounds(s.drop_last());
        let x = s.last() as int;
        assert(0 <= x * x <= MAX_SAMPLE_SQUARE) by (nonlinear_arith)
            requires
                -0x8000_0000 <= x && x < 0x8000_0000,
        ;
        assert(s.len() * MAX_SAMPLE_SQUARE == s.drop_last().len() * MAX_SAMPLE_SQUARE
            + MAX_SAMPLE_SQUARE) by (nonlinear_arith)
            requires
                s.len() >= 1 && s.drop_last().len() == s.len() - 1,
        ;
    }
}

pub proof fn lemma_sqrt_floor_exists(n: int)
    requires
        n >= 0,
    ensures
        exists|r: int| #[trigger] is_sqrt_floor(n, r),
    decreases n,
{
    if n == 0 {
        assert(is_sqrt_floor(0, 0));
    } else {
        lemma_sqrt_floor_exists(n - 1);
        let r = choose|r: int| #[trigger] is_sqrt_floor(n - 1, r);
        if (r + 1) * (r + 1) <= n {
            assert((r + 1) * (r + 1) == n);
            assert((r + 2) * (r + 2) > n) by (nonlinear_arith)
                requires
                    r >= 0 && (r + 1) * (r + 1) == n,
            ;
            assert(is_sqrt_floor(n, r + 1));
        } else {
            assert(is_sqrt_floor(n, r));
        }
    }
}

pub proof fn lemma_sqrt_floor_unique(n: int, a: int, b: int)
    requires
        is_sqrt_floor(n, a),
        is_sqrt_floor(n, b),
    ensures
        a == b,
{
    assert(a == b) by (nonlinear_arith)
        requires
            0 <= a && a * a <= n < (a + 1) * (a + 1) && 0 <= b && b * b <= n < (b + 1) * (b + 1),
    ;
}

/// With existence and uniqueness settled, `sqrt_floor` itself satisfies
/// the defining property.
pub proof fn lemma_sqrt_floor_is_sqrt(n: int)
    requires
        n >= 0,
    ensures
        is_sqrt_floor(n, sqrt_floor(n)),
{
    lemma_sqrt_floor_exists(n);
}

/// Integer square root, rounded down.
pub fn isqrt(n: u64) -> (r: u64)
    requires
        n <= MAX_SAMPLE_SQUARE,
    ensures
        is_sqrt_floor(n as int, r as int),
        r as int == sqrt_floor(n as int),
{
    let mut lo: u64 = 0;
    let mut hi: u64 = 0x8000_0001;
    proof {
        assert((0x8000_0001u64 as int) * (0x8000_0001u64 as int) > MAX_SAMPLE_SQUARE)
            by (nonlinear_arith);
    }
    while hi - lo > 1
        invariant
            0 <= lo < hi <= 0x8000_0001,
            (lo as int) * (lo as int) <= n as int,
            (hi as int) * (hi as int) > n as int,
            n <= MAX_SAMPLE_SQUARE,
        decreases hi - lo,
    {
        let mid: u64 = lo + (hi - lo) / 2;
        proof {
            assert(mid * mid <= 0x8000_0001u64 * 0x8000_0001u64) by (nonlinear_arith)
                requires
                    0 <= mid <= 0x8000_0001u64,
            ;
        }
        if mid * mid <= n {
            lo = mid;
        } else {
            hi = mid;
        }
    }
    proof {
        assert(is_sqrt_floor(n as int, lo as int));
        lemma_sqrt_floor_exists(n as int);
        lemma_sqrt_floor_unique(n as int, lo as int, sqrt_floor(n as int));
    }
    lo
}

/// RMS (root mean square) of a chunk of samples, in micro-units of
/// amplitude.  An empty chunk yields exactly zero.
pub fn calculate_rms(samples: &[i32]) -> (r: u64)
    ensures
        r as int == chunk_rms(samples@),
{
    let n = samples.len();
    if n == 0 {
        return 0;
    }
    let mut sum: u128 = 0;
    let mut i: usize = 0;
    proof {
        assert(samples@.take(0) =~= Seq::<i32>::empty());
    }
    while i < n
        invariant
            0 <= i <= n,
            n == samples@.len(),
            sum == sum_squares(samples@.take(i as int)),
            sum <= (i as int) * MAX_SAMPLE_SQUARE,
        decreases n - i,
    {
        let x = samples[i];
        proof {
            assert(0 <= (x as int) * (x as int) <= MAX_SAMPLE_SQUARE) by (nonlinear_arith)
                requires
                    -0x8000_0000 <= (x as int) < 0x8000_0000,
            ;
        }
        let sq: i64 = (x as i64) * (x as i64);
        proof {
            assert(samples@.take(i as int + 1).drop_last() =~= samples@.take(i as int));
            assert(samples@.take(i as int + 1).last() == samples@[i as int]);
            assert((i as int) * MAX_SAMPLE_SQUARE + MAX_SAMPLE_SQUARE == (i as int + 1)
                * MAX_SAMPLE_SQUARE) by (nonlinear_arith);
            assert((i as int + 1) * MAX_SAMPLE_SQUARE <= (n as int) * MAX_SAMPLE_SQUARE)
                by (nonlinear_arith)
                requires
                    i as int + 1 <= n as int && MAX_SAMPLE_SQUARE > 0,
            ;
            assert((n as int) * MAX_SAMPLE_SQUARE < u128::MAX) by (nonlinear_arith)
                requires
                    n as int <= 0xffff_ffff_ffff_ffffu64,
            ;
        }
        sum = sum + (sq as u128);
        i = i + 1;
    }
    proof {
        assert(samples@.take(n as int) =~= samples@);
        lemma_sum_squares_bounds(samples@);
    }
    let mean: u128 = sum / (n as u128);
    proof {
        assert(sum as int / (n as int) <= MAX_SAMPLE_SQUARE) by (nonlinear_arith)
            requires
                n as int > 0 && 0 <= sum as int <= (n as int) * MAX_SAMPLE_SQUARE,
        ;
        assert(mean as int == mean_square(samples@));
    }
    let r = isqrt(mean as u64);
    proof {
        lemma_sqrt_floor_is_sqrt(mean as int);
    }
    r
}

/// RMS of an all-zero chunk of any length is exactly zero.
pub proof fn lemma_rms_all_zero(s: Seq<i32>)
    requires
        forall|i: int| 0 <= i < s.len() ==> s[i] == 0,
    ensures
        chunk_rms(s) == 0,
{
    lemma_sum_squares_constant(s, 0);
    if s.len() > 0 {
        assert(mean_square(s) == 0);
        assert(is_sqrt_floor(0, 0));
        lemma_sqrt_floor_unique(0, 0, sqrt_floor(0));
    }
}

/// RMS of a constant-amplitude chunk is exactly that amplitude (its
/// absolute value).
pub proof fn lemma_rms_constant(s: Seq<i32>, a: i32)
    requires
        s.len() > 0,
        forall|i: int| 0 <= i < s.len() ==> s[i] == a,
    ensures
        chunk_rms(s) == if a >= 0 {
            a as int
        } else {
            -(a as int)
        },
{
    let m = if a >= 0 {
        a as int
    } else {
        -(a as int)
    };
    lemma_sum_squares_constant(s, a);
    assert((s.len() * (a * a)) / s.len() as int == a * a) by (nonlinear_arith)
        requires
            s.len() > 0,
    ;
    assert(m * m == a * a && m >= 0 && a * a < (m + 1) * (m + 1)) by (nonlinear_arith)
        requires
            m == if a >= 0 {
                a as int
            } else {
                -(a as int)
            },
    ;
    assert(is_sqrt_floor(mean_square(s), m));
    lemma_sqrt_floor_unique(mean_square(s), m, sqrt_floor(mean_square(s)));
}

pub proof fn lemma_sum_squares_constant(s: Seq<i32>, a: i32)
    requires
        forall|i: int| 0 <= i < s.len() ==> s[i] == a,
    ensures
        sum_squares(s) == s.len() * (a * a),
    decreases s.len(),
{
    if s.len() == 0 {
    } else {
        lemma_sum_squares_constant(s.drop_last(), a);
        assert(s.len() * (a * a) == s.drop_last().len() * (a * a) + a * a) by (nonlinear_arith)
            requires
                s.len() >= 1 && s.drop_last().len() == s.len() - 1,
        ;
    }
}

/// Clamp `x` into `[lo, hi]`.
pub open spec fn clamp_u32(x: u32, lo: u32, hi: u32) -> u32 {
    if x < lo {
        lo
    } else if x > hi {
        hi
    } else {
        x
    }
}

/// Silence detector that tracks audio levels and detects extended silence.
///
/// The configuration (`threshold`, `sample_rate`, `samples_needed`) is
/// fixed at construction; the running state (`silent_samples`,
/// `speech_detected`, `triggered`) evolves chunk by chunk as
/// [`spec_process`] describes.
pub struct SilenceDetector {
    /// RMS threshold in micro-units below which audio is considered silent.
    pub threshold: u32,
    /// Sample rate of the audio stream, in Hz.
    pub sample_rate: u32,
    /// Number of consecutive silent samples needed to trigger.
    pub samples_needed: u64,
    /// Current count of consecutive silent samples (saturating).
    pub silent_samples: u64,
    /// Whether speech has been detected at least once.
    pub speech_detected: bool,
    /// Whether auto-stop has been triggered.
    pub triggered: bool,
}

/// One step of the detector on one chunk.
///
/// A triggered detector and an empty chunk leave the state unchanged.
/// A silent chunk (RMS below the threshold) adds its length to the
/// silent-sample count, saturating at `u64::MAX`, and triggers only if
/// speech was detected before and the count reaches `samples_needed`.
/// A chunk with speech clears the count and records the speech.
pub open spec fn spec_process(d: SilenceDetector, chunk: Seq<i32>) -> SilenceDetector {
    if d.triggered || chunk.len() == 0 {
        d
    } else if chunk_rms(chunk) < d.threshold {
        let count = d.silent_samples.saturating_add(chunk.len() as u64);
        SilenceDetector {
            silent_samples: count,
            triggered: d.speech_detected && count >= d.samples_needed,
            ..d
        }
    } else {
        SilenceDetector { silent_samples: 0, speech_detected: true, ..d }
    }
}

/// The detector run over a whole sequence of chunks, first chunk first.
pub open spec fn spec_process_all(d: SilenceDetector, chunks: Seq<Seq<i32>>) -> SilenceDetector
    decreases chunks.len(),
{
    if chunks.len() == 0 {
        d
    } else {
        spec_process_all(spec_process(d, chunks.first()), chunks.drop_first())
    }
}

/// Current silence duration in milliseconds: `silent_samples * 1000 /
/// sample_rate`, saturating at `u64::MAX`.
pub open spec fn spec_silence_duration_ms(silent_samples: u64, sample_rate: u32) -> u64
    recommends
        sample_rate >= 1,
{
    let ms = (silent_samples * 1000) / (sample_rate as int);
    if ms > u64::MAX {
        u64::MAX
    } else {
        ms as u64
    }
}

/// The detector that [`SilenceDetector::new`] constructs: threshold
/// and duration clamped, `samples_needed` rounded to the nearest whole
/// sample, and all running state cleared.
pub open spec fn spec_new_detector(threshold: u32, duration_ms: u32, sample_rate: u32)
    -> SilenceDetector {
    SilenceDetector {
        threshold: clamp_u32(threshold, MIN_SILENCE_THRESHOLD, MAX_SILENCE_THRESHOLD),
        sample_rate,
        samples_needed: (((sample_rate as int) * (clamp_u32(duration_ms,
            MIN_SILENCE_DURATION_MS, MAX_SILENCE_DURATION_MS) as int) + 500) / 1000) as u64,
        silent_samples: 0,
        speech_detected: false,
        triggered: false,
    }
}

impl SilenceDetector {
    /// A detector is well formed when its threshold lies in the allowed
    /// band and its sample rate is positive.
    pub open spec fn well_formed(&self) -> bool {
        MIN_SILENCE_THRESHOLD <= self.threshold <= MAX_SILENCE_THRESHOLD
            && self.sample_rate >= 1
    }

    /// Create a new silence detector.
    ///
    /// `threshold` is clamped to `[MIN_SILENCE_THRESHOLD,
    /// MAX_SILENCE_THRESHOLD]` micro-units and `duration_ms` to
    /// `[MIN_SILENCE_DURATION_MS, MAX_SILENCE_DURATION_MS]` before
    /// either is stored; `samples_needed` is `sample_rate *
    /// clamped_duration`, rounded to the nearest whole sample.
    pub fn new(threshold: u32, duration_ms: u32, sample_rate: u32) -> (d: SilenceDetector)
        requires
            sample_rate >= 1,
        ensures
            d.threshold == clamp_u32(threshold, MIN_SILENCE_THRESHOLD,
                MAX_SILENCE_THRESHOLD),
            d.sample_rate == sample_rate,
            d.samples_needed == ((sample_rate as int) * (clamp_u32(duration_ms,
                MIN_SILENCE_DURATION_MS, MAX_SILENCE_DURATION_MS) as int) + 500) / 1000,
            d.silent_samples == 0,
            !d.speech_detected,
            !d.triggered,
            d.well_formed(),
            d == spec_new_detector(threshold, duration_ms, sample_rate),
    {
        let clamped_threshold: u32 = if threshold < MIN_SILENCE_THRESHOLD {
            MIN_SILENCE_THRESHOLD
        } else if threshold > MAX_SILENCE_THRESHOLD {
            MAX_SILENCE_THRESHOLD
        } else {
            threshold
        };
        let clamped_duration: u32 = if duration_ms < MIN_SILENCE_DURATION_MS {
            MIN_SILENCE_DURATION_MS
        } else if duration_ms > MAX_SILENCE_DURATION_MS {
            MAX_SILENCE_DURATION_MS
        } else {
            duration_ms
        };
        proof {
            assert((sample_rate as int) * (clamped_duration as int) <= 0xffff_ffff * 5000)
                by (nonlinear_arith)
                requires
                    sample_rate <= 0xffff_ffffu32 && clamped_duration <= 5000,
            ;
        }
        let samples_needed: u64 = ((sample_rate as u64) * (clamped_duration as u64) + 500) / 1000;
        SilenceDetector {
            threshold: clamped_threshold,
            sample_rate,
            samples_needed,
            silent_samples: 0,
            speech_detected: false,
            triggered: false,
        }
    }

    /// Create a silence detector with default settings.
    pub fn with_defaults(sample_rate: u32) -> (d: SilenceDetector)
        requires
            sample_rate >= 1,
        ensures
            d.threshold == DEFAULT_SILENCE_THRESHOLD,
            d.sample_rate == sample_rate,
            d.samples_needed == ((sample_rate as int) * (DEFAULT_SILENCE_DURATION_MS
                as int) + 500) / 1000,
            d.silent_samples == 0,
            !d.speech_detected,
            !d.triggered,
            d.well_formed(),
    {
        Self::new(DEFAULT_SILENCE_THRESHOLD, DEFAULT_SILENCE_DURATION_MS, sample_rate)
    }

    /// Process a chunk of audio samples and return whether auto-stop
    /// should trigger.  The state changes exactly as [`spec_process`]
    /// says.
    pub fn process(&mut self, samples: &[i32]) -> (r: bool)
        ensures
            *final(self) == spec_process(*old(self), samples@),
            r == final(self).triggered,
    {
        if self.triggered || samples.len() == 0 {
            return self.triggered;
        }
        let rms = calculate_rms(samples);
        let is_silent = rms < self.threshold as u64;
        if is_silent {
            self.silent_samples = self.silent_samples.saturating_add(samples.len() as u64);
            if self.speech_detected && self.silent_samples >= self.samples_needed {
                self.triggered = true;
            }
        } else {
            self.silent_samples = 0;
            self.speech_detected = true;
        }
        self.triggered
    }

    /// Check if auto-stop has been triggered.
    pub fn is_triggered(&self) -> (r: bool)
        ensures
            r == self.triggered,
    {
        self.triggered
    }

    /// Check if speech has been detected at least once.
    pub fn has_speech(&self) -> (r: bool)
        ensures
            r == self.speech_detected,
    {
        self.speech_detected
    }

    /// Get the current silence duration in milliseconds.
    pub fn silence_duration(&self) -> (r: u64)
        requires
            self.well_formed(),
        ensures
            r == spec_silence_duration_ms(self.silent_samples, self.sample_rate),
    {
        let ms: u128 = (self.silent_samples as u128) * 1000 / (self.sample_rate as u128);
        if ms > u64::MAX as u128 {
            u64::MAX
        } else {
            ms as u64
        }
    }

    /// Get the current RMS threshold in micro-units.
    pub fn threshold(&self) -> (r: u32)
        ensures
            r == self.threshold,
    {
        self.threshold
    }

    /// Reset the running state, keeping the configuration.  Afterwards
    /// nothing has triggered, no speech is recorded, and the silence
    /// duration is zero.
    pub fn reset(&mut self)
        ensures
            final(self).threshold == old(self).threshold,
            final(self).sample_rate == old(self).sample_rate,
            final(self).samples_needed == old(self).samples_needed,
            final(self).silent_samples == 0,
            !final(self).speech_detected,
            !final(self).triggered,
            final(self).well_formed() == old(self).well_formed(),
    {
        self.silent_samples = 0;
        self.speech_detected = false;
        self.triggered = false;
    }
}

/// Once triggered, the detector mutates no further: every chunk
/// leaves it unchanged until an explicit reset.
pub proof fn lemma_triggered_is_stable(d: SilenceDetector, chunk: Seq<i32>)
    requires
        d.triggered,
    ensures
        spec_process(d, chunk) == d,
{
}

/// The trigger can only fire on a chunk processed while speech had
/// already been detected.
pub proof fn lemma_trigger_needs_speech(d: SilenceDetector, chunk: Seq<i32>)
    requires
        !d.triggered,
        spec_process(d, chunk).triggered,
    ensures
        d.speech_detected,
{
}

/// After speech, the silent chunk whose length carries the count to
/// `samples_needed` triggers the detector.
pub proof fn lemma_silence_crossing_triggers(d: SilenceDetector, chunk: Seq<i32>)
    requires
        !d.triggered,
        d.speech_detected,
        0 < chunk.len() <= usize::MAX,
        chunk_rms(chunk) < d.threshold,
        d.silent_samples + chunk.len() >= d.samples_needed,
    ensures
        spec_process(d, chunk).triggered,
{
}

/// Total number of samples over a sequence of chunks.
pub open spec fn total_len(chunks: Seq<Seq<i32>>) -> int
    decreases chunks.len(),
{
    if chunks.len() == 0 {
        0
    } else {
        chunks.first().len() + total_len(chunks.drop_first())
    }
}

/// Without prior speech, silence alone never triggers: feeding any
/// number of chunks whose RMS stays below the threshold to a detector
/// that has not yet heard speech leaves it untriggered, however long
/// the silence lasts.
pub proof fn lemma_no_trigger_without_speech(d: SilenceDetector, chunks: Seq<Seq<i32>>)
    requires
        !d.speech_detected,
        !d.triggered,
        forall|i: int|
            0 <= i < chunks.len() ==> #[trigger] chunk_rms(chunks[i]) < d.threshold,
    ensures
        !spec_process_all(d, chunks).speech_detected,
        !spec_process_all(d, chunks).triggered,
    decreases chunks.len(),
{
    if chunks.len() == 0 {
    } else {
        let d1 = spec_process(d, chunks.first());
        assert(chunk_rms(chunks[0]) < d.threshold);
        assert(!d1.speech_detected && !d1.triggered && d1.threshold
            == d.threshold);
        assert(forall|i: int|
            0 <= i < chunks.drop_first().len() ==> #[trigger] chunk_rms(chunks.drop_first()[i])
                < d1.threshold) by {
            assert(forall|i: int|
                0 <= i < chunks.drop_first().len() ==> chunks.drop_first()[i] == chunks[i + 1]);
        }
        lemma_no_trigger_without_speech(d1, chunks.drop_first());
    }
}

/// After speech, silence below the configured duration does not
/// trigger: as long as the accumulated silent samples stay strictly
/// under `samples_needed`, every chunk of a silent run leaves the
/// detector untriggered, and the count is exactly the sum of the chunk
/// lengths.  The chunk that makes the count reach `samples_needed` is
/// the one on which [`spec_process`] sets `triggered`.
pub proof fn lemma_silence_short_of_duration(d: SilenceDetector, chunks: Seq<Seq<i32>>)
    requires
        !d.triggered,
        d.speech_detected,
        forall|i: int|
            0 <= i < chunks.len() ==> #[trigger] chunk_rms(chunks[i]) < d.threshold,
        d.silent_samples + total_len(chunks) < d.samples_needed,
    ensures
        !spec_process_all(d, chunks).triggered,
        spec_process_all(d, chunks).speech_detected,
        spec_process_all(d, chunks).silent_samples == d.silent_samples
            + total_len(chunks),
        spec_process_all(d, chunks).samples_needed == d.samples_needed,
        spec_process_all(d, chunks).threshold == d.threshold,
    decreases chunks.len(),
{
    if chunks.len() == 0 {
    } else {
        let c = chunks.first();
        let d1 = spec_process(d, c);
        assert(chunk_rms(chunks[0]) < d.threshold);
        assert(total_len(chunks.drop_first()) >= 0) by {
            lemma_total_len_nonneg(chunks.drop_first());
        }
        assert(forall|i: int|
            0 <= i < chunks.drop_first().len() ==> #[trigger] chunk_rms(chunks.drop_first()[i])
                < d1.threshold) by {
            assert(forall|i: int|
                0 <= i < chunks.drop_first().len() ==> chunks.drop_first()[i] == chunks[i + 1]);
        }
        lemma_silence_short_of_duration(d1, chunks.drop_first());
    }
}

pub proof fn lemma_total_len_nonneg(chunks: Seq<Seq<i32>>)
    ensures
        total_len(chunks) >= 0,
    decreases chunks.len(),
{
    if chunks.len() == 0 {
    } else {
        lemma_total_len_nonneg(chunks.drop_first());
    }
}

/// A speech chunk between two silent runs clears the silent-sample
/// count, so the following silence starts counting from zero: after
/// partial silence, one chunk with speech, and one more silent chunk
/// shorter than the configured duration, the detector has not
/// triggered and its count is just that last chunk's length.
pub proof fn lemma_speech_resets_silence(
    d: SilenceDetector,
    speech: Seq<i32>,
    silent: Seq<i32>,
)
    requires
        !d.triggered,
        speech.len() > 0,
        chunk_rms(speech) >= d.threshold,
        chunk_rms(silent) < d.threshold,
        silent.len() < d.samples_needed,
    ensures
        spec_process(d, speech).silent_samples == 0,
        !spec_process(spec_process(d, speech), silent).triggered,
        spec_process(spec_process(d, speech), silent).silent_samples == silent.len(),
{
    let d1 = spec_process(d, speech);
    assert(d1.silent_samples == 0 && d1.speech_detected && !d1.triggered);
}

} // verus!

