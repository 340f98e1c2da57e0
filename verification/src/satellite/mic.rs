//! INMP441 capture arithmetic: sample conversion, frame loudness (integer
//! RMS), end-of-utterance silence tracking and the level meter shown on the
//! serial monitor.
use vstd::prelude::*;

verus! {

/// Samples per 20 ms frame at 16 kHz.
pub const FRAME_SAMPLES: usize = 320;
/// Raw I2S bytes per frame (32-bit slots).
pub const FRAME_RAW_BYTES: usize = 1280;
/// 800 ms of sustained silence ends the utterance.
pub const SILENCE_MS: u32 = 800;
/// RMS amplitude below which a frame counts as silence.
pub const SILENCE_RMS: u32 = 500;

/// The signed 32-bit value of four little-endian bytes.
pub open spec fn le_i32(b0: u8, b1: u8, b2: u8, b3: u8) -> int {
    let u = b0 as int + b1 as int * 0x100 + b2 as int * 0x1_0000 + b3 as int * 0x100_0000;
    if u >= 0x8000_0000 { u - 0x1_0000_0000 } else { u }
}

/// `v` limited to the `i16` range.
pub open spec fn clamp_i16(v: int) -> int {
    if v < -32768 { -32768 } else if v > 32767 { 32767 } else { v }
}

/// One INMP441 slot as an s16 sample: the 32-bit slot shifted right by 14
/// (an arithmetic shift, i.e. floor division by 2^14), clamped rather than
/// wrapped.
pub open spec fn inmp441_sample(b0: u8, b1: u8, b2: u8, b3: u8) -> i16 {
    clamp_i16(le_i32(b0, b1, b2, b3) / 0x4000) as i16
}

/// The samples of a raw slot buffer: one per complete 4-byte slot; a
/// trailing partial slot is ignored.
pub open spec fn inmp441_samples(raw: Seq<u8>) -> Seq<i16> {
    Seq::new(raw.len() / 4, |i: int| inmp441_sample(raw[4 * i], raw[4 * i + 1], raw[4 * i + 2], raw[4 * i + 3]))
}

fn slot_sample(b0: u8, b1: u8, b2: u8, b3: u8) -> (s: i16)
    ensures
        s == inmp441_sample(b0, b1, b2, b3),
{
    let u: i64 = b0 as i64 + b1 as i64 * 0x100 + b2 as i64 * 0x1_0000 + b3 as i64 * 0x100_0000;
    let v: i64 = if u >= 0x8000_0000 { u - 0x1_0000_0000 } else { u };
    assert(v == le_i32(b0, b1, b2, b3));
    let q: i64 = if v >= 0 { v / 0x4000 } else { -((-v + 0x3fff) / 0x4000) };
    assert(q == v / 0x4000) by (nonlinear_arith)
        requires
            q == (if v >= 0 { v / 0x4000 } else { -((-v + 0x3fff) / 0x4000) }),
            -0x8000_0000 <= v < 0x8000_0000;
    let c: i64 = if q < -32768 { -32768 } else if q > 32767 { 32767 } else { q };
    c as i16
}

/// The INMP441 delivers 24-bit samples left-justified in 32-bit slots.
/// Converts raw little-endian slots to s16 (shift by 14, clamped), replacing
/// the previous contents of `out`.
pub fn convert_inmp441(raw: &[u8], out: &mut Vec<i16>)
    ensures
        final(out)@ == inmp441_samples(raw@),
{
    out.clear();
    let n = raw.len() / 4;
    let mut i: usize = 0;
    while i < n
        invariant
            n == raw.len() / 4,
            i <= n,
            out@ == inmp441_samples(raw@).take(i as int),
        decreases n - i,
    {
        let s = slot_sample(raw[4 * i], raw[4 * i + 1], raw[4 * i + 2], raw[4 * i + 3]);
        out.push(s);
        assert(out@ =~= inmp441_samples(raw@).take(i + 1));
        i = i + 1;
    }
    assert(out@ =~= inmp441_samples(raw@));
}

/// The integer square root: the largest `r` with `r * r <= n`.
pub open spec fn is_isqrt(n: nat, r: nat) -> bool {
    r * r <= n && n < (r + 1) * (r + 1)
}

proof fn lemma_newton_step_stays_above(n: nat, x: nat)
    requires
        x >= 1,
    ensures
        ((x + n / x) / 2 + 1) * ((x + n / x) / 2 + 1) > n,
{
    let q = n / x;
    let m = (x + q) / 2;
    assert(n < x * (q + 1)) by (nonlinear_arith)
        requires q == n / x, x >= 1;
    assert(2 * (m + 1) >= x + q + 1) by (nonlinear_arith)
        requires m == (x + q) / 2;
    assert(4 * (m + 1) * (m + 1) >= 4 * x * (q + 1)) by (nonlinear_arith)
        requires 2 * (m + 1) >= x + q + 1, x >= 0, q >= 0;
    assert((m + 1) * (m + 1) > n) by (nonlinear_arith)
        requires 4 * (m + 1) * (m + 1) >= 4 * x * (q + 1), n < x * (q + 1);
}

/// Integer square root by Newton's iteration (no floats on the firmware).
pub fn isqrt(n: u64) -> (r: u64)
    ensures
        is_isqrt(n as nat, r as nat),
{
    if n < 2 {
        assert(is_isqrt(n as nat, n as nat)) by (nonlinear_arith)
            requires n < 2;
        return n;
    }
    let mut x: u64 = n;
    let mut y: u64 = n / 2 + n % 2;
    assert((y + 1) * (y + 1) > n) by (nonlinear_arith)
        requires y == n / 2 + n % 2, n >= 2;
    assert((x + 1) * (x + 1) > n) by (nonlinear_arith)
        requires x == n;
    while y < x
        invariant
            n >= 2,
            (x + 1) * (x + 1) > n,
            (y + 1) * (y + 1) > n,
            y >= x ==> x * x <= n,
        decreases x,
    {
        x = y;
        assert(x >= 1) by (nonlinear_arith)
            requires (x + 1) * (x + 1) > n, n >= 2;
        let q: u64 = n / x;
        let next: u128 = (x as u128 + q as u128) / 2;
        proof {
            lemma_newton_step_stays_above(n as nat, x as nat);
            assert(next >= x ==> x * x <= n) by (nonlinear_arith)
                requires next == (x + q) / 2, q == n / x, x >= 1;
        }
        assert(next <= u64::MAX) by (nonlinear_arith)
            requires next == (x + q) / 2, x <= u64::MAX, q <= u64::MAX;
        y = next as u64;
    }
    x
}

/// The sum of the squares of the samples.
pub open spec fn sum_squares(s: Seq<i16>) -> nat
    decreases s.len(),
{
    if s.len() == 0 { 0 } else { sum_squares(s.drop_last()) + (s.last() as int * s.last() as int) as nat }
}

/// The root mean square of a frame, in whole sample units (0 for an empty
/// frame): the integer square root of the floored mean of the squares.
pub open spec fn frame_rms(s: Seq<i16>) -> nat {
    if s.len() == 0 { 0 } else { choose|r: nat| #[trigger] is_isqrt(sum_squares(s) / s.len(), r) }
}

/// The integer square root is unique.
pub proof fn lemma_isqrt_unique(n: nat, a: nat, b: nat)
    requires
        is_isqrt(n, a),
        is_isqrt(n, b),
    ensures
        a == b,
{
    if a < b {
        assert((a + 1) * (a + 1) <= b * b) by (nonlinear_arith)
            requires a + 1 <= b;
    } else if b < a {
        assert((b + 1) * (b + 1) <= a * a) by (nonlinear_arith)
            requires b + 1 <= a;
    }
}

/// A frame's RMS is the one integer square root of its mean square: any
/// `r` with `r * r <= mean < (r + 1) * (r + 1)` is it.
pub proof fn lemma_frame_rms_is_the_isqrt(s: Seq<i16>, r: nat)
    requires
        s.len() > 0,
        is_isqrt(sum_squares(s) / s.len(), r),
    ensures
        frame_rms(s) == r,
{
    let c = choose|c: nat| #[trigger] is_isqrt(sum_squares(s) / s.len(), c);
    lemma_isqrt_unique(sum_squares(s) / s.len(), r, c);
}

proof fn lemma_sum_squares_bound(s: Seq<i16>)
    ensures
        sum_squares(s) <= s.len() * 0x4000_0000,
    decreases s.len(),
{
    if s.len() > 0 {
        lemma_sum_squares_bound(s.drop_last());
        let v = s.last() as int;
        assert(v * v <= 0x4000_0000) by (nonlinear_arith)
            requires -32768 <= v <= 32767;
        assert(v * v >= 0) by (nonlinear_arith);
        assert(sum_squares(s) == sum_squares(s.drop_last()) + v * v);
        assert(s.drop_last().len() * 0x4000_0000 + 0x4000_0000 == s.len() * 0x4000_0000);
    }
}

/// Frame loudness used by the silence tracker and the level meter.
pub fn rms(frame: &[i16]) -> (r: u32)
    requires
        frame@.len() <= 0x1_0000_0000,
    ensures
        r as nat == frame_rms(frame@),
{
    if frame.len() == 0 {
        return 0;
    }
    let mut sum: u64 = 0;
    let mut i: usize = 0;
    while i < frame.len()
        invariant
            i <= frame.len(),
            frame@.len() <= 0x1_0000_0000,
            sum as nat == sum_squares(frame@.take(i as int)),
        decreases frame.len() - i,
    {
        let s = frame[i] as i64;
        proof {
            assert(frame@.take(i + 1).drop_last() == frame@.take(i as int));
            lemma_sum_squares_bound(frame@.take(i + 1));
            assert(s * s <= 0x4000_0000) by (nonlinear_arith)
                requires -32768 <= s <= 32767;
            assert(s * s >= 0) by (nonlinear_arith);
        }
        sum = sum + (s * s) as u64;
        i = i + 1;
    }
    assert(frame@.take(frame@.len() as int) == frame@);
    let mean = sum / frame.len() as u64;
    let r = isqrt(mean);
    proof {
        lemma_sum_squares_bound(frame@);
        assert(mean <= 0x4000_0000) by (nonlinear_arith)
            requires mean as int == sum as int / (frame@.len() as int), sum <= frame@.len() * 0x4000_0000, frame@.len() >= 1;
        assert(r <= 0x8000) by (nonlinear_arith)
            requires r * r <= mean, mean <= 0x4000_0000;
        assert(is_isqrt(sum_squares(frame@) / frame@.len(), r as nat));
        let c = choose|c: nat| #[trigger] is_isqrt(sum_squares(frame@) / frame@.len(), c);
        lemma_isqrt_unique(mean as nat, r as nat, c);
    }
    r as u32
}

/// Detects end of utterance: `push` returns true once frames have stayed
/// under the RMS threshold for `silence_ms` in a row.
pub struct SilenceTracker {
    threshold: u32,
    silence_ms: u32,
    frame_ms: u32,
    run_ms: u32,
}

/// Mathematical form of a silence tracker.
pub struct SilenceTrackerView {
    pub threshold: u32,
    pub silence_ms: u32,
    pub frame_ms: u32,
    /// Milliseconds of silence in the current run.
    pub run_ms: u32,
}

impl View for SilenceTracker {
    type V = SilenceTrackerView;

    closed spec fn view(&self) -> SilenceTrackerView {
        SilenceTrackerView {
            threshold: self.threshold,
            silence_ms: self.silence_ms,
            frame_ms: self.frame_ms,
            run_ms: self.run_ms,
        }
    }
}

/// The silent run after one more frame of loudness `level`: it grows by one
/// frame while the frame is quiet and restarts on a loud one.
pub open spec fn next_run(t: SilenceTrackerView, level: nat) -> int {
    if level < t.threshold { t.run_ms + t.frame_ms } else { 0 }
}

impl SilenceTracker {
    pub fn new(threshold: u32, silence_ms: u32, frame_ms: u32) -> (t: Self)
        ensures
            t@ == (SilenceTrackerView { threshold, silence_ms, frame_ms, run_ms: 0 }),
    {
        SilenceTracker { threshold, silence_ms, frame_ms, run_ms: 0 }
    }

    /// Forgets the current silent run.
    pub fn reset(&mut self)
        ensures
            final(self)@ == (SilenceTrackerView { run_ms: 0, ..old(self)@ }),
    {
        self.run_ms = 0;
    }

    /// Accounts one frame; true once the silent run has reached
    /// `silence_ms`.
    pub fn push(&mut self, frame: &[i16]) -> (done: bool)
        requires
            frame@.len() <= 0x1_0000_0000,
            old(self)@.run_ms + old(self)@.frame_ms <= u32::MAX,
        ensures
            final(self)@ == (SilenceTrackerView { run_ms: next_run(old(self)@, frame_rms(frame@)) as u32, ..old(self)@ }),
            done == (final(self)@.run_ms >= old(self)@.silence_ms),
    {
        if rms(frame) < self.threshold {
            self.run_ms = self.run_ms + self.frame_ms;
        } else {
            self.run_ms = 0;
        }
        self.run_ms >= self.silence_ms
    }
}

/// The silent run after a sequence of frame levels, starting from `run`.
pub open spec fn run_after(t: SilenceTrackerView, levels: Seq<nat>) -> int
    decreases levels.len(),
{
    if levels.len() == 0 {
        t.run_ms as int
    } else {
        let r = run_after(t, levels.drop_last());
        if levels.last() < t.threshold { r + t.frame_ms } else { 0 }
    }
}

/// After a reset, `k` quiet frames in a row make a silent run of exactly
/// `k * frame_ms`: the tracker fires on the first frame that brings the run
/// to `silence_ms`, however long the sound before it was.
pub proof fn law_quiet_frames_accumulate(t: SilenceTrackerView, levels: Seq<nat>)
    requires
        forall|i: int| 0 <= i < levels.len() ==> #[trigger] levels[i] < t.threshold,
    ensures
        run_after(t, levels) == t.run_ms + levels.len() * t.frame_ms,
    decreases levels.len(),
{
    if levels.len() > 0 {
        law_quiet_frames_accumulate(t, levels.drop_last());
        assert(levels.last() < t.threshold);
        assert((levels.len() - 1) * t.frame_ms + t.frame_ms == levels.len() * t.frame_ms) by (nonlinear_arith);
    }
}

/// The number of most recent frames in a row that were quiet.
pub open spec fn trailing_quiet(threshold: u32, levels: Seq<nat>) -> nat
    decreases levels.len(),
{
    if levels.len() == 0 {
        0
    } else if levels.last() < threshold {
        trailing_quiet(threshold, levels.drop_last()) + 1
    } else {
        0
    }
}

/// From a fresh or reset tracker, after any sequence of frames the silent
/// run is `frame_ms` times the number of most recent frames in a row that
/// were quiet; `push` reports silence exactly when that reaches
/// `silence_ms`, and a loud frame brings the count back to zero.
pub proof fn law_run_counts_trailing_quiet_frames(t: SilenceTrackerView, levels: Seq<nat>)
    requires
        t.run_ms == 0,
    ensures
        run_after(t, levels) == trailing_quiet(t.threshold, levels) * t.frame_ms,
    decreases levels.len(),
{
    if levels.len() > 0 {
        law_run_counts_trailing_quiet_frames(t, levels.drop_last());
        let k = trailing_quiet(t.threshold, levels.drop_last());
        if levels.last() < t.threshold {
            assert(trailing_quiet(t.threshold, levels) == k + 1);
            assert((k + 1) * t.frame_ms == k * t.frame_ms + t.frame_ms) by (nonlinear_arith);
        } else {
            assert(trailing_quiet(t.threshold, levels) == 0);
            assert(0 * t.frame_ms == 0);
        }
    } else {
        assert(0 * t.frame_ms == 0);
    }
}

/// A loud frame restarts the silent run, whatever came before it.
pub proof fn law_loud_frame_restarts_run(t: SilenceTrackerView, levels: Seq<nat>, loud: nat)
    requires
        loud >= t.threshold,
    ensures
        run_after(t, levels.push(loud)) == 0,
{
    assert(levels.push(loud).drop_last() == levels);
}

/// Aggregates raw mic levels over a window of frames. `push` returns the
/// window's loudest frame RMS and peak sample once per window, then resets.
pub struct LevelMeter {
    window: u32,
    frames: u32,
    rms_max: u32,
    peak: u16,
}

/// Mathematical form of a level meter.
pub struct LevelMeterView {
    pub window: u32,
    pub frames: u32,
    pub rms_max: u32,
    pub peak: u16,
}

impl View for LevelMeter {
    type V = LevelMeterView;

    closed spec fn view(&self) -> LevelMeterView {
        LevelMeterView { window: self.window, frames: self.frames, rms_max: self.rms_max, peak: self.peak }
    }
}

/// The absolute value of a sample as `u16` (`i16::unsigned_abs`).
pub open spec fn abs_u16(s: i16) -> u16 {
    if s < 0 { (-(s as int)) as u16 } else { s as u16 }
}

/// The largest absolute sample of a frame (0 for an empty frame).
pub open spec fn frame_peak(s: Seq<i16>) -> u16
    decreases s.len(),
{
    if s.len() == 0 {
        0
    } else {
        let p = frame_peak(s.drop_last());
        if abs_u16(s.last()) > p { abs_u16(s.last()) } else { p }
    }
}

/// The meter after one more frame, before the window check.
pub open spec fn meter_accumulate(m: LevelMeterView, frame: Seq<i16>) -> LevelMeterView {
    LevelMeterView {
        frames: (m.frames + 1) as u32,
        rms_max: if frame_rms(frame) > m.rms_max { frame_rms(frame) as u32 } else { m.rms_max },
        peak: if frame_peak(frame) > m.peak { frame_peak(frame) } else { m.peak },
        ..m
    }
}

fn peak_of(frame: &[i16]) -> (p: u16)
    ensures
        p == frame_peak(frame@),
{
    let mut p: u16 = 0;
    let mut i: usize = 0;
    while i < frame.len()
        invariant
            i <= frame.len(),
            p == frame_peak(frame@.take(i as int)),
        decreases frame.len() - i,
    {
        let s = frame[i];
        let a: u16 = if s < 0 { (-(s as i32)) as u16 } else { s as u16 };
        assert(frame@.take(i + 1).drop_last() == frame@.take(i as int));
        if a > p {
            p = a;
        }
        i = i + 1;
    }
    assert(frame@.take(frame@.len() as int) == frame@);
    p
}

impl LevelMeter {
    /// The meter's window has at least one frame and is never complete
    /// between calls.
    pub open spec fn inv(&self) -> bool {
        self@.window >= 1 && self@.frames < self@.window
    }

    pub fn new(window_frames: u32) -> (m: Self)
        ensures
            m@ == (LevelMeterView { window: if window_frames > 1 { window_frames } else { 1 }, frames: 0, rms_max: 0, peak: 0 }),
            m.inv(),
    {
        LevelMeter { window: if window_frames > 1 { window_frames } else { 1 }, frames: 0, rms_max: 0, peak: 0 }
    }

    /// Accounts one frame; at the end of each window returns
    /// `(max_frame_rms, peak_sample)` and starts the next window.
    pub fn push(&mut self, frame: &[i16]) -> (r: Option<(u32, u16)>)
        requires
            old(self).inv(),
            frame@.len() <= 0x1_0000_0000,
        ensures
            final(self).inv(),
            ({
                let acc = meter_accumulate(old(self)@, frame@);
                if acc.frames < acc.window {
                    r is None && final(self)@ == acc
                } else {
                    r == Some((acc.rms_max, acc.peak))
                        && final(self)@ == (LevelMeterView { frames: 0, rms_max: 0, peak: 0, ..acc })
                }
            }),
    {
        let level = rms(frame);
        if level > self.rms_max {
            self.rms_max = level;
        }
        let p = peak_of(frame);
        if p > self.peak {
            self.peak = p;
        }
        self.frames = self.frames + 1;
        if self.frames < self.window {
            return None;
        }
        let out = (self.rms_max, self.peak);
        self.frames = 0;
        self.rms_max = 0;
        self.peak = 0;
        Some(out)
    }
}

} // verus!
