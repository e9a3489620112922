//! The oscillator bank.
//!
//! Each oscillator owns a fixed-point phase accumulator together with
//! frequency and amplitude bindings.  Per sample it first produces its
//! waveform from the current phase, then advances the phase by
//! `hz / sample_rate` cycles and wraps the accumulator modulo the sample
//! rate (the wrap point is far above any audible frequency, so only the
//! fractional part of the phase ever matters; the waveform formulas read
//! the fractional part alone).
//!
//! The sine waveform is a piecewise parabola through the quarter-cycle
//! points: it is exactly zero at phase 0 and 1/2, exactly one at 1/4, and
//! exactly minus one at 3/4.

use vstd::prelude::*;

use crate::fx::{
    abs_int, fx_add, fx_mul, fx_muldiv, fx_frac, fx_neg, fx_scale, fx_sub, fx_trem, sat,
    spec_add, spec_frac, spec_mul, spec_muldiv, spec_sub, trem, FX_HALF, FX_ONE,
};
use crate::sig::{distinct_tags, spec_resolve, resolve, In};

verus! {

/// The largest sample rate the engine accepts, in samples per second.
pub const SR_MAX: i64 = 10_000_000;

/// One quarter, in fixed point.
pub const FX_QUARTER: i64 = 250_000;

/// The output-discontinuity guard used by the square and saw waveforms:
/// one thousandth of a cycle.
pub const EDGE_GUARD: i64 = 1_000;

/// The sine waveform on the fractional phase `x` in `[0, FX_ONE)`:
/// a parabola on each half cycle, exact at the quarter points.
pub open spec fn spec_sine(x: int) -> int
    recommends
        0 <= x < FX_ONE,
{
    if x < FX_HALF {
        spec_muldiv(16 * x, FX_HALF - x, FX_ONE as int)
    } else {
        sat(-spec_muldiv(16 * (x - FX_HALF), FX_ONE - x, FX_ONE as int))
    }
}

/// The sine waveform never leaves `[-1, 1]`: each half-cycle parabola
/// peaks exactly at the quarter points.
pub proof fn lemma_sine_range(x: int)
    requires
        0 <= x < FX_ONE,
    ensures
        -FX_ONE <= spec_sine(x) <= FX_ONE,
        x < FX_HALF ==> spec_sine(x) >= 0,
        x >= FX_HALF ==> spec_sine(x) <= 0,
{
    if x < FX_HALF {
        let p = 16 * x * (500_000 - x);
        assert(0 <= p <= 1_000_000_000_000) by (nonlinear_arith)
            requires
                0 <= x < 500_000,
                p == 16 * x * (500_000 - x),
        {
            assert(p == 1_000_000_000_000 - 16 * (x - 250_000) * (x - 250_000));
            assert((x - 250_000) * (x - 250_000) >= 0);
        }
        vstd::arithmetic::div_mod::lemma_div_pos_is_pos(p, FX_ONE as int);
        vstd::arithmetic::div_mod::lemma_div_is_ordered(p, 1_000_000_000_000, FX_ONE as int);
        assert(1_000_000_000_000int / (FX_ONE as int) == FX_ONE);
    } else {
        let y = x - FX_HALF;
        let p = 16 * y * (FX_ONE - x);
        assert(0 <= p <= 1_000_000_000_000) by (nonlinear_arith)
            requires
                0 <= y < 500_000,
                p == 16 * y * (500_000 - y),
        {
            assert(p == 1_000_000_000_000 - 16 * (y - 250_000) * (y - 250_000));
            assert((y - 250_000) * (y - 250_000) >= 0);
        }
        vstd::arithmetic::div_mod::lemma_div_pos_is_pos(p, FX_ONE as int);
        vstd::arithmetic::div_mod::lemma_div_is_ordered(p, 1_000_000_000_000, FX_ONE as int);
        assert(1_000_000_000_000int / (FX_ONE as int) == FX_ONE);
    }
}

/// Evaluate the sine waveform on a fractional phase.
pub fn sine_of_frac(x: i64) -> (r: i64)
    requires
        0 <= x < FX_ONE,
    ensures
        r as int == spec_sine(x as int),
{
    if x < FX_HALF {
        fx_muldiv(16 * x, FX_HALF - x, FX_ONE)
    } else {
        fx_neg(fx_muldiv(16 * (x - FX_HALF), FX_ONE - x, FX_ONE))
    }
}

/// The next phase accumulator value: advance by `hz / sr` cycles, then
/// wrap modulo the sample rate.
pub open spec fn spec_phase_next(phase: int, hz: int, sr: int) -> int
    recommends
        1 <= sr <= SR_MAX,
{
    trem(spec_add(phase, spec_muldiv(hz, 1, sr)), sr * FX_ONE)
}

/// Phase continuity: wherever the accumulator neither saturates nor
/// wraps, one step advances the phase by exactly `hz / sample_rate`.
pub proof fn lemma_phase_continuity(phase: int, hz: int, sr: int)
    requires
        1 <= sr <= SR_MAX,
        i64::MIN <= phase + spec_muldiv(hz, 1, sr) <= i64::MAX,
        -(sr * FX_ONE) < phase + spec_muldiv(hz, 1, sr) < sr * FX_ONE,
    ensures
        spec_phase_next(phase, hz, sr) - phase == spec_muldiv(hz, 1, sr),
{
    let a = phase + spec_muldiv(hz, 1, sr);
    let b = sr * FX_ONE;
    assert(spec_add(phase, spec_muldiv(hz, 1, sr)) == a);
    if a >= 0 {
        vstd::arithmetic::div_mod::lemma_small_mod(a as nat, b as nat);
    } else {
        vstd::arithmetic::div_mod::lemma_small_mod((-a) as nat, b as nat);
    }
}

/// Advance and wrap a phase accumulator.
pub fn phase_next(phase: i64, hz: i64, sr: i64) -> (r: i64)
    requires
        1 <= sr <= SR_MAX,
    ensures
        r as int == spec_phase_next(phase as int, hz as int, sr as int),
{
    let dp = fx_muldiv(hz, 1, sr);
    let p = fx_add(phase, dp);
    fx_trem(p, sr * FX_ONE)
}

/// A sine oscillator.
pub struct SineOsc {
    pub hz: In,
    pub amp: In,
    pub phase: i64,
}

/// What a sine oscillator outputs: amplitude times the sine waveform at
/// the fractional phase.
pub open spec fn spec_sine_out(o: SineOsc, tags: Seq<u64>, outs: Seq<i64>) -> int {
    spec_mul(spec_resolve(tags, outs, o.amp), spec_sine(spec_frac(o.phase as int)))
}

impl SineOsc {
    /// A sine oscillator at the given frequency, amplitude one, phase zero.
    pub fn new(hz: In) -> (r: SineOsc)
        ensures
            r.hz == hz,
            r.amp == (In::Fix(FX_ONE)),
            r.phase == 0,
    {
        SineOsc { hz, amp: In::Fix(FX_ONE), phase: 0 }
    }

    /// Produce one sample, then advance the phase.
    pub fn step(&mut self, tags: &Vec<u64>, outs: &Vec<i64>, sr: i64) -> (out: i64)
        requires
            tags@.len() == outs@.len(),
            distinct_tags(tags@),
            1 <= sr <= SR_MAX,
        ensures
            out as int == spec_sine_out(*old(self), tags@, outs@),
            final(self).hz == old(self).hz,
            final(self).amp == old(self).amp,
            final(self).phase as int == spec_phase_next(
                old(self).phase as int,
                spec_resolve(tags@, outs@, old(self).hz),
                sr as int,
            ),
    {
        let amp = resolve(tags, outs, self.amp);
        let hz = resolve(tags, outs, self.hz);
        let out = fx_mul(amp, sine_of_frac(fx_frac(self.phase)));
        self.phase = phase_next(self.phase, hz, sr);
        out
    }
}

/// A square oscillator with a duty-cycle binding.
pub struct SquareOsc {
    pub hz: In,
    pub amp: In,
    pub duty: In,
    pub phase: i64,
}

/// What a square oscillator outputs: zero in the guard band right after
/// the rising edge, the amplitude while the fractional phase is within the
/// duty cycle, and the negated amplitude after it.
pub open spec fn spec_square_out(o: SquareOsc, tags: Seq<u64>, outs: Seq<i64>) -> int {
    let amp = spec_resolve(tags, outs, o.amp);
    let duty = spec_resolve(tags, outs, o.duty);
    let t = spec_frac(o.phase as int);
    if t < EDGE_GUARD {
        0
    } else if t <= duty {
        amp
    } else {
        sat(-amp)
    }
}

impl SquareOsc {
    /// A square oscillator at the given frequency: amplitude one, duty
    /// cycle one half, phase zero.
    pub fn new(hz: In) -> (r: SquareOsc)
        ensures
            r.hz == hz,
            r.amp == (In::Fix(FX_ONE)),
            r.duty == (In::Fix(FX_HALF)),
            r.phase == 0,
    {
        SquareOsc { hz, amp: In::Fix(FX_ONE), duty: In::Fix(FX_HALF), phase: 0 }
    }

    /// Produce one sample, then advance the phase.
    pub fn step(&mut self, tags: &Vec<u64>, outs: &Vec<i64>, sr: i64) -> (out: i64)
        requires
            tags@.len() == outs@.len(),
            distinct_tags(tags@),
            1 <= sr <= SR_MAX,
        ensures
            out as int == spec_square_out(*old(self), tags@, outs@),
            final(self).hz == old(self).hz,
            final(self).amp == old(self).amp,
            final(self).duty == old(self).duty,
            final(self).phase as int == spec_phase_next(
                old(self).phase as int,
                spec_resolve(tags@, outs@, old(self).hz),
                sr as int,
            ),
    {
        let amp = resolve(tags, outs, self.amp);
        let duty = resolve(tags, outs, self.duty);
        let hz = resolve(tags, outs, self.hz);
        let t = fx_frac(self.phase);
        let out = if t < EDGE_GUARD {
            0
        } else if t <= duty {
            amp
        } else {
            fx_neg(amp)
        };
        self.phase = phase_next(self.phase, hz, sr);
        out
    }
}

/// A ramp (rising sawtooth) oscillator.
pub struct RampOsc {
    pub hz: In,
    pub amp: In,
    pub phase: i64,
}

/// What a ramp oscillator outputs: `amplitude * 2 * (phase - floor(0.5 + phase))`,
/// a line rising from minus one half-amplitude-cycle through zero.
pub open spec fn spec_ramp_out(o: RampOsc, tags: Seq<u64>, outs: Seq<i64>) -> int {
    let amp = spec_resolve(tags, outs, o.amp);
    let u = spec_frac(spec_add(o.phase as int, FX_HALF as int));
    spec_mul(amp, 2 * (u - FX_HALF))
}

impl RampOsc {
    /// A ramp oscillator at the given frequency, amplitude one, phase zero.
    pub fn new(hz: In) -> (r: RampOsc)
        ensures
            r.hz == hz,
            r.amp == (In::Fix(FX_ONE)),
            r.phase == 0,
    {
        RampOsc { hz, amp: In::Fix(FX_ONE), phase: 0 }
    }

    /// Produce one sample, then advance the phase.
    pub fn step(&mut self, tags: &Vec<u64>, outs: &Vec<i64>, sr: i64) -> (out: i64)
        requires
            tags@.len() == outs@.len(),
            distinct_tags(tags@),
            1 <= sr <= SR_MAX,
        ensures
            out as int == spec_ramp_out(*old(self), tags@, outs@),
            final(self).hz == old(self).hz,
            final(self).amp == old(self).amp,
            final(self).phase as int == spec_phase_next(
                old(self).phase as int,
                spec_resolve(tags@, outs@, old(self).hz),
                sr as int,
            ),
    {
        let amp = resolve(tags, outs, self.amp);
        let hz = resolve(tags, outs, self.hz);
        let u = fx_frac(fx_add(self.phase, FX_HALF));
        let out = fx_mul(amp, 2 * (u - FX_HALF));
        self.phase = phase_next(self.phase, hz, sr);
        out
    }
}

/// A sawtooth oscillator (falling ramp), with a guard band at the jump.
pub struct SawOsc {
    pub hz: In,
    pub amp: In,
    pub phase: i64,
}

/// What a saw oscillator outputs.  With `t = phase - 0.5` the waveform is
/// `s = -t - floor(0.5 - t)`, which equals the fractional part of the
/// negated phase less one half; output is zero in the guard band right
/// below the jump, else `amplitude * 2 * s`.
pub open spec fn spec_saw_out(o: SawOsc, tags: Seq<u64>, outs: Seq<i64>) -> int {
    let amp = spec_resolve(tags, outs, o.amp);
    let s = spec_frac(sat(-(o.phase as int))) - FX_HALF;
    if s < -(FX_HALF - EDGE_GUARD) {
        0
    } else {
        spec_mul(amp, 2 * s)
    }
}

impl SawOsc {
    /// A saw oscillator at the given frequency, amplitude one, phase zero.
    pub fn new(hz: In) -> (r: SawOsc)
        ensures
            r.hz == hz,
            r.amp == (In::Fix(FX_ONE)),
            r.phase == 0,
    {
        SawOsc { hz, amp: In::Fix(FX_ONE), phase: 0 }
    }

    /// Produce one sample, then advance the phase.
    pub fn step(&mut self, tags: &Vec<u64>, outs: &Vec<i64>, sr: i64) -> (out: i64)
        requires
            tags@.len() == outs@.len(),
            distinct_tags(tags@),
            1 <= sr <= SR_MAX,
        ensures
            out as int == spec_saw_out(*old(self), tags@, outs@),
            final(self).hz == old(self).hz,
            final(self).amp == old(self).amp,
            final(self).phase as int == spec_phase_next(
                old(self).phase as int,
                spec_resolve(tags@, outs@, old(self).hz),
                sr as int,
            ),
    {
        let amp = resolve(tags, outs, self.amp);
        let hz = resolve(tags, outs, self.hz);
        let s = fx_frac(fx_neg(self.phase)) - FX_HALF;
        let out = if s < -(FX_HALF - EDGE_GUARD) {
            0
        } else {
            fx_mul(amp, 2 * s)
        };
        self.phase = phase_next(self.phase, hz, sr);
        out
    }
}

/// A triangle oscillator.
pub struct TriangleOsc {
    pub hz: In,
    pub amp: In,
    pub phase: i64,
}

/// What a triangle oscillator outputs.  With `t = phase - 0.75` the
/// intermediate saw is `2 * (-t - floor(0.5 - t))`, which equals twice the
/// fractional part of `0.25 - phase` less one; output is twice its
/// magnitude less the amplitude.
pub open spec fn spec_triangle_out(o: TriangleOsc, tags: Seq<u64>, outs: Seq<i64>) -> int {
    let amp = spec_resolve(tags, outs, o.amp);
    let f = spec_frac(spec_sub(FX_QUARTER as int, o.phase as int));
    let saw = 2 * (f - FX_HALF);
    spec_sub(2 * abs_int(saw), amp)
}

impl TriangleOsc {
    /// A triangle oscillator at the given frequency, amplitude one, phase zero.
    pub fn new(hz: In) -> (r: TriangleOsc)
        ensures
            r.hz == hz,
            r.amp == (In::Fix(FX_ONE)),
            r.phase == 0,
    {
        TriangleOsc { hz, amp: In::Fix(FX_ONE), phase: 0 }
    }

    /// Produce one sample, then advance the phase.
    pub fn step(&mut self, tags: &Vec<u64>, outs: &Vec<i64>, sr: i64) -> (out: i64)
        requires
            tags@.len() == outs@.len(),
            distinct_tags(tags@),
            1 <= sr <= SR_MAX,
        ensures
            out as int == spec_triangle_out(*old(self), tags@, outs@),
            final(self).hz == old(self).hz,
            final(self).amp == old(self).amp,
            final(self).phase as int == spec_phase_next(
                old(self).phase as int,
                spec_resolve(tags@, outs@, old(self).hz),
                sr as int,
            ),
    {
        let amp = resolve(tags, outs, self.amp);
        let hz = resolve(tags, outs, self.hz);
        let f = fx_frac(fx_sub(FX_QUARTER, self.phase));
        let saw = 2 * (f - FX_HALF);
        let mag = if saw >= 0 { saw } else { -saw };
        let out = fx_sub(2 * mag, amp);
        self.phase = phase_next(self.phase, hz, sr);
        out
    }
}

/// The multiplier of the noise generator's linear congruence.
pub const LCG_MUL: u64 = 6364136223846793005;

/// The increment of the noise generator's linear congruence.
pub const LCG_INC: u64 = 1442695040888963407;

/// One step of the noise generator's linear congruence.
pub open spec fn spec_lcg(s: u64) -> u64 {
    vstd::wrapping::u64_specs::wrapping_add(
        vstd::wrapping::u64_specs::wrapping_mul(s, LCG_MUL),
        LCG_INC,
    )
}

/// The uniform value in `[-FX_ONE, FX_ONE]` drawn from a generator state.
pub open spec fn spec_noise_val(s: u64) -> int {
    ((s >> 40) as int) % (2 * FX_ONE + 1) - FX_ONE
}

/// A white-noise generator: uniform samples in `[-amplitude, amplitude]`,
/// no phase state.  The generator is a deterministic linear congruence, so
/// a graph that contains noise still evaluates reproducibly from equal
/// starting states.
pub struct WhiteNoise {
    pub amp: In,
    pub state: u64,
}

/// What a noise generator outputs for a given state.
pub open spec fn spec_noise_out(o: WhiteNoise, tags: Seq<u64>, outs: Seq<i64>) -> int {
    spec_mul(spec_resolve(tags, outs, o.amp), spec_noise_val(spec_lcg(o.state)))
}

impl WhiteNoise {
    /// A noise generator with amplitude one and the given seed.
    pub fn new(seed: u64) -> (r: WhiteNoise)
        ensures
            r.amp == (In::Fix(FX_ONE)),
            r.state == seed,
    {
        WhiteNoise { amp: In::Fix(FX_ONE), state: seed }
    }

    /// Draw one sample, advancing the generator state.
    pub fn step(&mut self, tags: &Vec<u64>, outs: &Vec<i64>) -> (out: i64)
        requires
            tags@.len() == outs@.len(),
            distinct_tags(tags@),
        ensures
            out as int == spec_noise_out(*old(self), tags@, outs@),
            final(self).amp == old(self).amp,
            final(self).state == spec_lcg(old(self).state),
    {
        let amp = resolve(tags, outs, self.amp);
        let s = self.state.wrapping_mul(LCG_MUL).wrapping_add(LCG_INC);
        self.state = s;
        proof {
            assert(s >> 40 < 0x100_0000) by (bit_vector);
        }
        let bits = (s >> 40) as i64;
        let v = bits % (2 * FX_ONE + 1) - FX_ONE;
        fx_mul(amp, v)
    }
}

/// The weighted sum of the first `n` partials of a Fourier oscillator:
/// each partial is a sine at its own phase, scaled by its coefficient.
pub open spec fn spec_fourier_sum(coeffs: Seq<i64>, phases: Seq<i64>, n: int) -> int
    recommends
        coeffs.len() == phases.len(),
        0 <= n <= coeffs.len(),
    decreases n,
{
    if n <= 0 {
        0
    } else {
        spec_add(
            spec_fourier_sum(coeffs, phases, n - 1),
            spec_mul(coeffs[n - 1] as int, spec_sine(spec_frac(phases[n - 1] as int))),
        )
    }
}

/// An additive (Fourier) oscillator: a bank of harmonically related sine
/// partials with fixed coefficients.  Partial `n` runs at `n` times the
/// base frequency; partial zero is a constant-zero fundamental slot.
pub struct FourierOsc {
    pub hz: i64,
    pub volume: i64,
    pub coeffs: Vec<i64>,
    pub phases: Vec<i64>,
}

/// The mathematical state of a Fourier oscillator.
pub struct FourierV {
    pub hz: i64,
    pub volume: i64,
    pub coeffs: Seq<i64>,
    pub phases: Seq<i64>,
}

impl View for FourierOsc {
    type V = FourierV;

    open spec fn view(&self) -> FourierV {
        FourierV { hz: self.hz, volume: self.volume, coeffs: self.coeffs@, phases: self.phases@ }
    }
}

/// The most partials a Fourier oscillator will hold.
pub const FOURIER_MAX: usize = 4096;

/// A Fourier oscillator is well formed when it has one phase accumulator
/// per coefficient, and a bounded bank of partials.
pub open spec fn fourier_wf(o: FourierV) -> bool {
    o.coeffs.len() == o.phases.len() && o.coeffs.len() <= FOURIER_MAX
}

/// What a Fourier oscillator outputs: the volume times the partial sum.
pub open spec fn spec_fourier_out(o: FourierV) -> int {
    spec_mul(o.volume as int, spec_fourier_sum(o.coeffs, o.phases, o.coeffs.len() as int))
}

/// A Fourier oscillator after one sample: each partial's phase advanced
/// at its multiple of the base frequency.
pub open spec fn spec_fourier_next(o: FourierV, sr: int) -> FourierV {
    FourierV {
        phases: Seq::new(
            o.phases.len(),
            |i: int| spec_phase_next(o.phases[i] as int, sat(i * o.hz), sr) as i64,
        ),
        ..o
    }
}

impl FourierOsc {
    /// A Fourier oscillator over the given coefficients, at the given base
    /// frequency, volume one, all phases zero.
    pub fn new(coefficients: Vec<i64>, hz: i64) -> (r: FourierOsc)
        requires
            coefficients@.len() <= FOURIER_MAX,
        ensures
            r.hz == hz,
            r.volume == FX_ONE,
            r.coeffs@ == coefficients@,
            r.phases@.len() == coefficients@.len(),
            forall|i: int| 0 <= i < r.phases@.len() ==> r.phases@[i] == 0,
            fourier_wf(r@),
    {
        let n = coefficients.len();
        let phases: Vec<i64> = vec![0i64; n];
        FourierOsc { hz, volume: FX_ONE, coeffs: coefficients, phases }
    }

    /// Change the base frequency; every partial follows at its multiple.
    pub fn set_hz(&mut self, hz: i64)
        ensures
            final(self).hz == hz,
            final(self).volume == old(self).volume,
            final(self).coeffs == old(self).coeffs,
            final(self).phases == old(self).phases,
    {
        self.hz = hz;
    }

    /// Change the overall volume.
    pub fn set_volume(&mut self, volume: i64)
        ensures
            final(self).volume == volume,
            final(self).hz == old(self).hz,
            final(self).coeffs == old(self).coeffs,
            final(self).phases == old(self).phases,
    {
        self.volume = volume;
    }

    /// Produce one sample, then advance every partial's phase, partial `n`
    /// at `n` times the base frequency.
    pub fn step(&mut self, sr: i64) -> (out: i64)
        requires
            fourier_wf(old(self)@),
            1 <= sr <= SR_MAX,
        ensures
            out as int == spec_fourier_out(old(self)@),
            final(self).hz == old(self).hz,
            final(self).volume == old(self).volume,
            final(self).coeffs == old(self).coeffs,
            fourier_wf(final(self)@),
            final(self)@ == spec_fourier_next(old(self)@, sr as int),
    {
        let ghost orig = *self;
        let n = self.coeffs.len();
        let mut acc: i64 = 0;
        let mut i: usize = 0;
        while i < n
            invariant
                fourier_wf(orig@),
                n == orig.coeffs@.len(),
                i <= n,
                *self == orig,
                acc as int == spec_fourier_sum(orig.coeffs@, orig.phases@, i as int),
            decreases n - i,
        {
            let term = fx_mul(self.coeffs[i], sine_of_frac(fx_frac(self.phases[i])));
            acc = fx_add(acc, term);
            i = i + 1;
        }
        let out = fx_mul(self.volume, acc);
        let mut k: usize = 0;
        while k < n
            invariant
                n == orig.coeffs@.len(),
                fourier_wf(orig@),
                k <= n,
                self.hz == orig.hz,
                self.volume == orig.volume,
                self.coeffs == orig.coeffs,
                self.phases@.len() == orig.phases@.len(),
                1 <= sr <= SR_MAX,
                forall|j: int|
                    0 <= j < k ==> self.phases@[j] as int == spec_phase_next(
                        orig.phases@[j] as int,
                        sat(j * orig.hz),
                        sr as int,
                    ),
                forall|j: int| k <= j < n ==> self.phases@[j] == orig.phases@[j],
            decreases n - k,
        {
            let nhz = fx_scale(k as i64, self.hz);
            self.phases[k] = phase_next(self.phases[k], nhz, sr);
            k = k + 1;
        }
        proof {
            assert(self@.phases =~= spec_fourier_next(orig@, sr as int).phases);
        }
        out
    }
}

/// Coefficients of a band-limited square wave: odd harmonic `i` at weight
/// `1 / i`, even harmonics absent.
pub open spec fn spec_square_coeff(i: int) -> int {
    if i % 2 == 1 {
        (FX_ONE as int) / i
    } else {
        0
    }
}

/// A band-limited square wave with `n + 1` partials at the given base
/// frequency: odd harmonic `i` carries weight `1 / i`.
pub fn square_wave(n: u32, hz: i64) -> (r: FourierOsc)
    requires
        n < 1000,
    ensures
        r.hz == hz,
        r.volume == FX_ONE,
        fourier_wf(r@),
        r.coeffs@.len() == n + 1,
        forall|i: int| 0 <= i <= n ==> r.coeffs@[i] as int == spec_square_coeff(i),
        forall|i: int| 0 <= i <= n ==> r.phases@[i] == 0,
{
    let mut coefficients: Vec<i64> = Vec::new();
    let mut i: u32 = 0;
    while i <= n
        invariant
            n < 1000,
            i <= n + 1,
            coefficients@.len() == i,
            forall|j: int| 0 <= j < i ==> coefficients@[j] as int == spec_square_coeff(j),
        decreases n + 1 - i,
    {
        if i % 2 == 1 {
            coefficients.push(FX_ONE / i as i64);
        } else {
            coefficients.push(0);
        }
        i = i + 1;
    }
    FourierOsc::new(coefficients, hz)
}

/// Coefficients of a band-limited triangle wave: odd harmonic `i` at
/// weight `1 / i^2`, the sign alternating between odd harmonics.
pub open spec fn spec_triangle_coeff(i: int) -> int {
    if i % 2 == 1 {
        if i % 4 == 1 {
            -((FX_ONE as int) / (i * i))
        } else {
            (FX_ONE as int) / (i * i)
        }
    } else {
        0
    }
}

/// A band-limited triangle wave with `n + 1` partials at the given base
/// frequency: odd harmonic `i` carries weight `1 / i^2`, signs alternating.
pub fn triangle_wave(n: u32, hz: i64) -> (r: FourierOsc)
    requires
        n < 1000,
    ensures
        r.hz == hz,
        r.volume == FX_ONE,
        fourier_wf(r@),
        r.coeffs@.len() == n + 1,
        forall|i: int| 0 <= i <= n ==> r.coeffs@[i] as int == spec_triangle_coeff(i),
        forall|i: int| 0 <= i <= n ==> r.phases@[i] == 0,
{
    let mut coefficients: Vec<i64> = Vec::new();
    let mut i: u32 = 0;
    while i <= n
        invariant
            n < 1000,
            i <= n + 1,
            coefficients@.len() == i,
            forall|j: int| 0 <= j < i ==> coefficients@[j] as int == spec_triangle_coeff(j),
        decreases n + 1 - i,
    {
        if i % 2 == 1 {
            proof {
                assert(1 <= i as int * i as int <= 1000000) by (nonlinear_arith)
                    requires
                        1 <= i <= 1000,
                ;
            }
            let sq = i as i64 * i as i64;
            if i % 4 == 1 {
                coefficients.push(-(FX_ONE / sq));
            } else {
                coefficients.push(FX_ONE / sq);
            }
        } else {
            coefficients.push(0);
        }
        i = i + 1;
    }
    FourierOsc::new(coefficients, hz)
}

} // verus!
