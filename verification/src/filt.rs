//! Filters: the Schroeder comb and all-pass sections that the
//! reverberator is built from, and the biquad tone filters.
//!
//! The comb filter delays its input through a circular buffer and feeds
//! the delayed sample back, low-pass damped and scaled by a feedback
//! coefficient.  The all-pass section is the classic construction whose
//! output is the delayed sample minus the input while the buffer records
//! the input plus the scaled delayed sample.
//!
//! The biquad filters recompute their coefficients only when a resolved
//! parameter changes, from the engine's piecewise-parabola sine and
//! cosine; the tone filter blends low-pass against high-pass responses by
//! a knob in `[0, 1]` and passes its input through unchanged while
//! inactive.

use vstd::prelude::*;

use crate::fx::{
    abs_int, fx_add, fx_clamp, fx_mul, fx_muldiv, fx_neg, fx_sub, sat, spec_add, spec_clamp,
    spec_mul, spec_muldiv, spec_sub, tdiv, FX_HALF, FX_ONE,
};
use crate::osc::{sine_of_frac, spec_sine, FX_QUARTER, SR_MAX};
use crate::sig::{distinct_tags, lookup_out, resolve, spec_lookup, spec_resolve, In, Tag};

verus! {

/// A comb filter: delay buffer, feedback coefficient, and a one-pole
/// damping low-pass in the feedback path.
pub struct Comb {
    pub wave: Tag,
    pub buf: Vec<i64>,
    pub pos: usize,
    pub feedback: i64,
    pub damping: i64,
    pub filter_state: i64,
}

/// The mathematical state of a comb filter.
pub struct CombV {
    pub wave: u64,
    pub buf: Seq<i64>,
    pub pos: int,
    pub feedback: i64,
    pub damping: i64,
    pub filter_state: i64,
}

impl View for Comb {
    type V = CombV;

    open spec fn view(&self) -> CombV {
        CombV {
            wave: self.wave,
            buf: self.buf@,
            pos: self.pos as int,
            feedback: self.feedback,
            damping: self.damping,
            filter_state: self.filter_state,
        }
    }
}

/// A comb filter is well formed when its buffer is nonempty and its
/// position lies inside it.
pub open spec fn comb_wf(v: CombV) -> bool {
    1 <= v.buf.len() <= crate::delay::DELAY_MAX && 0 <= v.pos < v.buf.len()
}

/// What a comb filter outputs: the delayed sample at the read position.
pub open spec fn spec_comb_out(v: CombV) -> int {
    v.buf[v.pos] as int
}

/// The damping filter's next state: the delayed sample low-passed into it.
pub open spec fn spec_comb_damped(v: CombV) -> int {
    spec_add(
        spec_mul(spec_comb_out(v), spec_sub(FX_ONE as int, v.damping as int)),
        spec_mul(v.filter_state as int, v.damping as int),
    )
}

/// A comb filter after one sample fed with `x`: the buffer slot just read
/// receives the input plus the damped, feedback-scaled delayed sample.
pub open spec fn spec_comb_next(v: CombV, x: int) -> CombV {
    let fs = spec_comb_damped(v);
    let written = spec_add(x, spec_mul(fs, v.feedback as int)) as i64;
    CombV {
        buf: v.buf.update(v.pos, written),
        pos: (v.pos + 1) % (v.buf.len() as int),
        filter_state: fs as i64,
        ..v
    }
}

impl Comb {
    /// A comb filter reading the given node through a buffer of the given
    /// length, initially silent, with no feedback or damping set.
    pub fn new(wave: Tag, len: usize) -> (r: Comb)
        requires
            1 <= len <= crate::delay::DELAY_MAX,
        ensures
            r@.wave == wave,
            r@.buf == Seq::new(len as nat, |i: int| 0i64),
            r@.pos == 0,
            r@.feedback == 0,
            r@.damping == 0,
            r@.filter_state == 0,
            comb_wf(r@),
    {
        let buf: Vec<i64> = vec![0i64; len];
        proof {
            assert(buf@ =~= Seq::new(len as nat, |i: int| 0i64));
        }
        Comb { wave, buf, pos: 0, feedback: 0, damping: 0, filter_state: 0 }
    }

    /// Replace the feedback coefficient.
    pub fn set_feedback(&mut self, feedback: i64)
        ensures
            final(self)@ == (CombV { feedback, ..old(self)@ }),
    {
        self.feedback = feedback;
    }

    /// Replace the damping coefficient.
    pub fn set_damping(&mut self, damping: i64)
        ensures
            final(self)@ == (CombV { damping, ..old(self)@ }),
    {
        self.damping = damping;
    }

    /// Produce the delayed sample and absorb the input `x`.
    pub fn step_with(&mut self, x: i64) -> (out: i64)
        requires
            comb_wf(old(self)@),
        ensures
            out as int == spec_comb_out(old(self)@),
            final(self)@ == spec_comb_next(old(self)@, x as int),
            comb_wf(final(self)@),
    {
        let out = self.buf[self.pos];
        let fs = fx_add(
            fx_mul(out, fx_sub(FX_ONE, self.damping)),
            fx_mul(self.filter_state, self.damping),
        );
        self.filter_state = fs;
        let written = fx_add(x, fx_mul(fs, self.feedback));
        self.buf[self.pos] = written;
        self.pos = (self.pos + 1) % self.buf.len();
        proof {
            assert(self@.buf =~= spec_comb_next(old(self)@, x as int).buf);
        }
        out
    }

    /// Produce the delayed sample, reading the input from the graph.
    pub fn step(&mut self, tags: &Vec<u64>, outs: &Vec<i64>) -> (out: i64)
        requires
            tags@.len() == outs@.len(),
            distinct_tags(tags@),
            comb_wf(old(self)@),
        ensures
            out as int == spec_comb_out(old(self)@),
            final(self)@ == spec_comb_next(
                old(self)@,
                spec_lookup(tags@, outs@, old(self)@.wave),
            ),
            comb_wf(final(self)@),
    {
        let x = lookup_out(tags, outs, self.wave);
        self.step_with(x)
    }
}

/// An all-pass filter: a delay buffer and a feedback coefficient.
pub struct AllPass {
    pub wave: Tag,
    pub buf: Vec<i64>,
    pub pos: usize,
    pub feedback: i64,
}

/// The mathematical state of an all-pass filter.
pub struct AllPassV {
    pub wave: u64,
    pub buf: Seq<i64>,
    pub pos: int,
    pub feedback: i64,
}

impl View for AllPass {
    type V = AllPassV;

    open spec fn view(&self) -> AllPassV {
        AllPassV {
            wave: self.wave,
            buf: self.buf@,
            pos: self.pos as int,
            feedback: self.feedback,
        }
    }
}

/// An all-pass filter is well formed when its buffer is nonempty and its
/// position lies inside it.
pub open spec fn allpass_wf(v: AllPassV) -> bool {
    1 <= v.buf.len() <= crate::delay::DELAY_MAX && 0 <= v.pos < v.buf.len()
}

/// What an all-pass filter outputs for input `x`: the delayed sample
/// minus the input.
pub open spec fn spec_allpass_out(v: AllPassV, x: int) -> int {
    spec_sub(v.buf[v.pos] as int, x)
}

/// An all-pass filter after one sample fed with `x`: the buffer records
/// the input plus the scaled delayed sample.
pub open spec fn spec_allpass_next(v: AllPassV, x: int) -> AllPassV {
    let written = spec_add(x, spec_mul(v.buf[v.pos] as int, v.feedback as int)) as i64;
    AllPassV {
        buf: v.buf.update(v.pos, written),
        pos: (v.pos + 1) % (v.buf.len() as int),
        ..v
    }
}

impl AllPass {
    /// An all-pass filter reading the given node through a buffer of the
    /// given length, initially silent.
    pub fn new(wave: Tag, len: usize) -> (r: AllPass)
        requires
            1 <= len <= crate::delay::DELAY_MAX,
        ensures
            r@.wave == wave,
            r@.buf == Seq::new(len as nat, |i: int| 0i64),
            r@.pos == 0,
            r@.feedback == 0,
            allpass_wf(r@),
    {
        let buf: Vec<i64> = vec![0i64; len];
        proof {
            assert(buf@ =~= Seq::new(len as nat, |i: int| 0i64));
        }
        AllPass { wave, buf, pos: 0, feedback: 0 }
    }

    /// Replace the feedback coefficient.
    pub fn set_feedback(&mut self, feedback: i64)
        ensures
            final(self)@ == (AllPassV { feedback, ..old(self)@ }),
    {
        self.feedback = feedback;
    }

    /// Produce the all-passed sample and absorb the input `x`.
    pub fn step_with(&mut self, x: i64) -> (out: i64)
        requires
            allpass_wf(old(self)@),
        ensures
            out as int == spec_allpass_out(old(self)@, x as int),
            final(self)@ == spec_allpass_next(old(self)@, x as int),
            allpass_wf(final(self)@),
    {
        let delayed = self.buf[self.pos];
        let out = fx_sub(delayed, x);
        let written = fx_add(x, fx_mul(delayed, self.feedback));
        self.buf[self.pos] = written;
        self.pos = (self.pos + 1) % self.buf.len();
        proof {
            assert(self@.buf =~= spec_allpass_next(old(self)@, x as int).buf);
        }
        out
    }

    /// Produce the all-passed sample, reading the input from the graph.
    pub fn step(&mut self, tags: &Vec<u64>, outs: &Vec<i64>) -> (out: i64)
        requires
            tags@.len() == outs@.len(),
            distinct_tags(tags@),
            allpass_wf(old(self)@),
        ensures
            out as int == spec_allpass_out(
                old(self)@,
                spec_lookup(tags@, outs@, old(self)@.wave),
            ),
            final(self)@ == spec_allpass_next(
                old(self)@,
                spec_lookup(tags@, outs@, old(self)@.wave),
            ),
            allpass_wf(final(self)@),
    {
        let x = lookup_out(tags, outs, self.wave);
        self.step_with(x)
    }
}

/// A comb filter's state after `k` undriven steps: fed silence each
/// sample, running on its own stored energy.
pub open spec fn spec_comb_run(v: CombV, k: int) -> CombV
    recommends
        0 <= k,
    decreases k,
{
    if k <= 0 {
        v
    } else {
        spec_comb_next(spec_comb_run(v, k - 1), 0)
    }
}

/// One frozen, undriven step: with feedback one and damping zero, the
/// delayed sample is written back exactly as it was, so the buffer is
/// unchanged and only the read position moves.
pub proof fn lemma_comb_freeze_step(v: CombV)
    requires
        comb_wf(v),
        v.feedback == FX_ONE,
        v.damping == 0,
    ensures
        spec_comb_next(v, 0).buf == v.buf,
        spec_comb_next(v, 0).pos == (v.pos + 1) % (v.buf.len() as int),
        spec_comb_next(v, 0).feedback == v.feedback,
        spec_comb_next(v, 0).damping == v.damping,
        comb_wf(spec_comb_next(v, 0)),
{
    let out = spec_comb_out(v);
    assert(spec_mul(out, FX_ONE as int) == out) by {
        if out >= 0 {
            vstd::arithmetic::div_mod::lemma_div_by_multiple(out, FX_ONE as int);
        } else {
            vstd::arithmetic::div_mod::lemma_div_by_multiple(-out, FX_ONE as int);
        }
    }
    assert(spec_comb_damped(v) == out);
    assert(spec_comb_next(v, 0).buf =~= v.buf);
}

/// Freeze sustains the stored energy: a frozen comb fed silence keeps its
/// buffer bit-for-bit forever, and its output cycles through the samples
/// that were stored at freeze time — the magnitude present then never
/// decays, however long the run.
pub proof fn lemma_comb_freeze_sustains(v: CombV, k: int)
    requires
        comb_wf(v),
        v.feedback == FX_ONE,
        v.damping == 0,
        0 <= k,
    ensures
        spec_comb_run(v, k).buf == v.buf,
        spec_comb_run(v, k).pos == (v.pos + k) % (v.buf.len() as int),
        spec_comb_run(v, k).feedback == v.feedback,
        spec_comb_run(v, k).damping == v.damping,
        comb_wf(spec_comb_run(v, k)),
        spec_comb_out(spec_comb_run(v, k)) == v.buf[(v.pos + k) % (v.buf.len() as int)],
    decreases k,
{
    let n = v.buf.len() as int;
    if k <= 0 {
        vstd::arithmetic::div_mod::lemma_small_mod(v.pos as nat, n as nat);
    } else {
        lemma_comb_freeze_sustains(v, k - 1);
        lemma_comb_freeze_step(spec_comb_run(v, k - 1));
        crate::delay::lemma_pos_advances(v.pos + k - 1, n);
    }
}

/// An undamped comb below unit feedback loses energy: each undriven step
/// writes back a sample strictly smaller in magnitude than the delayed
/// sample it came from, until silence.
pub proof fn lemma_comb_decay_step(v: CombV)
    requires
        comb_wf(v),
        0 <= v.feedback < FX_ONE,
        v.damping == 0,
    ensures
        abs_int(spec_comb_next(v, 0).buf[v.pos] as int) <= abs_int(spec_comb_out(v)),
        abs_int(spec_comb_out(v)) >= 1 ==> abs_int(spec_comb_next(v, 0).buf[v.pos] as int)
            < abs_int(spec_comb_out(v)),
        spec_comb_out(v) == 0 ==> spec_comb_next(v, 0).buf[v.pos] == 0,
{
    let out = spec_comb_out(v);
    let a = abs_int(out);
    let fb = v.feedback as int;
    assert(spec_mul(out, FX_ONE as int) == out) by {
        if out >= 0 {
            vstd::arithmetic::div_mod::lemma_div_by_multiple(out, FX_ONE as int);
        } else {
            vstd::arithmetic::div_mod::lemma_div_by_multiple(-out, FX_ONE as int);
        }
    }
    assert(spec_comb_damped(v) == out);
    let w = spec_mul(out, fb);
    let q = (a * fb) / (FX_ONE as int);
    assert(a * fb >= 0 && a * fb <= a * (FX_ONE - 1)) by (nonlinear_arith)
        requires
            0 <= a,
            0 <= fb <= FX_ONE - 1,
    ;
    vstd::arithmetic::div_mod::lemma_div_pos_is_pos(a * fb, FX_ONE as int);
    if a >= 1 {
        assert(a * (FX_ONE - 1) <= a * FX_ONE - 1) by (nonlinear_arith)
            requires
                1 <= a,
        ;
        vstd::arithmetic::div_mod::lemma_div_is_ordered(a * fb, a * FX_ONE - 1, FX_ONE as int);
        assert((FX_ONE as int) * (a - 1) + (FX_ONE - 1) == a * FX_ONE - 1) by (nonlinear_arith);
        vstd::arithmetic::div_mod::lemma_div_multiples_vanish_fancy(
            a - 1,
            FX_ONE - 1,
            FX_ONE as int,
        );
        assert(q <= a - 1);
    }
    assert(out >= 0 ==> out * fb == a * fb) by (nonlinear_arith)
        requires
            0 <= fb,
            a == abs_int(out),
    ;
    assert(out < 0 ==> out * fb == -(a * fb)) by (nonlinear_arith)
        requires
            0 <= fb,
            a == abs_int(out),
    ;
    assert(w == sat(if out >= 0 { q } else { -q }));
    assert(spec_comb_next(v, 0).buf[v.pos] == (spec_add(0, w) as i64));
}

proof fn lemma_div_superadd(a: int, b: int, d: int)
    requires
        0 <= a,
        0 <= b,
        0 < d,
    ensures
        a / d + b / d <= (a + b) / d,
{
    let qa = a / d;
    let qb = b / d;
    let ra = a % d;
    let rb = b % d;
    vstd::arithmetic::div_mod::lemma_fundamental_div_mod(a, d);
    vstd::arithmetic::div_mod::lemma_fundamental_div_mod(b, d);
    assert(a + b == d * (qa + qb) + (ra + rb)) by (nonlinear_arith)
        requires
            a == d * qa + ra,
            b == d * qb + rb,
    ;
    if ra + rb < d {
        vstd::arithmetic::div_mod::lemma_div_multiples_vanish_fancy(qa + qb, ra + rb, d);
    } else {
        assert(a + b == d * (qa + qb + 1) + (ra + rb - d)) by (nonlinear_arith)
            requires
                a + b == d * (qa + qb) + (ra + rb),
        ;
        vstd::arithmetic::div_mod::lemma_div_multiples_vanish_fancy(qa + qb + 1, ra + rb - d, d);
    }
}

proof fn lemma_mul_frac_le(a: int, b: int, m: int)
    requires
        abs_int(a) <= m,
        0 <= b <= FX_ONE,
    ensures
        abs_int(spec_mul(a, b)) <= (m * b) / (FX_ONE as int),
        (m * b) / (FX_ONE as int) <= m,
{
    let p = a * b;
    assert(abs_int(p) == abs_int(a) * b && abs_int(a) * b <= m * b && m * b <= m * FX_ONE)
        by (nonlinear_arith)
        requires
            abs_int(a) <= m,
            0 <= b <= FX_ONE,
            p == a * b,
            abs_int(a) == if a >= 0 { a } else { -a },
            abs_int(p) == if p >= 0 { p } else { -p },
    ;
    vstd::arithmetic::div_mod::lemma_div_is_ordered(abs_int(p), m * b, FX_ONE as int);
    vstd::arithmetic::div_mod::lemma_div_is_ordered(m * b, m * FX_ONE, FX_ONE as int);
    vstd::arithmetic::div_mod::lemma_div_by_multiple(m, FX_ONE as int);
    vstd::arithmetic::div_mod::lemma_div_pos_is_pos(abs_int(p), FX_ONE as int);
}

/// An undriven comb below unit feedback never gains energy, damped or
/// not: when every stored sample and the damping state lie within a
/// magnitude bound, they still do after a silent step, and the sample
/// written back stays strictly below any positive bound while feedback is
/// below one.
pub proof fn lemma_comb_energy_bounded(v: CombV, m: int)
    requires
        comb_wf(v),
        0 <= v.feedback <= FX_ONE,
        0 <= v.damping <= FX_ONE,
        0 <= m,
        forall|i: int| 0 <= i < v.buf.len() ==> abs_int(#[trigger] v.buf[i] as int) <= m,
        abs_int(v.filter_state as int) <= m,
    ensures
        forall|i: int|
            0 <= i < v.buf.len() ==> abs_int(
                #[trigger] spec_comb_next(v, 0).buf[i] as int,
            ) <= m,
        abs_int(spec_comb_next(v, 0).filter_state as int) <= m,
        m >= 1 && v.feedback < FX_ONE ==> abs_int(spec_comb_next(v, 0).buf[v.pos] as int) < m,
{
    let one = FX_ONE as int;
    let d = v.damping as int;
    let fb = v.feedback as int;
    let out = spec_comb_out(v);
    let t1 = spec_mul(out, spec_sub(one, d));
    let t2 = spec_mul(v.filter_state as int, d);
    lemma_mul_frac_le(out, one - d, m);
    lemma_mul_frac_le(v.filter_state as int, d, m);
    lemma_div_superadd(m * (one - d), m * d, one);
    assert(m * (one - d) + m * d == m * one) by (nonlinear_arith);
    assert(m * (one - d) >= 0 && m * d >= 0) by (nonlinear_arith)
        requires
            0 <= m,
            0 <= d <= one,
    ;
    vstd::arithmetic::div_mod::lemma_div_by_multiple(m, one);
    let fs = spec_comb_damped(v);
    assert(abs_int(fs) <= m);
    let w = spec_mul(fs, fb);
    lemma_mul_frac_le(fs, fb, m);
    if m >= 1 && fb < one {
        assert(m * fb <= m * (one - 1) && m * (one - 1) <= m * one - 1) by (nonlinear_arith)
            requires
                1 <= m,
                0 <= fb <= one - 1,
        ;
        vstd::arithmetic::div_mod::lemma_div_is_ordered(m * fb, m * one - 1, one);
        assert(one * (m - 1) + (one - 1) == m * one - 1) by (nonlinear_arith);
        vstd::arithmetic::div_mod::lemma_div_multiples_vanish_fancy(m - 1, one - 1, one);
        assert((m * fb) / one <= m - 1);
    }
    assert(spec_comb_next(v, 0).buf[v.pos] as int == spec_add(0, w));
}

/// The energy bound persists over any undriven run: a comb at or below
/// unit feedback, damped or not, never exceeds the magnitude bound it
/// started under, however many silent samples pass.
pub proof fn lemma_comb_energy_bounded_run(v: CombV, m: int, k: int)
    requires
        comb_wf(v),
        0 <= v.feedback <= FX_ONE,
        0 <= v.damping <= FX_ONE,
        0 <= m,
        forall|i: int| 0 <= i < v.buf.len() ==> abs_int(#[trigger] v.buf[i] as int) <= m,
        abs_int(v.filter_state as int) <= m,
        0 <= k,
    ensures
        comb_wf(spec_comb_run(v, k)),
        spec_comb_run(v, k).feedback == v.feedback,
        spec_comb_run(v, k).damping == v.damping,
        spec_comb_run(v, k).buf.len() == v.buf.len(),
        forall|i: int|
            0 <= i < v.buf.len() ==> abs_int(#[trigger] spec_comb_run(v, k).buf[i] as int) <= m,
        abs_int(spec_comb_run(v, k).filter_state as int) <= m,
    decreases k,
{
    if k > 0 {
        lemma_comb_energy_bounded_run(v, m, k - 1);
        let p = spec_comb_run(v, k - 1);
        lemma_comb_energy_bounded(p, m);
        assert(spec_comb_run(v, k) == spec_comb_next(p, 0));
        assert(spec_comb_next(p, 0).buf.len() == p.buf.len());
    }
}

/// The lowest quality factor the biquads accept.
pub const Q_MIN: i64 = 10_000;

/// The highest quality factor the biquads accept.
pub const Q_MAX: i64 = 1_000_000_000;

/// The highest cutoff, as a fraction of the sample rate, the biquads
/// accept: just under the half-rate limit.
pub const W_MAX: i64 = 499_000;

/// The cap on the biquad's bandwidth term.
pub const ALPHA_MAX: i64 = 100_000_000;

/// The cosine waveform on a cycle fraction: the sine a quarter cycle on.
pub open spec fn spec_cosine(w: int) -> int
    recommends
        0 <= w < FX_ONE,
{
    spec_sine((w + FX_QUARTER) % (FX_ONE as int))
}

/// Evaluate the cosine waveform on a cycle fraction.
pub fn cosine_of_frac(w: i64) -> (r: i64)
    requires
        0 <= w < FX_ONE,
    ensures
        r as int == spec_cosine(w as int),
{
    let s = if w + FX_QUARTER >= FX_ONE {
        w + FX_QUARTER - FX_ONE
    } else {
        w + FX_QUARTER
    };
    sine_of_frac(s)
}

/// The cutoff binding turned into a clamped fraction of the sample rate.
pub open spec fn spec_cut_frac(cut: int, sr: int) -> int {
    spec_clamp(spec_muldiv(cut, 1, sr), 0, W_MAX as int)
}

/// The quality binding clamped to the accepted band.
pub open spec fn spec_q_clamped(q: int) -> int {
    spec_clamp(q, Q_MIN as int, Q_MAX as int)
}

/// The biquad bandwidth term for cutoff fraction `w` and quality `q`:
/// `sin(w) / (2 q)`, clamped nonnegative and capped.
pub open spec fn spec_alpha(w: int, q: int) -> int
    recommends
        0 <= w <= W_MAX,
        Q_MIN <= q <= Q_MAX,
{
    spec_clamp(spec_muldiv(spec_sine(w), FX_ONE as int, 2 * q), 0, ALPHA_MAX as int)
}

/// The normalized low-pass biquad coefficients `(b0, b1, b2, a1, a2)` for
/// cutoff fraction `w` and quality `q`.
pub open spec fn spec_lp_coeffs(w: int, q: int) -> (int, int, int, int, int)
    recommends
        0 <= w <= W_MAX,
        Q_MIN <= q <= Q_MAX,
{
    let cw = spec_cosine(w);
    let alpha = spec_alpha(w, q);
    let a0 = FX_ONE + alpha;
    (
        spec_muldiv(spec_sub(FX_ONE as int, cw), FX_ONE as int, 2 * a0),
        spec_muldiv(spec_sub(FX_ONE as int, cw), FX_ONE as int, a0),
        spec_muldiv(spec_sub(FX_ONE as int, cw), FX_ONE as int, 2 * a0),
        spec_muldiv(-2 * cw, FX_ONE as int, a0),
        spec_muldiv(spec_sub(FX_ONE as int, alpha), FX_ONE as int, a0),
    )
}

/// The normalized high-pass biquad coefficients `(b0, b1, b2, a1, a2)`.
pub open spec fn spec_hp_coeffs(w: int, q: int) -> (int, int, int, int, int)
    recommends
        0 <= w <= W_MAX,
        Q_MIN <= q <= Q_MAX,
{
    let cw = spec_cosine(w);
    let alpha = spec_alpha(w, q);
    let a0 = FX_ONE + alpha;
    (
        spec_muldiv(spec_add(FX_ONE as int, cw), FX_ONE as int, 2 * a0),
        sat(-spec_muldiv(spec_add(FX_ONE as int, cw), FX_ONE as int, a0)),
        spec_muldiv(spec_add(FX_ONE as int, cw), FX_ONE as int, 2 * a0),
        spec_muldiv(-2 * cw, FX_ONE as int, a0),
        spec_muldiv(spec_sub(FX_ONE as int, alpha), FX_ONE as int, a0),
    )
}

/// Compute the clamped bandwidth term.
fn alpha_of(w: i64, q: i64) -> (r: i64)
    requires
        0 <= w <= W_MAX,
        Q_MIN <= q <= Q_MAX,
    ensures
        r as int == spec_alpha(w as int, q as int),
        0 <= r <= ALPHA_MAX,
{
    fx_clamp(fx_muldiv(sine_of_frac(w), FX_ONE, 2 * q), 0, ALPHA_MAX)
}

/// Compute the cosine of a cutoff fraction, with its range bound.
fn cosine_bounded(w: i64) -> (cw: i64)
    requires
        0 <= w <= W_MAX,
    ensures
        cw as int == spec_cosine(w as int),
        -FX_ONE <= cw <= FX_ONE,
{
    proof {
        crate::osc::lemma_sine_range((w + FX_QUARTER) % (FX_ONE as int));
    }
    cosine_of_frac(w)
}

/// Compute the normalized low-pass coefficients.
fn lp_coeffs(w: i64, q: i64) -> (c: (i64, i64, i64, i64, i64))
    requires
        0 <= w <= W_MAX,
        Q_MIN <= q <= Q_MAX,
    ensures
        (c.0 as int, c.1 as int, c.2 as int, c.3 as int, c.4 as int) == spec_lp_coeffs(
            w as int,
            q as int,
        ),
{
    let cw = cosine_bounded(w);
    let alpha = alpha_of(w, q);
    let a0 = FX_ONE + alpha;
    let b0 = fx_muldiv(fx_sub(FX_ONE, cw), FX_ONE, 2 * a0);
    let b1 = fx_muldiv(fx_sub(FX_ONE, cw), FX_ONE, a0);
    let a1 = fx_muldiv(-2 * cw, FX_ONE, a0);
    let a2 = fx_muldiv(fx_sub(FX_ONE, alpha), FX_ONE, a0);
    (b0, b1, b0, a1, a2)
}

/// Compute the normalized high-pass coefficients.
fn hp_coeffs(w: i64, q: i64) -> (c: (i64, i64, i64, i64, i64))
    requires
        0 <= w <= W_MAX,
        Q_MIN <= q <= Q_MAX,
    ensures
        (c.0 as int, c.1 as int, c.2 as int, c.3 as int, c.4 as int) == spec_hp_coeffs(
            w as int,
            q as int,
        ),
{
    let cw = cosine_bounded(w);
    let alpha = alpha_of(w, q);
    let a0 = FX_ONE + alpha;
    let b0 = fx_muldiv(fx_add(FX_ONE, cw), FX_ONE, 2 * a0);
    let b1 = fx_neg(fx_muldiv(fx_add(FX_ONE, cw), FX_ONE, a0));
    let a1 = fx_muldiv(-2 * cw, FX_ONE, a0);
    let a2 = fx_muldiv(fx_sub(FX_ONE, alpha), FX_ONE, a0);
    (b0, b1, b0, a1, a2)
}

/// The biquad recursion: `b0 x + b1 x1 + b2 x2 - a1 y1 - a2 y2` over the
/// filter's history samples.
pub open spec fn spec_biquad_recur(
    b0: int,
    b1: int,
    b2: int,
    a1: int,
    a2: int,
    x: int,
    x1: int,
    x2: int,
    y1: int,
    y2: int,
) -> int {
    spec_sub(
        spec_sub(
            spec_add(spec_add(spec_mul(b0, x), spec_mul(b1, x1)), spec_mul(b2, x2)),
            spec_mul(a1, y1),
        ),
        spec_mul(a2, y2),
    )
}

/// Evaluate the biquad recursion.
fn biquad_recur(
    b0: i64,
    b1: i64,
    b2: i64,
    a1: i64,
    a2: i64,
    x: i64,
    x1: i64,
    x2: i64,
    y1: i64,
    y2: i64,
) -> (y: i64)
    ensures
        y as int == spec_biquad_recur(
            b0 as int,
            b1 as int,
            b2 as int,
            a1 as int,
            a2 as int,
            x as int,
            x1 as int,
            x2 as int,
            y1 as int,
            y2 as int,
        ),
{
    fx_sub(
        fx_sub(
            fx_add(fx_add(fx_mul(b0, x), fx_mul(b1, x1)), fx_mul(b2, x2)),
            fx_mul(a1, y1),
        ),
        fx_mul(a2, y2),
    )
}

/// A low-pass biquad filter node with cutoff and quality bindings.
/// Coefficients are recomputed only when a resolved parameter changes.
pub struct Lpf {
    pub wave: Tag,
    pub cutoff: In,
    pub q: In,
    pub c_cut: i64,
    pub c_q: i64,
    pub b0: i64,
    pub b1: i64,
    pub b2: i64,
    pub a1: i64,
    pub a2: i64,
    pub x1: i64,
    pub x2: i64,
    pub y1: i64,
    pub y2: i64,
}

/// The low-pass filter's parameters and coefficients once this sample's
/// resolved cutoff and quality have been taken into account.
pub open spec fn spec_lpf_tuned(f: Lpf, tags: Seq<u64>, outs: Seq<i64>, sr: int) -> Lpf {
    let w = spec_cut_frac(spec_resolve(tags, outs, f.cutoff), sr);
    let q = spec_q_clamped(spec_resolve(tags, outs, f.q));
    if w == f.c_cut && q == f.c_q {
        f
    } else {
        let c = spec_lp_coeffs(w, q);
        Lpf {
            c_cut: w as i64,
            c_q: q as i64,
            b0: c.0 as i64,
            b1: c.1 as i64,
            b2: c.2 as i64,
            a1: c.3 as i64,
            a2: c.4 as i64,
            ..f
        }
    }
}

/// What a low-pass filter outputs for input `x`: the biquad recursion
/// over its tuned coefficients and history.
pub open spec fn spec_lpf_out_with(f: Lpf, x: int, tags: Seq<u64>, outs: Seq<i64>, sr: int) -> int {
    let t = spec_lpf_tuned(f, tags, outs, sr);
    spec_biquad_recur(
        t.b0 as int,
        t.b1 as int,
        t.b2 as int,
        t.a1 as int,
        t.a2 as int,
        x,
        t.x1 as int,
        t.x2 as int,
        t.y1 as int,
        t.y2 as int,
    )
}

/// A low-pass filter after one sample fed with `x`: tuned coefficients,
/// history shifted by the incoming sample and the produced output.
pub open spec fn spec_lpf_next_with(f: Lpf, x: int, tags: Seq<u64>, outs: Seq<i64>, sr: int) -> Lpf {
    let t = spec_lpf_tuned(f, tags, outs, sr);
    let y = spec_lpf_out_with(f, x, tags, outs, sr) as i64;
    Lpf { x1: x as i64, x2: t.x1, y1: y, y2: t.y1, ..t }
}

/// What a low-pass filter outputs against the graph.
pub open spec fn spec_lpf_out(f: Lpf, tags: Seq<u64>, outs: Seq<i64>, sr: int) -> int {
    spec_lpf_out_with(f, spec_lookup(tags, outs, f.wave), tags, outs, sr)
}

/// A low-pass filter after one sample against the graph.
pub open spec fn spec_lpf_next(f: Lpf, tags: Seq<u64>, outs: Seq<i64>, sr: int) -> Lpf {
    spec_lpf_next_with(f, spec_lookup(tags, outs, f.wave), tags, outs, sr)
}

impl Lpf {
    /// A low-pass filter over the given node and cutoff binding, quality
    /// at its minimum, silent history; the first step tunes it.
    pub fn new(wave: Tag, cutoff: In) -> (r: Lpf)
        ensures
            r.wave == wave,
            r.cutoff == cutoff,
            r.q == (In::Fix(707_107i64)),
            r.c_cut == -1,
            r.c_q == -1,
            r.x1 == 0 && r.x2 == 0 && r.y1 == 0 && r.y2 == 0,
    {
        Lpf {
            wave,
            cutoff,
            q: In::Fix(707_107),
            c_cut: -1,
            c_q: -1,
            b0: 0,
            b1: 0,
            b2: 0,
            a1: 0,
            a2: 0,
            x1: 0,
            x2: 0,
            y1: 0,
            y2: 0,
        }
    }

    /// Replace the cutoff binding.
    pub fn set_cutoff(&mut self, cutoff: In)
        ensures
            *final(self) == (Lpf { cutoff, ..*old(self) }),
    {
        self.cutoff = cutoff;
    }

    /// Replace the quality binding.
    pub fn set_q(&mut self, q: In)
        ensures
            *final(self) == (Lpf { q, ..*old(self) }),
    {
        self.q = q;
    }

    /// Produce one low-passed sample from the given input.
    pub fn step_with(&mut self, x: i64, tags: &Vec<u64>, outs: &Vec<i64>, sr: i64) -> (out: i64)
        requires
            tags@.len() == outs@.len(),
            distinct_tags(tags@),
            1 <= sr <= SR_MAX,
        ensures
            out as int == spec_lpf_out_with(*old(self), x as int, tags@, outs@, sr as int),
            *final(self) == spec_lpf_next_with(*old(self), x as int, tags@, outs@, sr as int),
    {
        let w = fx_clamp(fx_muldiv(resolve(tags, outs, self.cutoff), 1, sr), 0, W_MAX);
        let q = fx_clamp(resolve(tags, outs, self.q), Q_MIN, Q_MAX);
        if !(w == self.c_cut && q == self.c_q) {
            let c = lp_coeffs(w, q);
            self.c_cut = w;
            self.c_q = q;
            self.b0 = c.0;
            self.b1 = c.1;
            self.b2 = c.2;
            self.a1 = c.3;
            self.a2 = c.4;
        }
        let y = biquad_recur(
            self.b0,
            self.b1,
            self.b2,
            self.a1,
            self.a2,
            x,
            self.x1,
            self.x2,
            self.y1,
            self.y2,
        );
        self.x2 = self.x1;
        self.x1 = x;
        self.y2 = self.y1;
        self.y1 = y;
        y
    }

    /// Produce one low-passed sample, reading the input from the graph.
    pub fn step(&mut self, tags: &Vec<u64>, outs: &Vec<i64>, sr: i64) -> (out: i64)
        requires
            tags@.len() == outs@.len(),
            distinct_tags(tags@),
            1 <= sr <= SR_MAX,
        ensures
            out as int == spec_lpf_out(*old(self), tags@, outs@, sr as int),
            *final(self) == spec_lpf_next(*old(self), tags@, outs@, sr as int),
    {
        let x = lookup_out(tags, outs, self.wave);
        self.step_with(x, tags, outs, sr)
    }
}

/// The tone filter: a biquad blending low-pass against high-pass response
/// by a knob in `[0, 1]`, with an activity switch.  While inactive it
/// passes its input through unchanged.
pub struct BiquadFilter {
    pub wave: Tag,
    pub cutoff: In,
    pub q: In,
    pub knob: In,
    pub active: bool,
    pub c_cut: i64,
    pub c_q: i64,
    pub c_knob: i64,
    pub b0: i64,
    pub b1: i64,
    pub b2: i64,
    pub a1: i64,
    pub a2: i64,
    pub x1: i64,
    pub x2: i64,
    pub y1: i64,
    pub y2: i64,
}

/// The blended coefficients for cutoff fraction `w`, quality `q` and
/// blend knob `t`: each low-pass coefficient weighted by the knob plus
/// the high-pass one weighted by its complement.
pub open spec fn spec_blend_coeffs(w: int, q: int, t: int) -> (int, int, int, int, int)
    recommends
        0 <= w <= W_MAX,
        Q_MIN <= q <= Q_MAX,
        0 <= t <= FX_ONE,
{
    let lp = spec_lp_coeffs(w, q);
    let hp = spec_hp_coeffs(w, q);
    let u = spec_sub(FX_ONE as int, t);
    (
        spec_add(spec_mul(t, lp.0), spec_mul(u, hp.0)),
        spec_add(spec_mul(t, lp.1), spec_mul(u, hp.1)),
        spec_add(spec_mul(t, lp.2), spec_mul(u, hp.2)),
        lp.3,
        lp.4,
    )
}

/// Compute the blended coefficients.
fn blend_coeffs(w: i64, q: i64, t: i64) -> (c: (i64, i64, i64, i64, i64))
    requires
        0 <= w <= W_MAX,
        Q_MIN <= q <= Q_MAX,
        0 <= t <= FX_ONE,
    ensures
        (c.0 as int, c.1 as int, c.2 as int, c.3 as int, c.4 as int) == spec_blend_coeffs(
            w as int,
            q as int,
            t as int,
        ),
{
    let lp = lp_coeffs(w, q);
    let hp = hp_coeffs(w, q);
    let u = fx_sub(FX_ONE, t);
    (
        fx_add(fx_mul(t, lp.0), fx_mul(u, hp.0)),
        fx_add(fx_mul(t, lp.1), fx_mul(u, hp.1)),
        fx_add(fx_mul(t, lp.2), fx_mul(u, hp.2)),
        lp.3,
        lp.4,
    )
}

/// The tone filter's parameters and coefficients once this sample's
/// resolved cutoff, quality and knob have been taken into account.
pub open spec fn spec_biquad_tuned(
    f: BiquadFilter,
    tags: Seq<u64>,
    outs: Seq<i64>,
    sr: int,
) -> BiquadFilter {
    let w = spec_cut_frac(spec_resolve(tags, outs, f.cutoff), sr);
    let q = spec_q_clamped(spec_resolve(tags, outs, f.q));
    let t = spec_clamp(spec_resolve(tags, outs, f.knob), 0, FX_ONE as int);
    if w == f.c_cut && q == f.c_q && t == f.c_knob {
        f
    } else {
        let c = spec_blend_coeffs(w, q, t);
        BiquadFilter {
            c_cut: w as i64,
            c_q: q as i64,
            c_knob: t as i64,
            b0: c.0 as i64,
            b1: c.1 as i64,
            b2: c.2 as i64,
            a1: c.3 as i64,
            a2: c.4 as i64,
            ..f
        }
    }
}

/// What the tone filter outputs: its input unchanged while inactive, else
/// the biquad recursion over its tuned blended coefficients.
pub open spec fn spec_biquad_out(f: BiquadFilter, tags: Seq<u64>, outs: Seq<i64>, sr: int) -> int {
    let x = spec_lookup(tags, outs, f.wave);
    if !f.active {
        x
    } else {
        let t = spec_biquad_tuned(f, tags, outs, sr);
        spec_biquad_recur(
            t.b0 as int,
            t.b1 as int,
            t.b2 as int,
            t.a1 as int,
            t.a2 as int,
            x,
            t.x1 as int,
            t.x2 as int,
            t.y1 as int,
            t.y2 as int,
        )
    }
}

/// The tone filter after one sample.  While inactive nothing changes;
/// else the coefficients are tuned and the history shifts.
pub open spec fn spec_biquad_next(
    f: BiquadFilter,
    tags: Seq<u64>,
    outs: Seq<i64>,
    sr: int,
) -> BiquadFilter {
    if !f.active {
        f
    } else {
        let t = spec_biquad_tuned(f, tags, outs, sr);
        let x = spec_lookup(tags, outs, f.wave) as i64;
        let y = spec_biquad_out(f, tags, outs, sr) as i64;
        BiquadFilter { x1: x, x2: t.x1, y1: y, y2: t.y1, ..t }
    }
}

impl BiquadFilter {
    /// A tone filter over the given node and bindings, active, silent
    /// history; the first step tunes it.
    pub fn new(wave: Tag, cutoff: In, q: In, knob: In) -> (r: BiquadFilter)
        ensures
            r.wave == wave,
            r.cutoff == cutoff,
            r.q == q,
            r.knob == knob,
            r.active == true,
            r.c_cut == -1,
            r.c_q == -1,
            r.c_knob == -1,
            r.x1 == 0 && r.x2 == 0 && r.y1 == 0 && r.y2 == 0,
    {
        BiquadFilter {
            wave,
            cutoff,
            q,
            knob,
            active: true,
            c_cut: -1,
            c_q: -1,
            c_knob: -1,
            b0: 0,
            b1: 0,
            b2: 0,
            a1: 0,
            a2: 0,
            x1: 0,
            x2: 0,
            y1: 0,
            y2: 0,
        }
    }

    /// Switch the filter into or out of pass-through.
    pub fn set_active(&mut self, active: bool)
        ensures
            *final(self) == (BiquadFilter { active, ..*old(self) }),
    {
        self.active = active;
    }

    /// Replace the cutoff, quality and knob bindings at once.
    pub fn set_lphpf(&mut self, cutoff: In, q: In, knob: In)
        ensures
            *final(self) == (BiquadFilter { cutoff, q, knob, ..*old(self) }),
    {
        self.cutoff = cutoff;
        self.q = q;
        self.knob = knob;
    }

    /// Produce one filtered sample.
    pub fn step(&mut self, tags: &Vec<u64>, outs: &Vec<i64>, sr: i64) -> (out: i64)
        requires
            tags@.len() == outs@.len(),
            distinct_tags(tags@),
            1 <= sr <= SR_MAX,
        ensures
            out as int == spec_biquad_out(*old(self), tags@, outs@, sr as int),
            *final(self) == spec_biquad_next(*old(self), tags@, outs@, sr as int),
    {
        let x = lookup_out(tags, outs, self.wave);
        if !self.active {
            return x;
        }
        let w = fx_clamp(fx_muldiv(resolve(tags, outs, self.cutoff), 1, sr), 0, W_MAX);
        let q = fx_clamp(resolve(tags, outs, self.q), Q_MIN, Q_MAX);
        let t = fx_clamp(resolve(tags, outs, self.knob), 0, FX_ONE);
        if !(w == self.c_cut && q == self.c_q && t == self.c_knob) {
            let c = blend_coeffs(w, q, t);
            self.c_cut = w;
            self.c_q = q;
            self.c_knob = t;
            self.b0 = c.0;
            self.b1 = c.1;
            self.b2 = c.2;
            self.a1 = c.3;
            self.a2 = c.4;
        }
        let y = biquad_recur(
            self.b0,
            self.b1,
            self.b2,
            self.a1,
            self.a2,
            x,
            self.x1,
            self.x2,
            self.y1,
            self.y2,
        );
        self.x2 = self.x1;
        self.x1 = x;
        self.y2 = self.y1;
        self.y1 = y;
        y
    }
}

} // verus!
