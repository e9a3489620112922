//! The fixed-length delay line.
//!
//! A circular buffer sized from a delay-time binding: the length in
//! samples is the delay time times the sample rate, rounded half up and
//! clamped to at least one sample.  When the resolved time changes, the
//! buffer is rebuilt at the new length, cleared to silence.  Each sample
//! the line reads the slot it is about to overwrite and then writes the
//! incoming sample there, so what goes in comes back out unchanged exactly
//! one buffer length later.

use vstd::prelude::*;

use crate::fx::{
    fx_add, fx_clamp, fx_muldiv, fx_scale, sat, spec_add, spec_clamp, spec_muldiv, FX_HALF,
    FX_ONE,
};
use crate::osc::SR_MAX;
use crate::sig::{distinct_tags, lookup_out, resolve, spec_lookup, spec_resolve, In, Tag};

verus! {

/// The most samples a delay buffer will hold.
pub const DELAY_MAX: i64 = 1_048_576;

/// The length in samples that a delay time calls for at a sample rate:
/// `round(delay_seconds * sample_rate)`, at least one sample, at most the
/// buffer cap.
pub open spec fn spec_delay_len(dt: int, sr: int) -> int {
    spec_clamp(
        spec_muldiv(spec_add(sat(dt * sr), FX_HALF as int), 1, FX_ONE as int),
        1,
        DELAY_MAX as int,
    )
}

/// Compute the buffer length a delay time calls for.
pub fn delay_len(dt: i64, sr: i64) -> (n: i64)
    requires
        1 <= sr <= SR_MAX,
    ensures
        n as int == spec_delay_len(dt as int, sr as int),
        1 <= n <= DELAY_MAX,
{
    let s = fx_add(fx_scale(dt, sr), FX_HALF);
    fx_clamp(fx_muldiv(s, 1, FX_ONE), 1, DELAY_MAX)
}

/// A delay line node.
pub struct DelayLine {
    pub wave: Tag,
    pub time: In,
    pub buf: Vec<i64>,
    pub pos: usize,
}

/// The mathematical state of a delay line.
pub struct DelayV {
    pub wave: u64,
    pub time: In,
    pub buf: Seq<i64>,
    pub pos: int,
}

impl View for DelayLine {
    type V = DelayV;

    open spec fn view(&self) -> DelayV {
        DelayV { wave: self.wave, time: self.time, buf: self.buf@, pos: self.pos as int }
    }
}

/// A delay line is well formed when its buffer is nonempty, capped, and
/// its write position lies inside it.
pub open spec fn delay_wf(v: DelayV) -> bool {
    1 <= v.buf.len() <= DELAY_MAX && 0 <= v.pos < v.buf.len()
}

/// The buffer a delay line works on this sample: its own, or a cleared
/// one at the new length when the resolved time calls for a resize.
pub open spec fn spec_delay_cur(v: DelayV, n: int) -> DelayV {
    if n == v.buf.len() {
        v
    } else {
        DelayV { buf: Seq::new(n as nat, |i: int| 0i64), pos: 0, ..v }
    }
}

/// What a delay line outputs for delay time `dt`: the oldest sample in
/// the buffer it works on.
pub open spec fn spec_delay_out_with(v: DelayV, dt: int, sr: int) -> int {
    let n = spec_delay_len(dt, sr);
    let c = spec_delay_cur(v, n);
    c.buf[c.pos] as int
}

/// A delay line after one sample fed with `x` at delay time `dt`: the
/// incoming sample overwrites the slot just read, and the position moves
/// on circularly.
pub open spec fn spec_delay_next_with(v: DelayV, x: int, dt: int, sr: int) -> DelayV {
    let n = spec_delay_len(dt, sr);
    let c = spec_delay_cur(v, n);
    DelayV { buf: c.buf.update(c.pos, x as i64), pos: (c.pos + 1) % n, ..c }
}

/// What a delay line outputs against the graph.
pub open spec fn spec_delay_out(v: DelayV, tags: Seq<u64>, outs: Seq<i64>, sr: int) -> int {
    spec_delay_out_with(v, spec_resolve(tags, outs, v.time), sr)
}

/// A delay line after one sample against the graph.
pub open spec fn spec_delay_next(v: DelayV, tags: Seq<u64>, outs: Seq<i64>, sr: int) -> DelayV {
    spec_delay_next_with(
        v,
        spec_lookup(tags, outs, v.wave),
        spec_resolve(tags, outs, v.time),
        sr,
    )
}

impl DelayLine {
    /// A delay line reading the given node, with the given time binding;
    /// one silent sample until the first step sizes the buffer.
    pub fn new(wave: Tag, time: In) -> (r: DelayLine)
        ensures
            r@.wave == wave,
            r@.time == time,
            r@.buf == Seq::new(1nat, |i: int| 0i64),
            r@.pos == 0,
            delay_wf(r@),
    {
        let buf: Vec<i64> = vec![0i64; 1];
        proof {
            assert(buf@ =~= Seq::new(1nat, |i: int| 0i64));
        }
        DelayLine { wave, time, buf, pos: 0 }
    }

    /// Replace the delay-time binding.
    pub fn set_time(&mut self, time: In)
        ensures
            final(self)@ == (DelayV { time, ..old(self)@ }),
    {
        self.time = time;
    }

    /// Produce the delayed sample and record the incoming one, with the
    /// input sample and delay time given directly.
    pub fn step_with(&mut self, x: i64, dt: i64, sr: i64) -> (out: i64)
        requires
            1 <= sr <= SR_MAX,
            delay_wf(old(self)@),
        ensures
            out as int == spec_delay_out_with(old(self)@, dt as int, sr as int),
            final(self)@ == spec_delay_next_with(old(self)@, x as int, dt as int, sr as int),
            delay_wf(final(self)@),
    {
        let n = delay_len(dt, sr);
        if n as usize != self.buf.len() {
            self.buf = vec![0i64; n as usize];
            self.pos = 0;
            proof {
                assert(self.buf@ =~= Seq::new(n as nat, |i: int| 0i64));
            }
        }
        let out = self.buf[self.pos];
        self.buf[self.pos] = x;
        self.pos = (self.pos + 1) % self.buf.len();
        proof {
            assert(self@.buf =~= spec_delay_next_with(
                old(self)@,
                x as int,
                dt as int,
                sr as int,
            ).buf);
        }
        out
    }

    /// Produce the delayed sample and record the incoming one, reading
    /// the input and delay time from the graph.
    pub fn step(&mut self, tags: &Vec<u64>, outs: &Vec<i64>, sr: i64) -> (out: i64)
        requires
            tags@.len() == outs@.len(),
            distinct_tags(tags@),
            1 <= sr <= SR_MAX,
            delay_wf(old(self)@),
        ensures
            out as int == spec_delay_out(old(self)@, tags@, outs@, sr as int),
            final(self)@ == spec_delay_next(old(self)@, tags@, outs@, sr as int),
            delay_wf(final(self)@),
    {
        let dt = resolve(tags, outs, self.time);
        let x = lookup_out(tags, outs, self.wave);
        self.step_with(x, dt, sr)
    }
}

/// The delay line's state after absorbing the first `k` samples of `xs`,
/// one per step, at a fixed delay time.
pub open spec fn spec_delay_run(v: DelayV, xs: Seq<i64>, dt: int, sr: int, k: int) -> DelayV
    recommends
        0 <= k <= xs.len(),
    decreases k,
{
    if k <= 0 {
        v
    } else {
        spec_delay_next_with(spec_delay_run(v, xs, dt, sr, k - 1), xs[k - 1] as int, dt, sr)
    }
}

pub(crate) proof fn lemma_slot_distinct(a: int, d: int, n: int)
    requires
        0 < n,
        0 < d < n,
    ensures
        (a + d) % n != a % n,
{
    let r = a % n;
    vstd::arithmetic::div_mod::lemma_mod_division_less_than_divisor(a, n);
    vstd::arithmetic::div_mod::lemma_add_mod_noop(a, d, n);
    vstd::arithmetic::div_mod::lemma_small_mod(d as nat, n as nat);
    if r + d < n {
        vstd::arithmetic::div_mod::lemma_small_mod((r + d) as nat, n as nat);
    } else {
        vstd::arithmetic::div_mod::lemma_mod_multiples_vanish(-1, r + d, n);
        vstd::arithmetic::div_mod::lemma_small_mod((r + d - n) as nat, n as nat);
    }
}

pub(crate) proof fn lemma_pos_advances(a: int, n: int)
    requires
        0 < n,
    ensures
        ((a % n) + 1) % n == (a + 1) % n,
{
    vstd::arithmetic::div_mod::lemma_add_mod_noop(a, 1, n);
    if n == 1 {
        vstd::arithmetic::div_mod::lemma_mod_division_less_than_divisor(a % n + 1, n);
        vstd::arithmetic::div_mod::lemma_mod_division_less_than_divisor(a + 1, n);
    } else {
        vstd::arithmetic::div_mod::lemma_small_mod(1nat, n as nat);
    }
}

/// After `k` steps at a fixed delay time that matches the buffer length,
/// the write position has advanced `k` slots circularly, and each of the
/// last `buf.len()` absorbed samples still sits in the slot it was
/// written to.
pub proof fn lemma_delay_run_state(v: DelayV, xs: Seq<i64>, dt: int, sr: int, k: int)
    requires
        delay_wf(v),
        v.buf.len() == spec_delay_len(dt, sr),
        0 <= k <= xs.len(),
    ensures
        spec_delay_run(v, xs, dt, sr, k).buf.len() == v.buf.len(),
        spec_delay_run(v, xs, dt, sr, k).pos == (v.pos + k) % (v.buf.len() as int),
        forall|m: int|
            #![trigger xs[m]]
            0 <= m < k && m >= k - v.buf.len() ==> spec_delay_run(v, xs, dt, sr, k).buf[(v.pos
                + m) % (v.buf.len() as int)] == xs[m],
    decreases k,
{
    let n = v.buf.len() as int;
    if k <= 0 {
        vstd::arithmetic::div_mod::lemma_small_mod(v.pos as nat, n as nat);
    } else {
        lemma_delay_run_state(v, xs, dt, sr, k - 1);
        let s0 = spec_delay_run(v, xs, dt, sr, k - 1);
        let s = spec_delay_run(v, xs, dt, sr, k);
        assert(s == spec_delay_next_with(s0, xs[k - 1] as int, dt, sr));
        assert(spec_delay_cur(s0, n) == s0);
        lemma_pos_advances(v.pos + k - 1, n);
        assert(s.pos == (v.pos + k) % n);
        assert forall|m: int|
            #![trigger xs[m]]
            0 <= m < k && m >= k - n implies s.buf[(v.pos + m) % n] == xs[m] by {
            vstd::arithmetic::div_mod::lemma_mod_division_less_than_divisor(v.pos + m, n);
            if m == k - 1 {
                assert(s.buf[(v.pos + m) % n] == xs[m]);
            } else {
                lemma_slot_distinct(v.pos + m, k - 1 - m, n);
                assert((v.pos + m) % n != (v.pos + k - 1) % n);
                assert(s.buf[(v.pos + m) % n] == s0.buf[(v.pos + m) % n]);
            }
        }
    }
}

/// Delay round-trip: a delay line whose buffer matches its delay time
/// returns, at step `k`, exactly the sample it absorbed at step
/// `k - buf.len()` — what goes in comes back out unchanged, one buffer
/// length later.
pub proof fn lemma_delay_round_trip(v: DelayV, xs: Seq<i64>, dt: int, sr: int, k: int)
    requires
        delay_wf(v),
        v.buf.len() == spec_delay_len(dt, sr),
        0 <= k < xs.len(),
        k >= v.buf.len(),
    ensures
        spec_delay_out_with(spec_delay_run(v, xs, dt, sr, k), dt, sr) == xs[k - v.buf.len()],
{
    let n = v.buf.len() as int;
    lemma_delay_run_state(v, xs, dt, sr, k);
    let s = spec_delay_run(v, xs, dt, sr, k);
    assert(spec_delay_cur(s, n) == s);
    vstd::arithmetic::div_mod::lemma_mod_multiples_vanish(-1, v.pos + k, n);
    assert((v.pos + (k - n)) % n == (v.pos + k) % n);
    assert(s.buf[(v.pos + (k - n)) % n] == xs[k - n]);
}

} // verus!
