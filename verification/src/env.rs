//! The envelope generator.
//!
//! `adsr_level` is the pure five-segment envelope curve: attack, decay,
//! timed sustain, release, then zero.  The `Adsr` node drives the same
//! attack and decay segments from its gate flag: for as long as a note is
//! held it keeps the sustain level; gate-off restarts the clock and releases
//! from the sustain level.  (Release timing is measured from gate-off; the
//! timed-sustain segment belongs to the pure curve, which needs no gate.)
//!
//! Every duration is clamped to a strictly positive minimum when it is
//! read, so the segment divisions can never divide by zero, whatever a
//! binding resolves to; durations are also capped far above any audible
//! value, so segment boundaries always add up without overflow.

use vstd::prelude::*;

use crate::fx::{
    fx_add, fx_muldiv, fx_sub, spec_add, spec_div, spec_muldiv, spec_sub, FX_ONE,
};
use crate::osc::SR_MAX;
use crate::sig::{distinct_tags, resolve, spec_resolve, In};

verus! {

/// The shortest duration a segment may have: one millisecond.
pub const DUR_MIN: i64 = 1_000;

/// The longest duration a segment may have.
pub const DUR_MAX: i64 = 1_000_000_000_000_000;

/// The value at which the envelope clock stops counting.
pub const TIME_MAX: i64 = 4_000_000_000_000_000_000;

/// A segment duration clamped to `[DUR_MIN, DUR_MAX]`.
pub open spec fn spec_dur(x: int) -> int {
    if x < DUR_MIN {
        DUR_MIN as int
    } else if x > DUR_MAX {
        DUR_MAX as int
    } else {
        x
    }
}

/// A sustain time clamped to `[0, DUR_MAX]`: it alone may be zero.
pub open spec fn spec_sus(x: int) -> int {
    if x < 0 {
        0
    } else if x > DUR_MAX {
        DUR_MAX as int
    } else {
        x
    }
}

/// Clamp a resolved duration to `[DUR_MIN, DUR_MAX]`.
pub fn dur_clamp(x: i64) -> (r: i64)
    ensures
        r as int == spec_dur(x as int),
        DUR_MIN <= r <= DUR_MAX,
{
    if x < DUR_MIN {
        DUR_MIN
    } else if x > DUR_MAX {
        DUR_MAX
    } else {
        x
    }
}

/// Clamp a resolved sustain time to `[0, DUR_MAX]`.
pub fn sus_clamp(x: i64) -> (r: i64)
    ensures
        r as int == spec_sus(x as int),
        0 <= r <= DUR_MAX,
{
    if x < 0 {
        0
    } else if x > DUR_MAX {
        DUR_MAX
    } else {
        x
    }
}

/// The five-segment envelope curve at time `t` since onset, with attack
/// `a`, decay `d`, sustain time `s`, sustain level `sl` and release `r`
/// (durations already clamped): rise to one, fall to the sustain level,
/// hold it, fall to zero, stay zero.
pub open spec fn spec_adsr_level(a: int, d: int, s: int, sl: int, r: int, t: int) -> int
    recommends
        0 < a && 0 < d && 0 <= s && 0 < r && 0 <= t,
{
    if t < a {
        spec_div(t, a)
    } else if t < a + d {
        spec_add(FX_ONE as int, spec_muldiv(t - a, spec_sub(sl, FX_ONE as int), d))
    } else if t < a + d + s {
        sl
    } else if t < a + d + s + r {
        spec_sub(sl, spec_muldiv(t - (a + d + s), sl, r))
    } else {
        0
    }
}

/// Evaluate the five-segment envelope curve; durations are clamped before
/// use.
pub fn adsr_level(a: i64, d: i64, s: i64, sl: i64, r: i64, t: i64) -> (level: i64)
    requires
        0 <= t <= TIME_MAX,
    ensures
        level as int == spec_adsr_level(
            spec_dur(a as int),
            spec_dur(d as int),
            spec_sus(s as int),
            sl as int,
            spec_dur(r as int),
            t as int,
        ),
{
    let a = dur_clamp(a);
    let d = dur_clamp(d);
    let s = sus_clamp(s);
    let r = dur_clamp(r);
    if t < a {
        fx_muldiv(t, FX_ONE, a)
    } else if t < a + d {
        fx_add(FX_ONE, fx_muldiv(t - a, fx_sub(sl, FX_ONE), d))
    } else if t < a + d + s {
        sl
    } else if t < a + d + s + r {
        fx_sub(sl, fx_muldiv(t - (a + d + s), sl, r))
    } else {
        0
    }
}

/// The envelope generator node: segment bindings, a running clock and a
/// gate flag.
pub struct Adsr {
    pub attack: In,
    pub decay: In,
    pub sustain_time: In,
    pub sustain_level: In,
    pub release: In,
    pub clock: i64,
    pub triggered: bool,
}

/// An envelope is well formed while its clock is a nonnegative time.
pub open spec fn adsr_wf(e: Adsr) -> bool {
    0 <= e.clock <= TIME_MAX
}

/// What the envelope node outputs.  For a held note: the attack and
/// decay segments, then the sustain level, kept.  After gate-off: the
/// release segment from the sustain level, measured from the moment the
/// gate fell, then zero.  The timed-sustain binding plays no part here; it
/// belongs to the pure curve.
pub open spec fn spec_adsr_out(e: Adsr, tags: Seq<u64>, outs: Seq<i64>) -> int {
    let a = spec_dur(spec_resolve(tags, outs, e.attack));
    let d = spec_dur(spec_resolve(tags, outs, e.decay));
    let r = spec_dur(spec_resolve(tags, outs, e.release));
    let sl = spec_resolve(tags, outs, e.sustain_level);
    let t = e.clock as int;
    if e.triggered {
        if t < a {
            spec_div(t, a)
        } else if t < a + d {
            spec_add(FX_ONE as int, spec_muldiv(t - a, spec_sub(sl, FX_ONE as int), d))
        } else {
            sl
        }
    } else {
        if t < r {
            spec_sub(sl, spec_muldiv(t, sl, r))
        } else {
            0
        }
    }
}

/// The envelope clock after one sample: advanced by `1 / sample_rate`
/// seconds, capped at the value where it stops counting.
pub open spec fn spec_clock_next(clock: int, sr: int) -> int
    recommends
        1 <= sr,
{
    let c = clock + spec_muldiv(FX_ONE as int, 1, sr);
    if c > TIME_MAX {
        TIME_MAX as int
    } else {
        c
    }
}

impl Adsr {
    /// An envelope with the given attack, decay, sustain level and release,
    /// no timed sustain, gate off, clock past every segment.
    pub fn new(attack: i64, decay: i64, sustain_level: i64, release: i64) -> (r: Adsr)
        ensures
            r.attack == (In::Fix(attack)),
            r.decay == (In::Fix(decay)),
            r.sustain_time == (In::Fix(0i64)),
            r.sustain_level == (In::Fix(sustain_level)),
            r.release == (In::Fix(release)),
            r.clock == TIME_MAX,
            r.triggered == false,
            adsr_wf(r),
    {
        Adsr {
            attack: In::Fix(attack),
            decay: In::Fix(decay),
            sustain_time: In::Fix(0),
            sustain_level: In::Fix(sustain_level),
            release: In::Fix(release),
            clock: TIME_MAX,
            triggered: false,
        }
    }

    /// Gate on: restart the clock and begin the attack segment.
    pub fn on(&mut self)
        ensures
            final(self).clock == 0,
            final(self).triggered == true,
            final(self).attack == old(self).attack,
            final(self).decay == old(self).decay,
            final(self).sustain_time == old(self).sustain_time,
            final(self).sustain_level == old(self).sustain_level,
            final(self).release == old(self).release,
            adsr_wf(*final(self)),
    {
        self.clock = 0;
        self.triggered = true;
    }

    /// Gate off: restart the clock and begin the release segment.
    pub fn off(&mut self)
        ensures
            final(self).clock == 0,
            final(self).triggered == false,
            final(self).attack == old(self).attack,
            final(self).decay == old(self).decay,
            final(self).sustain_time == old(self).sustain_time,
            final(self).sustain_level == old(self).sustain_level,
            final(self).release == old(self).release,
            adsr_wf(*final(self)),
    {
        self.clock = 0;
        self.triggered = false;
    }

    /// Produce one sample of the envelope, then advance the clock.
    pub fn step(&mut self, tags: &Vec<u64>, outs: &Vec<i64>, sr: i64) -> (out: i64)
        requires
            tags@.len() == outs@.len(),
            distinct_tags(tags@),
            1 <= sr <= SR_MAX,
            adsr_wf(*old(self)),
        ensures
            out as int == spec_adsr_out(*old(self), tags@, outs@),
            final(self).clock as int == spec_clock_next(old(self).clock as int, sr as int),
            final(self).triggered == old(self).triggered,
            final(self).attack == old(self).attack,
            final(self).decay == old(self).decay,
            final(self).sustain_time == old(self).sustain_time,
            final(self).sustain_level == old(self).sustain_level,
            final(self).release == old(self).release,
            adsr_wf(*final(self)),
    {
        let a = dur_clamp(resolve(tags, outs, self.attack));
        let d = dur_clamp(resolve(tags, outs, self.decay));
        let r = dur_clamp(resolve(tags, outs, self.release));
        let sl = resolve(tags, outs, self.sustain_level);
        let t = self.clock;
        let out = if self.triggered {
            if t < a {
                fx_muldiv(t, FX_ONE, a)
            } else if t < a + d {
                fx_add(FX_ONE, fx_muldiv(t - a, fx_sub(sl, FX_ONE), d))
            } else {
                sl
            }
        } else {
            if t < r {
                fx_sub(sl, fx_muldiv(t, sl, r))
            } else {
                0
            }
        };
        let dt = fx_muldiv(FX_ONE, 1, sr);
        let c = self.clock + dt;
        self.clock = if c > TIME_MAX {
            TIME_MAX
        } else {
            c
        };
        out
    }
}

} // verus!
