//! Mixing and modulation operators, and the externally driven value nodes.
//!
//! These nodes are stateless: each sample they resolve their bindings
//! against the graph's cached outputs and combine them.  The mixer performs
//! no normalization of its own; callers that want levels to sum to one must
//! choose them so.

use vstd::prelude::*;

use crate::fx::{fx_add, fx_mul, fx_sub, spec_add, spec_mul, spec_sub, FX_HALF, FX_ONE};
use crate::sig::{distinct_tags, lookup_out, resolve, spec_lookup, spec_resolve, In, Tag};

verus! {

/// A link: a node whose output is a value set from outside the graph.
/// Composite nodes use one as the input terminal of a private graph.
pub struct Link {
    pub value: i64,
}

impl Link {
    /// A link holding zero.
    pub fn new() -> (r: Link)
        ensures
            r.value == 0,
    {
        Link { value: 0 }
    }

    /// Replace the held value.
    pub fn set_value(&mut self, value: i64)
        ensures
            final(self).value == value,
    {
        self.value = value;
    }

    /// A link outputs the value it holds.
    pub fn step(&self) -> (out: i64)
        ensures
            out == self.value,
    {
        self.value
    }
}

/// The weighted sum of the first `n` mixer inputs: each referenced node's
/// cached output scaled by its level binding.
pub open spec fn spec_mix_sum(
    waves: Seq<u64>,
    levels: Seq<In>,
    tags: Seq<u64>,
    outs: Seq<i64>,
    n: int,
) -> int
    recommends
        waves.len() == levels.len(),
        0 <= n <= waves.len(),
    decreases n,
{
    if n <= 0 {
        0
    } else {
        spec_add(
            spec_mix_sum(waves, levels, tags, outs, n - 1),
            spec_mul(
                spec_resolve(tags, outs, levels[n - 1]),
                spec_lookup(tags, outs, waves[n - 1]),
            ),
        )
    }
}

/// A mixer: a weighted sum of input bindings, scaled by an overall level.
pub struct Mixer {
    pub waves: Vec<Tag>,
    pub levels: Vec<In>,
    pub level: In,
}

/// The mathematical state of a mixer.
pub struct MixerV {
    pub waves: Seq<u64>,
    pub levels: Seq<In>,
    pub level: In,
}

impl View for Mixer {
    type V = MixerV;

    open spec fn view(&self) -> MixerV {
        MixerV { waves: self.waves@, levels: self.levels@, level: self.level }
    }
}

/// A mixer is well formed when it has one level binding per input.
pub open spec fn mixer_wf(m: MixerV) -> bool {
    m.waves.len() == m.levels.len()
}

/// What a mixer outputs: the overall level times the weighted sum of its
/// inputs' cached outputs.
pub open spec fn spec_mixer_out(m: MixerV, tags: Seq<u64>, outs: Seq<i64>) -> int {
    spec_mul(
        spec_resolve(tags, outs, m.level),
        spec_mix_sum(m.waves, m.levels, tags, outs, m.waves.len() as int),
    )
}

impl Mixer {
    /// A mixer over the given inputs, every weight one, overall level one.
    pub fn new(waves: Vec<Tag>) -> (r: Mixer)
        ensures
            r.waves@ == waves@,
            r.levels@.len() == waves@.len(),
            forall|i: int| 0 <= i < r.levels@.len() ==> r.levels@[i] == (In::Fix(FX_ONE)),
            r.level == (In::Fix(FX_ONE)),
            mixer_wf(r@),
    {
        let n = waves.len();
        let levels: Vec<In> = vec![In::Fix(FX_ONE); n];
        proof {
            assert(forall|i: int| 0 <= i < levels@.len() ==> levels@[i] == (In::Fix(FX_ONE)));
        }
        Mixer { waves, levels, level: In::Fix(FX_ONE) }
    }

    /// Replace the level binding of the `n`-th input.
    pub fn level_nth(&mut self, n: usize, level: In)
        requires
            n < old(self).levels@.len(),
        ensures
            final(self).levels@ == old(self).levels@.update(n as int, level),
            final(self).waves == old(self).waves,
            final(self).level == old(self).level,
    {
        self.levels[n] = level;
    }

    /// Compute the weighted sum of the current inputs.
    pub fn step(&self, tags: &Vec<u64>, outs: &Vec<i64>) -> (out: i64)
        requires
            tags@.len() == outs@.len(),
            distinct_tags(tags@),
            mixer_wf(self@),
        ensures
            out as int == spec_mixer_out(self@, tags@, outs@),
    {
        let n = self.waves.len();
        let mut acc: i64 = 0;
        let mut i: usize = 0;
        while i < n
            invariant
                tags@.len() == outs@.len(),
                distinct_tags(tags@),
                mixer_wf(self@),
                n == self.waves@.len(),
                i <= n,
                acc as int == spec_mix_sum(self.waves@, self.levels@, tags@, outs@, i as int),
            decreases n - i,
        {
            let w = lookup_out(tags, outs, self.waves[i]);
            let l = resolve(tags, outs, self.levels[i]);
            acc = fx_add(acc, fx_mul(l, w));
            i = i + 1;
        }
        fx_mul(resolve(tags, outs, self.level), acc)
    }
}

/// A two-way linear interpolation of two sources by a blend binding.
pub struct Lerp {
    pub wave1: Tag,
    pub wave2: Tag,
    pub alpha: In,
}

/// What a two-way interpolation outputs: `(1 - alpha) * a + alpha * b`.
pub open spec fn spec_lerp_out(l: Lerp, tags: Seq<u64>, outs: Seq<i64>) -> int {
    let alpha = spec_resolve(tags, outs, l.alpha);
    spec_add(
        spec_mul(spec_sub(FX_ONE as int, alpha), spec_lookup(tags, outs, l.wave1)),
        spec_mul(alpha, spec_lookup(tags, outs, l.wave2)),
    )
}

impl Lerp {
    /// An even blend of the two sources.
    pub fn new(wave1: Tag, wave2: Tag) -> (r: Lerp)
        ensures
            r.wave1 == wave1,
            r.wave2 == wave2,
            r.alpha == (In::Fix(FX_HALF)),
    {
        Lerp { wave1, wave2, alpha: In::Fix(FX_HALF) }
    }

    /// Compute the interpolation of the current inputs.
    pub fn step(&self, tags: &Vec<u64>, outs: &Vec<i64>) -> (out: i64)
        requires
            tags@.len() == outs@.len(),
            distinct_tags(tags@),
        ensures
            out as int == spec_lerp_out(*self, tags@, outs@),
    {
        let alpha = resolve(tags, outs, self.alpha);
        let a = lookup_out(tags, outs, self.wave1);
        let b = lookup_out(tags, outs, self.wave2);
        fx_add(fx_mul(fx_sub(FX_ONE, alpha), a), fx_mul(alpha, b))
    }
}

/// A three-way blend of three sources by one knob in `[0, 1]`, split into
/// two adjacent two-way interpolations.
pub struct Lerp3 {
    pub wave1: Tag,
    pub wave2: Tag,
    pub wave3: Tag,
    pub knob: In,
}

/// What a three-way blend outputs: for a knob at or below one half, the
/// first pair interpolated by twice the knob; above it, the second pair
/// interpolated by twice the knob less one.
pub open spec fn spec_lerp3_out(l: Lerp3, tags: Seq<u64>, outs: Seq<i64>) -> int {
    let k = spec_resolve(tags, outs, l.knob);
    let a = spec_lookup(tags, outs, l.wave1);
    let b = spec_lookup(tags, outs, l.wave2);
    let c = spec_lookup(tags, outs, l.wave3);
    if k <= FX_HALF {
        let alpha = spec_add(k, k);
        spec_add(spec_mul(spec_sub(FX_ONE as int, alpha), a), spec_mul(alpha, b))
    } else {
        let alpha = spec_sub(spec_add(k, k), FX_ONE as int);
        spec_add(spec_mul(spec_sub(FX_ONE as int, alpha), b), spec_mul(alpha, c))
    }
}

impl Lerp3 {
    /// A three-way blend with the knob centred.
    pub fn new(wave1: Tag, wave2: Tag, wave3: Tag, knob: In) -> (r: Lerp3)
        ensures
            r.wave1 == wave1,
            r.wave2 == wave2,
            r.wave3 == wave3,
            r.knob == knob,
    {
        Lerp3 { wave1, wave2, wave3, knob }
    }

    /// Replace the knob binding.
    pub fn set_knob(&mut self, knob: In)
        ensures
            final(self).knob == knob,
            final(self).wave1 == old(self).wave1,
            final(self).wave2 == old(self).wave2,
            final(self).wave3 == old(self).wave3,
    {
        self.knob = knob;
    }

    /// Compute the blend of the current inputs.
    pub fn step(&self, tags: &Vec<u64>, outs: &Vec<i64>) -> (out: i64)
        requires
            tags@.len() == outs@.len(),
            distinct_tags(tags@),
        ensures
            out as int == spec_lerp3_out(*self, tags@, outs@),
    {
        let k = resolve(tags, outs, self.knob);
        let a = lookup_out(tags, outs, self.wave1);
        let b = lookup_out(tags, outs, self.wave2);
        let c = lookup_out(tags, outs, self.wave3);
        if k <= FX_HALF {
            let alpha = fx_add(k, k);
            fx_add(fx_mul(fx_sub(FX_ONE, alpha), a), fx_mul(alpha, b))
        } else {
            let alpha = fx_sub(fx_add(k, k), FX_ONE);
            fx_add(fx_mul(fx_sub(FX_ONE, alpha), b), fx_mul(alpha, c))
        }
    }
}

/// A frequency modulator: computes a modulated frequency from a base
/// frequency, a modulation depth in hertz, a modulation index, and the
/// modulator wave's current output.
pub struct Modulator {
    pub wave: Tag,
    pub base_hz: In,
    pub mod_hz: In,
    pub mod_idx: In,
}

/// What a modulator outputs: the base frequency plus index times depth
/// times the modulator wave.
pub open spec fn spec_modulator_out(m: Modulator, tags: Seq<u64>, outs: Seq<i64>) -> int {
    spec_add(
        spec_resolve(tags, outs, m.base_hz),
        spec_mul(
            spec_mul(spec_resolve(tags, outs, m.mod_idx), spec_resolve(tags, outs, m.mod_hz)),
            spec_lookup(tags, outs, m.wave),
        ),
    )
}

impl Modulator {
    /// A modulator over the given wave and bindings.
    pub fn new(wave: Tag, base_hz: In, mod_hz: In, mod_idx: In) -> (r: Modulator)
        ensures
            r.wave == wave,
            r.base_hz == base_hz,
            r.mod_hz == mod_hz,
            r.mod_idx == mod_idx,
    {
        Modulator { wave, base_hz, mod_hz, mod_idx }
    }

    /// Compute the modulated frequency.
    pub fn step(&self, tags: &Vec<u64>, outs: &Vec<i64>) -> (out: i64)
        requires
            tags@.len() == outs@.len(),
            distinct_tags(tags@),
        ensures
            out as int == spec_modulator_out(*self, tags@, outs@),
    {
        let base = resolve(tags, outs, self.base_hz);
        let idx = resolve(tags, outs, self.mod_idx);
        let depth = resolve(tags, outs, self.mod_hz);
        let w = lookup_out(tags, outs, self.wave);
        fx_add(base, fx_mul(fx_mul(idx, depth), w))
    }
}

/// The product of the first `n` referenced outputs.
pub open spec fn spec_prod(waves: Seq<u64>, tags: Seq<u64>, outs: Seq<i64>, n: int) -> int
    recommends
        0 <= n <= waves.len(),
    decreases n,
{
    if n <= 0 {
        FX_ONE as int
    } else {
        spec_mul(spec_prod(waves, tags, outs, n - 1), spec_lookup(tags, outs, waves[n - 1]))
    }
}

/// A sample-wise product of input bindings, used among other things to
/// gate noise by an envelope.
pub struct Product {
    pub waves: Vec<Tag>,
}

/// The mathematical state of a product node.
pub struct ProductV {
    pub waves: Seq<u64>,
}

impl View for Product {
    type V = ProductV;

    open spec fn view(&self) -> ProductV {
        ProductV { waves: self.waves@ }
    }
}

/// What a product node outputs: the product of its inputs' cached outputs.
pub open spec fn spec_product_out(p: ProductV, tags: Seq<u64>, outs: Seq<i64>) -> int {
    spec_prod(p.waves, tags, outs, p.waves.len() as int)
}

impl Product {
    /// A product over the given inputs.
    pub fn new(waves: Vec<Tag>) -> (r: Product)
        ensures
            r.waves@ == waves@,
    {
        Product { waves }
    }

    /// Compute the product of the current inputs.
    pub fn step(&self, tags: &Vec<u64>, outs: &Vec<i64>) -> (out: i64)
        requires
            tags@.len() == outs@.len(),
            distinct_tags(tags@),
        ensures
            out as int == spec_product_out(self@, tags@, outs@),
    {
        let n = self.waves.len();
        let mut acc: i64 = FX_ONE;
        let mut i: usize = 0;
        while i < n
            invariant
                tags@.len() == outs@.len(),
                distinct_tags(tags@),
                n == self.waves@.len(),
                i <= n,
                acc as int == spec_prod(self.waves@, tags@, outs@, i as int),
            decreases n - i,
        {
            let w = lookup_out(tags, outs, self.waves[i]);
            acc = fx_mul(acc, w);
            i = i + 1;
        }
        acc
    }
}

/// A voltage-controlled amplifier: one input scaled by a level binding.
pub struct Vca {
    pub wave: Tag,
    pub level: In,
}

/// What an amplifier outputs: the level times the input's cached output.
pub open spec fn spec_vca_out(v: Vca, tags: Seq<u64>, outs: Seq<i64>) -> int {
    spec_mul(spec_resolve(tags, outs, v.level), spec_lookup(tags, outs, v.wave))
}

impl Vca {
    /// An amplifier over the given input and level binding.
    pub fn new(wave: Tag, level: In) -> (r: Vca)
        ensures
            r.wave == wave,
            r.level == level,
    {
        Vca { wave, level }
    }

    /// Compute the scaled sample.
    pub fn step(&self, tags: &Vec<u64>, outs: &Vec<i64>) -> (out: i64)
        requires
            tags@.len() == outs@.len(),
            distinct_tags(tags@),
        ensures
            out as int == spec_vca_out(*self, tags@, outs@),
    {
        let l = resolve(tags, outs, self.level);
        let w = lookup_out(tags, outs, self.wave);
        fx_mul(l, w)
    }
}

} // verus!
