//! The multi-stage reverberator.
//!
//! A fixed topology: eight comb filters in parallel, fed from the same
//! input, summed, then four all-pass filters in series, each section with
//! its own fixed delay length chosen to avoid resonant coincidence.
//! Setting room size, damping or freeze recomputes every comb's feedback
//! and damping coefficients uniformly.  Freeze forces feedback to one,
//! damping to zero, and zeroes the input gain, so the energy already in
//! the combs circulates indefinitely.  The output is
//! `wet_gain * reverberated + dry * input`.

use vstd::prelude::*;

use crate::fx::{fx_add, fx_mul, spec_add, spec_mul, FX_HALF, FX_ONE};
use crate::filt::{
    allpass_wf, comb_wf, spec_allpass_next, spec_allpass_out, spec_comb_next, spec_comb_out,
    AllPass, AllPassV, Comb, CombV,
};
use crate::sig::{distinct_tags, lookup_out, spec_lookup, IdGen, Tag};

verus! {

/// The comb delay lengths, in samples.
pub const COMB_TUNING_1: usize = 1116;

pub const COMB_TUNING_2: usize = 1188;

pub const COMB_TUNING_3: usize = 1277;

pub const COMB_TUNING_4: usize = 1356;

pub const COMB_TUNING_5: usize = 1422;

pub const COMB_TUNING_6: usize = 1491;

pub const COMB_TUNING_7: usize = 1557;

pub const COMB_TUNING_8: usize = 1617;

/// The all-pass delay lengths, in samples.
pub const ALLPASS_TUNING_1: usize = 556;

pub const ALLPASS_TUNING_2: usize = 441;

pub const ALLPASS_TUNING_3: usize = 341;

pub const ALLPASS_TUNING_4: usize = 225;

/// The wet control's internal scale.
pub const SCALE_WET: i64 = 3_000_000;

/// The damping control's internal scale.
pub const SCALE_DAMPENING: i64 = 400_000;

/// The room-size control's internal scale.
pub const SCALE_ROOM: i64 = 280_000;

/// The room-size control's internal offset.
pub const OFFSET_ROOM: i64 = 700_000;

/// The reverberator node.
pub struct Freeverb {
    pub tag: Tag,
    pub wave: Tag,
    pub combs: Vec<Comb>,
    pub allpasses: Vec<AllPass>,
    pub wet_gain: i64,
    pub wet: i64,
    pub width: i64,
    pub dry: i64,
    pub input_gain: i64,
    pub dampening: i64,
    pub room_size: i64,
    pub frozen: bool,
}

/// The mathematical state of a reverberator.
pub struct FreeverbV {
    pub tag: u64,
    pub wave: u64,
    pub combs: Seq<CombV>,
    pub allpasses: Seq<AllPassV>,
    pub wet_gain: i64,
    pub wet: i64,
    pub width: i64,
    pub dry: i64,
    pub input_gain: i64,
    pub dampening: i64,
    pub room_size: i64,
    pub frozen: bool,
}

impl View for Freeverb {
    type V = FreeverbV;

    open spec fn view(&self) -> FreeverbV {
        FreeverbV {
            tag: self.tag,
            wave: self.wave,
            combs: self.combs@.map_values(|c: Comb| c@),
            allpasses: self.allpasses@.map_values(|a: AllPass| a@),
            wet_gain: self.wet_gain,
            wet: self.wet,
            width: self.width,
            dry: self.dry,
            input_gain: self.input_gain,
            dampening: self.dampening,
            room_size: self.room_size,
            frozen: self.frozen,
        }
    }
}

/// A reverberator is well formed with its eight combs and four all-pass
/// sections, each well formed itself.
pub open spec fn verb_wf(v: FreeverbV) -> bool {
    &&& v.combs.len() == 8
    &&& v.allpasses.len() == 4
    &&& forall|i: int| 0 <= i < v.combs.len() ==> comb_wf(#[trigger] v.combs[i])
    &&& forall|i: int| 0 <= i < v.allpasses.len() ==> allpass_wf(#[trigger] v.allpasses[i])
}

/// The sum of the first `n` combs' outputs.
pub open spec fn spec_combs_sum(cs: Seq<CombV>, n: int) -> int
    recommends
        0 <= n <= cs.len(),
    decreases n,
{
    if n <= 0 {
        0
    } else {
        spec_add(spec_combs_sum(cs, n - 1), spec_comb_out(cs[n - 1]))
    }
}

/// The signal after the first `n` all-pass sections, starting from `y0`.
pub open spec fn spec_aps_after(aps: Seq<AllPassV>, y0: int, n: int) -> int
    recommends
        0 <= n <= aps.len(),
    decreases n,
{
    if n <= 0 {
        y0
    } else {
        spec_allpass_out(aps[n - 1], spec_aps_after(aps, y0, n - 1))
    }
}

/// Every comb after absorbing the same input.
pub open spec fn spec_combs_next(cs: Seq<CombV>, x: int) -> Seq<CombV> {
    cs.map_values(|c: CombV| spec_comb_next(c, x))
}

/// Every all-pass section after absorbing the signal as it stood before
/// that section.
pub open spec fn spec_aps_next(aps: Seq<AllPassV>, y0: int) -> Seq<AllPassV> {
    Seq::new(aps.len(), |i: int| spec_allpass_next(aps[i], spec_aps_after(aps, y0, i)))
}

/// The input the combs see: the referenced node's cached output scaled by
/// the input gain.
pub open spec fn spec_verb_x(v: FreeverbV, tags: Seq<u64>, outs: Seq<i64>) -> int {
    spec_mul(spec_lookup(tags, outs, v.wave), v.input_gain as int)
}

/// What the reverberator outputs: the wet gain times the signal after the
/// comb bank and the all-pass chain, plus the dry input.
pub open spec fn spec_verb_out(v: FreeverbV, tags: Seq<u64>, outs: Seq<i64>) -> int {
    let inp = spec_lookup(tags, outs, v.wave);
    let x = spec_verb_x(v, tags, outs);
    let wetted = spec_aps_after(v.allpasses, spec_combs_sum(v.combs, v.combs.len() as int),
        v.allpasses.len() as int);
    spec_add(spec_mul(wetted, v.wet_gain as int), spec_mul(inp, v.dry as int))
}

/// The reverberator after one sample: every comb absorbed the scaled
/// input, and the all-pass chain absorbed the comb sum.
pub open spec fn spec_verb_next(v: FreeverbV, tags: Seq<u64>, outs: Seq<i64>) -> FreeverbV {
    let x = spec_verb_x(v, tags, outs);
    FreeverbV {
        combs: spec_combs_next(v.combs, x),
        allpasses: spec_aps_next(v.allpasses, spec_combs_sum(v.combs, v.combs.len() as int)),
        ..v
    }
}

/// The comb coefficients a parameter change calls for: feedback one and
/// damping zero when frozen, else the room size and damping controls.
pub open spec fn spec_verb_coeffs(v: FreeverbV) -> (int, int) {
    if v.frozen {
        (FX_ONE as int, 0)
    } else {
        (v.room_size as int, v.dampening as int)
    }
}

/// Every comb retuned to feedback `fb` and damping `dp`.
pub open spec fn spec_combs_tuned(cs: Seq<CombV>, fb: int, dp: int) -> Seq<CombV> {
    cs.map_values(|c: CombV| CombV { feedback: fb as i64, damping: dp as i64, ..c })
}

/// The reverberator with every comb retuned to the coefficients its
/// current controls call for.
pub open spec fn spec_verb_retuned(v: FreeverbV) -> FreeverbV {
    FreeverbV {
        combs: spec_combs_tuned(v.combs, spec_verb_coeffs(v).0, spec_verb_coeffs(v).1),
        ..v
    }
}

/// The wet gain the wet and width controls call for:
/// `wet * (width / 2 + 1 / 2)`.
pub open spec fn spec_verb_wet_gain(wet: int, width: int) -> int {
    spec_mul(wet, spec_add(spec_mul(width, FX_HALF as int), FX_HALF as int))
}

/// The reverberator after the damping control is set.
pub open spec fn spec_verb_set_dampening(v: FreeverbV, value: int) -> FreeverbV {
    spec_verb_retuned(
        FreeverbV { dampening: spec_mul(value, SCALE_DAMPENING as int) as i64, ..v },
    )
}

/// The reverberator after the wet control is set.
pub open spec fn spec_verb_set_wet(v: FreeverbV, value: int) -> FreeverbV {
    let wet = spec_mul(value, SCALE_WET as int);
    FreeverbV {
        wet: wet as i64,
        wet_gain: spec_verb_wet_gain(wet, v.width as int) as i64,
        ..v
    }
}

/// The reverberator after the width control is set.
pub open spec fn spec_verb_set_width(v: FreeverbV, value: int) -> FreeverbV {
    FreeverbV {
        width: value as i64,
        wet_gain: spec_verb_wet_gain(v.wet as int, value) as i64,
        ..v
    }
}

/// The reverberator after freeze is set or cleared: frozen zeroes the
/// input gain, thawing restores it to one.
pub open spec fn spec_verb_set_frozen(v: FreeverbV, frozen: bool) -> FreeverbV {
    spec_verb_retuned(
        FreeverbV {
            frozen,
            input_gain: if frozen {
                0i64
            } else {
                FX_ONE
            },
            ..v
        },
    )
}

/// The reverberator after the room-size control is set.
pub open spec fn spec_verb_set_room_size(v: FreeverbV, value: int) -> FreeverbV {
    spec_verb_retuned(
        FreeverbV {
            room_size: spec_add(spec_mul(value, SCALE_ROOM as int), OFFSET_ROOM as int) as i64,
            ..v
        },
    )
}

impl Freeverb {
    /// A reverberator over the given node, with the classic delay
    /// lengths, every control at its resting value, and the combs tuned
    /// to the initial room size and damping.
    pub fn new(id_gen: &mut IdGen, wave: Tag) -> (r: Freeverb)
        requires
            old(id_gen).next < u64::MAX,
        ensures
            r@.tag == old(id_gen).next,
            r@.wave == wave,
            verb_wf(r@),
            r@.wet_gain == FX_HALF,
            r@.wet == FX_ONE,
            r@.dry == 0,
            r@.input_gain == FX_HALF,
            r@.width == FX_HALF,
            r@.dampening == FX_HALF,
            r@.room_size == FX_HALF,
            r@.frozen == false,
            r@.combs == spec_combs_tuned(
                Seq::new(8nat, |i: int| CombV {
                    wave,
                    buf: Seq::new(spec_comb_len(i) as nat, |j: int| 0i64),
                    pos: 0,
                    feedback: 0i64,
                    damping: 0i64,
                    filter_state: 0i64,
                }),
                FX_HALF as int,
                FX_HALF as int,
            ),
            forall|i: int| 0 <= i < 4 ==> r@.allpasses[i] == (AllPassV {
                wave,
                buf: Seq::new(spec_allpass_len(i) as nat, |j: int| 0i64),
                pos: 0,
                feedback: FX_HALF,
            }),
    {
        let tag = id_gen.id();
        let mut combs: Vec<Comb> = Vec::new();
        combs.push(Comb::new(wave, COMB_TUNING_1));
        combs.push(Comb::new(wave, COMB_TUNING_2));
        combs.push(Comb::new(wave, COMB_TUNING_3));
        combs.push(Comb::new(wave, COMB_TUNING_4));
        combs.push(Comb::new(wave, COMB_TUNING_5));
        combs.push(Comb::new(wave, COMB_TUNING_6));
        combs.push(Comb::new(wave, COMB_TUNING_7));
        combs.push(Comb::new(wave, COMB_TUNING_8));
        let mut allpasses: Vec<AllPass> = Vec::new();
        let mut a1 = AllPass::new(wave, ALLPASS_TUNING_1);
        let mut a2 = AllPass::new(wave, ALLPASS_TUNING_2);
        let mut a3 = AllPass::new(wave, ALLPASS_TUNING_3);
        let mut a4 = AllPass::new(wave, ALLPASS_TUNING_4);
        a1.set_feedback(FX_HALF);
        a2.set_feedback(FX_HALF);
        a3.set_feedback(FX_HALF);
        a4.set_feedback(FX_HALF);
        allpasses.push(a1);
        allpasses.push(a2);
        allpasses.push(a3);
        allpasses.push(a4);
        let mut r = Freeverb {
            tag,
            wave,
            combs,
            allpasses,
            wet_gain: FX_HALF,
            wet: FX_ONE,
            width: FX_HALF,
            dry: 0,
            input_gain: FX_HALF,
            dampening: FX_HALF,
            room_size: FX_HALF,
            frozen: false,
        };
        r.update_combs();
        proof {
            assert(r@.combs =~= spec_combs_tuned(
                Seq::new(8nat, |i: int| CombV {
                    wave,
                    buf: Seq::new(spec_comb_len(i) as nat, |j: int| 0i64),
                    pos: 0,
                    feedback: 0i64,
                    damping: 0i64,
                    filter_state: 0i64,
                }),
                FX_HALF as int,
                FX_HALF as int,
            ));
            assert(forall|i: int| 0 <= i < 8 ==> #[trigger] r@.combs[i].buf
                =~= Seq::new(spec_comb_len(i) as nat, |j: int| 0i64));
            assert(forall|i: int| 0 <= i < 4 ==> #[trigger] r@.allpasses[i].buf
                =~= Seq::new(spec_allpass_len(i) as nat, |j: int| 0i64));
        }
        r
    }

    /// Retune every comb to the coefficients the current controls call
    /// for.
    fn update_combs(&mut self)
        requires
            verb_wf(old(self)@),
        ensures
            final(self)@ == (FreeverbV {
                combs: spec_combs_tuned(
                    old(self)@.combs,
                    spec_verb_coeffs(old(self)@).0,
                    spec_verb_coeffs(old(self)@).1,
                ),
                ..old(self)@
            }),
            verb_wf(final(self)@),
    {
        let (feedback, damping) = if self.frozen {
            (FX_ONE, 0)
        } else {
            (self.room_size, self.dampening)
        };
        let ghost orig = self@;
        let n = self.combs.len();
        let mut i: usize = 0;
        while i < n
            invariant
                n == 8,
                i <= n,
                self.combs@.len() == 8,
                self.allpasses@ == old(self).allpasses@,
                self.tag == orig.tag && self.wave == orig.wave,
                self.wet_gain == orig.wet_gain && self.wet == orig.wet,
                self.width == orig.width && self.dry == orig.dry,
                self.input_gain == orig.input_gain && self.dampening == orig.dampening,
                self.room_size == orig.room_size && self.frozen == orig.frozen,
                forall|j: int| 0 <= j < i ==> #[trigger] self.combs@[j]@ == (CombV {
                    feedback,
                    damping,
                    ..orig.combs[j]
                }),
                forall|j: int| i <= j < 8 ==> #[trigger] self.combs@[j]@ == orig.combs[j],
            decreases n - i,
        {
            self.combs[i].set_feedback(feedback);
            self.combs[i].set_damping(damping);
            i = i + 1;
        }
        proof {
            assert forall|j: int| 0 <= j < 8 implies self@.combs[j] == spec_combs_tuned(
                orig.combs,
                spec_verb_coeffs(orig).0,
                spec_verb_coeffs(orig).1,
            )[j] by {
                assert(self.combs@[j]@ == (CombV { feedback, damping, ..orig.combs[j] }));
            }
            assert(self@.combs =~= spec_combs_tuned(
                orig.combs,
                spec_verb_coeffs(orig).0,
                spec_verb_coeffs(orig).1,
            ));
        }
    }

    /// Set the damping control, scaled internally, and retune the combs.
    pub fn set_dampening(&mut self, value: i64)
        requires
            verb_wf(old(self)@),
        ensures
            final(self)@ == spec_verb_set_dampening(old(self)@, value as int),
            verb_wf(final(self)@),
    {
        self.dampening = fx_mul(value, SCALE_DAMPENING);
        self.update_combs();
    }

    /// Set or clear freeze: freezing zeroes the input gain so no new
    /// input enters, thawing restores it to one, and the combs are
    /// retuned either way.
    pub fn set_freeze(&mut self, frozen: bool)
        requires
            verb_wf(old(self)@),
        ensures
            final(self)@ == spec_verb_set_frozen(old(self)@, frozen),
            verb_wf(final(self)@),
    {
        self.set_frozen(frozen);
    }

    /// Set the wet control, scaled internally, and recompute the wet gain.
    pub fn set_wet(&mut self, value: i64)
        ensures
            final(self)@ == spec_verb_set_wet(old(self)@, value as int),
    {
        self.wet = fx_mul(value, SCALE_WET);
        self.update_wet_gains();
    }

    /// Set the stereo-width control and recompute the wet gain.
    pub fn set_width(&mut self, value: i64)
        ensures
            final(self)@ == spec_verb_set_width(old(self)@, value as int),
    {
        self.width = value;
        self.update_wet_gains();
    }

    /// Recompute the wet gain: `wet * (width / 2 + 1 / 2)`.
    fn update_wet_gains(&mut self)
        ensures
            final(self)@ == (FreeverbV {
                wet_gain: spec_verb_wet_gain(old(self)@.wet as int, old(self)@.width as int)
                    as i64,
                ..old(self)@
            }),
    {
        self.wet_gain = fx_mul(self.wet, fx_add(fx_mul(self.width, FX_HALF), FX_HALF));
    }

    /// Set or clear freeze, zero or restore the input gain accordingly,
    /// and retune the combs.
    pub fn set_frozen(&mut self, frozen: bool)
        requires
            verb_wf(old(self)@),
        ensures
            final(self)@ == spec_verb_set_frozen(old(self)@, frozen),
            verb_wf(final(self)@),
    {
        self.frozen = frozen;
        self.input_gain = if frozen {
            0
        } else {
            FX_ONE
        };
        self.update_combs();
    }

    /// Set the room-size control, scaled and offset internally, and
    /// retune the combs.
    pub fn set_room_size(&mut self, value: i64)
        requires
            verb_wf(old(self)@),
        ensures
            final(self)@ == spec_verb_set_room_size(old(self)@, value as int),
            verb_wf(final(self)@),
    {
        self.room_size = fx_add(fx_mul(value, SCALE_ROOM), OFFSET_ROOM);
        self.update_combs();
    }

    /// Set the dry level.
    pub fn set_dry(&mut self, value: i64)
        ensures
            final(self)@ == (FreeverbV { dry: value, ..old(self)@ }),
    {
        self.dry = value;
    }

    /// Produce one reverberated sample.
    pub fn step(&mut self, tags: &Vec<u64>, outs: &Vec<i64>) -> (out: i64)
        requires
            tags@.len() == outs@.len(),
            distinct_tags(tags@),
            verb_wf(old(self)@),
        ensures
            out as int == spec_verb_out(old(self)@, tags@, outs@),
            final(self)@ == spec_verb_next(old(self)@, tags@, outs@),
            verb_wf(final(self)@),
    {
        let ghost orig = self@;
        let inp = lookup_out(tags, outs, self.wave);
        let x = fx_mul(inp, self.input_gain);
        let n = self.combs.len();
        let mut sum: i64 = 0;
        let mut i: usize = 0;
        while i < n
            invariant
                n == 8,
                i <= n,
                self.combs@.len() == 8,
                verb_wf(orig),
                self.allpasses@ == old(self).allpasses@,
                self.tag == orig.tag && self.wave == orig.wave,
                self.wet_gain == orig.wet_gain && self.wet == orig.wet,
                self.width == orig.width && self.dry == orig.dry,
                self.input_gain == orig.input_gain && self.dampening == orig.dampening,
                self.room_size == orig.room_size && self.frozen == orig.frozen,
                x as int == spec_verb_x(orig, tags@, outs@),
                sum as int == spec_combs_sum(orig.combs, i as int),
                forall|j: int|
                    0 <= j < i ==> #[trigger] self.combs@[j]@ == spec_comb_next(
                        orig.combs[j],
                        x as int,
                    ),
                forall|j: int| i <= j < 8 ==> #[trigger] self.combs@[j]@ == orig.combs[j],
            decreases n - i,
        {
            proof {
                assert(self.combs@[i as int]@ == orig.combs[i as int]);
                assert(comb_wf(orig.combs[i as int]));
            }
            let o = self.combs[i].step_with(x);
            sum = fx_add(sum, o);
            i = i + 1;
        }
        proof {
            assert forall|j: int| 0 <= j < 8 implies self@.combs[j] == spec_combs_next(
                orig.combs,
                spec_verb_x(orig, tags@, outs@),
            )[j] by {
                assert(self.combs@[j]@ == spec_comb_next(orig.combs[j], x as int));
            }
            assert(self@.combs =~= spec_combs_next(orig.combs, spec_verb_x(orig, tags@, outs@)));
        }
        let y0 = sum;
        let mut y = y0;
        let ghost combs_done = self@.combs;
        let m = self.allpasses.len();
        let mut k: usize = 0;
        while k < m
            invariant
                m == 4,
                k <= m,
                self.allpasses@.len() == 4,
                verb_wf(orig),
                self.combs@.map_values(|c: Comb| c@) == combs_done,
                self.tag == orig.tag && self.wave == orig.wave,
                self.wet_gain == orig.wet_gain && self.wet == orig.wet,
                self.width == orig.width && self.dry == orig.dry,
                self.input_gain == orig.input_gain && self.dampening == orig.dampening,
                self.room_size == orig.room_size && self.frozen == orig.frozen,
                y0 as int == spec_combs_sum(orig.combs, 8),
                y as int == spec_aps_after(orig.allpasses, y0 as int, k as int),
                forall|j: int|
                    0 <= j < k ==> #[trigger] self.allpasses@[j]@ == spec_allpass_next(
                        orig.allpasses[j],
                        spec_aps_after(orig.allpasses, y0 as int, j),
                    ),
                forall|j: int| k <= j < 4 ==> #[trigger] self.allpasses@[j]@ == orig.allpasses[j],
            decreases m - k,
        {
            proof {
                assert(self.allpasses@[k as int]@ == orig.allpasses[k as int]);
                assert(allpass_wf(orig.allpasses[k as int]));
            }
            y = self.allpasses[k].step_with(y);
            k = k + 1;
        }
        proof {
            assert forall|j: int| 0 <= j < 4 implies self@.allpasses[j] == spec_aps_next(
                orig.allpasses,
                y0 as int,
            )[j] by {
                assert(self.allpasses@[j]@ == spec_allpass_next(
                    orig.allpasses[j],
                    spec_aps_after(orig.allpasses, y0 as int, j),
                ));
            }
            assert(self@.allpasses =~= spec_aps_next(orig.allpasses, y0 as int));
        }
        fx_add(fx_mul(y, self.wet_gain), fx_mul(inp, self.dry))
    }
}

/// The reverberator's state after a run of samples, one environment of
/// cached outputs per sample (the tag list stays fixed across a run).
pub open spec fn spec_verb_run(v: FreeverbV, tags: Seq<u64>, outss: Seq<Seq<i64>>) -> FreeverbV
    decreases outss.len(),
{
    if outss.len() == 0 {
        v
    } else {
        spec_verb_next(spec_verb_run(v, tags, outss.drop_last()), tags, outss.last())
    }
}

/// Freeze sustains over an arbitrarily long run: with the input gain at
/// zero and every comb at feedback one and damping zero, however many
/// samples pass and whatever the graph's cached outputs are on each of
/// them, every comb buffer is still bit-for-bit what it was at freeze
/// time — the energy stored then recirculates losslessly, so the comb
/// bank's contribution to the output never decays below it.
pub proof fn lemma_verb_freeze_sustains_run(v: FreeverbV, tags: Seq<u64>, outss: Seq<Seq<i64>>)
    requires
        verb_wf(v),
        v.input_gain == 0,
        forall|i: int| 0 <= i < v.combs.len() ==> (#[trigger] v.combs[i]).feedback == FX_ONE
            && v.combs[i].damping == 0,
    ensures
        verb_wf(spec_verb_run(v, tags, outss)),
        spec_verb_run(v, tags, outss).input_gain == 0,
        spec_verb_run(v, tags, outss).combs.len() == v.combs.len(),
        forall|i: int|
            0 <= i < v.combs.len() ==> (#[trigger] spec_verb_run(v, tags, outss).combs[i]).buf
                == v.combs[i].buf && spec_verb_run(v, tags, outss).combs[i].feedback == FX_ONE
                && spec_verb_run(v, tags, outss).combs[i].damping == 0,
    decreases outss.len(),
{
    if outss.len() > 0 {
        lemma_verb_freeze_sustains_run(v, tags, outss.drop_last());
        let p = spec_verb_run(v, tags, outss.drop_last());
        let outs = outss.last();
        let s = spec_verb_run(v, tags, outss);
        assert(s == spec_verb_next(p, tags, outs));
        let x = spec_verb_x(p, tags, outs);
        assert(x == 0) by {
            let inp = spec_lookup(tags, outs, p.wave);
            assert(inp * 0 == 0) by (nonlinear_arith);
        }
        assert forall|i: int|
            0 <= i < v.combs.len() implies (#[trigger] s.combs[i]).buf == v.combs[i].buf
            && s.combs[i].feedback == FX_ONE && s.combs[i].damping == 0 && comb_wf(
            s.combs[i],
        ) by {
            assert(s.combs[i] == spec_comb_next(p.combs[i], 0));
            crate::filt::lemma_comb_freeze_step(p.combs[i]);
        }
        assert forall|i: int|
            0 <= i < s.allpasses.len() implies allpass_wf(#[trigger] s.allpasses[i]) by {
            let y = spec_aps_after(p.allpasses, spec_combs_sum(p.combs, p.combs.len() as int), i);
            assert(s.allpasses[i] == spec_allpass_next(p.allpasses[i], y));
            assert(allpass_wf(p.allpasses[i]));
        }
    }
}

/// The delay length of comb `i`.
pub open spec fn spec_comb_len(i: int) -> int {
    if i == 0 {
        1116
    } else if i == 1 {
        1188
    } else if i == 2 {
        1277
    } else if i == 3 {
        1356
    } else if i == 4 {
        1422
    } else if i == 5 {
        1491
    } else if i == 6 {
        1557
    } else {
        1617
    }
}

/// The delay length of all-pass section `i`.
pub open spec fn spec_allpass_len(i: int) -> int {
    if i == 0 {
        556
    } else if i == 1 {
        441
    } else if i == 2 {
        341
    } else {
        225
    }
}

} // verus!
