//! The signal graph: an ordered collection of nodes evaluated once per
//! sample, in construction order, each node's output cached for the
//! others to read.
//!
//! A node may only reference, as a direct input, a node that appears
//! earlier in the order — unless the reference passes through a delay
//! element, which always hands back the previous sample; that is the one
//! legal way to close a feedback loop.  The builder is responsible for
//! appending nodes in dependency order; this keeps evaluation linear with
//! no sorting step and makes feedback loops explicit.  A reference to a
//! tag that is absent resolves to silence.
//!
//! Parameter updates arrive as commands (`{target tag, field, value}`)
//! and are applied in order between buffers, never concurrently with
//! sampling; a command that names an absent tag or a field its node does
//! not have is dropped silently.

use vstd::prelude::*;

use crate::delay::{delay_wf, spec_delay_next, spec_delay_out, DelayLine, DelayV};
use crate::env::{adsr_wf, spec_adsr_out, spec_clock_next, Adsr};
use crate::filt::{
    allpass_wf, comb_wf, spec_allpass_next, spec_allpass_out, spec_biquad_next, spec_biquad_out,
    spec_comb_next, spec_comb_out, spec_lpf_next, spec_lpf_out, AllPass, AllPassV, BiquadFilter,
    Comb, CombV, Lpf,
};
use crate::guide::{guide_wf, spec_guide_next, spec_guide_out, WaveGuide, WaveGuideV};
use crate::midi::{spec_midi_control_out, spec_midi_pitch_out, MidiControl, MidiPitch};
use crate::ops::{
    mixer_wf, spec_lerp3_out, spec_lerp_out, spec_mixer_out, spec_modulator_out,
    spec_product_out, spec_vca_out, Lerp, Lerp3, Link, Mixer, MixerV, Modulator, Product,
    ProductV, Vca,
};
use crate::osc::{
    fourier_wf, spec_fourier_next, spec_fourier_out, spec_lcg, spec_noise_out, spec_phase_next,
    spec_ramp_out, spec_saw_out, spec_sine_out, spec_square_out, spec_triangle_out, FourierOsc,
    FourierV, RampOsc, SawOsc, SineOsc, SquareOsc, TriangleOsc, WhiteNoise, SR_MAX,
};
use crate::sig::{distinct_tags, has_tag, spec_lookup, Tag};
use crate::verb::{spec_verb_next, spec_verb_out, verb_wf, Freeverb, FreeverbV};

verus! {

/// A node's concrete processor: one variant per member of the node
/// library.
pub enum NodeKind {
    Link(Link),
    Sine(SineOsc),
    Square(SquareOsc),
    Ramp(RampOsc),
    Saw(SawOsc),
    Triangle(TriangleOsc),
    Noise(WhiteNoise),
    Fourier(FourierOsc),
    Env(Adsr),
    Mix(Mixer),
    Lerp(Lerp),
    Lerp3(Lerp3),
    Modulator(Modulator),
    Product(Product),
    Vca(Vca),
    Pitch(MidiPitch),
    Control(MidiControl),
    Biquad(BiquadFilter),
    Lowpass(Lpf),
    Delay(DelayLine),
    Comb(Comb),
    AllPass(AllPass),
    Reverb(Freeverb),
    Guide(WaveGuide),
}

/// The mathematical state of a node.
pub enum NodeV {
    Link(Link),
    Sine(SineOsc),
    Square(SquareOsc),
    Ramp(RampOsc),
    Saw(SawOsc),
    Triangle(TriangleOsc),
    Noise(WhiteNoise),
    Fourier(FourierV),
    Env(Adsr),
    Mix(MixerV),
    Lerp(Lerp),
    Lerp3(Lerp3),
    Modulator(Modulator),
    Product(ProductV),
    Vca(Vca),
    Pitch(MidiPitch),
    Control(MidiControl),
    Biquad(BiquadFilter),
    Lowpass(Lpf),
    Delay(DelayV),
    Comb(CombV),
    AllPass(AllPassV),
    Reverb(FreeverbV),
    Guide(WaveGuideV),
}

/// The mathematical state a node kind stands for.
pub open spec fn kind_view(k: NodeKind) -> NodeV {
    match k {
        NodeKind::Link(x) => NodeV::Link(x),
        NodeKind::Sine(x) => NodeV::Sine(x),
        NodeKind::Square(x) => NodeV::Square(x),
        NodeKind::Ramp(x) => NodeV::Ramp(x),
        NodeKind::Saw(x) => NodeV::Saw(x),
        NodeKind::Triangle(x) => NodeV::Triangle(x),
        NodeKind::Noise(x) => NodeV::Noise(x),
        NodeKind::Fourier(x) => NodeV::Fourier(x@),
        NodeKind::Env(x) => NodeV::Env(x),
        NodeKind::Mix(x) => NodeV::Mix(x@),
        NodeKind::Lerp(x) => NodeV::Lerp(x),
        NodeKind::Lerp3(x) => NodeV::Lerp3(x),
        NodeKind::Modulator(x) => NodeV::Modulator(x),
        NodeKind::Product(x) => NodeV::Product(x@),
        NodeKind::Vca(x) => NodeV::Vca(x),
        NodeKind::Pitch(x) => NodeV::Pitch(x),
        NodeKind::Control(x) => NodeV::Control(x),
        NodeKind::Biquad(x) => NodeV::Biquad(x),
        NodeKind::Lowpass(x) => NodeV::Lowpass(x),
        NodeKind::Delay(x) => NodeV::Delay(x@),
        NodeKind::Comb(x) => NodeV::Comb(x@),
        NodeKind::AllPass(x) => NodeV::AllPass(x@),
        NodeKind::Reverb(x) => NodeV::Reverb(x@),
        NodeKind::Guide(x) => NodeV::Guide(x@),
    }
}

/// What a node's state must satisfy for the graph to evaluate it.
pub open spec fn node_wf(n: NodeV) -> bool {
    match n {
        NodeV::Fourier(x) => fourier_wf(x),
        NodeV::Env(x) => adsr_wf(x),
        NodeV::Mix(x) => mixer_wf(x),
        NodeV::Pitch(x) => x.step < 128,
        NodeV::Delay(x) => delay_wf(x),
        NodeV::Comb(x) => comb_wf(x),
        NodeV::AllPass(x) => allpass_wf(x),
        NodeV::Reverb(x) => verb_wf(x),
        NodeV::Guide(x) => guide_wf(x),
        _ => true,
    }
}

/// What a node outputs against the given tags and cached outputs.
pub open spec fn node_out(n: NodeV, tags: Seq<u64>, outs: Seq<i64>, sr: int) -> int {
    match n {
        NodeV::Link(x) => x.value as int,
        NodeV::Sine(x) => spec_sine_out(x, tags, outs),
        NodeV::Square(x) => spec_square_out(x, tags, outs),
        NodeV::Ramp(x) => spec_ramp_out(x, tags, outs),
        NodeV::Saw(x) => spec_saw_out(x, tags, outs),
        NodeV::Triangle(x) => spec_triangle_out(x, tags, outs),
        NodeV::Noise(x) => spec_noise_out(x, tags, outs),
        NodeV::Fourier(x) => spec_fourier_out(x),
        NodeV::Env(x) => spec_adsr_out(x, tags, outs),
        NodeV::Mix(x) => spec_mixer_out(x, tags, outs),
        NodeV::Lerp(x) => spec_lerp_out(x, tags, outs),
        NodeV::Lerp3(x) => spec_lerp3_out(x, tags, outs),
        NodeV::Modulator(x) => spec_modulator_out(x, tags, outs),
        NodeV::Product(x) => spec_product_out(x, tags, outs),
        NodeV::Vca(x) => spec_vca_out(x, tags, outs),
        NodeV::Pitch(x) => spec_midi_pitch_out(x),
        NodeV::Control(x) => spec_midi_control_out(x),
        NodeV::Biquad(x) => spec_biquad_out(x, tags, outs, sr),
        NodeV::Lowpass(x) => spec_lpf_out(x, tags, outs, sr),
        NodeV::Delay(x) => spec_delay_out(x, tags, outs, sr),
        NodeV::Comb(x) => spec_comb_out(x),
        NodeV::AllPass(x) => spec_allpass_out(x, spec_lookup(tags, outs, x.wave)),
        NodeV::Reverb(x) => spec_verb_out(x, tags, outs),
        NodeV::Guide(x) => spec_guide_out(x, tags, outs, sr),
    }
}

/// A node's state after producing one sample.
pub open spec fn node_next(n: NodeV, tags: Seq<u64>, outs: Seq<i64>, sr: int) -> NodeV {
    match n {
        NodeV::Sine(x) => NodeV::Sine(
            SineOsc {
                phase: spec_phase_next(
                    x.phase as int,
                    crate::sig::spec_resolve(tags, outs, x.hz),
                    sr,
                ) as i64,
                ..x
            },
        ),
        NodeV::Square(x) => NodeV::Square(
            SquareOsc {
                phase: spec_phase_next(
                    x.phase as int,
                    crate::sig::spec_resolve(tags, outs, x.hz),
                    sr,
                ) as i64,
                ..x
            },
        ),
        NodeV::Ramp(x) => NodeV::Ramp(
            RampOsc {
                phase: spec_phase_next(
                    x.phase as int,
                    crate::sig::spec_resolve(tags, outs, x.hz),
                    sr,
                ) as i64,
                ..x
            },
        ),
        NodeV::Saw(x) => NodeV::Saw(
            SawOsc {
                phase: spec_phase_next(
                    x.phase as int,
                    crate::sig::spec_resolve(tags, outs, x.hz),
                    sr,
                ) as i64,
                ..x
            },
        ),
        NodeV::Triangle(x) => NodeV::Triangle(
            TriangleOsc {
                phase: spec_phase_next(
                    x.phase as int,
                    crate::sig::spec_resolve(tags, outs, x.hz),
                    sr,
                ) as i64,
                ..x
            },
        ),
        NodeV::Noise(x) => NodeV::Noise(WhiteNoise { state: spec_lcg(x.state), ..x }),
        NodeV::Fourier(x) => NodeV::Fourier(spec_fourier_next(x, sr)),
        NodeV::Env(x) => NodeV::Env(
            Adsr { clock: spec_clock_next(x.clock as int, sr) as i64, ..x },
        ),
        NodeV::Biquad(x) => NodeV::Biquad(spec_biquad_next(x, tags, outs, sr)),
        NodeV::Lowpass(x) => NodeV::Lowpass(spec_lpf_next(x, tags, outs, sr)),
        NodeV::Delay(x) => NodeV::Delay(spec_delay_next(x, tags, outs, sr)),
        NodeV::Comb(x) => NodeV::Comb(spec_comb_next(x, spec_lookup(tags, outs, x.wave))),
        NodeV::AllPass(x) => NodeV::AllPass(
            spec_allpass_next(x, spec_lookup(tags, outs, x.wave)),
        ),
        NodeV::Reverb(x) => NodeV::Reverb(spec_verb_next(x, tags, outs)),
        NodeV::Guide(x) => NodeV::Guide(spec_guide_next(x, tags, outs, sr)),
        _ => n,
    }
}

impl NodeKind {
    /// Produce one sample from this node, advancing whatever state it
    /// keeps.
    #[verifier::rlimit(100)]
    pub fn step(&mut self, tags: &Vec<u64>, outs: &Vec<i64>, sr: i64) -> (out: i64)
        requires
            tags@.len() == outs@.len(),
            distinct_tags(tags@),
            1 <= sr <= SR_MAX,
            node_wf(kind_view(*old(self))),
        ensures
            out as int == node_out(kind_view(*old(self)), tags@, outs@, sr as int),
            kind_view(*final(self)) == node_next(kind_view(*old(self)), tags@, outs@, sr as int),
            node_wf(kind_view(*final(self))),
    {
        match self {
            NodeKind::Link(x) => x.step(),
            NodeKind::Sine(x) => x.step(tags, outs, sr),
            NodeKind::Square(x) => x.step(tags, outs, sr),
            NodeKind::Ramp(x) => x.step(tags, outs, sr),
            NodeKind::Saw(x) => x.step(tags, outs, sr),
            NodeKind::Triangle(x) => x.step(tags, outs, sr),
            NodeKind::Noise(x) => x.step(tags, outs),
            NodeKind::Fourier(x) => x.step(sr),
            NodeKind::Env(x) => x.step(tags, outs, sr),
            NodeKind::Mix(x) => x.step(tags, outs),
            NodeKind::Lerp(x) => x.step(tags, outs),
            NodeKind::Lerp3(x) => x.step(tags, outs),
            NodeKind::Modulator(x) => x.step(tags, outs),
            NodeKind::Product(x) => x.step(tags, outs),
            NodeKind::Vca(x) => x.step(tags, outs),
            NodeKind::Pitch(x) => x.step_out(),
            NodeKind::Control(x) => x.step_out(),
            NodeKind::Biquad(x) => x.step(tags, outs, sr),
            NodeKind::Lowpass(x) => x.step(tags, outs, sr),
            NodeKind::Delay(x) => x.step(tags, outs, sr),
            NodeKind::Comb(x) => x.step(tags, outs),
            NodeKind::AllPass(x) => x.step(tags, outs),
            NodeKind::Reverb(x) => x.step(tags, outs),
            NodeKind::Guide(x) => x.step(tags, outs, sr),
        }
    }
}

/// The mathematical state of a signal graph.
pub struct RackV {
    pub tags: Seq<u64>,
    pub nodes: Seq<NodeV>,
    pub outs: Seq<i64>,
}

/// The signal graph: nodes in evaluation order, their tags, and each
/// node's cached output from the most recent sample.
pub struct Rack {
    pub tags: Vec<Tag>,
    pub kinds: Vec<NodeKind>,
    pub outs: Vec<i64>,
}

impl View for Rack {
    type V = RackV;

    open spec fn view(&self) -> RackV {
        RackV {
            tags: self.tags@,
            nodes: self.kinds@.map_values(|k: NodeKind| kind_view(k)),
            outs: self.outs@,
        }
    }
}

/// A graph is well formed when every node has a tag and a cached output,
/// tags are unique, and every node's own state is well formed.
pub open spec fn rack_wf(v: RackV) -> bool {
    &&& v.tags.len() == v.nodes.len()
    &&& v.outs.len() == v.nodes.len()
    &&& distinct_tags(v.tags)
    &&& forall|i: int| 0 <= i < v.nodes.len() ==> node_wf(#[trigger] v.nodes[i])
}

/// The graph after evaluating its first `k` nodes, in order: each node
/// reads the cached outputs as they stand when its turn comes — fresh
/// values from earlier nodes, last sample's values from later ones — and
/// its own new output replaces its cache.
pub open spec fn rack_eval_upto(v: RackV, sr: int, k: int) -> RackV
    recommends
        0 <= k <= v.nodes.len(),
    decreases k,
{
    if k <= 0 {
        v
    } else {
        let p = rack_eval_upto(v, sr, k - 1);
        let i = k - 1;
        RackV {
            nodes: p.nodes.update(i, node_next(p.nodes[i], p.tags, p.outs, sr)),
            outs: p.outs.update(i, node_out(p.nodes[i], p.tags, p.outs, sr) as i64),
            ..p
        }
    }
}

/// The graph after one whole sample.
pub open spec fn rack_eval(v: RackV, sr: int) -> RackV {
    rack_eval_upto(v, sr, v.nodes.len() as int)
}

impl Rack {
    /// An empty graph.
    pub fn new() -> (r: Rack)
        ensures
            r@.tags.len() == 0,
            r@.nodes.len() == 0,
            r@.outs.len() == 0,
            rack_wf(r@),
    {
        Rack { tags: Vec::new(), kinds: Vec::new(), outs: Vec::new() }
    }

    /// Whether some node carries the given tag.
    pub fn contains_tag(&self, tag: Tag) -> (r: bool)
        ensures
            r == has_tag(self@.tags, tag),
    {
        match crate::sig::find_tag(&self.tags, tag) {
            Some(_) => true,
            None => false,
        }
    }

    /// Append a node under a fresh tag, its cached output silent.  The
    /// caller appends nodes in dependency order; that order is the
    /// evaluation order.
    pub fn append(&mut self, tag: Tag, kind: NodeKind)
        requires
            rack_wf(old(self)@),
            !has_tag(old(self)@.tags, tag),
            node_wf(kind_view(kind)),
            old(self)@.nodes.len() < 100_000,
        ensures
            final(self)@.tags == old(self)@.tags.push(tag),
            final(self)@.nodes == old(self)@.nodes.push(kind_view(kind)),
            final(self)@.outs == old(self)@.outs.push(0i64),
            rack_wf(final(self)@),
    {
        self.tags.push(tag);
        self.kinds.push(kind);
        self.outs.push(0);
        proof {
            assert(self@.nodes =~= old(self)@.nodes.push(kind_view(kind)));
        }
    }

    /// The cached output of the node with the given tag, or silence when
    /// no node carries it.
    pub fn output(&self, tag: Tag) -> (r: i64)
        requires
            rack_wf(self@),
        ensures
            r as int == spec_lookup(self@.tags, self@.outs, tag),
    {
        crate::sig::lookup_out(&self.tags, &self.outs, tag)
    }

    /// Evaluate every node exactly once, in order, and return the final
    /// node's output (silence for an empty graph).
    pub fn signal(&mut self, sr: i64) -> (out: i64)
        requires
            rack_wf(old(self)@),
            1 <= sr <= SR_MAX,
        ensures
            final(self)@ == rack_eval(old(self)@, sr as int),
            rack_wf(final(self)@),
            out == if final(self)@.outs.len() > 0 {
                final(self)@.outs.last()
            } else {
                0i64
            },
    {
        let ghost orig = self@;
        let n = self.kinds.len();
        let mut i: usize = 0;
        while i < n
            invariant
                rack_wf(orig),
                1 <= sr <= SR_MAX,
                n == orig.nodes.len(),
                i <= n,
                self.tags@ == orig.tags,
                self.kinds@.len() == n,
                self.outs@.len() == n,
                self@ == rack_eval_upto(orig, sr as int, i as int),
                rack_wf(self@),
            decreases n - i,
        {
            let ghost before = self@;
            proof {
                assert(kind_view(self.kinds@[i as int]) == before.nodes[i as int]);
            }
            let out_i = self.kinds[i].step(&self.tags, &self.outs, sr);
            self.outs[i] = out_i;
            proof {
                assert(self@.nodes =~= rack_eval_upto(orig, sr as int, i as int + 1).nodes);
                assert(self@.outs =~= rack_eval_upto(orig, sr as int, i as int + 1).outs);
                assert forall|j: int| 0 <= j < n implies node_wf(#[trigger] self@.nodes[j]) by {
                    if j != i {
                        assert(self@.nodes[j] == before.nodes[j]);
                    }
                }
            }
            i = i + 1;
        }
        if n == 0 {
            0
        } else {
            self.outs[n - 1]
        }
    }
}

} // verus!
