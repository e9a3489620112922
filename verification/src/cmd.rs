//! Cross-thread parameter updates.
//!
//! Control sources never touch node state directly: they enqueue
//! commands — a target tag, a field selector and a new value — and the
//! audio thread drains the queue between buffers, applying every pending
//! command in enqueue order before rendering.  A command that names an
//! absent tag, or a field its target node does not have, is dropped
//! silently; it never disturbs the node.  Gate commands drive envelope
//! gates the same way.

use vstd::prelude::*;

use crate::env::Adsr;
use crate::filt::{AllPassV, BiquadFilter, CombV, Lpf};
use crate::fx::{fx_clamp, spec_clamp};
use crate::guide::WaveGuideV;
use crate::midi::{MidiControl, MidiPitch};
use crate::ops::{Lerp, Lerp3, Link, Mixer, MixerV, Modulator, Vca};
use crate::osc::{FourierV, RampOsc, SawOsc, SineOsc, SquareOsc, TriangleOsc, WhiteNoise};
use crate::rack::{kind_view, node_wf, NodeKind, NodeV, Rack, RackV, rack_wf};
use crate::sig::{distinct_tags, has_tag, In, Tag};
use crate::verb::{
    spec_verb_set_dampening, spec_verb_set_frozen, spec_verb_set_room_size, spec_verb_set_wet,
    spec_verb_set_width, FreeverbV,
};
use crate::delay::DelayV;

verus! {

/// A field selector: which parameter of a node a command addresses.
/// Which selectors a node honours depends on its kind; the rest are
/// dropped.
#[derive(Clone, Copy, PartialEq, Eq, Structural, Debug)]
pub enum Field {
    Hz,
    Amp,
    Duty,
    Alpha,
    Knob,
    BaseHz,
    ModHz,
    ModIdx,
    Level,
    Attack,
    Decay,
    SustainTime,
    SustainLevel,
    Release,
    Cutoff,
    Q,
    Active,
    DelayTime,
    Feedback,
    Damping,
    Dampening,
    RoomSize,
    Wet,
    Dry,
    Width,
    Freeze,
    Value,
    Step,
    CtrlValue,
    Volume,
    WetDecay,
}

/// A parameter-update command: gate a node on or off, or set one of its
/// fields to a new value.
#[derive(Clone, Copy, PartialEq, Eq, Structural, Debug)]
pub enum Command {
    On(Tag),
    Off(Tag),
    SetValue(Tag, Field, i64),
}

/// A node after a field of it is set.  A selector the node does not have
/// leaves it unchanged.
pub open spec fn node_apply(n: NodeV, f: Field, v: int) -> NodeV {
    match n {
        NodeV::Link(x) => match f {
            Field::Value => NodeV::Link(Link { value: v as i64 }),
            _ => n,
        },
        NodeV::Sine(x) => match f {
            Field::Hz => NodeV::Sine(SineOsc { hz: In::Fix(v as i64), ..x }),
            Field::Amp => NodeV::Sine(SineOsc { amp: In::Fix(v as i64), ..x }),
            _ => n,
        },
        NodeV::Square(x) => match f {
            Field::Hz => NodeV::Square(SquareOsc { hz: In::Fix(v as i64), ..x }),
            Field::Amp => NodeV::Square(SquareOsc { amp: In::Fix(v as i64), ..x }),
            Field::Duty => NodeV::Square(SquareOsc { duty: In::Fix(v as i64), ..x }),
            _ => n,
        },
        NodeV::Ramp(x) => match f {
            Field::Hz => NodeV::Ramp(RampOsc { hz: In::Fix(v as i64), ..x }),
            Field::Amp => NodeV::Ramp(RampOsc { amp: In::Fix(v as i64), ..x }),
            _ => n,
        },
        NodeV::Saw(x) => match f {
            Field::Hz => NodeV::Saw(SawOsc { hz: In::Fix(v as i64), ..x }),
            Field::Amp => NodeV::Saw(SawOsc { amp: In::Fix(v as i64), ..x }),
            _ => n,
        },
        NodeV::Triangle(x) => match f {
            Field::Hz => NodeV::Triangle(TriangleOsc { hz: In::Fix(v as i64), ..x }),
            Field::Amp => NodeV::Triangle(TriangleOsc { amp: In::Fix(v as i64), ..x }),
            _ => n,
        },
        NodeV::Noise(x) => match f {
            Field::Amp => NodeV::Noise(WhiteNoise { amp: In::Fix(v as i64), ..x }),
            _ => n,
        },
        NodeV::Fourier(x) => match f {
            Field::Hz => NodeV::Fourier(FourierV { hz: v as i64, ..x }),
            Field::Volume => NodeV::Fourier(FourierV { volume: v as i64, ..x }),
            _ => n,
        },
        NodeV::Env(x) => match f {
            Field::Attack => NodeV::Env(Adsr { attack: In::Fix(v as i64), ..x }),
            Field::Decay => NodeV::Env(Adsr { decay: In::Fix(v as i64), ..x }),
            Field::SustainTime => NodeV::Env(Adsr { sustain_time: In::Fix(v as i64), ..x }),
            Field::SustainLevel => NodeV::Env(Adsr { sustain_level: In::Fix(v as i64), ..x }),
            Field::Release => NodeV::Env(Adsr { release: In::Fix(v as i64), ..x }),
            _ => n,
        },
        NodeV::Mix(x) => match f {
            Field::Level => NodeV::Mix(MixerV { level: In::Fix(v as i64), ..x }),
            _ => n,
        },
        NodeV::Lerp(x) => match f {
            Field::Alpha => NodeV::Lerp(Lerp { alpha: In::Fix(v as i64), ..x }),
            _ => n,
        },
        NodeV::Lerp3(x) => match f {
            Field::Knob => NodeV::Lerp3(Lerp3 { knob: In::Fix(v as i64), ..x }),
            _ => n,
        },
        NodeV::Modulator(x) => match f {
            Field::BaseHz => NodeV::Modulator(Modulator { base_hz: In::Fix(v as i64), ..x }),
            Field::ModHz => NodeV::Modulator(Modulator { mod_hz: In::Fix(v as i64), ..x }),
            Field::ModIdx => NodeV::Modulator(Modulator { mod_idx: In::Fix(v as i64), ..x }),
            _ => n,
        },
        NodeV::Product(_) => n,
        NodeV::Vca(x) => match f {
            Field::Level => NodeV::Vca(Vca { level: In::Fix(v as i64), ..x }),
            _ => n,
        },
        NodeV::Pitch(x) => match f {
            Field::Step => NodeV::Pitch(MidiPitch { step: spec_clamp(v, 0, 127) as u8 }),
            _ => n,
        },
        NodeV::Control(x) => match f {
            Field::CtrlValue => NodeV::Control(
                MidiControl { value: spec_clamp(v, 0, 127) as u8, ..x },
            ),
            _ => n,
        },
        NodeV::Biquad(x) => match f {
            Field::Cutoff => NodeV::Biquad(BiquadFilter { cutoff: In::Fix(v as i64), ..x }),
            Field::Q => NodeV::Biquad(BiquadFilter { q: In::Fix(v as i64), ..x }),
            Field::Knob => NodeV::Biquad(BiquadFilter { knob: In::Fix(v as i64), ..x }),
            Field::Active => NodeV::Biquad(BiquadFilter { active: v != 0, ..x }),
            _ => n,
        },
        NodeV::Lowpass(x) => match f {
            Field::Cutoff => NodeV::Lowpass(Lpf { cutoff: In::Fix(v as i64), ..x }),
            Field::Q => NodeV::Lowpass(Lpf { q: In::Fix(v as i64), ..x }),
            _ => n,
        },
        NodeV::Delay(x) => match f {
            Field::DelayTime => NodeV::Delay(DelayV { time: In::Fix(v as i64), ..x }),
            _ => n,
        },
        NodeV::Comb(x) => match f {
            Field::Feedback => NodeV::Comb(CombV { feedback: v as i64, ..x }),
            Field::Damping => NodeV::Comb(CombV { damping: v as i64, ..x }),
            _ => n,
        },
        NodeV::AllPass(x) => match f {
            Field::Feedback => NodeV::AllPass(AllPassV { feedback: v as i64, ..x }),
            _ => n,
        },
        NodeV::Reverb(x) => match f {
            Field::Dampening => NodeV::Reverb(spec_verb_set_dampening(x, v)),
            Field::RoomSize => NodeV::Reverb(spec_verb_set_room_size(x, v)),
            Field::Wet => NodeV::Reverb(spec_verb_set_wet(x, v)),
            Field::Width => NodeV::Reverb(spec_verb_set_width(x, v)),
            Field::Dry => NodeV::Reverb(FreeverbV { dry: v as i64, ..x }),
            Field::Freeze => NodeV::Reverb(spec_verb_set_frozen(x, v != 0)),
            _ => n,
        },
        NodeV::Guide(x) => match f {
            Field::Hz => NodeV::Guide(WaveGuideV { hz: In::Fix(v as i64), ..x }),
            Field::WetDecay => NodeV::Guide(WaveGuideV { wet_decay: In::Fix(v as i64), ..x }),
            Field::Attack => NodeV::Guide(
                WaveGuideV { envelope: Adsr { attack: In::Fix(v as i64), ..x.envelope }, ..x },
            ),
            Field::Decay => NodeV::Guide(
                WaveGuideV { envelope: Adsr { decay: In::Fix(v as i64), ..x.envelope }, ..x },
            ),
            Field::SustainLevel => NodeV::Guide(
                WaveGuideV {
                    envelope: Adsr { sustain_level: In::Fix(v as i64), ..x.envelope },
                    ..x
                },
            ),
            Field::Release => NodeV::Guide(
                WaveGuideV { envelope: Adsr { release: In::Fix(v as i64), ..x.envelope }, ..x },
            ),
            Field::Cutoff => NodeV::Guide(
                WaveGuideV { lpf: Lpf { cutoff: In::Fix(v as i64), ..x.lpf }, ..x },
            ),
            _ => n,
        },
    }
}

/// A node after its gate moves: envelope clocks restart; a node without
/// a gate is unchanged.
pub open spec fn node_gate(n: NodeV, on: bool) -> NodeV {
    match n {
        NodeV::Env(x) => NodeV::Env(Adsr { clock: 0i64, triggered: on, ..x }),
        NodeV::Guide(x) => NodeV::Guide(
            WaveGuideV {
                envelope: Adsr { clock: 0i64, triggered: on, ..x.envelope },
                ..x
            },
        ),
        _ => n,
    }
}

impl NodeKind {
    /// Set a field of this node; a selector the node does not have is
    /// dropped.
    #[verifier::rlimit(100)]
    pub fn apply(&mut self, f: Field, v: i64)
        requires
            node_wf(kind_view(*old(self))),
        ensures
            kind_view(*final(self)) == node_apply(kind_view(*old(self)), f, v as int),
            node_wf(kind_view(*final(self))),
    {
        match self {
            NodeKind::Link(x) => match f {
                Field::Value => x.value = v,
                _ => (),
            },
            NodeKind::Sine(x) => match f {
                Field::Hz => x.hz = In::Fix(v),
                Field::Amp => x.amp = In::Fix(v),
                _ => (),
            },
            NodeKind::Square(x) => match f {
                Field::Hz => x.hz = In::Fix(v),
                Field::Amp => x.amp = In::Fix(v),
                Field::Duty => x.duty = In::Fix(v),
                _ => (),
            },
            NodeKind::Ramp(x) => match f {
                Field::Hz => x.hz = In::Fix(v),
                Field::Amp => x.amp = In::Fix(v),
                _ => (),
            },
            NodeKind::Saw(x) => match f {
                Field::Hz => x.hz = In::Fix(v),
                Field::Amp => x.amp = In::Fix(v),
                _ => (),
            },
            NodeKind::Triangle(x) => match f {
                Field::Hz => x.hz = In::Fix(v),
                Field::Amp => x.amp = In::Fix(v),
                _ => (),
            },
            NodeKind::Noise(x) => match f {
                Field::Amp => x.amp = In::Fix(v),
                _ => (),
            },
            NodeKind::Fourier(x) => match f {
                Field::Hz => x.set_hz(v),
                Field::Volume => x.set_volume(v),
                _ => (),
            },
            NodeKind::Env(x) => match f {
                Field::Attack => x.attack = In::Fix(v),
                Field::Decay => x.decay = In::Fix(v),
                Field::SustainTime => x.sustain_time = In::Fix(v),
                Field::SustainLevel => x.sustain_level = In::Fix(v),
                Field::Release => x.release = In::Fix(v),
                _ => (),
            },
            NodeKind::Mix(x) => match f {
                Field::Level => x.level = In::Fix(v),
                _ => (),
            },
            NodeKind::Lerp(x) => match f {
                Field::Alpha => x.alpha = In::Fix(v),
                _ => (),
            },
            NodeKind::Lerp3(x) => match f {
                Field::Knob => x.set_knob(In::Fix(v)),
                _ => (),
            },
            NodeKind::Modulator(x) => match f {
                Field::BaseHz => x.base_hz = In::Fix(v),
                Field::ModHz => x.mod_hz = In::Fix(v),
                Field::ModIdx => x.mod_idx = In::Fix(v),
                _ => (),
            },
            NodeKind::Product(_) => (),
            NodeKind::Vca(x) => match f {
                Field::Level => x.level = In::Fix(v),
                _ => (),
            },
            NodeKind::Pitch(x) => match f {
                Field::Step => x.set_step(fx_clamp(v, 0, 127) as u8),
                _ => (),
            },
            NodeKind::Control(x) => match f {
                Field::CtrlValue => x.set_value(fx_clamp(v, 0, 127) as u8),
                _ => (),
            },
            NodeKind::Biquad(x) => match f {
                Field::Cutoff => x.cutoff = In::Fix(v),
                Field::Q => x.q = In::Fix(v),
                Field::Knob => x.knob = In::Fix(v),
                Field::Active => x.set_active(v != 0),
                _ => (),
            },
            NodeKind::Lowpass(x) => match f {
                Field::Cutoff => x.set_cutoff(In::Fix(v)),
                Field::Q => x.set_q(In::Fix(v)),
                _ => (),
            },
            NodeKind::Delay(x) => match f {
                Field::DelayTime => x.set_time(In::Fix(v)),
                _ => (),
            },
            NodeKind::Comb(x) => match f {
                Field::Feedback => x.set_feedback(v),
                Field::Damping => x.set_damping(v),
                _ => (),
            },
            NodeKind::AllPass(x) => match f {
                Field::Feedback => x.set_feedback(v),
                _ => (),
            },
            NodeKind::Reverb(x) => match f {
                Field::Dampening => x.set_dampening(v),
                Field::RoomSize => x.set_room_size(v),
                Field::Wet => x.set_wet(v),
                Field::Width => x.set_width(v),
                Field::Dry => x.set_dry(v),
                Field::Freeze => x.set_frozen(v != 0),
                _ => (),
            },
            NodeKind::Guide(x) => match f {
                Field::Hz => x.hz(In::Fix(v)),
                Field::WetDecay => x.wet_decay(In::Fix(v)),
                Field::Attack => x.attack(In::Fix(v)),
                Field::Decay => x.decay(In::Fix(v)),
                Field::SustainLevel => x.sustain(In::Fix(v)),
                Field::Release => x.release(In::Fix(v)),
                Field::Cutoff => x.cutoff_freq(In::Fix(v)),
                _ => (),
            },
        }
    }

    /// Move this node's gate; a node without a gate is unchanged.
    pub fn gate(&mut self, on: bool)
        requires
            node_wf(kind_view(*old(self))),
        ensures
            kind_view(*final(self)) == node_gate(kind_view(*old(self)), on),
            node_wf(kind_view(*final(self))),
    {
        match self {
            NodeKind::Env(x) => {
                if on {
                    x.on();
                } else {
                    x.off();
                }
            },
            NodeKind::Guide(x) => {
                if on {
                    x.on();
                } else {
                    x.off();
                }
            },
            _ => (),
        }
    }
}

/// The position of tag `t` in the tag list.
pub open spec fn tag_index(tags: Seq<u64>, t: u64) -> int {
    choose|i: int| 0 <= i < tags.len() && tags[i] == t
}

/// A graph after one command: the targeted node changed as the command
/// says, every other node untouched; an absent tag drops the command.
pub open spec fn rack_apply(v: RackV, c: Command) -> RackV {
    match c {
        Command::On(t) => if has_tag(v.tags, t) {
            RackV { nodes: v.nodes.update(tag_index(v.tags, t), node_gate(v.nodes[tag_index(v.tags, t)], true)), ..v }
        } else {
            v
        },
        Command::Off(t) => if has_tag(v.tags, t) {
            RackV { nodes: v.nodes.update(tag_index(v.tags, t), node_gate(v.nodes[tag_index(v.tags, t)], false)), ..v }
        } else {
            v
        },
        Command::SetValue(t, f, val) => if has_tag(v.tags, t) {
            RackV { nodes: v.nodes.update(tag_index(v.tags, t), node_apply(v.nodes[tag_index(v.tags, t)], f, val as int)), ..v }
        } else {
            v
        },
    }
}

/// A graph after a whole queue of commands, applied in enqueue order.
pub open spec fn rack_apply_all(v: RackV, cmds: Seq<Command>) -> RackV
    decreases cmds.len(),
{
    if cmds.len() == 0 {
        v
    } else {
        rack_apply(rack_apply_all(v, cmds.drop_last()), cmds.last())
    }
}

impl Rack {
    /// Apply one command; a command for an absent tag is dropped.
    pub fn apply_command(&mut self, c: Command)
        requires
            rack_wf(old(self)@),
        ensures
            final(self)@ == rack_apply(old(self)@, c),
            rack_wf(final(self)@),
    {
        let ghost orig = self@;
        let t = match c {
            Command::On(t) => t,
            Command::Off(t) => t,
            Command::SetValue(t, _, _) => t,
        };
        match crate::sig::find_tag(&self.tags, t) {
            Some(i) => {
                proof {
                    let c_idx = tag_index(orig.tags, t);
                    assert(orig.tags[c_idx] == t);
                    assert(c_idx == i);
                }
                match c {
                    Command::On(_) => self.kinds[i].gate(true),
                    Command::Off(_) => self.kinds[i].gate(false),
                    Command::SetValue(_, f, v) => self.kinds[i].apply(f, v),
                }
                proof {
                    assert(self@.nodes =~= rack_apply(orig, c).nodes);
                    assert forall|j: int|
                        0 <= j < self@.nodes.len() implies node_wf(
                        #[trigger] self@.nodes[j],
                    ) by {
                        if j != i {
                            assert(self@.nodes[j] == orig.nodes[j]);
                        }
                    }
                }
            },
            None => (),
        }
    }

    /// Drain a queue: apply every pending command, in enqueue order.
    pub fn apply_commands(&mut self, cmds: &Vec<Command>)
        requires
            rack_wf(old(self)@),
        ensures
            final(self)@ == rack_apply_all(old(self)@, cmds@),
            rack_wf(final(self)@),
    {
        let ghost orig = self@;
        let n = cmds.len();
        let mut i: usize = 0;
        while i < n
            invariant
                rack_wf(self@),
                n == cmds@.len(),
                i <= n,
                self@ == rack_apply_all(orig, cmds@.take(i as int)),
            decreases n - i,
        {
            proof {
                assert(cmds@.take(i as int + 1).drop_last() =~= cmds@.take(i as int));
                assert(cmds@.take(i as int + 1).last() == cmds@[i as int]);
            }
            self.apply_command(cmds[i]);
            i = i + 1;
        }
        proof {
            assert(cmds@.take(n as int) =~= cmds@);
        }
    }

    /// Gate the node with the given tag on.
    pub fn on(&mut self, tag: Tag)
        requires
            rack_wf(old(self)@),
        ensures
            final(self)@ == rack_apply(old(self)@, Command::On(tag)),
            rack_wf(final(self)@),
    {
        self.apply_command(Command::On(tag));
    }

    /// Gate the node with the given tag off.
    pub fn off(&mut self, tag: Tag)
        requires
            rack_wf(old(self)@),
        ensures
            final(self)@ == rack_apply(old(self)@, Command::Off(tag)),
            rack_wf(final(self)@),
    {
        self.apply_command(Command::Off(tag));
    }
}

/// Evaluation determinism: for a fixed graph and a fixed command
/// sequence, draining the queue and evaluating is a function of the
/// graph's mathematical state alone — two equal states under equal
/// command sequences end equal, sample for sample.
pub proof fn lemma_evaluation_deterministic(
    a: RackV,
    b: RackV,
    cmds_a: Seq<Command>,
    cmds_b: Seq<Command>,
    sr: int,
)
    requires
        a == b,
        cmds_a == cmds_b,
    ensures
        crate::rack::rack_eval(rack_apply_all(a, cmds_a), sr) == crate::rack::rack_eval(
            rack_apply_all(b, cmds_b),
            sr,
        ),
{
}

/// The constant payload of a binding, when it has one.
pub open spec fn in_fix(i: In) -> Option<i64> {
    match i {
        In::Fix(x) => Some(x),
        In::Cv(_) => None,
    }
}

/// Read back the stored parameter a field selector addresses on a node,
/// when the node has it.
pub open spec fn node_field(n: NodeV, f: Field) -> Option<i64> {
    match n {
        NodeV::Link(x) => match f {
            Field::Value => Some(x.value),
            _ => None,
        },
        NodeV::Sine(x) => match f {
            Field::Hz => in_fix(x.hz),
            Field::Amp => in_fix(x.amp),
            _ => None,
        },
        NodeV::Square(x) => match f {
            Field::Hz => in_fix(x.hz),
            Field::Amp => in_fix(x.amp),
            Field::Duty => in_fix(x.duty),
            _ => None,
        },
        NodeV::Ramp(x) => match f {
            Field::Hz => in_fix(x.hz),
            Field::Amp => in_fix(x.amp),
            _ => None,
        },
        NodeV::Saw(x) => match f {
            Field::Hz => in_fix(x.hz),
            Field::Amp => in_fix(x.amp),
            _ => None,
        },
        NodeV::Triangle(x) => match f {
            Field::Hz => in_fix(x.hz),
            Field::Amp => in_fix(x.amp),
            _ => None,
        },
        NodeV::Noise(x) => match f {
            Field::Amp => in_fix(x.amp),
            _ => None,
        },
        NodeV::Fourier(x) => match f {
            Field::Hz => Some(x.hz),
            Field::Volume => Some(x.volume),
            _ => None,
        },
        NodeV::Env(x) => match f {
            Field::Attack => in_fix(x.attack),
            Field::Decay => in_fix(x.decay),
            Field::SustainTime => in_fix(x.sustain_time),
            Field::SustainLevel => in_fix(x.sustain_level),
            Field::Release => in_fix(x.release),
            _ => None,
        },
        NodeV::Mix(x) => match f {
            Field::Level => in_fix(x.level),
            _ => None,
        },
        NodeV::Lerp(x) => match f {
            Field::Alpha => in_fix(x.alpha),
            _ => None,
        },
        NodeV::Lerp3(x) => match f {
            Field::Knob => in_fix(x.knob),
            _ => None,
        },
        NodeV::Modulator(x) => match f {
            Field::BaseHz => in_fix(x.base_hz),
            Field::ModHz => in_fix(x.mod_hz),
            Field::ModIdx => in_fix(x.mod_idx),
            _ => None,
        },
        NodeV::Product(_) => None,
        NodeV::Vca(x) => match f {
            Field::Level => in_fix(x.level),
            _ => None,
        },
        NodeV::Pitch(x) => match f {
            Field::Step => Some(x.step as i64),
            _ => None,
        },
        NodeV::Control(x) => match f {
            Field::CtrlValue => Some(x.value as i64),
            _ => None,
        },
        NodeV::Biquad(x) => match f {
            Field::Cutoff => in_fix(x.cutoff),
            Field::Q => in_fix(x.q),
            Field::Knob => in_fix(x.knob),
            Field::Active => Some(
                if x.active {
                    1i64
                } else {
                    0i64
                },
            ),
            _ => None,
        },
        NodeV::Lowpass(x) => match f {
            Field::Cutoff => in_fix(x.cutoff),
            Field::Q => in_fix(x.q),
            _ => None,
        },
        NodeV::Delay(x) => match f {
            Field::DelayTime => in_fix(x.time),
            _ => None,
        },
        NodeV::Comb(x) => match f {
            Field::Feedback => Some(x.feedback),
            Field::Damping => Some(x.damping),
            _ => None,
        },
        NodeV::AllPass(x) => match f {
            Field::Feedback => Some(x.feedback),
            _ => None,
        },
        NodeV::Reverb(x) => match f {
            Field::Dampening => Some(x.dampening),
            Field::RoomSize => Some(x.room_size),
            Field::Wet => Some(x.wet),
            Field::Dry => Some(x.dry),
            Field::Width => Some(x.width),
            Field::Freeze => Some(
                if x.frozen {
                    1i64
                } else {
                    0i64
                },
            ),
            _ => None,
        },
        NodeV::Guide(x) => match f {
            Field::Hz => in_fix(x.hz),
            Field::WetDecay => in_fix(x.wet_decay),
            Field::Attack => in_fix(x.envelope.attack),
            Field::Decay => in_fix(x.envelope.decay),
            Field::SustainLevel => in_fix(x.envelope.sustain_level),
            Field::Release => in_fix(x.envelope.release),
            Field::Cutoff => in_fix(x.lpf.cutoff),
            _ => None,
        },
    }
}

/// What a field holds right after `SetValue(_, f, v)` lands on a node of
/// this shape: the raw value for most fields, clamped for the seven-bit
/// ones, scaled for the reverberator's internally scaled controls, a flag
/// for the switches — or nothing, when the node lacks the field.  It
/// depends only on the node's shape, never on its current values.
pub open spec fn stored_of(n: NodeV, f: Field, v: int) -> Option<i64> {
    match n {
        NodeV::Link(_) => match f {
            Field::Value => Some(v as i64),
            _ => None,
        },
        NodeV::Sine(_) => match f {
            Field::Hz => Some(v as i64),
            Field::Amp => Some(v as i64),
            _ => None,
        },
        NodeV::Square(_) => match f {
            Field::Hz => Some(v as i64),
            Field::Amp => Some(v as i64),
            Field::Duty => Some(v as i64),
            _ => None,
        },
        NodeV::Ramp(_) => match f {
            Field::Hz => Some(v as i64),
            Field::Amp => Some(v as i64),
            _ => None,
        },
        NodeV::Saw(_) => match f {
            Field::Hz => Some(v as i64),
            Field::Amp => Some(v as i64),
            _ => None,
        },
        NodeV::Triangle(_) => match f {
            Field::Hz => Some(v as i64),
            Field::Amp => Some(v as i64),
            _ => None,
        },
        NodeV::Noise(_) => match f {
            Field::Amp => Some(v as i64),
            _ => None,
        },
        NodeV::Fourier(_) => match f {
            Field::Hz => Some(v as i64),
            Field::Volume => Some(v as i64),
            _ => None,
        },
        NodeV::Env(_) => match f {
            Field::Attack => Some(v as i64),
            Field::Decay => Some(v as i64),
            Field::SustainTime => Some(v as i64),
            Field::SustainLevel => Some(v as i64),
            Field::Release => Some(v as i64),
            _ => None,
        },
        NodeV::Mix(_) => match f {
            Field::Level => Some(v as i64),
            _ => None,
        },
        NodeV::Lerp(_) => match f {
            Field::Alpha => Some(v as i64),
            _ => None,
        },
        NodeV::Lerp3(_) => match f {
            Field::Knob => Some(v as i64),
            _ => None,
        },
        NodeV::Modulator(_) => match f {
            Field::BaseHz => Some(v as i64),
            Field::ModHz => Some(v as i64),
            Field::ModIdx => Some(v as i64),
            _ => None,
        },
        NodeV::Product(_) => None,
        NodeV::Vca(_) => match f {
            Field::Level => Some(v as i64),
            _ => None,
        },
        NodeV::Pitch(_) => match f {
            Field::Step => Some(spec_clamp(v, 0, 127) as i64),
            _ => None,
        },
        NodeV::Control(_) => match f {
            Field::CtrlValue => Some(spec_clamp(v, 0, 127) as i64),
            _ => None,
        },
        NodeV::Biquad(_) => match f {
            Field::Cutoff => Some(v as i64),
            Field::Q => Some(v as i64),
            Field::Knob => Some(v as i64),
            Field::Active => Some(
                if v != 0 {
                    1i64
                } else {
                    0i64
                },
            ),
            _ => None,
        },
        NodeV::Lowpass(_) => match f {
            Field::Cutoff => Some(v as i64),
            Field::Q => Some(v as i64),
            _ => None,
        },
        NodeV::Delay(_) => match f {
            Field::DelayTime => Some(v as i64),
            _ => None,
        },
        NodeV::Comb(_) => match f {
            Field::Feedback => Some(v as i64),
            Field::Damping => Some(v as i64),
            _ => None,
        },
        NodeV::AllPass(_) => match f {
            Field::Feedback => Some(v as i64),
            _ => None,
        },
        NodeV::Reverb(_) => match f {
            Field::Dampening => Some(crate::fx::spec_mul(v, crate::verb::SCALE_DAMPENING as int) as i64),
            Field::RoomSize => Some(
                crate::fx::spec_add(
                    crate::fx::spec_mul(v, crate::verb::SCALE_ROOM as int),
                    crate::verb::OFFSET_ROOM as int,
                ) as i64,
            ),
            Field::Wet => Some(crate::fx::spec_mul(v, crate::verb::SCALE_WET as int) as i64),
            Field::Width => Some(v as i64),
            Field::Dry => Some(v as i64),
            Field::Freeze => Some(
                if v != 0 {
                    1i64
                } else {
                    0i64
                },
            ),
            _ => None,
        },
        NodeV::Guide(_) => match f {
            Field::Hz => Some(v as i64),
            Field::WetDecay => Some(v as i64),
            Field::Attack => Some(v as i64),
            Field::Decay => Some(v as i64),
            Field::SustainLevel => Some(v as i64),
            Field::Release => Some(v as i64),
            Field::Cutoff => Some(v as i64),
            _ => None,
        },
    }
}

/// Setting a field stores exactly the value `stored_of` names.
pub proof fn lemma_node_apply_field(n: NodeV, f: Field, v: int)
    ensures
        node_field(node_apply(n, f, v), f) == stored_of(n, f, v),
{
    match n {
        NodeV::Link(_) => {
            if f == Field::Value {
                assert(node_field(node_apply(n, f, v), f) == stored_of(n, f, v));
            } else {
                assert(node_apply(n, f, v) == n);
                assert(stored_of(n, f, v) is None);
                assert(node_field(node_apply(n, f, v), f) == stored_of(n, f, v));
            }
        },
        NodeV::Sine(_) => {
            if f == Field::Hz {
                assert(node_field(node_apply(n, f, v), f) == stored_of(n, f, v));
            } else if f == Field::Amp {
                assert(node_field(node_apply(n, f, v), f) == stored_of(n, f, v));
            } else {
                assert(node_apply(n, f, v) == n);
                assert(stored_of(n, f, v) is None);
                assert(node_field(node_apply(n, f, v), f) == stored_of(n, f, v));
            }
        },
        NodeV::Square(_) => {
            if f == Field::Hz {
                assert(node_field(node_apply(n, f, v), f) == stored_of(n, f, v));
            } else if f == Field::Amp {
                assert(node_field(node_apply(n, f, v), f) == stored_of(n, f, v));
            } else if f == Field::Duty {
                assert(node_field(node_apply(n, f, v), f) == stored_of(n, f, v));
            } else {
                assert(node_apply(n, f, v) == n);
                assert(stored_of(n, f, v) is None);
                assert(node_field(node_apply(n, f, v), f) == stored_of(n, f, v));
            }
        },
        NodeV::Ramp(_) => {
            if f == Field::Hz {
                assert(node_field(node_apply(n, f, v), f) == stored_of(n, f, v));
            } else if f == Field::Amp {
                assert(node_field(node_apply(n, f, v), f) == stored_of(n, f, v));
            } else {
                assert(node_apply(n, f, v) == n);
                assert(stored_of(n, f, v) is None);
                assert(node_field(node_apply(n, f, v), f) == stored_of(n, f, v));
            }
        },
        NodeV::Saw(_) => {
            if f == Field::Hz {
                assert(node_field(node_apply(n, f, v), f) == stored_of(n, f, v));
            } else if f == Field::Amp {
                assert(node_field(node_apply(n, f, v), f) == stored_of(n, f, v));
            } else {
                assert(node_apply(n, f, v) == n);
                assert(stored_of(n, f, v) is None);
                assert(node_field(node_apply(n, f, v), f) == stored_of(n, f, v));
            }
        },
        NodeV::Triangle(_) => {
            if f == Field::Hz {
                assert(node_field(node_apply(n, f, v), f) == stored_of(n, f, v));
            } else if f == Field::Amp {
                assert(node_field(node_apply(n, f, v), f) == stored_of(n, f, v));
            } else {
                assert(node_apply(n, f, v) == n);
                assert(stored_of(n, f, v) is None);
                assert(node_field(node_apply(n, f, v), f) == stored_of(n, f, v));
            }
        },
        NodeV::Noise(_) => {
            if f == Field::Amp {
                assert(node_field(node_apply(n, f, v), f) == stored_of(n, f, v));
            } else {
                assert(node_apply(n, f, v) == n);
                assert(stored_of(n, f, v) is None);
                assert(node_field(node_apply(n, f, v), f) == stored_of(n, f, v));
            }
        },
        NodeV::Fourier(_) => {
            if f == Field::Hz {
                assert(node_field(node_apply(n, f, v), f) == stored_of(n, f, v));
            } else if f == Field::Volume {
                assert(node_field(node_apply(n, f, v), f) == stored_of(n, f, v));
            } else {
                assert(node_apply(n, f, v) == n);
                assert(stored_of(n, f, v) is None);
                assert(node_field(node_apply(n, f, v), f) == stored_of(n, f, v));
            }
        },
        NodeV::Env(_) => {
            if f == Field::Attack {
                assert(node_field(node_apply(n, f, v), f) == stored_of(n, f, v));
            } else if f == Field::Decay {
                assert(node_field(node_apply(n, f, v), f) == stored_of(n, f, v));
            } else if f == Field::SustainTime {
                assert(node_field(node_apply(n, f, v), f) == stored_of(n, f, v));
            } else if f == Field::SustainLevel {
                assert(node_field(node_apply(n, f, v), f) == stored_of(n, f, v));
            } else if f == Field::Release {
                assert(node_field(node_apply(n, f, v), f) == stored_of(n, f, v));
            } else {
                assert(node_apply(n, f, v) == n);
                assert(stored_of(n, f, v) is None);
                assert(node_field(node_apply(n, f, v), f) == stored_of(n, f, v));
            }
        },
        NodeV::Mix(_) => {
            if f == Field::Level {
                assert(node_field(node_apply(n, f, v), f) == stored_of(n, f, v));
            } else {
                assert(node_apply(n, f, v) == n);
                assert(stored_of(n, f, v) is None);
                assert(node_field(node_apply(n, f, v), f) == stored_of(n, f, v));
            }
        },
        NodeV::Lerp(_) => {
            if f == Field::Alpha {
                assert(node_field(node_apply(n, f, v), f) == stored_of(n, f, v));
            } else {
                assert(node_apply(n, f, v) == n);
                assert(stored_of(n, f, v) is None);
                assert(node_field(node_apply(n, f, v), f) == stored_of(n, f, v));
            }
        },
        NodeV::Lerp3(_) => {
            if f == Field::Knob {
                assert(node_field(node_apply(n, f, v), f) == stored_of(n, f, v));
            } else {
                assert(node_apply(n, f, v) == n);
                assert(stored_of(n, f, v) is None);
                assert(node_field(node_apply(n, f, v), f) == stored_of(n, f, v));
            }
        },
        NodeV::Modulator(_) => {
            if f == Field::BaseHz {
                assert(node_field(node_apply(n, f, v), f) == stored_of(n, f, v));
            } else if f == Field::ModHz {
                assert(node_field(node_apply(n, f, v), f) == stored_of(n, f, v));
            } else if f == Field::ModIdx {
                assert(node_field(node_apply(n, f, v), f) == stored_of(n, f, v));
            } else {
                assert(node_apply(n, f, v) == n);
                assert(stored_of(n, f, v) is None);
                assert(node_field(node_apply(n, f, v), f) == stored_of(n, f, v));
            }
        },
        NodeV::Product(_) => {
            assert(node_apply(n, f, v) == n);
            assert(node_field(node_apply(n, f, v), f) == stored_of(n, f, v));
        },
        NodeV::Vca(_) => {
            if f == Field::Level {
                assert(node_field(node_apply(n, f, v), f) == stored_of(n, f, v));
            } else {
                assert(node_apply(n, f, v) == n);
                assert(stored_of(n, f, v) is None);
                assert(node_field(node_apply(n, f, v), f) == stored_of(n, f, v));
            }
        },
        NodeV::Pitch(_) => {
            if f == Field::Step {
                assert(node_field(node_apply(n, f, v), f) == stored_of(n, f, v));
            } else {
                assert(node_apply(n, f, v) == n);
                assert(stored_of(n, f, v) is None);
                assert(node_field(node_apply(n, f, v), f) == stored_of(n, f, v));
            }
        },
        NodeV::Control(_) => {
            if f == Field::CtrlValue {
                assert(node_field(node_apply(n, f, v), f) == stored_of(n, f, v));
            } else {
                assert(node_apply(n, f, v) == n);
                assert(stored_of(n, f, v) is None);
                assert(node_field(node_apply(n, f, v), f) == stored_of(n, f, v));
            }
        },
        NodeV::Biquad(_) => {
            if f == Field::Cutoff {
                assert(node_field(node_apply(n, f, v), f) == stored_of(n, f, v));
            } else if f == Field::Q {
                assert(node_field(node_apply(n, f, v), f) == stored_of(n, f, v));
            } else if f == Field::Knob {
                assert(node_field(node_apply(n, f, v), f) == stored_of(n, f, v));
            } else if f == Field::Active {
                assert(node_field(node_apply(n, f, v), f) == stored_of(n, f, v));
            } else {
                assert(node_apply(n, f, v) == n);
                assert(stored_of(n, f, v) is None);
                assert(node_field(node_apply(n, f, v), f) == stored_of(n, f, v));
            }
        },
        NodeV::Lowpass(_) => {
            if f == Field::Cutoff {
                assert(node_field(node_apply(n, f, v), f) == stored_of(n, f, v));
            } else if f == Field::Q {
                assert(node_field(node_apply(n, f, v), f) == stored_of(n, f, v));
            } else {
                assert(node_apply(n, f, v) == n);
                assert(stored_of(n, f, v) is None);
                assert(node_field(node_apply(n, f, v), f) == stored_of(n, f, v));
            }
        },
        NodeV::Delay(_) => {
            if f == Field::DelayTime {
                assert(node_field(node_apply(n, f, v), f) == stored_of(n, f, v));
            } else {
                assert(node_apply(n, f, v) == n);
                assert(stored_of(n, f, v) is None);
                assert(node_field(node_apply(n, f, v), f) == stored_of(n, f, v));
            }
        },
        NodeV::Comb(_) => {
            if f == Field::Feedback {
                assert(node_field(node_apply(n, f, v), f) == stored_of(n, f, v));
            } else if f == Field::Damping {
                assert(node_field(node_apply(n, f, v), f) == stored_of(n, f, v));
            } else {
                assert(node_apply(n, f, v) == n);
                assert(stored_of(n, f, v) is None);
                assert(node_field(node_apply(n, f, v), f) == stored_of(n, f, v));
            }
        },
        NodeV::AllPass(_) => {
            if f == Field::Feedback {
                assert(node_field(node_apply(n, f, v), f) == stored_of(n, f, v));
            } else {
                assert(node_apply(n, f, v) == n);
                assert(stored_of(n, f, v) is None);
                assert(node_field(node_apply(n, f, v), f) == stored_of(n, f, v));
            }
        },
        NodeV::Reverb(_) => {
            if f == Field::Dampening {
                assert(node_field(node_apply(n, f, v), f) == stored_of(n, f, v));
            } else if f == Field::RoomSize {
                assert(node_field(node_apply(n, f, v), f) == stored_of(n, f, v));
            } else if f == Field::Wet {
                assert(node_field(node_apply(n, f, v), f) == stored_of(n, f, v));
            } else if f == Field::Width {
                assert(node_field(node_apply(n, f, v), f) == stored_of(n, f, v));
            } else if f == Field::Dry {
                assert(node_field(node_apply(n, f, v), f) == stored_of(n, f, v));
            } else if f == Field::Freeze {
                assert(node_field(node_apply(n, f, v), f) == stored_of(n, f, v));
            } else {
                assert(node_apply(n, f, v) == n);
                assert(stored_of(n, f, v) is None);
                assert(node_field(node_apply(n, f, v), f) == stored_of(n, f, v));
            }
        },
        NodeV::Guide(_) => {
            if f == Field::Hz {
                assert(node_field(node_apply(n, f, v), f) == stored_of(n, f, v));
            } else if f == Field::WetDecay {
                assert(node_field(node_apply(n, f, v), f) == stored_of(n, f, v));
            } else if f == Field::Attack {
                assert(node_field(node_apply(n, f, v), f) == stored_of(n, f, v));
            } else if f == Field::Decay {
                assert(node_field(node_apply(n, f, v), f) == stored_of(n, f, v));
            } else if f == Field::SustainLevel {
                assert(node_field(node_apply(n, f, v), f) == stored_of(n, f, v));
            } else if f == Field::Release {
                assert(node_field(node_apply(n, f, v), f) == stored_of(n, f, v));
            } else if f == Field::Cutoff {
                assert(node_field(node_apply(n, f, v), f) == stored_of(n, f, v));
            } else {
                assert(node_apply(n, f, v) == n);
                assert(stored_of(n, f, v) is None);
                assert(node_field(node_apply(n, f, v), f) == stored_of(n, f, v));
            }
        },
    }
}

/// Setting one field never disturbs another.
pub proof fn lemma_node_field_preserved(n: NodeV, f: Field, f2: Field, v: int)
    requires
        f2 != f,
    ensures
        node_field(node_apply(n, f2, v), f) == node_field(n, f),
{
    match n {
        NodeV::Link(_) => {
            assert(node_field(node_apply(n, f2, v), f) == node_field(n, f));
        },
        NodeV::Sine(_) => {
            assert(node_field(node_apply(n, f2, v), f) == node_field(n, f));
        },
        NodeV::Square(_) => {
            assert(node_field(node_apply(n, f2, v), f) == node_field(n, f));
        },
        NodeV::Ramp(_) => {
            assert(node_field(node_apply(n, f2, v), f) == node_field(n, f));
        },
        NodeV::Saw(_) => {
            assert(node_field(node_apply(n, f2, v), f) == node_field(n, f));
        },
        NodeV::Triangle(_) => {
            assert(node_field(node_apply(n, f2, v), f) == node_field(n, f));
        },
        NodeV::Noise(_) => {
            assert(node_field(node_apply(n, f2, v), f) == node_field(n, f));
        },
        NodeV::Fourier(_) => {
            assert(node_field(node_apply(n, f2, v), f) == node_field(n, f));
        },
        NodeV::Env(_) => {
            assert(node_field(node_apply(n, f2, v), f) == node_field(n, f));
        },
        NodeV::Mix(_) => {
            assert(node_field(node_apply(n, f2, v), f) == node_field(n, f));
        },
        NodeV::Lerp(_) => {
            assert(node_field(node_apply(n, f2, v), f) == node_field(n, f));
        },
        NodeV::Lerp3(_) => {
            assert(node_field(node_apply(n, f2, v), f) == node_field(n, f));
        },
        NodeV::Modulator(_) => {
            assert(node_field(node_apply(n, f2, v), f) == node_field(n, f));
        },
        NodeV::Product(_) => {
            assert(node_field(node_apply(n, f2, v), f) == node_field(n, f));
        },
        NodeV::Vca(_) => {
            assert(node_field(node_apply(n, f2, v), f) == node_field(n, f));
        },
        NodeV::Pitch(_) => {
            assert(node_field(node_apply(n, f2, v), f) == node_field(n, f));
        },
        NodeV::Control(_) => {
            assert(node_field(node_apply(n, f2, v), f) == node_field(n, f));
        },
        NodeV::Biquad(_) => {
            assert(node_field(node_apply(n, f2, v), f) == node_field(n, f));
        },
        NodeV::Lowpass(_) => {
            assert(node_field(node_apply(n, f2, v), f) == node_field(n, f));
        },
        NodeV::Delay(_) => {
            assert(node_field(node_apply(n, f2, v), f) == node_field(n, f));
        },
        NodeV::Comb(_) => {
            assert(node_field(node_apply(n, f2, v), f) == node_field(n, f));
        },
        NodeV::AllPass(_) => {
            assert(node_field(node_apply(n, f2, v), f) == node_field(n, f));
        },
        NodeV::Reverb(_) => {
            assert(node_field(node_apply(n, f2, v), f) == node_field(n, f));
        },
        NodeV::Guide(_) => {
            assert(node_field(node_apply(n, f2, v), f) == node_field(n, f));
        },
    }
}

/// Moving a gate never disturbs any field.
pub proof fn lemma_node_field_gate(n: NodeV, f: Field, g: bool)
    ensures
        node_field(node_gate(n, g), f) == node_field(n, f),
{
    match n {
        NodeV::Link(_) => {
            assert(node_field(node_gate(n, g), f) == node_field(n, f));
        },
        NodeV::Sine(_) => {
            assert(node_field(node_gate(n, g), f) == node_field(n, f));
        },
        NodeV::Square(_) => {
            assert(node_field(node_gate(n, g), f) == node_field(n, f));
        },
        NodeV::Ramp(_) => {
            assert(node_field(node_gate(n, g), f) == node_field(n, f));
        },
        NodeV::Saw(_) => {
            assert(node_field(node_gate(n, g), f) == node_field(n, f));
        },
        NodeV::Triangle(_) => {
            assert(node_field(node_gate(n, g), f) == node_field(n, f));
        },
        NodeV::Noise(_) => {
            assert(node_field(node_gate(n, g), f) == node_field(n, f));
        },
        NodeV::Fourier(_) => {
            assert(node_field(node_gate(n, g), f) == node_field(n, f));
        },
        NodeV::Env(_) => {
            assert(node_field(node_gate(n, g), f) == node_field(n, f));
        },
        NodeV::Mix(_) => {
            assert(node_field(node_gate(n, g), f) == node_field(n, f));
        },
        NodeV::Lerp(_) => {
            assert(node_field(node_gate(n, g), f) == node_field(n, f));
        },
        NodeV::Lerp3(_) => {
            assert(node_field(node_gate(n, g), f) == node_field(n, f));
        },
        NodeV::Modulator(_) => {
            assert(node_field(node_gate(n, g), f) == node_field(n, f));
        },
        NodeV::Product(_) => {
            assert(node_field(node_gate(n, g), f) == node_field(n, f));
        },
        NodeV::Vca(_) => {
            assert(node_field(node_gate(n, g), f) == node_field(n, f));
        },
        NodeV::Pitch(_) => {
            assert(node_field(node_gate(n, g), f) == node_field(n, f));
        },
        NodeV::Control(_) => {
            assert(node_field(node_gate(n, g), f) == node_field(n, f));
        },
        NodeV::Biquad(_) => {
            assert(node_field(node_gate(n, g), f) == node_field(n, f));
        },
        NodeV::Lowpass(_) => {
            assert(node_field(node_gate(n, g), f) == node_field(n, f));
        },
        NodeV::Delay(_) => {
            assert(node_field(node_gate(n, g), f) == node_field(n, f));
        },
        NodeV::Comb(_) => {
            assert(node_field(node_gate(n, g), f) == node_field(n, f));
        },
        NodeV::AllPass(_) => {
            assert(node_field(node_gate(n, g), f) == node_field(n, f));
        },
        NodeV::Reverb(_) => {
            assert(node_field(node_gate(n, g), f) == node_field(n, f));
        },
        NodeV::Guide(_) => {
            assert(node_field(node_gate(n, g), f) == node_field(n, f));
        },
    }
}

/// What a set stores depends only on a node's shape, which neither a set
/// nor a gate changes.
pub proof fn lemma_stored_stable(n: NodeV, f: Field, b: int, f2: Field, v: int, g: bool)
    ensures
        stored_of(node_apply(n, f2, v), f, b) == stored_of(n, f, b),
        stored_of(node_gate(n, g), f, b) == stored_of(n, f, b),
{
    match n {
        NodeV::Link(_) => {
            assert(stored_of(node_apply(n, f2, v), f, b) == stored_of(n, f, b));
            assert(stored_of(node_gate(n, g), f, b) == stored_of(n, f, b));
        },
        NodeV::Sine(_) => {
            assert(stored_of(node_apply(n, f2, v), f, b) == stored_of(n, f, b));
            assert(stored_of(node_gate(n, g), f, b) == stored_of(n, f, b));
        },
        NodeV::Square(_) => {
            assert(stored_of(node_apply(n, f2, v), f, b) == stored_of(n, f, b));
            assert(stored_of(node_gate(n, g), f, b) == stored_of(n, f, b));
        },
        NodeV::Ramp(_) => {
            assert(stored_of(node_apply(n, f2, v), f, b) == stored_of(n, f, b));
            assert(stored_of(node_gate(n, g), f, b) == stored_of(n, f, b));
        },
        NodeV::Saw(_) => {
            assert(stored_of(node_apply(n, f2, v), f, b) == stored_of(n, f, b));
            assert(stored_of(node_gate(n, g), f, b) == stored_of(n, f, b));
        },
        NodeV::Triangle(_) => {
            assert(stored_of(node_apply(n, f2, v), f, b) == stored_of(n, f, b));
            assert(stored_of(node_gate(n, g), f, b) == stored_of(n, f, b));
        },
        NodeV::Noise(_) => {
            assert(stored_of(node_apply(n, f2, v), f, b) == stored_of(n, f, b));
            assert(stored_of(node_gate(n, g), f, b) == stored_of(n, f, b));
        },
        NodeV::Fourier(_) => {
            assert(stored_of(node_apply(n, f2, v), f, b) == stored_of(n, f, b));
            assert(stored_of(node_gate(n, g), f, b) == stored_of(n, f, b));
        },
        NodeV::Env(_) => {
            assert(stored_of(node_apply(n, f2, v), f, b) == stored_of(n, f, b));
            assert(stored_of(node_gate(n, g), f, b) == stored_of(n, f, b));
        },
        NodeV::Mix(_) => {
            assert(stored_of(node_apply(n, f2, v), f, b) == stored_of(n, f, b));
            assert(stored_of(node_gate(n, g), f, b) == stored_of(n, f, b));
        },
        NodeV::Lerp(_) => {
            assert(stored_of(node_apply(n, f2, v), f, b) == stored_of(n, f, b));
            assert(stored_of(node_gate(n, g), f, b) == stored_of(n, f, b));
        },
        NodeV::Lerp3(_) => {
            assert(stored_of(node_apply(n, f2, v), f, b) == stored_of(n, f, b));
            assert(stored_of(node_gate(n, g), f, b) == stored_of(n, f, b));
        },
        NodeV::Modulator(_) => {
            assert(stored_of(node_apply(n, f2, v), f, b) == stored_of(n, f, b));
            assert(stored_of(node_gate(n, g), f, b) == stored_of(n, f, b));
        },
        NodeV::Product(_) => {
            assert(stored_of(node_apply(n, f2, v), f, b) == stored_of(n, f, b));
            assert(stored_of(node_gate(n, g), f, b) == stored_of(n, f, b));
        },
        NodeV::Vca(_) => {
            assert(stored_of(node_apply(n, f2, v), f, b) == stored_of(n, f, b));
            assert(stored_of(node_gate(n, g), f, b) == stored_of(n, f, b));
        },
        NodeV::Pitch(_) => {
            assert(stored_of(node_apply(n, f2, v), f, b) == stored_of(n, f, b));
            assert(stored_of(node_gate(n, g), f, b) == stored_of(n, f, b));
        },
        NodeV::Control(_) => {
            assert(stored_of(node_apply(n, f2, v), f, b) == stored_of(n, f, b));
            assert(stored_of(node_gate(n, g), f, b) == stored_of(n, f, b));
        },
        NodeV::Biquad(_) => {
            assert(stored_of(node_apply(n, f2, v), f, b) == stored_of(n, f, b));
            assert(stored_of(node_gate(n, g), f, b) == stored_of(n, f, b));
        },
        NodeV::Lowpass(_) => {
            assert(stored_of(node_apply(n, f2, v), f, b) == stored_of(n, f, b));
            assert(stored_of(node_gate(n, g), f, b) == stored_of(n, f, b));
        },
        NodeV::Delay(_) => {
            assert(stored_of(node_apply(n, f2, v), f, b) == stored_of(n, f, b));
            assert(stored_of(node_gate(n, g), f, b) == stored_of(n, f, b));
        },
        NodeV::Comb(_) => {
            assert(stored_of(node_apply(n, f2, v), f, b) == stored_of(n, f, b));
            assert(stored_of(node_gate(n, g), f, b) == stored_of(n, f, b));
        },
        NodeV::AllPass(_) => {
            assert(stored_of(node_apply(n, f2, v), f, b) == stored_of(n, f, b));
            assert(stored_of(node_gate(n, g), f, b) == stored_of(n, f, b));
        },
        NodeV::Reverb(_) => {
            assert(stored_of(node_apply(n, f2, v), f, b) == stored_of(n, f, b));
            assert(stored_of(node_gate(n, g), f, b) == stored_of(n, f, b));
        },
        NodeV::Guide(_) => {
            assert(stored_of(node_apply(n, f2, v), f, b) == stored_of(n, f, b));
            assert(stored_of(node_gate(n, g), f, b) == stored_of(n, f, b));
        },
    }
}

/// Whether a command writes the given field of the given node.
pub open spec fn cmd_affects(c: Command, t: Tag, f: Field) -> bool {
    match c {
        Command::SetValue(t2, f2, _) => t2 == t && f2 == f,
        _ => false,
    }
}

/// Applying commands never changes which tags exist, how many nodes
/// there are, or any node's shape.
pub proof fn lemma_apply_all_shape(v: RackV, cmds: Seq<Command>)
    requires
        v.nodes.len() == v.tags.len(),
    ensures
        rack_apply_all(v, cmds).tags == v.tags,
        rack_apply_all(v, cmds).nodes.len() == v.nodes.len(),
        rack_apply_all(v, cmds).outs == v.outs,
    decreases cmds.len(),
{
    if cmds.len() > 0 {
        lemma_apply_all_shape(v, cmds.drop_last());
        let p = rack_apply_all(v, cmds.drop_last());
        assert(rack_apply_all(v, cmds) == rack_apply(p, cmds.last()));
        match cmds.last() {
            Command::On(t2) => {
                if has_tag(p.tags, t2) {
                    let i2 = tag_index(p.tags, t2);
                    assert(0 <= i2 < p.tags.len() && p.tags[i2] == t2);
                }
                assert(rack_apply(p, cmds.last()).tags == p.tags);
                assert(rack_apply(p, cmds.last()).nodes.len() == p.nodes.len());
                assert(rack_apply(p, cmds.last()).outs == p.outs);
            },
            Command::Off(t2) => {
                if has_tag(p.tags, t2) {
                    let i2 = tag_index(p.tags, t2);
                    assert(0 <= i2 < p.tags.len() && p.tags[i2] == t2);
                }
                assert(rack_apply(p, cmds.last()).tags == p.tags);
                assert(rack_apply(p, cmds.last()).nodes.len() == p.nodes.len());
                assert(rack_apply(p, cmds.last()).outs == p.outs);
            },
            Command::SetValue(t2, _, _) => {
                if has_tag(p.tags, t2) {
                    let i2 = tag_index(p.tags, t2);
                    assert(0 <= i2 < p.tags.len() && p.tags[i2] == t2);
                }
                assert(rack_apply(p, cmds.last()).tags == p.tags);
                assert(rack_apply(p, cmds.last()).nodes.len() == p.nodes.len());
                assert(rack_apply(p, cmds.last()).outs == p.outs);
            },
        }
    }
}

/// Through any run of commands, what a set would store in a field stays
/// the same, and an index out of nobody's way stays untouched.
proof fn lemma_apply_all_stored_stable(v: RackV, cmds: Seq<Command>, i: int, f: Field, b: int)
    requires
        v.nodes.len() == v.tags.len(),
        0 <= i < v.nodes.len(),
    ensures
        stored_of(rack_apply_all(v, cmds).nodes[i], f, b) == stored_of(v.nodes[i], f, b),
    decreases cmds.len(),
{
    if cmds.len() > 0 {
        lemma_apply_all_stored_stable(v, cmds.drop_last(), i, f, b);
        lemma_apply_all_shape(v, cmds.drop_last());
        let p = rack_apply_all(v, cmds.drop_last());
        let c = cmds.last();
        match c {
            Command::On(t2) => {
                if has_tag(p.tags, t2) {
                    let i2 = tag_index(p.tags, t2);
                    assert(0 <= i2 < p.tags.len() && p.tags[i2] == t2);
                    lemma_stored_stable(p.nodes[i2], f, b, f, 0, true);
                }
                assert(stored_of(rack_apply(p, c).nodes[i], f, b) == stored_of(
                    p.nodes[i],
                    f,
                    b,
                ));
            },
            Command::Off(t2) => {
                if has_tag(p.tags, t2) {
                    let i2 = tag_index(p.tags, t2);
                    assert(0 <= i2 < p.tags.len() && p.tags[i2] == t2);
                    lemma_stored_stable(p.nodes[i2], f, b, f, 0, false);
                }
                assert(stored_of(rack_apply(p, c).nodes[i], f, b) == stored_of(
                    p.nodes[i],
                    f,
                    b,
                ));
            },
            Command::SetValue(t2, f2, v2) => {
                if has_tag(p.tags, t2) {
                    let i2 = tag_index(p.tags, t2);
                    assert(0 <= i2 < p.tags.len() && p.tags[i2] == t2);
                    lemma_stored_stable(p.nodes[i2], f, b, f2, v2 as int, true);
                }
                assert(stored_of(rack_apply(p, c).nodes[i], f, b) == stored_of(
                    p.nodes[i],
                    f,
                    b,
                ));
            },
        }
    }
}

/// Command application ordering: when a command sets a field and nothing
/// later in the queue writes that field again, draining the queue leaves
/// the field holding that command's value — of two commands on the same
/// field, enqueued one after the other, the later one always wins.
pub proof fn lemma_last_set_wins(
    v: RackV,
    cmds: Seq<Command>,
    j: int,
    t: Tag,
    f: Field,
    b: i64,
)
    requires
        distinct_tags(v.tags),
        v.nodes.len() == v.tags.len(),
        has_tag(v.tags, t),
        0 <= j < cmds.len(),
        cmds[j] == Command::SetValue(t, f, b),
        forall|k: int| j < k < cmds.len() ==> !cmd_affects(#[trigger] cmds[k], t, f),
    ensures
        node_field(rack_apply_all(v, cmds).nodes[tag_index(v.tags, t)], f) == stored_of(
            v.nodes[tag_index(v.tags, t)],
            f,
            b as int,
        ),
    decreases cmds.len(),
{
    let idx = tag_index(v.tags, t);
    assert(v.tags[idx] == t && 0 <= idx < v.tags.len());
    lemma_apply_all_shape(v, cmds.drop_last());
    let p = rack_apply_all(v, cmds.drop_last());
    if j == cmds.len() - 1 {
        lemma_node_apply_field(p.nodes[idx], f, b as int);
        lemma_apply_all_stored_stable(v, cmds.drop_last(), idx, f, b as int);
    } else {
        assert(cmds.drop_last()[j] == cmds[j]);
        lemma_last_set_wins(v, cmds.drop_last(), j, t, f, b);
        let c = cmds.last();
        assert(!cmd_affects(c, t, f));
        match c {
            Command::On(t2) => {
                if has_tag(p.tags, t2) {
                    let i2 = tag_index(p.tags, t2);
                    if i2 == idx {
                        lemma_node_field_gate(p.nodes[idx], f, true);
                    }
                }
            },
            Command::Off(t2) => {
                if has_tag(p.tags, t2) {
                    let i2 = tag_index(p.tags, t2);
                    if i2 == idx {
                        lemma_node_field_gate(p.nodes[idx], f, false);
                    }
                }
            },
            Command::SetValue(t2, f2, v2) => {
                if has_tag(p.tags, t2) {
                    let i2 = tag_index(p.tags, t2);
                    if i2 == idx {
                        assert(p.tags[i2] == t2 && p.tags[idx] == t);
                        assert(t2 == t);
                        assert(f2 != f);
                        lemma_node_field_preserved(p.nodes[idx], f, f2, v2 as int);
                    }
                }
            },
        }
    }
}


} // verus!
