//! The feedback-loop physical-model voice (waveguide).
//!
//! The excitation is gated noise: the burst input multiplied by a
//! short-attack, short-release envelope.  The excitation is summed with a
//! low-pass-filtered, delayed copy of the voice's own output; the delay
//! length follows the voice's pitch (`delay_time = 1 / max(1, hz)`), the
//! filter cutoff shapes the resonance, and the feedback mixer's wet-decay
//! level shapes how long the note rings.  The loop is legal because the
//! delay element always hands back the previous sample: within one
//! sample, the filter reads the delay's last output and the delay reads
//! the mixer's last output, exactly as a private graph in construction
//! order would evaluate them.
//!
//! Bindings of the voice's internal parts resolve against the enclosing
//! graph.

use vstd::prelude::*;

use crate::delay::{
    delay_wf, spec_delay_next_with, spec_delay_out_with, DelayLine, DelayV,
};
use crate::env::{adsr_wf, spec_adsr_out, spec_clock_next, Adsr};
use crate::filt::{spec_lpf_next_with, spec_lpf_out_with, Lpf};
use crate::fx::{
    fx_add, fx_div, fx_max, fx_mul, spec_add, spec_div, spec_mul, FX_ONE,
};
use crate::osc::SR_MAX;
use crate::sig::{distinct_tags, lookup_out, resolve, spec_lookup, spec_resolve, IdGen, In, Tag};

verus! {

/// The waveguide voice node.
pub struct WaveGuide {
    pub tag: Tag,
    pub burst: Tag,
    pub hz: In,
    pub wet_decay: In,
    pub envelope: Adsr,
    pub lpf: Lpf,
    pub delay: DelayLine,
    pub last_delay_out: i64,
    pub last_mixer_out: i64,
}

/// The mathematical state of a waveguide voice.
pub struct WaveGuideV {
    pub tag: u64,
    pub burst: u64,
    pub hz: In,
    pub wet_decay: In,
    pub envelope: Adsr,
    pub lpf: Lpf,
    pub delay: DelayV,
    pub last_delay_out: i64,
    pub last_mixer_out: i64,
}

impl View for WaveGuide {
    type V = WaveGuideV;

    open spec fn view(&self) -> WaveGuideV {
        WaveGuideV {
            tag: self.tag,
            burst: self.burst,
            hz: self.hz,
            wet_decay: self.wet_decay,
            envelope: self.envelope,
            lpf: self.lpf,
            delay: self.delay@,
            last_delay_out: self.last_delay_out,
            last_mixer_out: self.last_mixer_out,
        }
    }
}

/// A waveguide voice is well formed when its envelope clock and delay
/// buffer are.
pub open spec fn guide_wf(v: WaveGuideV) -> bool {
    adsr_wf(v.envelope) && delay_wf(v.delay)
}

/// The delay time the voice's pitch calls for: `1 / max(1, hz)` seconds.
pub open spec fn spec_guide_dt(hz: int) -> int {
    spec_div(FX_ONE as int, if hz >= FX_ONE { hz } else { FX_ONE as int })
}

/// What the voice's feedback mixer outputs this sample: the excitation
/// (burst gated by the envelope) plus the wet-decay-scaled output of the
/// low-pass filter, which itself reads the delay's previous output.
pub open spec fn spec_guide_out(v: WaveGuideV, tags: Seq<u64>, outs: Seq<i64>, sr: int) -> int {
    let exciter = spec_mul(spec_lookup(tags, outs, v.burst), spec_adsr_out(v.envelope, tags, outs));
    let lpf_out = spec_lpf_out_with(v.lpf, v.last_delay_out as int, tags, outs, sr);
    spec_add(exciter, spec_mul(lpf_out, spec_resolve(tags, outs, v.wet_decay)))
}

/// The voice after one sample: envelope clock advanced, filter fed the
/// delay's previous output, delay fed the mixer's previous output at the
/// pitch-derived delay time, and both caches refreshed.
pub open spec fn spec_guide_next(v: WaveGuideV, tags: Seq<u64>, outs: Seq<i64>, sr: int) -> WaveGuideV {
    let dt = spec_guide_dt(spec_resolve(tags, outs, v.hz));
    let delay_in = DelayV { time: In::Fix(dt as i64), ..v.delay };
    WaveGuideV {
        envelope: Adsr {
            clock: spec_clock_next(v.envelope.clock as int, sr) as i64,
            ..v.envelope
        },
        lpf: spec_lpf_next_with(v.lpf, v.last_delay_out as int, tags, outs, sr),
        delay: spec_delay_next_with(delay_in, v.last_mixer_out as int, dt, sr),
        last_delay_out: spec_delay_out_with(v.delay, dt, sr) as i64,
        last_mixer_out: spec_guide_out(v, tags, outs, sr) as i64,
        ..v
    }
}

impl WaveGuide {
    /// A waveguide voice excited by the given burst node: a one-millisecond
    /// attack and release around a zero sustain, a 2 kHz feedback filter, a
    /// wet decay of 0.95, and a pitch of 440 Hz.
    pub fn new(id_gen: &mut IdGen, burst: Tag) -> (r: WaveGuide)
        requires
            old(id_gen).next < u64::MAX,
        ensures
            r@.tag == old(id_gen).next,
            r@.burst == burst,
            r@.hz == (In::Fix(440_000_000i64)),
            r@.wet_decay == (In::Fix(950_000i64)),
            r@.envelope.attack == (In::Fix(1_000i64)),
            r@.envelope.decay == (In::Fix(0i64)),
            r@.envelope.sustain_level == (In::Fix(0i64)),
            r@.envelope.release == (In::Fix(1_000i64)),
            r@.envelope.triggered == false,
            r@.lpf.cutoff == (In::Fix(2_000_000_000i64)),
            r@.last_delay_out == 0,
            r@.last_mixer_out == 0,
            guide_wf(r@),
    {
        let tag = id_gen.id();
        let envelope = Adsr::new(1_000, 0, 0, 1_000);
        let lpf = Lpf::new(0, In::Fix(2_000_000_000));
        let delay = DelayLine::new(0, In::Fix(20_000));
        WaveGuide {
            tag,
            burst,
            hz: In::Fix(440_000_000),
            wet_decay: In::Fix(950_000),
            envelope,
            lpf,
            delay,
            last_delay_out: 0,
            last_mixer_out: 0,
        }
    }

    /// Replace the pitch binding.
    pub fn hz(&mut self, arg: In)
        ensures
            final(self)@ == (WaveGuideV { hz: arg, ..old(self)@ }),
    {
        self.hz = arg;
    }

    /// Gate the excitation envelope on.
    pub fn on(&mut self)
        ensures
            final(self)@ == (WaveGuideV {
                envelope: Adsr { clock: 0i64, triggered: true, ..old(self)@.envelope },
                ..old(self)@
            }),
            guide_wf(old(self)@) ==> guide_wf(final(self)@),
    {
        self.envelope.on();
    }

    /// Gate the excitation envelope off.
    pub fn off(&mut self)
        ensures
            final(self)@ == (WaveGuideV {
                envelope: Adsr { clock: 0i64, triggered: false, ..old(self)@.envelope },
                ..old(self)@
            }),
            guide_wf(old(self)@) ==> guide_wf(final(self)@),
    {
        self.envelope.off();
    }

    /// Replace the envelope's attack binding.
    pub fn attack(&mut self, arg: In)
        ensures
            final(self)@ == (WaveGuideV {
                envelope: Adsr { attack: arg, ..old(self)@.envelope },
                ..old(self)@
            }),
    {
        self.envelope.attack = arg;
    }

    /// Replace the envelope's decay binding.
    pub fn decay(&mut self, arg: In)
        ensures
            final(self)@ == (WaveGuideV {
                envelope: Adsr { decay: arg, ..old(self)@.envelope },
                ..old(self)@
            }),
    {
        self.envelope.decay = arg;
    }

    /// Replace the envelope's sustain-level binding.
    pub fn sustain(&mut self, arg: In)
        ensures
            final(self)@ == (WaveGuideV {
                envelope: Adsr { sustain_level: arg, ..old(self)@.envelope },
                ..old(self)@
            }),
    {
        self.envelope.sustain_level = arg;
    }

    /// Replace the envelope's release binding.
    pub fn release(&mut self, arg: In)
        ensures
            final(self)@ == (WaveGuideV {
                envelope: Adsr { release: arg, ..old(self)@.envelope },
                ..old(self)@
            }),
    {
        self.envelope.release = arg;
    }

    /// Replace the feedback filter's cutoff binding.
    pub fn cutoff_freq(&mut self, arg: In)
        ensures
            final(self)@ == (WaveGuideV {
                lpf: Lpf { cutoff: arg, ..old(self)@.lpf },
                ..old(self)@
            }),
    {
        self.lpf.set_cutoff(arg);
    }

    /// Replace the wet-decay level of the feedback mixer.
    pub fn wet_decay(&mut self, arg: In)
        ensures
            final(self)@ == (WaveGuideV { wet_decay: arg, ..old(self)@ }),
    {
        self.wet_decay = arg;
    }

    /// Produce one sample of the voice.
    pub fn step(&mut self, tags: &Vec<u64>, outs: &Vec<i64>, sr: i64) -> (out: i64)
        requires
            tags@.len() == outs@.len(),
            distinct_tags(tags@),
            1 <= sr <= SR_MAX,
            guide_wf(old(self)@),
        ensures
            out as int == spec_guide_out(old(self)@, tags@, outs@, sr as int),
            final(self)@ == spec_guide_next(old(self)@, tags@, outs@, sr as int),
            guide_wf(final(self)@),
    {
        let burst_in = lookup_out(tags, outs, self.burst);
        let env_out = self.envelope.step(tags, outs, sr);
        let exciter = fx_mul(burst_in, env_out);
        let lpf_out = self.lpf.step_with(self.last_delay_out, tags, outs, sr);
        let hz = resolve(tags, outs, self.hz);
        let dt = fx_div(FX_ONE, fx_max(FX_ONE, hz));
        self.delay.set_time(In::Fix(dt));
        let delay_out = self.delay.step_with(self.last_mixer_out, dt, sr);
        let mixer_out = fx_add(exciter, fx_mul(lpf_out, resolve(tags, outs, self.wet_decay)));
        self.last_delay_out = delay_out;
        self.last_mixer_out = mixer_out;
        mixer_out
    }
}

} // verus!
