//! Delay, comb, reverberator and voice behaviour on concrete signals.

use swell::cmd::{Command, Field};
use swell::delay::DelayLine;
use swell::filt::{AllPass, BiquadFilter, Comb};
use swell::fx::{fx_mul, FX_ONE};
use swell::guide::WaveGuide;
use swell::ops::Link;
use swell::rack::{NodeKind, Rack};
use swell::sig::{IdGen, In};
use swell::verb::Freeverb;

const SR: i64 = 1_000;

fn link(value: i64) -> NodeKind {
    let mut l = Link::new();
    l.set_value(value);
    NodeKind::Link(l)
}

#[test]
fn delay_returns_what_was_written_n_samples_ago() {
    // 0.003 s at 1000 samples/s: a three-sample delay
    let mut d = DelayLine::new(0, In::Fix(3_000));
    let inputs = [10i64, 20, 30, 40, 50, 60, 70];
    let mut outputs = Vec::new();
    for &x in inputs.iter() {
        outputs.push(d.step_with(x, 3_000, SR));
    }
    assert_eq!(outputs, vec![0, 0, 0, 10, 20, 30, 40]);
}

#[test]
fn delay_resizes_and_clears_when_its_time_changes() {
    let mut d = DelayLine::new(0, In::Fix(2_000));
    d.step_with(11, 2_000, SR);
    d.step_with(22, 2_000, SR);
    // two samples in flight; shrinking the delay drops them
    let out = d.step_with(33, 1_000, SR);
    assert_eq!(out, 0);
    let out = d.step_with(44, 1_000, SR);
    assert_eq!(out, 33);
}

#[test]
fn frozen_comb_sustains_its_energy_forever() {
    let mut c = Comb::new(0, 4);
    c.set_feedback(FX_ONE);
    c.set_damping(0);
    // store a burst, then freeze-run on silence
    c.step_with(500_000);
    c.step_with(-250_000);
    c.step_with(125_000);
    c.step_with(-60_000);
    let first_cycle: Vec<i64> = (0..4).map(|_| c.step_with(0)).collect();
    assert_eq!(first_cycle, vec![500_000, -250_000, 125_000, -60_000]);
    // many cycles later the same samples still circulate, undiminished
    for _ in 0..40 {
        c.step_with(0);
    }
    let later_cycle: Vec<i64> = (0..4).map(|_| c.step_with(0)).collect();
    assert_eq!(later_cycle, first_cycle);
}

#[test]
fn unfrozen_comb_decays_toward_silence() {
    let mut c = Comb::new(0, 2);
    c.set_feedback(900_000);
    c.set_damping(0);
    c.step_with(1_000_000);
    let mut peaks = Vec::new();
    for _ in 0..8 {
        let a = c.step_with(0);
        let b = c.step_with(0);
        peaks.push(a.abs().max(b.abs()));
    }
    for w in peaks.windows(2) {
        assert!(w[1] < w[0]);
    }
    // run long enough and the echo dies out entirely
    for _ in 0..400 {
        c.step_with(0);
    }
    assert_eq!(c.step_with(0), 0);
}

#[test]
fn allpass_combines_delayed_and_direct_signal() {
    let mut a = AllPass::new(0, 2);
    a.set_feedback(500_000);
    assert_eq!(a.step_with(1_000_000), -1_000_000);
    assert_eq!(a.step_with(0), 0);
    // the stored sample comes back out two steps later
    assert_eq!(a.step_with(0), 1_000_000);
}

#[test]
fn reverberator_controls_scale_as_documented() {
    let mut id = IdGen::new();
    let mut f = Freeverb::new(&mut id, 0);
    f.set_wet(1_000_000);
    assert_eq!(f.wet, 3_000_000);
    // wet_gain = wet * (width / 2 + 0.5), width 0.5
    assert_eq!(f.wet_gain, fx_mul(3_000_000, 750_000));
    f.set_width(1_000_000);
    assert_eq!(f.wet_gain, 3_000_000);
    f.set_room_size(500_000);
    assert_eq!(f.room_size, 840_000);
    for c in f.combs.iter() {
        assert_eq!(c.feedback, 840_000);
    }
    f.set_dampening(500_000);
    assert_eq!(f.dampening, 200_000);
    for c in f.combs.iter() {
        assert_eq!(c.damping, 200_000);
    }
    f.set_frozen(true);
    assert_eq!(f.input_gain, 0);
    for c in f.combs.iter() {
        assert_eq!(c.feedback, FX_ONE);
        assert_eq!(c.damping, 0);
    }
    f.set_frozen(false);
    assert_eq!(f.input_gain, FX_ONE);
}

#[test]
fn frozen_reverb_keeps_ringing_while_unfrozen_reverb_fades() {
    let run = |freeze: bool| -> (i64, i64) {
        let mut id = IdGen::new();
        let mut rack = Rack::new();
        let t_in = id.id();
        rack.append(t_in, link(0));
        let mut verb = Freeverb::new(&mut id, t_in);
        verb.set_dry(0);
        verb.set_wet(300_000);
        let t_verb = verb.tag;
        rack.append(t_verb, NodeKind::Reverb(verb));
        // excite the reverberator with a short burst
        rack.apply_commands(&vec![Command::SetValue(t_in, Field::Value, 800_000)]);
        for _ in 0..50 {
            rack.signal(SR);
        }
        rack.apply_commands(&vec![
            Command::SetValue(t_in, Field::Value, 0),
            Command::SetValue(t_verb, Field::Freeze, if freeze { 1 } else { 0 }),
        ]);
        let early: i64 = (0..2_000).map(|_| rack.signal(SR).abs()).max().unwrap();
        for _ in 0..20_000 {
            rack.signal(SR);
        }
        let late: i64 = (0..2_000).map(|_| rack.signal(SR).abs()).max().unwrap();
        (early, late)
    };
    let (_f_early, f_late) = run(true);
    let (u_early, u_late) = run(false);
    // frozen energy does not die out; unfrozen energy fades
    assert!(f_late > 0);
    assert!(u_late < u_early / 4);
}

#[test]
fn biquad_passes_through_while_inactive() {
    let mut id = IdGen::new();
    let mut rack = Rack::new();
    let t0 = id.id();
    let t1 = id.id();
    rack.append(t0, link(345_678));
    let mut bq = BiquadFilter::new(
        t0,
        In::Fix(440_000_000),
        In::Fix(707_107),
        In::Fix(FX_ONE),
    );
    bq.set_active(false);
    rack.append(t1, NodeKind::Biquad(bq));
    let out = rack.signal(SR);
    assert_eq!(out, 345_678);
}

#[test]
fn active_biquad_filters_deterministically() {
    let run = || {
        let mut id = IdGen::new();
        let mut rack = Rack::new();
        let t0 = id.id();
        let t1 = id.id();
        rack.append(
            t0,
            NodeKind::Sine(swell::osc::SineOsc::new(In::Fix(100_000_000))),
        );
        rack.append(
            t1,
            NodeKind::Biquad(BiquadFilter::new(
                t0,
                In::Fix(200_000_000),
                In::Fix(707_107),
                In::Fix(FX_ONE),
            )),
        );
        let samples: Vec<i64> = (0..300).map(|_| rack.signal(SR)).collect();
        samples
    };
    let a = run();
    let b = run();
    assert_eq!(a, b);
    assert!(a.iter().any(|&x| x != 0));
}

#[test]
fn waveguide_rings_after_a_burst() {
    let run = || {
        let mut id = IdGen::new();
        let mut rack = Rack::new();
        let t_burst = id.id();
        rack.append(t_burst, link(0));
        let mut voice = WaveGuide::new(&mut id, t_burst);
        voice.hz(In::Fix(100_000_000));
        let t_voice = voice.tag;
        rack.append(t_voice, NodeKind::Guide(voice));
        rack.apply_commands(&vec![Command::SetValue(t_burst, Field::Value, 900_000)]);
        rack.on(t_voice);
        let mut samples: Vec<i64> = (0..20).map(|_| rack.signal(SR)).collect();
        rack.apply_commands(&vec![Command::SetValue(t_burst, Field::Value, 0)]);
        rack.off(t_voice);
        samples.extend((0..200).map(|_| rack.signal(SR)));
        samples
    };
    let a = run();
    let b = run();
    assert_eq!(a, b);
    // the feedback loop keeps the voice sounding after the burst ends
    assert!(a[30..].iter().any(|&x| x != 0));
}

#[test]
fn set_freeze_gates_the_input_like_set_frozen() {
    let mut id = IdGen::new();
    let mut f = Freeverb::new(&mut id, 0);
    f.set_freeze(true);
    assert_eq!(f.input_gain, 0);
    for c in f.combs.iter() {
        assert_eq!(c.feedback, FX_ONE);
        assert_eq!(c.damping, 0);
    }
    f.set_freeze(false);
    assert_eq!(f.input_gain, FX_ONE);
    for c in f.combs.iter() {
        assert_eq!(c.feedback, f.room_size);
        assert_eq!(c.damping, f.dampening);
    }
}
