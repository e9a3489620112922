//! Oscillator, envelope and value-node behaviour on concrete inputs.

use swell::env::{adsr_level, Adsr};
use swell::fx::{fx_add, fx_mul, fx_sub, FX_ONE};
use swell::midi::{midi_hz, parse_midi, MidiControl, MidiEvent, MidiPitch};
use swell::osc::{
    square_wave, triangle_wave, RampOsc, SawOsc, SineOsc, SquareOsc, TriangleOsc, WhiteNoise,
};
use swell::sig::{IdGen, In};

const SR: i64 = 44_100;

#[test]
fn fixed_point_saturates_instead_of_overflowing() {
    assert_eq!(fx_add(i64::MAX, 1), i64::MAX);
    assert_eq!(fx_sub(i64::MIN, 1), i64::MIN);
    assert_eq!(fx_mul(i64::MAX, 2_000_000), i64::MAX);
}

#[test]
fn fixed_point_multiplication_rescales() {
    // 2.0 * 0.5 == 1.0
    assert_eq!(fx_mul(2_000_000, 500_000), 1_000_000);
    // truncation toward zero on both signs
    assert_eq!(fx_mul(1, 500_000), 0);
    assert_eq!(fx_mul(-1, 500_000), 0);
}

#[test]
fn id_generator_hands_out_distinct_tags() {
    let mut id = IdGen::new();
    let a = id.id();
    let b = id.id();
    let c = id.id();
    assert!(a != b && b != c && a != c);
}

#[test]
fn sine_at_quarter_phase_outputs_amplitude() {
    // hz = 0: no phase advance; phase 0.25 of a cycle
    let mut o = SineOsc::new(In::Fix(0));
    o.phase = 250_000;
    let out = o.step(&Vec::new(), &Vec::new(), SR);
    assert_eq!(out, FX_ONE);
    assert_eq!(o.phase, 250_000);
}

#[test]
fn sine_at_three_quarter_phase_outputs_negative_amplitude() {
    let mut o = SineOsc::new(In::Fix(0));
    o.phase = 750_000;
    let out = o.step(&Vec::new(), &Vec::new(), SR);
    assert_eq!(out, -FX_ONE);
}

#[test]
fn phase_advances_by_hz_over_sample_rate() {
    // 440 Hz at 44100 samples/s: one step advances the phase by
    // 440_000_000 / 44_100 = 9977 millionths of a cycle (truncated).
    let mut o = SineOsc::new(In::Fix(440_000_000));
    o.step(&Vec::new(), &Vec::new(), SR);
    assert_eq!(o.phase, 9_977);
    o.step(&Vec::new(), &Vec::new(), SR);
    assert_eq!(o.phase, 2 * 9_977);
}

#[test]
fn square_follows_its_duty_cycle() {
    // duty 0.5: +amplitude at t = 0.3, -amplitude at t = 0.7
    let mut o = SquareOsc::new(In::Fix(0));
    o.phase = 300_000;
    assert_eq!(o.step(&Vec::new(), &Vec::new(), SR), FX_ONE);
    let mut o = SquareOsc::new(In::Fix(0));
    o.phase = 700_000;
    assert_eq!(o.step(&Vec::new(), &Vec::new(), SR), -FX_ONE);
    // guard band right after the rising edge
    let mut o = SquareOsc::new(In::Fix(0));
    o.phase = 500;
    assert_eq!(o.step(&Vec::new(), &Vec::new(), SR), 0);
}

#[test]
fn ramp_rises_through_zero() {
    let mut o = RampOsc::new(In::Fix(0));
    o.phase = 0;
    assert_eq!(o.step(&Vec::new(), &Vec::new(), SR), 0);
    let mut o = RampOsc::new(In::Fix(0));
    o.phase = 250_000;
    assert_eq!(o.step(&Vec::new(), &Vec::new(), SR), 500_000);
}

#[test]
fn saw_guards_its_jump_and_falls_elsewhere() {
    let mut o = SawOsc::new(In::Fix(0));
    o.phase = 0;
    assert_eq!(o.step(&Vec::new(), &Vec::new(), SR), 0);
    let mut o = SawOsc::new(In::Fix(0));
    o.phase = 250_000;
    assert_eq!(o.step(&Vec::new(), &Vec::new(), SR), 500_000);
}

#[test]
fn triangle_peaks_at_quarter_phase() {
    let mut o = TriangleOsc::new(In::Fix(0));
    o.phase = 0;
    assert_eq!(o.step(&Vec::new(), &Vec::new(), SR), 0);
    let mut o = TriangleOsc::new(In::Fix(0));
    o.phase = 250_000;
    assert_eq!(o.step(&Vec::new(), &Vec::new(), SR), FX_ONE);
    let mut o = TriangleOsc::new(In::Fix(0));
    o.phase = 750_000;
    assert_eq!(o.step(&Vec::new(), &Vec::new(), SR), -FX_ONE);
}

#[test]
fn noise_is_reproducible_from_equal_seeds_and_bounded() {
    let mut a = WhiteNoise::new(42);
    let mut b = WhiteNoise::new(42);
    for _ in 0..200 {
        let x = a.step(&Vec::new(), &Vec::new());
        let y = b.step(&Vec::new(), &Vec::new());
        assert_eq!(x, y);
        assert!(-FX_ONE <= x && x <= FX_ONE);
    }
}

#[test]
fn band_limited_square_weights_odd_harmonics() {
    let o = square_wave(5, 220_000_000);
    assert_eq!(o.coeffs, vec![0, 1_000_000, 0, 333_333, 0, 200_000]);
    assert_eq!(o.hz, 220_000_000);
}

#[test]
fn band_limited_triangle_alternates_odd_harmonics() {
    let o = triangle_wave(5, 220_000_000);
    assert_eq!(o.coeffs, vec![0, -1_000_000, 0, 111_111, 0, -40_000]);
}

#[test]
fn envelope_curve_hits_its_segment_values() {
    // attack 0.1, decay 0.1, sustain time 0.2, sustain level 0.5, release 0.1
    let (a, d, s, sl, r) = (100_000, 100_000, 200_000, 500_000, 100_000);
    // halfway up the attack
    assert_eq!(adsr_level(a, d, s, sl, r, 50_000), 500_000);
    // halfway down the decay: strictly between the sustain level and one
    let mid = adsr_level(a, d, s, sl, r, 150_000);
    assert_eq!(mid, 750_000);
    assert!(sl < mid && mid < 1_000_000);
    // sustain
    assert_eq!(adsr_level(a, d, s, sl, r, 300_000), 500_000);
    // halfway down the release
    assert_eq!(adsr_level(a, d, s, sl, r, 450_000), 250_000);
    // fully released at the end of the release segment, and beyond
    assert_eq!(adsr_level(a, d, s, sl, r, 500_000), 0);
    assert_eq!(adsr_level(a, d, s, sl, r, 700_000), 0);
}

#[test]
fn envelope_durations_are_clamped_positive() {
    // zero-length segments cannot divide by zero; the attack still rises
    let out = adsr_level(0, 0, 0, 500_000, 0, 500);
    assert_eq!(out, 500_000);
}

#[test]
fn envelope_gate_drives_attack_and_release() {
    let mut e = Adsr::new(100_000, 100_000, 500_000, 100_000);
    // gate off, clock past every segment: silence
    assert_eq!(e.step(&Vec::new(), &Vec::new(), SR), 0);
    e.on();
    // at the start of the attack the level is zero
    assert_eq!(e.step(&Vec::new(), &Vec::new(), SR), 0);
    // a little into the attack it has risen
    e.clock = 50_000;
    assert_eq!(e.step(&Vec::new(), &Vec::new(), SR), 500_000);
    // past attack and decay, a held note keeps the sustain level
    e.clock = 1_000_000;
    assert_eq!(e.step(&Vec::new(), &Vec::new(), SR), 500_000);
    e.off();
    // halfway through the release it has fallen halfway
    e.clock = 50_000;
    assert_eq!(e.step(&Vec::new(), &Vec::new(), SR), 250_000);
    // after the release: silence
    e.clock = 200_000;
    assert_eq!(e.step(&Vec::new(), &Vec::new(), SR), 0);
}

#[test]
fn midi_notes_map_to_equal_tempered_frequencies() {
    assert_eq!(midi_hz(69), 440_000_000);
    assert_eq!(midi_hz(81), 880_000_000);
    assert_eq!(midi_hz(57), 220_000_000);
    // middle C: 440 * 2^(-9/12)
    assert_eq!(midi_hz(60), 261_625_540);
}

#[test]
fn pitch_node_outputs_its_note_frequency() {
    let mut p = MidiPitch::new();
    assert_eq!(p.step_out(), 440_000_000);
    p.set_step(60);
    assert_eq!(p.step_out(), 261_625_540);
}

#[test]
fn control_node_maps_raw_values_into_its_range() {
    // default range [0, 1]: 64/127
    let mut c = MidiControl::new(37, 64);
    assert_eq!(c.step_out(), 503_937);
    // a wider range scales linearly
    c.set_range(0, 10_000_000);
    assert_eq!(c.step_out(), 5_039_370);
    // the bottom and top of the range are hit exactly
    c.set_value(0);
    assert_eq!(c.step_out(), 0);
    c.set_value(127);
    assert_eq!(c.step_out(), 10_000_000);
}

#[test]
fn raw_midi_messages_normalize_by_status_and_length() {
    assert_eq!(
        parse_midi(&vec![144, 69, 100]),
        Some(MidiEvent::NoteOn { note: 69, velocity: 100 })
    );
    assert_eq!(parse_midi(&vec![128, 69, 0]), Some(MidiEvent::NoteOff { note: 69 }));
    assert_eq!(
        parse_midi(&vec![176, 37, 90]),
        Some(MidiEvent::ControlChange { controller: 37, value: 90 })
    );
    // the seven low bits carry the data
    assert_eq!(
        parse_midi(&vec![144, 197, 100]),
        Some(MidiEvent::NoteOn { note: 69, velocity: 100 })
    );
    // wrong length or unknown status: ignored
    assert_eq!(parse_midi(&vec![144, 69]), None);
    assert_eq!(parse_midi(&vec![144, 69, 100, 0]), None);
    assert_eq!(parse_midi(&vec![250, 0, 0]), None);
}
