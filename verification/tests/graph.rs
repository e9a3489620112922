//! Graph evaluation, command draining, and their guarantees on concrete
//! patches.

use swell::cmd::{Command, Field};
use swell::ops::{Link, Mixer, Vca};
use swell::osc::{SineOsc, WhiteNoise};
use swell::rack::{NodeKind, Rack};
use swell::sig::{IdGen, In};

const SR: i64 = 44_100;

fn link(value: i64) -> NodeKind {
    let mut l = Link::new();
    l.set_value(value);
    NodeKind::Link(l)
}

#[test]
fn evaluation_caches_every_output_in_order() {
    let mut id = IdGen::new();
    let mut rack = Rack::new();
    let t0 = id.id();
    let t1 = id.id();
    rack.append(t0, link(123));
    rack.append(t1, NodeKind::Vca(Vca::new(t0, In::Fix(500_000))));
    let out = rack.signal(SR);
    assert_eq!(out, 61);
    assert_eq!(rack.output(t0), 123);
    assert_eq!(rack.output(t1), 61);
    // a tag nobody carries resolves to silence
    assert_eq!(rack.output(999), 0);
}

#[test]
fn mixer_weights_its_inputs_linearly() {
    // weighted sum with a negative weight:
    // 0.5 * 3.0 + (-1.0) * (-2.0) == 3.5
    let mut id = IdGen::new();
    let mut rack = Rack::new();
    let t0 = id.id();
    let t1 = id.id();
    let t2 = id.id();
    rack.append(t0, link(3_000_000));
    rack.append(t1, link(-2_000_000));
    let mut mixer = Mixer::new(vec![t0, t1]);
    mixer.level_nth(0, In::Fix(500_000));
    mixer.level_nth(1, In::Fix(-1_000_000));
    rack.append(t2, NodeKind::Mix(mixer));
    let out = rack.signal(SR);
    assert_eq!(out, 3_500_000);
}

#[test]
fn of_two_commands_on_one_field_the_later_wins() {
    let mut id = IdGen::new();
    let mut rack = Rack::new();
    let t0 = id.id();
    rack.append(t0, link(0));
    let cmds = vec![
        Command::SetValue(t0, Field::Value, 111),
        Command::SetValue(t0, Field::Value, 222),
    ];
    rack.apply_commands(&cmds);
    rack.signal(SR);
    assert_eq!(rack.output(t0), 222);
}

#[test]
fn commands_for_absent_tags_or_foreign_fields_are_dropped() {
    let mut id = IdGen::new();
    let mut rack = Rack::new();
    let t0 = id.id();
    rack.append(t0, link(7));
    let cmds = vec![
        // no node carries tag 555
        Command::SetValue(555, Field::Value, 999),
        // a link has no cutoff
        Command::SetValue(t0, Field::Cutoff, 999),
        // a link has no gate
        Command::On(t0),
    ];
    rack.apply_commands(&cmds);
    rack.signal(SR);
    assert_eq!(rack.output(t0), 7);
}

#[test]
fn gates_reach_envelopes_through_commands() {
    let mut id = IdGen::new();
    let mut rack = Rack::new();
    let t0 = id.id();
    let mut env = swell::env::Adsr::new(1_000, 1_000, 800_000, 1_000);
    env.clock = 10_000_000;
    rack.append(t0, NodeKind::Env(env));
    rack.signal(SR);
    assert_eq!(rack.output(t0), 0);
    rack.on(t0);
    // past attack and decay the envelope holds its sustain level
    let cmds: Vec<Command> = Vec::new();
    rack.apply_commands(&cmds);
    for _ in 0..SR / 10 {
        rack.signal(SR);
    }
    assert_eq!(rack.output(t0), 800_000);
}

fn demo_rack() -> (Rack, u64) {
    let mut id = IdGen::new();
    let mut rack = Rack::new();
    let t_noise = id.id();
    let t_sine = id.id();
    let t_mix = id.id();
    rack.append(t_noise, NodeKind::Noise(WhiteNoise::new(7)));
    rack.append(t_sine, NodeKind::Sine(SineOsc::new(In::Fix(440_000_000))));
    let mut mixer = Mixer::new(vec![t_noise, t_sine]);
    mixer.level_nth(0, In::Fix(200_000));
    rack.append(t_mix, NodeKind::Mix(mixer));
    (rack, t_sine)
}

#[test]
fn evaluation_is_deterministic_run_for_run() {
    let (mut r1, t1) = demo_rack();
    let (mut r2, t2) = demo_rack();
    let cmds = vec![Command::SetValue(t1, Field::Hz, 220_000_000)];
    let cmds2 = vec![Command::SetValue(t2, Field::Hz, 220_000_000)];
    r1.apply_commands(&cmds);
    r2.apply_commands(&cmds2);
    let a: Vec<i64> = (0..500).map(|_| r1.signal(SR)).collect();
    let b: Vec<i64> = (0..500).map(|_| r2.signal(SR)).collect();
    assert_eq!(a, b);
    assert!(a.iter().any(|&x| x != 0));
}

#[test]
fn append_refuses_nothing_but_scans_tags() {
    let mut id = IdGen::new();
    let mut rack = Rack::new();
    let t0 = id.id();
    rack.append(t0, link(1));
    assert!(rack.contains_tag(t0));
    assert!(!rack.contains_tag(t0 + 1));
}
