//! MIDI-driven value nodes.
//!
//! A pitch node turns a note number into a frequency by the twelve-tone
//! equal-tempered formula: note 69 is 440 Hz and each semitone multiplies
//! the frequency by the twelfth root of two, here tabulated to fixed-point
//! precision within one octave and shifted by whole octaves.  A control
//! node maps a raw controller value in `0..=127` linearly into a
//! configured range.

use vstd::prelude::*;

use crate::fx::{fx_add, fx_muldiv, fx_scale, fx_sub, sat, spec_add, spec_muldiv, spec_sub, FX_ONE};

verus! {

/// The frequency of concert A (note 69), in fixed-point hertz.
pub const PITCH_A4: i64 = 440_000_000;

/// The ratio of semitone `k` within an octave to the octave's base, in
/// fixed point: the twelfth root of two raised to `k`.
pub open spec fn spec_semitone_ratio(k: int) -> int {
    if k == 0 {
        1_000_000
    } else if k == 1 {
        1_059_463
    } else if k == 2 {
        1_122_462
    } else if k == 3 {
        1_189_207
    } else if k == 4 {
        1_259_921
    } else if k == 5 {
        1_334_840
    } else if k == 6 {
        1_414_214
    } else if k == 7 {
        1_498_307
    } else if k == 8 {
        1_587_401
    } else if k == 9 {
        1_681_793
    } else if k == 10 {
        1_781_797
    } else {
        1_887_749
    }
}

/// Two to the power `e`, for small nonnegative `e`.
pub open spec fn pow2i(e: int) -> int
    decreases e,
{
    if e <= 0 {
        1
    } else {
        2 * pow2i(e - 1)
    }
}

/// The equal-tempered frequency of MIDI note `n`, in fixed-point hertz:
/// 440 Hz at note 69, scaled by the tabulated semitone ratio and shifted
/// by whole octaves.
pub open spec fn spec_midi_hz(n: int) -> int {
    let m = n - 69;
    let o = m / 12;
    let k = m % 12;
    let b = spec_muldiv(PITCH_A4 as int, spec_semitone_ratio(k), FX_ONE as int);
    if o >= 0 {
        sat(b * pow2i(o))
    } else {
        spec_muldiv(b, 1, pow2i(-o))
    }
}

/// Look up the tabulated semitone ratio.
fn semitone_ratio(k: i64) -> (r: i64)
    requires
        0 <= k < 12,
    ensures
        r as int == spec_semitone_ratio(k as int),
{
    if k == 0 {
        1_000_000
    } else if k == 1 {
        1_059_463
    } else if k == 2 {
        1_122_462
    } else if k == 3 {
        1_189_207
    } else if k == 4 {
        1_259_921
    } else if k == 5 {
        1_334_840
    } else if k == 6 {
        1_414_214
    } else if k == 7 {
        1_498_307
    } else if k == 8 {
        1_587_401
    } else if k == 9 {
        1_681_793
    } else if k == 10 {
        1_781_797
    } else {
        1_887_749
    }
}

proof fn lemma_pow2_pos(e: int)
    ensures
        pow2i(e) >= 1,
    decreases
            (if e > 0 {
                e
            } else {
                0
            }),
{
    if e > 0 {
        lemma_pow2_pos(e - 1);
    }
}

proof fn lemma_pow2_mono(a: int, b: int)
    requires
        a <= b,
    ensures
        pow2i(a) <= pow2i(b),
    decreases b - a,
{
    if a < b {
        lemma_pow2_mono(a, b - 1);
        lemma_pow2_pos(b - 1);
    }
}

/// Two to the power `e`, for `e` up to the octave span of the note range.
fn pow2_small(e: i64) -> (r: i64)
    requires
        0 <= e <= 12,
    ensures
        r as int == pow2i(e as int),
        1 <= r <= 4096,
{
    proof {
        reveal_with_fuel(pow2i, 13);
        assert(pow2i(12) == 4096);
    }
    let mut p: i64 = 1;
    let mut j: i64 = 0;
    while j < e
        invariant
            0 <= j <= e <= 12,
            p as int == pow2i(j as int),
            1 <= p <= 4096,
            pow2i(12) == 4096,
        decreases e - j,
    {
        proof {
            assert(pow2i(j as int + 1) == 2 * pow2i(j as int));
            lemma_pow2_mono(j as int + 1, 12);
        }
        p = p * 2;
        j = j + 1;
    }
    proof {
        lemma_pow2_mono(e as int, 12);
        lemma_pow2_pos(e as int);
    }
    p
}

/// Compute the equal-tempered frequency of a MIDI note.
pub fn midi_hz(n: u8) -> (r: i64)
    requires
        n < 128,
    ensures
        r as int == spec_midi_hz(n as int),
{
    let m: i64 = n as i64 - 69;
    let o: i64 = if m >= 0 {
        m / 12
    } else {
        -((-m + 11) / 12)
    };
    let k: i64 = m - 12 * o;
    proof {
        let mi = m as int;
        vstd::arithmetic::div_mod::lemma_fundamental_div_mod(mi, 12);
        if m < 0 {
            let u = -mi;
            let v = (u + 11) / 12;
            vstd::arithmetic::div_mod::lemma_fundamental_div_mod(u + 11, 12);
            assert(u <= 12 * v <= u + 11);
            assert(o == -v);
            assert(0 <= k < 12);
            assert(mi == 12 * o + k);
            assert(12 * (o - mi / 12) == (mi % 12) - k);
        }
        assert(o == mi / 12);
        assert(k == mi % 12);
    }
    let b = fx_muldiv(PITCH_A4, semitone_ratio(k), FX_ONE);
    if o >= 0 {
        fx_scale(b, pow2_small(o))
    } else {
        fx_muldiv(b, 1, pow2_small(-o))
    }
}

/// A pitch node: holds the most recent MIDI note and outputs its frequency.
pub struct MidiPitch {
    pub step: u8,
}

/// What a pitch node outputs: the equal-tempered frequency of its note.
pub open spec fn spec_midi_pitch_out(p: MidiPitch) -> int {
    spec_midi_hz(p.step as int)
}

impl MidiPitch {
    /// A pitch node at concert A.
    pub fn new() -> (r: MidiPitch)
        ensures
            r.step == 69,
    {
        MidiPitch { step: 69 }
    }

    /// Replace the held note.  Note numbers have seven bits; higher values
    /// are folded into range.
    pub fn set_step(&mut self, step: u8)
        ensures
            final(self).step == step % 128,
    {
        self.step = step % 128;
    }

    /// Output the frequency of the held note.
    pub fn step_out(&self) -> (out: i64)
        requires
            self.step < 128,
        ensures
            out as int == spec_midi_pitch_out(*self),
    {
        midi_hz(self.step)
    }
}

/// What a control node outputs: the raw value mapped linearly into its
/// range, `lo + (v / 127) * (hi - lo)`.
pub open spec fn spec_midi_control_out(c: MidiControl) -> int {
    spec_add(
        c.range_lo as int,
        spec_muldiv(c.value as int, spec_sub(c.range_hi as int, c.range_lo as int), 127),
    )
}

/// A control node: holds a controller number and the most recent raw
/// value, and outputs that value mapped into a configured range.
pub struct MidiControl {
    pub controller: u8,
    pub value: u8,
    pub range_lo: i64,
    pub range_hi: i64,
}

impl MidiControl {
    /// A control node for the given controller, starting at the given raw
    /// value, with the unit range.
    pub fn new(controller: u8, value: u8) -> (r: MidiControl)
        ensures
            r.controller == controller,
            r.value == value % 128,
            r.range_lo == 0,
            r.range_hi == FX_ONE,
    {
        MidiControl { controller, value: value % 128, range_lo: 0, range_hi: FX_ONE }
    }

    /// Replace the mapped range.
    pub fn set_range(&mut self, lo: i64, hi: i64)
        ensures
            final(self).range_lo == lo,
            final(self).range_hi == hi,
            final(self).controller == old(self).controller,
            final(self).value == old(self).value,
    {
        self.range_lo = lo;
        self.range_hi = hi;
    }

    /// Replace the raw value.  Controller values have seven bits; higher
    /// values are folded into range.
    pub fn set_value(&mut self, value: u8)
        ensures
            final(self).value == value % 128,
            final(self).controller == old(self).controller,
            final(self).range_lo == old(self).range_lo,
            final(self).range_hi == old(self).range_hi,
    {
        self.value = value % 128;
    }

    /// Output the mapped value.
    pub fn step_out(&self) -> (out: i64)
        ensures
            out as int == spec_midi_control_out(*self),
    {
        fx_add(
            self.range_lo,
            fx_muldiv(self.value as i64, fx_sub(self.range_hi, self.range_lo), 127),
        )
    }
}

/// A normalized MIDI event: what the engine consumes from a raw message.
#[derive(Clone, Copy, PartialEq, Eq, Structural, Debug)]
pub enum MidiEvent {
    NoteOn { note: u8, velocity: u8 },
    NoteOff { note: u8 },
    ControlChange { controller: u8, value: u8 },
}

/// What a raw message means: three-byte messages with status 144, 128 or
/// 176 are note-on, note-off and control-change; anything else is ignored.
pub open spec fn spec_parse_midi(msg: Seq<u8>) -> Option<MidiEvent> {
    if msg.len() != 3 {
        None
    } else if msg[0] == 144 {
        Some(MidiEvent::NoteOn { note: (msg[1] as u8) % 128, velocity: (msg[2] as u8) % 128 })
    } else if msg[0] == 128 {
        Some(MidiEvent::NoteOff { note: (msg[1] as u8) % 128 })
    } else if msg[0] == 176 {
        Some(
            MidiEvent::ControlChange {
                controller: (msg[1] as u8) % 128,
                value: (msg[2] as u8) % 128,
            },
        )
    } else {
        None
    }
}

/// Normalize a raw MIDI message.  Status 144 is note-on, 128 note-off,
/// 176 control-change; data bytes keep their seven low bits; a message of
/// any other length or status is ignored.
pub fn parse_midi(msg: &Vec<u8>) -> (r: Option<MidiEvent>)
    ensures
        r == spec_parse_midi(msg@),
{
    if msg.len() != 3 {
        return None;
    }
    let status = msg[0];
    if status == 144 {
        Some(MidiEvent::NoteOn { note: msg[1] % 128, velocity: msg[2] % 128 })
    } else if status == 128 {
        Some(MidiEvent::NoteOff { note: msg[1] % 128 })
    } else if status == 176 {
        Some(MidiEvent::ControlChange { controller: msg[1] % 128, value: msg[2] % 128 })
    } else {
        None
    }
}

} // verus!
