//! Whether every `HexU50` of a patch lies in [0; 50]. Writing such a value outside its
//! range is refused as an overflow, so a patch that holds one cannot be saved.
use vstd::prelude::*;
use crate::kit::row::{RowKit, RowKitView};
use crate::kit::{Kit, KitView};
use crate::sound::effects::{Delay, Distorsion, Equalizer, ModulationFx};
use crate::sound::fm::FmSynth;
use crate::sound::modulators::{Envelope, PatchCable};
use crate::sound::ring_mod::RingModSynth;
use crate::sound::subtractive::{SubtractiveOscillator, SubtractiveOscillatorView, SubtractiveSynthView};
use crate::sound::{Arpeggiator, Sound, SoundView, SynthEngine, SynthEngineView};
use crate::values::hexu50::HexU50;
use crate::serialization::laws::{kit_well_formed, row_well_formed};
use crate::serialization::round_trip::sound_well_formed;

verus! {

/// Whether a value lies in [0; 50].
pub open spec fn hex_ok(v: HexU50) -> bool {
    v.0 <= 50
}

/// Whether a value found by a check is one above 50, if any was found.
pub open spec fn found_above(found: Option<u8>) -> bool {
    found matches Some(x) ==> x > 50
}

/// The envelope's values lie in [0; 50].
pub open spec fn envelope_hex_ok(e: Envelope) -> bool {
    hex_ok(e.attack) && hex_ok(e.decay) && hex_ok(e.sustain) && hex_ok(e.release)
}

/// The delay's values lie in [0; 50].
pub open spec fn delay_hex_ok(d: Delay) -> bool {
    hex_ok(d.amount) && hex_ok(d.rate)
}

/// The distortion's values lie in [0; 50].
pub open spec fn distorsion_hex_ok(d: Distorsion) -> bool {
    hex_ok(d.bit_crush) && hex_ok(d.decimation)
}

/// The equalizer's values lie in [0; 50].
pub open spec fn equalizer_hex_ok(e: Equalizer) -> bool {
    hex_ok(e.bass_level) && hex_ok(e.bass_frequency) && hex_ok(e.treble_level) && hex_ok(e.treble_frequency)
}

/// The values of a modulation effect lie in [0; 50].
pub open spec fn mod_fx_hex_ok(fx: ModulationFx) -> bool {
    match fx {
        ModulationFx::Off => true,
        ModulationFx::Flanger(f) => hex_ok(f.rate) && hex_ok(f.feedback),
        ModulationFx::Chorus(c) => hex_ok(c.rate) && hex_ok(c.depth) && hex_ok(c.offset),
        ModulationFx::Phaser(p) => hex_ok(p.rate) && hex_ok(p.depth) && hex_ok(p.feedback),
    }
}

/// The arpeggiator's values lie in [0; 50].
pub open spec fn arpeggiator_hex_ok(a: Arpeggiator) -> bool {
    hex_ok(a.gate) && hex_ok(a.rate)
}

/// The values of an oscillator of a subtractive engine lie in [0; 50].
pub open spec fn oscillator_hex_ok(o: SubtractiveOscillatorView) -> bool {
    match o {
        SubtractiveOscillatorView::Waveform(w) => hex_ok(w.pulse_width),
        SubtractiveOscillatorView::Sample(_) => true,
    }
}

/// The values of a subtractive engine lie in [0; 50].
pub open spec fn subtractive_hex_ok(s: SubtractiveSynthView) -> bool {
    &&& oscillator_hex_ok(s.osc1)
    &&& oscillator_hex_ok(s.osc2)
    &&& hex_ok(s.osc1_volume) && hex_ok(s.osc2_volume) && hex_ok(s.noise)
    &&& hex_ok(s.lpf_frequency) && hex_ok(s.lpf_resonance) && hex_ok(s.hpf_frequency) && hex_ok(s.hpf_resonance)
}

/// The values of a ring modulation engine lie in [0; 50].
pub open spec fn ring_mod_hex_ok(r: RingModSynth) -> bool {
    hex_ok(r.osc1.pulse_width) && hex_ok(r.osc2.pulse_width) && hex_ok(r.noise)
}

/// The values of an FM engine lie in [0; 50].
pub open spec fn fm_hex_ok(f: FmSynth) -> bool {
    &&& hex_ok(f.osc1.feedback) && hex_ok(f.osc2.feedback)
    &&& hex_ok(f.modulator1.amount) && hex_ok(f.modulator1.feedback)
    &&& hex_ok(f.modulator2.amount) && hex_ok(f.modulator2.feedback)
    &&& hex_ok(f.osc1_volume) && hex_ok(f.osc2_volume)
}

/// The values of an engine lie in [0; 50].
pub open spec fn engine_hex_ok(g: SynthEngineView) -> bool {
    match g {
        SynthEngineView::Subtractive(s) => subtractive_hex_ok(s),
        SynthEngineView::RingMod(r) => ring_mod_hex_ok(r),
        SynthEngineView::Fm(f) => fm_hex_ok(f),
    }
}

/// Every `HexU50` of a sound lies in [0; 50].
pub open spec fn sound_hex_ok(s: SoundView) -> bool {
    &&& engine_hex_ok(s.generator)
    &&& hex_ok(s.volume) && hex_ok(s.portamento) && hex_ok(s.reverb_amount) && hex_ok(s.stutter_rate)
    &&& envelope_hex_ok(s.envelope1) && envelope_hex_ok(s.envelope2)
    &&& hex_ok(s.lfo1.rate) && hex_ok(s.lfo2.rate)
    &&& arpeggiator_hex_ok(s.arpeggiator)
    &&& delay_hex_ok(s.delay)
    &&& distorsion_hex_ok(s.distorsion)
    &&& mod_fx_hex_ok(s.modulation_fx)
    &&& equalizer_hex_ok(s.equalizer)
    &&& hex_ok(s.sidechain.shape)
    &&& forall|i: int| 0 <= i < s.cables.len() ==> hex_ok(#[trigger] s.cables[i].amount)
}

/// Every `HexU50` of a row of a kit lies in [0; 50].
pub open spec fn row_hex_ok(r: RowKitView) -> bool {
    match r {
        RowKitView::Sound(s) => sound_hex_ok(s.sound),
        _ => true,
    }
}

/// Every `HexU50` of a kit lies in [0; 50].
pub open spec fn kit_hex_ok(k: KitView) -> bool {
    &&& forall|i: int| 0 <= i < k.rows.len() ==> row_hex_ok(#[trigger] k.rows[i])
    &&& hex_ok(k.volume) && hex_ok(k.reverb_amount) && hex_ok(k.bit_crush) && hex_ok(k.decimation)
    &&& hex_ok(k.stutter_rate)
    &&& mod_fx_hex_ok(k.modulation_fx)
    &&& delay_hex_ok(k.delay)
    &&& hex_ok(k.sidechain.shape)
    &&& hex_ok(k.lpf.frequency) && hex_ok(k.lpf.resonance) && hex_ok(k.hpf.frequency) && hex_ok(k.hpf.resonance)
    &&& equalizer_hex_ok(k.equalizer)
}

/// A sound every value of which is one its type stands for, as every sound read from a
/// document is, holds no `HexU50` above 50: it can be saved.
pub proof fn lemma_well_formed_sound_saves(s: SoundView)
    requires
        sound_well_formed(s),
    ensures
        sound_hex_ok(s),
{
}

/// A kit every value of which is one its type stands for, as every kit read from a
/// document is, holds no `HexU50` above 50: it can be saved.
pub proof fn lemma_well_formed_kit_saves(k: KitView)
    requires
        kit_well_formed(k),
    ensures
        kit_hex_ok(k),
{
    assert forall|i: int| 0 <= i < k.rows.len() implies row_hex_ok(#[trigger] k.rows[i]) by {
        assert(row_well_formed(k.rows[i]));
        match k.rows[i] {
            RowKitView::Sound(r) => lemma_well_formed_sound_saves(r.sound),
            _ => {},
        }
    }
}

/// The value found so far, or this one if none was and it lies above 50.
fn check(found: Option<u8>, v: HexU50) -> (r: Option<u8>)
    requires
        found_above(found),
    ensures
        found_above(r),
        r is None <==> (found is None && hex_ok(v)),
{
    match found {
        Some(x) => Some(x),
        None => if v.0 > 50 {
            Some(v.0)
        } else {
            None
        },
    }
}

fn check_envelope(found: Option<u8>, e: &Envelope) -> (r: Option<u8>)
    requires
        found_above(found),
    ensures
        found_above(r),
        r is None <==> (found is None && envelope_hex_ok(*e)),
{
    let f = check(found, e.attack);
    let f = check(f, e.decay);
    let f = check(f, e.sustain);
    check(f, e.release)
}

fn check_delay(found: Option<u8>, d: &Delay) -> (r: Option<u8>)
    requires
        found_above(found),
    ensures
        found_above(r),
        r is None <==> (found is None && delay_hex_ok(*d)),
{
    let f = check(found, d.amount);
    check(f, d.rate)
}

fn check_equalizer(found: Option<u8>, e: &Equalizer) -> (r: Option<u8>)
    requires
        found_above(found),
    ensures
        found_above(r),
        r is None <==> (found is None && equalizer_hex_ok(*e)),
{
    let f = check(found, e.bass_level);
    let f = check(f, e.bass_frequency);
    let f = check(f, e.treble_level);
    check(f, e.treble_frequency)
}

fn check_mod_fx(found: Option<u8>, fx: &ModulationFx) -> (r: Option<u8>)
    requires
        found_above(found),
    ensures
        found_above(r),
        r is None <==> (found is None && mod_fx_hex_ok(*fx)),
{
    match fx {
        ModulationFx::Off => found,
        ModulationFx::Flanger(x) => {
            let f = check(found, x.rate);
            check(f, x.feedback)
        },
        ModulationFx::Chorus(x) => {
            let f = check(found, x.rate);
            let f = check(f, x.depth);
            check(f, x.offset)
        },
        ModulationFx::Phaser(x) => {
            let f = check(found, x.rate);
            let f = check(f, x.depth);
            check(f, x.feedback)
        },
    }
}

fn check_oscillator(found: Option<u8>, o: &SubtractiveOscillator) -> (r: Option<u8>)
    requires
        found_above(found),
    ensures
        found_above(r),
        r is None <==> (found is None && oscillator_hex_ok(o@)),
{
    match o {
        SubtractiveOscillator::Waveform(w) => check(found, w.pulse_width),
        SubtractiveOscillator::Sample(_) => found,
    }
}

fn check_engine(found: Option<u8>, g: &SynthEngine) -> (r: Option<u8>)
    requires
        found_above(found),
    ensures
        found_above(r),
        r is None <==> (found is None && engine_hex_ok(g@)),
{
    match g {
        SynthEngine::Subtractive(s) => {
            let f = check_oscillator(found, &s.osc1);
            let f = check_oscillator(f, &s.osc2);
            let f = check(f, s.osc1_volume);
            let f = check(f, s.osc2_volume);
            let f = check(f, s.noise);
            let f = check(f, s.lpf_frequency);
            let f = check(f, s.lpf_resonance);
            let f = check(f, s.hpf_frequency);
            check(f, s.hpf_resonance)
        },
        SynthEngine::RingMod(x) => {
            let f = check(found, x.osc1.pulse_width);
            let f = check(f, x.osc2.pulse_width);
            check(f, x.noise)
        },
        SynthEngine::Fm(x) => {
            let f = check(found, x.osc1.feedback);
            let f = check(f, x.osc2.feedback);
            let f = check(f, x.modulator1.amount);
            let f = check(f, x.modulator1.feedback);
            let f = check(f, x.modulator2.amount);
            let f = check(f, x.modulator2.feedback);
            let f = check(f, x.osc1_volume);
            check(f, x.osc2_volume)
        },
    }
}

fn check_cables(found: Option<u8>, cables: &Vec<PatchCable>) -> (r: Option<u8>)
    requires
        found_above(found),
    ensures
        found_above(r),
        r is None <==> (found is None && forall|i: int| 0 <= i < cables@.len() ==> hex_ok(#[trigger] cables@[i].amount)),
{
    if found.is_some() {
        return found;
    }
    let mut i: usize = 0;
    while i < cables.len()
        invariant
            found is None,
            i <= cables@.len(),
            forall|k: int| 0 <= k < i ==> hex_ok(#[trigger] cables@[k].amount),
        decreases cables.len() - i,
    {
        if cables[i].amount.0 > 50 {
            return Some(cables[i].amount.0);
        }
        i = i + 1;
    }
    None
}

/// A `HexU50` of the sound that lies above 50, if there is one.
pub fn sound_hex_overflow(s: &Sound) -> (r: Option<u8>)
    ensures
        found_above(r),
        r is None <==> sound_hex_ok(s@),
{
    let f = check_engine(None, &s.generator);
    let f = check(f, s.volume);
    let f = check(f, s.portamento);
    let f = check(f, s.reverb_amount);
    let f = check(f, s.stutter_rate);
    let f = check_envelope(f, &s.envelope1);
    let f = check_envelope(f, &s.envelope2);
    let f = check(f, s.lfo1.rate);
    let f = check(f, s.lfo2.rate);
    let f = check(f, s.arpeggiator.gate);
    let f = check(f, s.arpeggiator.rate);
    let f = check_delay(f, &s.delay);
    let f = check(f, s.distorsion.bit_crush);
    let f = check(f, s.distorsion.decimation);
    let f = check_mod_fx(f, &s.modulation_fx);
    let f = check_equalizer(f, &s.equalizer);
    let f = check(f, s.sidechain.shape);
    let r = check_cables(f, &s.cables);
    proof {
        let exec_ok = forall|i: int| 0 <= i < s.cables@.len() ==> hex_ok(#[trigger] s.cables@[i].amount);
        let view_ok = forall|i: int| 0 <= i < s@.cables.len() ==> hex_ok(#[trigger] s@.cables[i].amount);
        if exec_ok {
            assert forall|i: int| 0 <= i < s@.cables.len() implies hex_ok(#[trigger] s@.cables[i].amount) by {
                assert(s@.cables[i] == s.cables@[i]@);
                assert(hex_ok(s.cables@[i].amount));
            }
        }
        if view_ok {
            assert forall|i: int| 0 <= i < s.cables@.len() implies hex_ok(#[trigger] s.cables@[i].amount) by {
                assert(s@.cables[i] == s.cables@[i]@);
                assert(hex_ok(s@.cables[i].amount));
            }
        }
        assert(exec_ok == view_ok);
    }
    r
}

/// A `HexU50` of the kit, or of the sound of one of its rows, that lies above 50, if
/// there is one.
pub fn kit_hex_overflow(k: &Kit) -> (r: Option<u8>)
    ensures
        found_above(r),
        r is None <==> kit_hex_ok(k@),
{
    let mut i: usize = 0;
    while i < k.rows.len()
        invariant
            i <= k.rows@.len(),
            forall|j: int| 0 <= j < i ==> row_hex_ok(#[trigger] k@.rows[j]),
        decreases k.rows.len() - i,
    {
        assert(k@.rows[i as int] == k.rows@[i as int]@);
        match &k.rows[i] {
            RowKit::Sound(row) => {
                let found = sound_hex_overflow(&row.sound);
                if found.is_some() {
                    return found;
                }
            },
            _ => {},
        }
        i = i + 1;
    }
    let f = check(None, k.volume);
    let f = check(f, k.reverb_amount);
    let f = check(f, k.bit_crush);
    let f = check(f, k.decimation);
    let f = check(f, k.stutter_rate);
    let f = check_mod_fx(f, &k.modulation_fx);
    let f = check_delay(f, &k.delay);
    let f = check(f, k.sidechain.shape);
    let f = check(f, k.lpf.frequency);
    let f = check(f, k.lpf.resonance);
    let f = check(f, k.hpf.frequency);
    let f = check(f, k.hpf.resonance);
    check_equalizer(f, &k.equalizer)
}

} // verus!
