//! Writing patches as XML elements, in the latest format: values in attributes.
//!
//! A sound keeps most of its numeric settings in a `defaultParams` element; the writers of
//! its parts take that element and append what they put there.
use vstd::prelude::*;
use crate::sound::effects::{Delay, Distorsion, Equalizer, ModulationFx, Sidechain};
use crate::sound::modulators::{Envelope, Lfo1, Lfo2, ModKnob, ModKnobView, PatchCable, PatchCableView};
use crate::sound::{Arpeggiator, Unison};
use crate::values::hexu50::HexU50;
use crate::values::simple_enums::ModulationFxType;
use crate::values::XmlValue;
use crate::xml::{element_nodes, element_view, push_opt_value, push_value, XmlElement, XmlElementView, XmlNodeView};
use crate::serialization::{spec_twin_key, TwinSelector};
use crate::sound::fm::{FmCarrier, FmModulator, FmSynth};
use crate::sound::ring_mod::RingModSynth;
use crate::sound::subtractive::{
    Sample, SampleOscillator, SampleOscillatorView, SampleRange, SampleRangeView, SampleView, SampleZone,
    SubtractiveOscillator, SubtractiveOscillatorView, SubtractiveSynth, SubtractiveSynthView,
};
use crate::sound::{SynthEngine, SynthEngineView, WaveformOscillator};
use crate::values::simple_enums::OscType;
use crate::sound::{Sound, SoundView, spec_sound_type};
use crate::kit::row::{RowKit, RowKitView, CvGateRow, MidiRow};
use crate::kit::{Kit, KitView, Lpf, Hpf};
use crate::synth::Synth;
use crate::text::{dec_text, u64_text};
use crate::serialization::LATEST_SUPPORTED_FIRMWARE_VERSION;

verus! {

/// An attribute holding a value.
pub open spec fn value_pair<T: XmlValue>(key: Seq<char>, v: T) -> (Seq<char>, Seq<char>) {
    (key, v.spec_to_text())
}

/// An attribute holding a value, if there is one.
pub open spec fn opt_pairs<T: XmlValue>(key: Seq<char>, v: Option<T>) -> Seq<(Seq<char>, Seq<char>)> {
    match v {
        Some(x) => seq![value_pair(key, x)],
        None => Seq::empty(),
    }
}

/// An element with attributes and no child.
pub open spec fn leaf(name: Seq<char>, attributes: Seq<(Seq<char>, Seq<char>)>) -> XmlElementView {
    XmlElementView { name, attributes, children: Seq::empty() }
}

/// An element with more attributes after its own.
pub open spec fn with_attributes(e: XmlElementView, attributes: Seq<(Seq<char>, Seq<char>)>) -> XmlElementView {
    XmlElementView { attributes: e.attributes + attributes, ..e }
}

/// An element with more children after its own.
pub open spec fn with_children(e: XmlElementView, children: Seq<XmlElementView>) -> XmlElementView {
    XmlElementView { children: e.children + element_nodes(children), ..e }
}

/// The element of an envelope.
pub open spec fn spec_envelope_element(env: Envelope, name: Seq<char>) -> XmlElementView {
    leaf(
        name,
        seq![value_pair("attack"@, env.attack)].push(value_pair("decay"@, env.decay)).push(value_pair("sustain"@, env.sustain)).push(value_pair("release"@, env.release)),
    )
}

/// Writes an envelope as an element of that name.
pub fn write_envelope(env: &Envelope, name: &str) -> (r: XmlElement)
    ensures
        element_view(r) == spec_envelope_element(*env, name@),
{
    let mut n = XmlElement::new(name);
    push_value(&mut n, "attack", &env.attack);
    push_value(&mut n, "decay", &env.decay);
    push_value(&mut n, "sustain", &env.sustain);
    push_value(&mut n, "release", &env.release);
    assert(element_view(n).attributes =~= spec_envelope_element(*env, name@).attributes);
    n
}

/// The element of an equalizer.
pub open spec fn spec_equalizer_element(eq: Equalizer) -> XmlElementView {
    leaf(
        "equalizer"@,
        seq![value_pair("bass"@, eq.bass_level)].push(value_pair("bassFrequency"@, eq.bass_frequency)).push(value_pair("treble"@, eq.treble_level)).push(value_pair("trebleFrequency"@, eq.treble_frequency)),
    )
}

/// Writes an equalizer.
#[verifier::rlimit(50)]
pub fn write_equalizer(eq: &Equalizer) -> (r: XmlElement)
    ensures
        element_view(r) == spec_equalizer_element(*eq),
{
    let mut n = XmlElement::new("equalizer");
    push_value(&mut n, "bass", &eq.bass_level);
    push_value(&mut n, "bassFrequency", &eq.bass_frequency);
    push_value(&mut n, "treble", &eq.treble_level);
    push_value(&mut n, "trebleFrequency", &eq.treble_frequency);
    assert(element_view(n).attributes =~= spec_equalizer_element(*eq).attributes);
    n
}

/// The element of a unison.
pub open spec fn spec_unison_element(u: Unison) -> XmlElementView {
    leaf("unison"@, seq![value_pair("num"@, u.voice_count)].push(value_pair("detune"@, u.detune)))
}

/// Writes a unison.
pub fn write_unison(u: &Unison) -> (r: XmlElement)
    ensures
        element_view(r) == spec_unison_element(*u),
{
    let mut n = XmlElement::new("unison");
    push_value(&mut n, "num", &u.voice_count);
    push_value(&mut n, "detune", &u.detune);
    assert(element_view(n).attributes =~= spec_unison_element(*u).attributes);
    n
}

/// The element of the first LFO.
pub open spec fn spec_lfo1_element(lfo: Lfo1) -> XmlElementView {
    leaf("lfo1"@, seq![value_pair("type"@, lfo.shape)].push(value_pair("syncLevel"@, lfo.sync_level)))
}

/// What the first LFO puts among the default parameters.
pub open spec fn spec_lfo1_params(lfo: Lfo1) -> Seq<(Seq<char>, Seq<char>)> {
    seq![value_pair("lfo1Rate"@, lfo.rate)]
}

/// Writes the first LFO; its rate goes among the default parameters.
pub fn write_lfo1(lfo: &Lfo1, params: &mut XmlElement) -> (r: XmlElement)
    ensures
        element_view(r) == spec_lfo1_element(*lfo),
        element_view(*final(params)) == with_attributes(element_view(*old(params)), spec_lfo1_params(*lfo)),
{
    let mut n = XmlElement::new("lfo1");
    push_value(&mut n, "type", &lfo.shape);
    push_value(&mut n, "syncLevel", &lfo.sync_level);
    push_value(params, "lfo1Rate", &lfo.rate);
    assert(element_view(n).attributes =~= spec_lfo1_element(*lfo).attributes);
    assert(element_view(*params).attributes =~= element_view(*old(params)).attributes + spec_lfo1_params(*lfo));
    n
}

/// The element of the second LFO.
pub open spec fn spec_lfo2_element(lfo: Lfo2) -> XmlElementView {
    leaf("lfo2"@, seq![value_pair("type"@, lfo.shape)])
}

/// What the second LFO puts among the default parameters.
pub open spec fn spec_lfo2_params(lfo: Lfo2) -> Seq<(Seq<char>, Seq<char>)> {
    seq![value_pair("lfo2Rate"@, lfo.rate)]
}

/// Writes the second LFO; its rate goes among the default parameters.
pub fn write_lfo2(lfo: &Lfo2, params: &mut XmlElement) -> (r: XmlElement)
    ensures
        element_view(r) == spec_lfo2_element(*lfo),
        element_view(*final(params)) == with_attributes(element_view(*old(params)), spec_lfo2_params(*lfo)),
{
    let mut n = XmlElement::new("lfo2");
    push_value(&mut n, "type", &lfo.shape);
    push_value(params, "lfo2Rate", &lfo.rate);
    assert(element_view(n).attributes =~= spec_lfo2_element(*lfo).attributes);
    assert(element_view(*params).attributes =~= element_view(*old(params)).attributes + spec_lfo2_params(*lfo));
    n
}

/// The element of an arpeggiator.
pub open spec fn spec_arpeggiator_element(a: Arpeggiator) -> XmlElementView {
    leaf(
        "arpeggiator"@,
        seq![value_pair("mode"@, a.mode)].push(value_pair("syncLevel"@, a.sync_level)).push(value_pair("numOctaves"@, a.octaves_count)),
    )
}

/// What an arpeggiator puts among the default parameters.
pub open spec fn spec_arpeggiator_params(a: Arpeggiator) -> Seq<(Seq<char>, Seq<char>)> {
    seq![value_pair("arpeggiatorRate"@, a.rate)].push(value_pair("arpeggiatorGate"@, a.gate))
}

/// Writes an arpeggiator; its rate and gate go among the default parameters.
pub fn write_arpeggiator(a: &Arpeggiator, params: &mut XmlElement) -> (r: XmlElement)
    ensures
        element_view(r) == spec_arpeggiator_element(*a),
        element_view(*final(params)) == with_attributes(element_view(*old(params)), spec_arpeggiator_params(*a)),
{
    let mut n = XmlElement::new("arpeggiator");
    push_value(&mut n, "mode", &a.mode);
    push_value(&mut n, "syncLevel", &a.sync_level);
    push_value(&mut n, "numOctaves", &a.octaves_count);
    push_value(params, "arpeggiatorRate", &a.rate);
    push_value(params, "arpeggiatorGate", &a.gate);
    assert(element_view(n).attributes =~= spec_arpeggiator_element(*a).attributes);
    assert(element_view(*params).attributes =~= element_view(*old(params)).attributes + spec_arpeggiator_params(*a));
    n
}

/// The element of a delay.
pub open spec fn spec_delay_element(d: Delay) -> XmlElementView {
    leaf(
        "delay"@,
        seq![value_pair("pingPong"@, d.ping_pong)].push(value_pair("analog"@, d.analog)).push(value_pair("syncLevel"@, d.sync_level)),
    )
}

/// What a delay puts among the parameters, under the given names.
pub open spec fn spec_delay_params(d: Delay, amount_key: Seq<char>, rate_key: Seq<char>) -> Seq<
    (Seq<char>, Seq<char>),
> {
    seq![value_pair(amount_key, d.amount)].push(value_pair(rate_key, d.rate))
}

/// Writes a delay; its amount and rate go among the parameters under the given names.
pub fn write_delay(d: &Delay, params: &mut XmlElement, amount_key: &str, rate_key: &str) -> (r: XmlElement)
    ensures
        element_view(r) == spec_delay_element(*d),
        element_view(*final(params)) == with_attributes(
            element_view(*old(params)),
            spec_delay_params(*d, amount_key@, rate_key@),
        ),
{
    let mut n = XmlElement::new("delay");
    push_value(&mut n, "pingPong", &d.ping_pong);
    push_value(&mut n, "analog", &d.analog);
    push_value(&mut n, "syncLevel", &d.sync_level);
    push_value(params, amount_key, &d.amount);
    push_value(params, rate_key, &d.rate);
    assert(element_view(n).attributes =~= spec_delay_element(*d).attributes);
    assert(element_view(*params).attributes =~= element_view(*old(params)).attributes + spec_delay_params(
        *d,
        amount_key@,
        rate_key@,
    ));
    n
}

/// The element of a sidechain.
pub open spec fn spec_sidechain_element(s: Sidechain) -> XmlElementView {
    leaf(
        "compressor"@,
        seq![value_pair("attack"@, s.attack)].push(value_pair("release"@, s.release)).push(value_pair("syncLevel"@, s.sync)),
    )
}

/// Writes a sidechain; its shape goes among the default parameters under the given name.
pub fn write_sidechain(s: &Sidechain, params: &mut XmlElement, shape_key: &str) -> (r: XmlElement)
    ensures
        element_view(r) == spec_sidechain_element(*s),
        element_view(*final(params)) == with_attributes(
            element_view(*old(params)),
            seq![value_pair(shape_key@, s.shape)],
        ),
{
    let mut n = XmlElement::new("compressor");
    push_value(&mut n, "attack", &s.attack);
    push_value(&mut n, "release", &s.release);
    push_value(&mut n, "syncLevel", &s.sync);
    push_value(params, shape_key, &s.shape);
    assert(element_view(n).attributes =~= spec_sidechain_element(*s).attributes);
    assert(element_view(*params).attributes =~= element_view(*old(params)).attributes + seq![
        value_pair(shape_key@, s.shape),
    ]);
    n
}

/// The element of a patch cable.
pub open spec fn spec_cable_element(c: PatchCableView) -> XmlElementView {
    leaf(
        "patchCable"@,
        seq![("source"@, c.source)].push(("destination"@, c.destination)).push(value_pair("amount"@, c.amount)),
    )
}

/// The element of the patch cables of a sound.
pub open spec fn spec_cables_element(cables: Seq<PatchCableView>) -> XmlElementView {
    with_children(leaf("patchCables"@, Seq::empty()), cables.map_values(|c: PatchCableView| spec_cable_element(c)))
}

fn write_cable(c: &PatchCable) -> (r: XmlElement)
    ensures
        element_view(r) == spec_cable_element(c@),
{
    let mut n = XmlElement::new("patchCable");
    n.push_attribute("source", c.source.clone());
    n.push_attribute("destination", c.destination.clone());
    push_value(&mut n, "amount", &c.amount);
    assert(element_view(n).attributes =~= spec_cable_element(c@).attributes);
    n
}

/// Writes the patch cables of a sound, in order.
pub fn write_cables(cables: &Vec<PatchCable>) -> (r: XmlElement)
    ensures
        element_view(r) == spec_cables_element(cables@.map_values(|c: PatchCable| c@)),
{
    let ghost views = cables@.map_values(|c: PatchCable| c@);
    let mut n = XmlElement::new("patchCables");
    let mut i: usize = 0;
    while i < cables.len()
        invariant
            i <= cables@.len(),
            views == cables@.map_values(|c: PatchCable| c@),
            element_view(n) == spec_cables_element(views.subrange(0, i as int)),
        decreases cables.len() - i,
    {
        let c = write_cable(&cables[i]);
        n.push_child(c);
        proof {
            let before = views.subrange(0, i as int).map_values(|c: PatchCableView| spec_cable_element(c));
            let after = views.subrange(0, i + 1).map_values(|c: PatchCableView| spec_cable_element(c));
            assert(after =~= before.push(spec_cable_element(views[i as int])));
            assert(element_nodes(after) =~= element_nodes(before).push(XmlNodeView::Element(spec_cable_element(views[i as int]))));
        }
        i = i + 1;
    }
    assert(views.subrange(0, i as int) =~= views);
    n
}

/// The element of a mod knob.
pub open spec fn spec_mod_knob_element(k: ModKnobView) -> XmlElementView {
    leaf(
        "modKnob"@,
        seq![("controlsParam"@, k.control_param)] + match k.patch_amount_from_source {
            Some(s) => seq![("patchAmountFromSource"@, s)],
            None => Seq::empty(),
        },
    )
}

/// The element of the mod knobs of a sound.
pub open spec fn spec_mod_knobs_element(knobs: Seq<ModKnobView>) -> XmlElementView {
    with_children(leaf("modKnobs"@, Seq::empty()), knobs.map_values(|k: ModKnobView| spec_mod_knob_element(k)))
}

fn write_mod_knob(k: &ModKnob) -> (r: XmlElement)
    ensures
        element_view(r) == spec_mod_knob_element(k@),
{
    let mut n = XmlElement::new("modKnob");
    n.push_attribute("controlsParam", k.control_param.clone());
    match &k.patch_amount_from_source {
        Some(s) => n.push_attribute("patchAmountFromSource", s.clone()),
        None => {},
    }
    assert(element_view(n).attributes =~= spec_mod_knob_element(k@).attributes);
    n
}

/// Writes the mod knobs of a sound, in order.
pub fn write_mod_knobs(knobs: &Vec<ModKnob>) -> (r: XmlElement)
    ensures
        element_view(r) == spec_mod_knobs_element(knobs@.map_values(|k: ModKnob| k@)),
{
    let ghost views = knobs@.map_values(|k: ModKnob| k@);
    let mut n = XmlElement::new("modKnobs");
    let mut i: usize = 0;
    while i < knobs.len()
        invariant
            i <= knobs@.len(),
            views == knobs@.map_values(|k: ModKnob| k@),
            element_view(n) == spec_mod_knobs_element(views.subrange(0, i as int)),
        decreases knobs.len() - i,
    {
        let c = write_mod_knob(&knobs[i]);
        n.push_child(c);
        proof {
            let before = views.subrange(0, i as int).map_values(|k: ModKnobView| spec_mod_knob_element(k));
            let after = views.subrange(0, i + 1).map_values(|k: ModKnobView| spec_mod_knob_element(k));
            assert(after =~= before.push(spec_mod_knob_element(views[i as int])));
            assert(element_nodes(after) =~= element_nodes(before).push(XmlNodeView::Element(spec_mod_knob_element(views[i as int]))));
        }
        i = i + 1;
    }
    assert(views.subrange(0, i as int) =~= views);
    n
}

/// The kind of a modulation effect.
pub open spec fn spec_mod_fx_kind(fx: ModulationFx) -> ModulationFxType {
    match fx {
        ModulationFx::Off => ModulationFxType::Off,
        ModulationFx::Flanger(_) => ModulationFxType::Flanger,
        ModulationFx::Chorus(_) => ModulationFxType::Chorus,
        ModulationFx::Phaser(_) => ModulationFxType::Phaser,
    }
}

/// What a modulation effect puts among the default parameters. No effect writes the
/// rate and feedback of the middle position.
pub open spec fn spec_mod_fx_params(fx: ModulationFx) -> Seq<(Seq<char>, Seq<char>)> {
    match fx {
        ModulationFx::Off => seq![value_pair("modFXRate"@, HexU50(25))].push(value_pair("modFXFeedback"@, HexU50(25))),
        ModulationFx::Flanger(f) => seq![value_pair("modFXRate"@, f.rate)].push(value_pair("modFXFeedback"@, f.feedback)),
        ModulationFx::Chorus(c) => seq![value_pair("modFXRate"@, c.rate)].push(value_pair("modFXDepth"@, c.depth)).push(value_pair("modFXOffset"@, c.offset)),
        ModulationFx::Phaser(p) => seq![value_pair("modFXRate"@, p.rate)].push(value_pair("modFXFeedback"@, p.feedback)).push(value_pair("modFXDepth"@, p.depth)),
    }
}

/// Writes a modulation effect: its kind on the element, its settings among the default
/// parameters.
pub fn write_modulation_fx(fx: &ModulationFx, root: &mut XmlElement, params: &mut XmlElement)
    ensures
        element_view(*final(root)) == with_attributes(
            element_view(*old(root)),
            seq![value_pair("modFXType"@, spec_mod_fx_kind(*fx))],
        ),
        element_view(*final(params)) == with_attributes(element_view(*old(params)), spec_mod_fx_params(*fx)),
{
    match fx {
        ModulationFx::Off => {
            push_value(root, "modFXType", &ModulationFxType::Off);
            push_value(params, "modFXRate", &HexU50::new(25));
            push_value(params, "modFXFeedback", &HexU50::new(25));
        },
        ModulationFx::Flanger(f) => {
            push_value(root, "modFXType", &ModulationFxType::Flanger);
            push_value(params, "modFXRate", &f.rate);
            push_value(params, "modFXFeedback", &f.feedback);
        },
        ModulationFx::Chorus(c) => {
            push_value(root, "modFXType", &ModulationFxType::Chorus);
            push_value(params, "modFXRate", &c.rate);
            push_value(params, "modFXDepth", &c.depth);
            push_value(params, "modFXOffset", &c.offset);
        },
        ModulationFx::Phaser(p) => {
            push_value(root, "modFXType", &ModulationFxType::Phaser);
            push_value(params, "modFXRate", &p.rate);
            push_value(params, "modFXFeedback", &p.feedback);
            push_value(params, "modFXDepth", &p.depth);
        },
    }
    assert(element_view(*root).attributes =~= element_view(*old(root)).attributes + seq![
        value_pair("modFXType"@, spec_mod_fx_kind(*fx)),
    ]);
    assert(element_view(*params).attributes =~= element_view(*old(params)).attributes + spec_mod_fx_params(*fx));
}

/// What a distortion puts among the default parameters.
pub open spec fn spec_distorsion_params(d: Distorsion) -> Seq<(Seq<char>, Seq<char>)> {
    seq![value_pair("bitCrush"@, d.bit_crush)].push(value_pair("sampleRateReduction"@, d.decimation))
}

/// Writes a distortion: its saturation on the element, the rest among the default parameters.
pub fn write_distorsion(d: &Distorsion, root: &mut XmlElement, params: &mut XmlElement)
    ensures
        element_view(*final(root)) == with_attributes(
            element_view(*old(root)),
            seq![value_pair("clippingAmount"@, d.saturation)],
        ),
        element_view(*final(params)) == with_attributes(element_view(*old(params)), spec_distorsion_params(*d)),
{
    push_value(root, "clippingAmount", &d.saturation);
    push_value(params, "bitCrush", &d.bit_crush);
    push_value(params, "sampleRateReduction", &d.decimation);
    assert(element_view(*root).attributes =~= element_view(*old(root)).attributes + seq![
        value_pair("clippingAmount"@, d.saturation),
    ]);
    assert(element_view(*params).attributes =~= element_view(*old(params)).attributes + spec_distorsion_params(*d));
}

/// The element of a sample zone; its loop points only when set.
pub open spec fn spec_zone_element(z: SampleZone) -> XmlElementView {
    leaf(
        "zone"@,
        seq![value_pair("startSamplePos"@, z.start)].push(value_pair("endSamplePos"@, z.end)) + opt_pairs(
            "startLoopPos"@,
            z.start_loop,
        ) + opt_pairs("endLoopPos"@, z.end_loop),
    )
}

/// Writes a sample zone.
pub fn write_zone(z: &SampleZone) -> (r: XmlElement)
    ensures
        element_view(r) == spec_zone_element(*z),
{
    let mut n = XmlElement::new("zone");
    push_value(&mut n, "startSamplePos", &z.start);
    push_value(&mut n, "endSamplePos", &z.end);
    push_opt_value(&mut n, "startLoopPos", &z.start_loop);
    push_opt_value(&mut n, "endLoopPos", &z.end_loop);
    assert(element_view(n).attributes =~= spec_zone_element(*z).attributes);
    n
}

/// The element of a sample range; its transpositions only when not 0.
pub open spec fn spec_range_element(r: SampleRangeView) -> XmlElementView {
    with_children(
        leaf(
            "sampleRange"@,
            opt_pairs("rangeTopNote"@, r.range_top_note) + (if r.transpose.value() != 0 {
                seq![value_pair("transpose"@, r.transpose)]
            } else {
                Seq::empty()
            }) + (if r.fine_transpose.value() != 0 {
                seq![value_pair("cents"@, r.fine_transpose)]
            } else {
                Seq::empty()
            }) + seq![("fileName"@, r.file_path)],
        ),
        seq![spec_zone_element(r.zone)],
    )
}

fn write_range(range: &SampleRange) -> (r: XmlElement)
    ensures
        element_view(r) == spec_range_element(range@),
{
    let mut n = XmlElement::new("sampleRange");
    push_opt_value(&mut n, "rangeTopNote", &range.range_top_note);
    if range.transpose.as_i8() != 0 {
        push_value(&mut n, "transpose", &range.transpose);
    }
    if range.fine_transpose.as_i8() != 0 {
        push_value(&mut n, "cents", &range.fine_transpose);
    }
    n.push_attribute("fileName", range.file_path.to_string_lossy());
    let zone = write_zone(&range.zone);
    n.push_child(zone);
    assert(element_view(n).attributes =~= spec_range_element(range@).attributes);
    assert(element_view(n).children =~= spec_range_element(range@).children);
    n
}

/// The element of the ranges of a sample.
pub open spec fn spec_ranges_element(ranges: Seq<SampleRangeView>) -> XmlElementView {
    with_children(leaf("sampleRanges"@, Seq::empty()), ranges.map_values(|r: SampleRangeView| spec_range_element(r)))
}

fn write_ranges(ranges: &Vec<SampleRange>) -> (r: XmlElement)
    ensures
        element_view(r) == spec_ranges_element(ranges@.map_values(|x: SampleRange| x@)),
{
    let ghost views = ranges@.map_values(|x: SampleRange| x@);
    let mut n = XmlElement::new("sampleRanges");
    let mut i: usize = 0;
    while i < ranges.len()
        invariant
            i <= ranges@.len(),
            views == ranges@.map_values(|x: SampleRange| x@),
            element_view(n) == spec_ranges_element(views.subrange(0, i as int)),
        decreases ranges.len() - i,
    {
        let c = write_range(&ranges[i]);
        n.push_child(c);
        proof {
            let before = views.subrange(0, i as int).map_values(|r: SampleRangeView| spec_range_element(r));
            let after = views.subrange(0, i + 1).map_values(|r: SampleRangeView| spec_range_element(r));
            assert(after =~= before.push(spec_range_element(views[i as int])));
            assert(element_nodes(after) =~= element_nodes(before).push(XmlNodeView::Element(spec_range_element(views[i as int]))));
        }
        i = i + 1;
    }
    assert(views.subrange(0, i as int) =~= views);
    n
}

/// What a sample puts on the element of its oscillator: the file of one zone.
pub open spec fn spec_sample_attributes(s: SampleView) -> Seq<(Seq<char>, Seq<char>)> {
    match s {
        SampleView::OneZone(z) => seq![("fileName"@, z.file_path)],
        SampleView::SampleRanges(_) => Seq::empty(),
    }
}

/// The children a sample gives the element of its oscillator: the zone of one zone, if
/// set, or the ranges.
pub open spec fn spec_sample_children(s: SampleView) -> Seq<XmlElementView> {
    match s {
        SampleView::OneZone(z) => match z.zone {
            Some(zone) => seq![spec_zone_element(zone)],
            None => Seq::empty(),
        },
        SampleView::SampleRanges(ranges) => seq![spec_ranges_element(ranges)],
    }
}

/// Writes a sample on the element of its oscillator.
pub fn write_sample(node: &mut XmlElement, sample: &Sample)
    ensures
        element_view(*final(node)) == with_children(
            with_attributes(element_view(*old(node)), spec_sample_attributes(sample@)),
            spec_sample_children(sample@),
        ),
{
    match sample {
        Sample::OneZone(one) => {
            node.push_attribute("fileName", one.file_path.to_string_lossy());
            match &one.zone {
                Some(zone) => {
                    let z = write_zone(zone);
                    node.push_child(z);
                },
                None => {},
            }
        },
        Sample::SampleRanges(ranges) => {
            let r = write_ranges(ranges);
            node.push_child(r);
        },
    }
    assert(element_view(*node).attributes =~= element_view(*old(node)).attributes + spec_sample_attributes(sample@));
    assert(element_view(*node).children =~= element_view(*old(node)).children + element_nodes(spec_sample_children(
        sample@,
    )));
}

/// The element of a sample oscillator.
pub open spec fn spec_sample_oscillator_element(o: SampleOscillatorView, name: Seq<char>) -> XmlElementView {
    with_children(
        leaf(
            name,
            seq![value_pair("type"@, OscType::Sample)].push(value_pair("transpose"@, o.transpose)).push(value_pair("cents"@, o.fine_transpose)).push(value_pair("reversed"@, o.reversed)).push(value_pair("loopMode"@, o.mode)).push(value_pair("timeStretchEnable"@, o.pitch_speed)).push(value_pair("timeStretchAmount"@, o.time_stretch_amount)).push(value_pair("linearInterpolation"@, o.linear_interpolation)) + spec_sample_attributes(o.sample),
        ),
        spec_sample_children(o.sample),
    )
}

fn write_sample_oscillator(o: &SampleOscillator, name: &str) -> (r: XmlElement)
    ensures
        element_view(r) == spec_sample_oscillator_element(o@, name@),
{
    let mut n = XmlElement::new(name);
    push_value(&mut n, "type", &OscType::Sample);
    push_value(&mut n, "transpose", &o.transpose);
    push_value(&mut n, "cents", &o.fine_transpose);
    push_value(&mut n, "reversed", &o.reversed);
    push_value(&mut n, "loopMode", &o.mode);
    push_value(&mut n, "timeStretchEnable", &o.pitch_speed);
    push_value(&mut n, "timeStretchAmount", &o.time_stretch_amount);
    push_value(&mut n, "linearInterpolation", &o.linear_interpolation);
    let ghost before = element_view(n);
    write_sample(&mut n, &o.sample);
    assert(before.children =~= Seq::<XmlNodeView>::empty());
    assert(element_view(n).attributes =~= spec_sample_oscillator_element(o@, name@).attributes);
    assert(element_view(n).children =~= spec_sample_oscillator_element(o@, name@).children);
    n
}

/// The element of a waveform oscillator.
pub open spec fn spec_waveform_element(w: WaveformOscillator, name: Seq<char>) -> XmlElementView {
    leaf(
        name,
        seq![value_pair("type"@, w.osc_type)].push(value_pair("transpose"@, w.transpose)).push(value_pair("cents"@, w.fine_transpose)).push(value_pair("retrigPhase"@, w.retrig_phase)),
    )
}

/// What a waveform oscillator puts among the default parameters: its pulse width, under
/// the name of its twin.
pub open spec fn spec_waveform_params(w: WaveformOscillator, selector: TwinSelector) -> Seq<(Seq<char>, Seq<char>)> {
    seq![value_pair(spec_twin_key(selector, "oscAPulseWidth"@, "oscBPulseWidth"@), w.pulse_width)]
}

fn write_waveform_oscillator(w: &WaveformOscillator, selector: TwinSelector, params: &mut XmlElement) -> (r: XmlElement)
    ensures
        element_view(r) == spec_waveform_element(*w, spec_twin_key(selector, "osc1"@, "osc2"@)),
        element_view(*final(params)) == with_attributes(element_view(*old(params)), spec_waveform_params(*w, selector)),
{
    let mut n = XmlElement::new(selector.get_key("osc1", "osc2"));
    push_value(&mut n, "type", &w.osc_type);
    push_value(&mut n, "transpose", &w.transpose);
    push_value(&mut n, "cents", &w.fine_transpose);
    push_value(&mut n, "retrigPhase", &w.retrig_phase);
    push_value(params, selector.get_key("oscAPulseWidth", "oscBPulseWidth"), &w.pulse_width);
    assert(element_view(n).attributes =~= spec_waveform_element(*w, spec_twin_key(selector, "osc1"@, "osc2"@)).attributes);
    assert(element_view(*params).attributes =~= element_view(*old(params)).attributes + spec_waveform_params(
        *w,
        selector,
    ));
    n
}

/// The element of an oscillator of a subtractive engine.
pub open spec fn spec_oscillator_element(o: SubtractiveOscillatorView, selector: TwinSelector) -> XmlElementView {
    match o {
        SubtractiveOscillatorView::Waveform(w) => spec_waveform_element(w, spec_twin_key(selector, "osc1"@, "osc2"@)),
        SubtractiveOscillatorView::Sample(s) => spec_sample_oscillator_element(
            s,
            spec_twin_key(selector, "osc1"@, "osc2"@),
        ),
    }
}

/// What an oscillator of a subtractive engine puts among the default parameters.
pub open spec fn spec_oscillator_params(o: SubtractiveOscillatorView, selector: TwinSelector) -> Seq<
    (Seq<char>, Seq<char>),
> {
    match o {
        SubtractiveOscillatorView::Waveform(w) => spec_waveform_params(w, selector),
        SubtractiveOscillatorView::Sample(_) => Seq::empty(),
    }
}

fn write_oscillator(o: &SubtractiveOscillator, selector: TwinSelector, params: &mut XmlElement) -> (r: XmlElement)
    ensures
        element_view(r) == spec_oscillator_element(o@, selector),
        element_view(*final(params)) == with_attributes(element_view(*old(params)), spec_oscillator_params(o@, selector)),
{
    match o {
        SubtractiveOscillator::Waveform(w) => write_waveform_oscillator(w, selector, params),
        SubtractiveOscillator::Sample(s) => {
            assert(element_view(*params).attributes =~= element_view(*params).attributes + Seq::<
                (Seq<char>, Seq<char>),
            >::empty());
            write_sample_oscillator(s, selector.get_key("osc1", "osc2"))
        },
    }
}

/// The element of an FM carrier.
pub open spec fn spec_carrier_element(c: FmCarrier, selector: TwinSelector) -> XmlElementView {
    leaf(
        spec_twin_key(selector, "osc1"@, "osc2"@),
        seq![value_pair("transpose"@, c.transpose)].push(value_pair("cents"@, c.fine_transpose)).push(value_pair("retrigPhase"@, c.retrig_phase)),
    )
}

/// What an FM carrier puts among the default parameters.
pub open spec fn spec_carrier_params(c: FmCarrier, selector: TwinSelector) -> Seq<(Seq<char>, Seq<char>)> {
    seq![value_pair(spec_twin_key(selector, "carrier1Feedback"@, "carrier2Feedback"@), c.feedback)]
}

fn write_carrier(c: &FmCarrier, selector: TwinSelector, params: &mut XmlElement) -> (r: XmlElement)
    ensures
        element_view(r) == spec_carrier_element(*c, selector),
        element_view(*final(params)) == with_attributes(element_view(*old(params)), spec_carrier_params(*c, selector)),
{
    let mut n = XmlElement::new(selector.get_key("osc1", "osc2"));
    push_value(&mut n, "transpose", &c.transpose);
    push_value(&mut n, "cents", &c.fine_transpose);
    push_value(&mut n, "retrigPhase", &c.retrig_phase);
    push_value(params, selector.get_key("carrier1Feedback", "carrier2Feedback"), &c.feedback);
    assert(element_view(n).attributes =~= spec_carrier_element(*c, selector).attributes);
    assert(element_view(*params).attributes =~= element_view(*old(params)).attributes + spec_carrier_params(
        *c,
        selector,
    ));
    n
}

/// The element of an FM modulator.
pub open spec fn spec_modulator_element(m: FmModulator, selector: TwinSelector) -> XmlElementView {
    leaf(
        spec_twin_key(selector, "modulator1"@, "modulator2"@),
        seq![value_pair("transpose"@, m.transpose)].push(value_pair("cents"@, m.fine_transpose)).push(value_pair("retrigPhase"@, m.retrig_phase)),
    )
}

/// What an FM modulator puts among the default parameters.
pub open spec fn spec_modulator_params(m: FmModulator, selector: TwinSelector) -> Seq<(Seq<char>, Seq<char>)> {
    seq![value_pair(spec_twin_key(selector, "modulator1Amount"@, "modulator2Amount"@), m.amount)].push(value_pair(spec_twin_key(selector, "modulator1Feedback"@, "modulator2Feedback"@), m.feedback))
}

fn write_modulator(m: &FmModulator, selector: TwinSelector, params: &mut XmlElement) -> (r: XmlElement)
    ensures
        element_view(r) == spec_modulator_element(*m, selector),
        element_view(*final(params)) == with_attributes(element_view(*old(params)), spec_modulator_params(*m, selector)),
{
    let mut n = XmlElement::new(selector.get_key("modulator1", "modulator2"));
    push_value(&mut n, "transpose", &m.transpose);
    push_value(&mut n, "cents", &m.fine_transpose);
    push_value(&mut n, "retrigPhase", &m.retrig_phase);
    push_value(params, selector.get_key("modulator1Amount", "modulator2Amount"), &m.amount);
    push_value(params, selector.get_key("modulator1Feedback", "modulator2Feedback"), &m.feedback);
    assert(element_view(n).attributes =~= spec_modulator_element(*m, selector).attributes);
    assert(element_view(*params).attributes =~= element_view(*old(params)).attributes + spec_modulator_params(
        *m,
        selector,
    ));
    n
}

/// What an engine puts on the element of its sound.
pub open spec fn spec_engine_attributes(g: SynthEngineView) -> Seq<(Seq<char>, Seq<char>)> {
    match g {
        SynthEngineView::Subtractive(s) => seq![value_pair("lpfMode"@, s.lpf_mode)],
        _ => Seq::empty(),
    }
}

/// The elements an engine adds to its sound: its oscillators, then its modulators.
pub open spec fn spec_engine_children(g: SynthEngineView) -> Seq<XmlElementView> {
    match g {
        SynthEngineView::Subtractive(s) => seq![spec_oscillator_element(s.osc1, TwinSelector::A)].push(with_attributes(
                spec_oscillator_element(s.osc2, TwinSelector::B),
                seq![value_pair("oscillatorSync"@, s.osc2_sync)],
            )),
        SynthEngineView::RingMod(r) => seq![spec_waveform_element(r.osc1, "osc1"@)].push(with_attributes(spec_waveform_element(r.osc2, "osc2"@), seq![value_pair("oscillatorSync"@, r.osc2_sync)])),
        SynthEngineView::Fm(f) => seq![spec_carrier_element(f.osc1, TwinSelector::A)].push(spec_carrier_element(f.osc2, TwinSelector::B)).push(spec_modulator_element(f.modulator1, TwinSelector::A)).push(with_attributes(
                spec_modulator_element(f.modulator2, TwinSelector::B),
                seq![value_pair("toModulator1"@, f.modulator2_to_modulator1)],
            )),
    }
}

/// What an engine puts among the default parameters.
pub open spec fn spec_engine_params(g: SynthEngineView) -> Seq<(Seq<char>, Seq<char>)> {
    match g {
        SynthEngineView::Subtractive(s) => spec_oscillator_params(s.osc1, TwinSelector::A) + spec_oscillator_params(
            s.osc2,
            TwinSelector::B,
        ) + seq![value_pair("oscAVolume"@, s.osc1_volume)].push(value_pair("oscBVolume"@, s.osc2_volume)).push(value_pair("noiseVolume"@, s.noise)).push(value_pair("lpfFrequency"@, s.lpf_frequency)).push(value_pair("lpfResonance"@, s.lpf_resonance)).push(value_pair("hpfFrequency"@, s.hpf_frequency)).push(value_pair("hpfResonance"@, s.hpf_resonance)),
        SynthEngineView::RingMod(r) => spec_waveform_params(r.osc1, TwinSelector::A) + spec_waveform_params(
            r.osc2,
            TwinSelector::B,
        ) + seq![value_pair("noiseVolume"@, r.noise)],
        SynthEngineView::Fm(f) => spec_carrier_params(f.osc1, TwinSelector::A) + spec_carrier_params(
            f.osc2,
            TwinSelector::B,
        ) + spec_modulator_params(f.modulator1, TwinSelector::A) + spec_modulator_params(
            f.modulator2,
            TwinSelector::B,
        ) + seq![value_pair("oscAVolume"@, f.osc1_volume)].push(value_pair("oscBVolume"@, f.osc2_volume)),
    }
}

/// The values of a subtractive engine among the default parameters, after those of its
/// oscillators.
pub open spec fn spec_subtractive_values(s: SubtractiveSynthView) -> Seq<(Seq<char>, Seq<char>)> {
    seq![value_pair("oscAVolume"@, s.osc1_volume)].push(value_pair("oscBVolume"@, s.osc2_volume)).push(value_pair("noiseVolume"@, s.noise)).push(value_pair("lpfFrequency"@, s.lpf_frequency)).push(value_pair("lpfResonance"@, s.lpf_resonance)).push(value_pair("hpfFrequency"@, s.hpf_frequency)).push(value_pair("hpfResonance"@, s.hpf_resonance))
}

#[verifier::spinoff_prover]
#[verifier::rlimit(100)]
fn write_subtractive_values(s: &SubtractiveSynth, params: &mut XmlElement)
    ensures
        element_view(*final(params)) == with_attributes(element_view(*old(params)), spec_subtractive_values(s@)),
{
    push_value(params, "oscAVolume", &s.osc1_volume);
    push_value(params, "oscBVolume", &s.osc2_volume);
    push_value(params, "noiseVolume", &s.noise);
    push_value(params, "lpfFrequency", &s.lpf_frequency);
    push_value(params, "lpfResonance", &s.lpf_resonance);
    push_value(params, "hpfFrequency", &s.hpf_frequency);
    push_value(params, "hpfResonance", &s.hpf_resonance);
    assert(element_view(*params).attributes =~= element_view(*old(params)).attributes + spec_subtractive_values(s@));
}

/// Appends two elements.
fn push_two(root: &mut XmlElement, a: XmlElement, b: XmlElement)
    ensures
        element_view(*final(root)) == with_children(element_view(*old(root)), seq![element_view(a)].push(element_view(b))),
{
    let ghost va = element_view(a);
    let ghost vb = element_view(b);
    root.push_child(a);
    root.push_child(b);
    assert(element_nodes(seq![va].push(vb)) =~= seq![XmlNodeView::Element(va)].push(XmlNodeView::Element(vb)));
    assert(element_view(*root).children =~= element_view(*old(root)).children + element_nodes(seq![va].push(vb)));
}

fn write_subtractive(s: &SubtractiveSynth, root: &mut XmlElement, params: &mut XmlElement)
    ensures
        element_view(*final(root)) == with_children(
            with_attributes(element_view(*old(root)), spec_engine_attributes(SynthEngineView::Subtractive(s@))),
            spec_engine_children(SynthEngineView::Subtractive(s@)),
        ),
        element_view(*final(params)) == with_attributes(
            element_view(*old(params)),
            spec_engine_params(SynthEngineView::Subtractive(s@)),
        ),
{
    let ghost p0 = element_view(*params);
    let ghost r0 = element_view(*root);
    let osc1 = write_oscillator(&s.osc1, TwinSelector::A, params);
    let ghost p1 = element_view(*params);
    let mut osc2 = write_oscillator(&s.osc2, TwinSelector::B, params);
    let ghost p2 = element_view(*params);
    let ghost before_sync = element_view(osc2);
    push_value(&mut osc2, "oscillatorSync", &s.osc2_sync);
    assert(element_view(osc2).attributes =~= with_attributes(before_sync, seq![value_pair("oscillatorSync"@, s.osc2_sync)]).attributes);
    write_subtractive_values(s, params);
    push_value(root, "lpfMode", &s.lpf_mode);
    let ghost r1 = element_view(*root);
    let ghost v1 = element_view(osc1);
    let ghost v2 = element_view(osc2);
    push_two(root, osc1, osc2);
    let ghost g = SynthEngineView::Subtractive(s@);
    assert(p1.attributes == p0.attributes + spec_oscillator_params(s.osc1@, TwinSelector::A));
    assert(p2.attributes == p1.attributes + spec_oscillator_params(s.osc2@, TwinSelector::B));
    assert(element_view(*params).attributes == p2.attributes + spec_subtractive_values(s@));
    assert(spec_engine_params(g) == spec_oscillator_params(s.osc1@, TwinSelector::A) + spec_oscillator_params(
        s.osc2@,
        TwinSelector::B,
    ) + spec_subtractive_values(s@));
    assert(element_view(*params).attributes =~= p0.attributes + spec_engine_params(g));
    assert(r1.attributes =~= r0.attributes + spec_engine_attributes(g));
    assert(seq![v1].push(v2) =~= spec_engine_children(g));
}

fn write_ring_mod(r: &RingModSynth, root: &mut XmlElement, params: &mut XmlElement)
    ensures
        element_view(*final(root)) == with_children(
            with_attributes(element_view(*old(root)), spec_engine_attributes(SynthEngineView::RingMod(*r))),
            spec_engine_children(SynthEngineView::RingMod(*r)),
        ),
        element_view(*final(params)) == with_attributes(
            element_view(*old(params)),
            spec_engine_params(SynthEngineView::RingMod(*r)),
        ),
{
    let ghost p0 = element_view(*params);
    let ghost r0 = element_view(*root);
    let osc1 = write_waveform_oscillator(&r.osc1, TwinSelector::A, params);
    let mut osc2 = write_waveform_oscillator(&r.osc2, TwinSelector::B, params);
    let ghost before_sync = element_view(osc2);
    push_value(&mut osc2, "oscillatorSync", &r.osc2_sync);
    assert(element_view(osc2).attributes =~= with_attributes(before_sync, seq![value_pair("oscillatorSync"@, r.osc2_sync)]).attributes);
    push_value(params, "noiseVolume", &r.noise);
    let ghost v1 = element_view(osc1);
    let ghost v2 = element_view(osc2);
    push_two(root, osc1, osc2);
    let ghost g = SynthEngineView::RingMod(*r);
    assert(element_view(*params).attributes =~= p0.attributes + spec_engine_params(g));
    assert(r0.attributes =~= r0.attributes + spec_engine_attributes(g));
    assert(seq![v1].push(v2) =~= spec_engine_children(g));
}

fn write_fm(f: &FmSynth, root: &mut XmlElement, params: &mut XmlElement)
    ensures
        element_view(*final(root)) == with_children(
            with_attributes(element_view(*old(root)), spec_engine_attributes(SynthEngineView::Fm(*f))),
            spec_engine_children(SynthEngineView::Fm(*f)),
        ),
        element_view(*final(params)) == with_attributes(
            element_view(*old(params)),
            spec_engine_params(SynthEngineView::Fm(*f)),
        ),
{
    let ghost p0 = element_view(*params);
    let ghost r0 = element_view(*root);
    let osc1 = write_carrier(&f.osc1, TwinSelector::A, params);
    let osc2 = write_carrier(&f.osc2, TwinSelector::B, params);
    let mod1 = write_modulator(&f.modulator1, TwinSelector::A, params);
    let mut mod2 = write_modulator(&f.modulator2, TwinSelector::B, params);
    let ghost before_sync = element_view(mod2);
    push_value(&mut mod2, "toModulator1", &f.modulator2_to_modulator1);
    assert(element_view(mod2).attributes =~= with_attributes(before_sync, seq![value_pair("toModulator1"@, f.modulator2_to_modulator1)]).attributes);
    push_value(params, "oscAVolume", &f.osc1_volume);
    push_value(params, "oscBVolume", &f.osc2_volume);
    let ghost v1 = element_view(osc1);
    let ghost v2 = element_view(osc2);
    let ghost v3 = element_view(mod1);
    let ghost v4 = element_view(mod2);
    push_two(root, osc1, osc2);
    let ghost r1 = element_view(*root);
    push_two(root, mod1, mod2);
    let ghost g = SynthEngineView::Fm(*f);
    assert(element_view(*params).attributes =~= p0.attributes + spec_engine_params(g));
    assert(r0.attributes =~= r0.attributes + spec_engine_attributes(g));
    assert(seq![v1].push(v2).push(v3).push(v4) =~= spec_engine_children(g));
    assert(element_nodes(seq![v1].push(v2).push(v3).push(v4)) =~= element_nodes(seq![v1].push(v2)) + element_nodes(seq![v3].push(v4)));
    assert(element_view(*root).children =~= r0.children + element_nodes(seq![v1].push(v2).push(v3).push(v4)));
}

/// Writes the engine of a sound: its elements in the sound, its settings among the
/// default parameters.
pub fn write_engine(g: &SynthEngine, root: &mut XmlElement, params: &mut XmlElement)
    ensures
        element_view(*final(root)) == with_children(
            with_attributes(element_view(*old(root)), spec_engine_attributes(g@)),
            spec_engine_children(g@),
        ),
        element_view(*final(params)) == with_attributes(element_view(*old(params)), spec_engine_params(g@)),
{
    match g {
        SynthEngine::Subtractive(s) => write_subtractive(s, root, params),
        SynthEngine::RingMod(r) => write_ring_mod(r, root, params),
        SynthEngine::Fm(f) => write_fm(f, root, params),
    }
}

/// The name of a row on its sound element, written only when not empty.
pub open spec fn spec_name_pairs(name: Option<Seq<char>>) -> Seq<(Seq<char>, Seq<char>)> {
    match name {
        Some(n) => if n.len() > 0 {
            seq![("name"@, n)]
        } else {
            Seq::empty()
        },
        None => Seq::empty(),
    }
}

/// The first attributes of a sound element.
pub open spec fn spec_sound_header(s: SoundView, name: Option<Seq<char>>) -> Seq<(Seq<char>, Seq<char>)> {
    spec_name_pairs(name) + seq![value_pair("mode"@, spec_sound_type(s.generator))].push(value_pair("polyphonic"@, s.polyphonic)) + opt_pairs("sideChainSend"@, s.sidechain_send) + seq![value_pair("voicePriority"@, s.voice_priority)]
}

/// The first default parameters of a sound.
pub open spec fn spec_sound_base_params(s: SoundView) -> Seq<(Seq<char>, Seq<char>)> {
    seq![value_pair("volume"@, s.volume)].push(value_pair("reverbAmount"@, s.reverb_amount)).push(value_pair("stutterRate"@, s.stutter_rate)).push(value_pair("pan"@, s.pan)).push(value_pair("portamento"@, s.portamento))
}

fn write_sound_header(sound: &Sound, name: Option<&String>, root: &mut XmlElement, params: &mut XmlElement)
    ensures
        element_view(*final(root)) == with_attributes(
            element_view(*old(root)),
            spec_sound_header(sound@, match name {
                Some(n) => Some(n@),
                None => None,
            }),
        ),
        element_view(*final(params)) == with_attributes(element_view(*old(params)), spec_sound_base_params(sound@)),
{
    match name {
        Some(n) => {
            if vstd::string::StrSliceExecFns::unicode_len(n.as_str()) > 0 {
                root.push_attribute("name", n.clone());
            }
        },
        None => {},
    }
    push_value(root, "mode", &sound.generator.to_sound_type());
    push_value(root, "polyphonic", &sound.polyphonic);
    push_opt_value(root, "sideChainSend", &sound.sidechain_send);
    push_value(root, "voicePriority", &sound.voice_priority);
    push_value(params, "volume", &sound.volume);
    push_value(params, "reverbAmount", &sound.reverb_amount);
    push_value(params, "stutterRate", &sound.stutter_rate);
    push_value(params, "pan", &sound.pan);
    push_value(params, "portamento", &sound.portamento);
    assert(element_view(*root).attributes =~= element_view(*old(root)).attributes + spec_sound_header(
        sound@,
        match name {
            Some(n) => Some(n@),
            None => None,
        },
    ));
    assert(element_view(*params).attributes =~= element_view(*old(params)).attributes + spec_sound_base_params(
        sound@,
    ));
}

/// The elements of a sound after those of its engine.
pub open spec fn spec_sound_effect_elements(s: SoundView) -> Seq<XmlElementView> {
    seq![spec_unison_element(s.unison)].push(spec_lfo1_element(s.lfo1)).push(spec_lfo2_element(s.lfo2)).push(spec_arpeggiator_element(s.arpeggiator)).push(spec_delay_element(s.delay)).push(spec_sidechain_element(s.sidechain)).push(spec_mod_knobs_element(s.mod_knobs))
}

/// The default parameters those elements put.
pub open spec fn spec_sound_effect_params(s: SoundView) -> Seq<(Seq<char>, Seq<char>)> {
    spec_lfo1_params(s.lfo1) + spec_lfo2_params(s.lfo2) + spec_arpeggiator_params(s.arpeggiator) + spec_delay_params(
        s.delay,
        "delayFeedback"@,
        "delayRate"@,
    ) + seq![value_pair("compressorShape"@, s.sidechain.shape)]
}

fn write_sound_effects(sound: &Sound, root: &mut XmlElement, params: &mut XmlElement)
    ensures
        element_view(*final(root)) == with_children(element_view(*old(root)), spec_sound_effect_elements(sound@)),
        element_view(*final(params)) == with_attributes(element_view(*old(params)), spec_sound_effect_params(sound@)),
{
    let ghost p0 = element_view(*params);
    let unison = write_unison(&sound.unison);
    let lfo1 = write_lfo1(&sound.lfo1, params);
    let ghost p1 = element_view(*params);
    let lfo2 = write_lfo2(&sound.lfo2, params);
    let ghost p2 = element_view(*params);
    let arp = write_arpeggiator(&sound.arpeggiator, params);
    let ghost p3 = element_view(*params);
    let delay = write_delay(&sound.delay, params, "delayFeedback", "delayRate");
    let ghost p4 = element_view(*params);
    let sidechain = write_sidechain(&sound.sidechain, params, "compressorShape");
    let knobs = write_mod_knobs(&sound.mod_knobs);
    let ghost elements = seq![element_view(unison)].push(element_view(lfo1)).push(element_view(lfo2)).push(element_view(arp)).push(element_view(delay)).push(element_view(sidechain)).push(element_view(knobs));
    assert(elements =~= spec_sound_effect_elements(sound@));
    root.push_child(unison);
    root.push_child(lfo1);
    root.push_child(lfo2);
    root.push_child(arp);
    root.push_child(delay);
    root.push_child(sidechain);
    root.push_child(knobs);
    assert(element_view(*root).children =~= element_view(*old(root)).children + element_nodes(elements));
    assert(element_view(*params).attributes =~= p0.attributes + spec_sound_effect_params(sound@));
}

/// The children of the default parameters of a sound.
pub open spec fn spec_sound_params_children(s: SoundView) -> Seq<XmlElementView> {
    seq![spec_envelope_element(s.envelope1, "envelope1"@)].push(spec_envelope_element(s.envelope2, "envelope2"@)).push(spec_equalizer_element(s.equalizer)).push(spec_cables_element(s.cables))
}

fn write_sound_params_children(sound: &Sound, params: &mut XmlElement)
    ensures
        element_view(*final(params)) == with_children(element_view(*old(params)), spec_sound_params_children(sound@)),
{
    let e1 = write_envelope(&sound.envelope1, "envelope1");
    let e2 = write_envelope(&sound.envelope2, "envelope2");
    let eq = write_equalizer(&sound.equalizer);
    let cables = write_cables(&sound.cables);
    let ghost elements = seq![element_view(e1)].push(element_view(e2)).push(element_view(eq)).push(element_view(cables));
    assert(elements =~= spec_sound_params_children(sound@));
    params.push_child(e1);
    params.push_child(e2);
    params.push_child(eq);
    params.push_child(cables);
    assert(element_view(*params).children =~= element_view(*old(params)).children + element_nodes(elements));
}

/// The default parameters element of a sound.
#[verifier::opaque]
pub open spec fn spec_sound_params_element(s: SoundView) -> XmlElementView {
    with_children(
        leaf(
            "defaultParams"@,
            spec_sound_base_params(s) + spec_engine_params(s.generator) + spec_sound_effect_params(s)
                + spec_mod_fx_params(s.modulation_fx) + spec_distorsion_params(s.distorsion),
        ),
        spec_sound_params_children(s),
    )
}

/// The element of a sound, with the name of its row if it is one.
#[verifier::opaque]
pub open spec fn spec_sound_element(s: SoundView, name: Option<Seq<char>>) -> XmlElementView {
    with_children(
        leaf(
            "sound"@,
            spec_sound_header(s, name) + spec_engine_attributes(s.generator) + seq![value_pair("modFXType"@, spec_mod_fx_kind(s.modulation_fx))].push(value_pair("clippingAmount"@, s.distorsion.saturation)),
        ),
        spec_engine_children(s.generator) + spec_sound_effect_elements(s) + seq![spec_sound_params_element(s)],
    )
}

/// Writes a sound, with the name of its row if it is one.
pub fn write_sound(sound: &Sound, name: Option<&String>) -> (r: XmlElement)
    ensures
        element_view(r) == spec_sound_element(sound@, match name {
            Some(n) => Some(n@),
            None => None,
        }),
{
    let ghost nm = match name {
        Some(n) => Some(n@),
        None => None,
    };
    let ghost s = sound@;
    proof {
        reveal(spec_sound_element);
        reveal(spec_sound_params_element);
    }
    let mut root = XmlElement::new("sound");
    let mut params = XmlElement::new("defaultParams");
    let ghost r0 = element_view(root);
    let ghost p0 = element_view(params);
    write_sound_header(sound, name, &mut root, &mut params);
    let ghost r1 = element_view(root);
    let ghost p1 = element_view(params);
    write_engine(&sound.generator, &mut root, &mut params);
    let ghost r2 = element_view(root);
    let ghost p2 = element_view(params);
    write_sound_effects(sound, &mut root, &mut params);
    let ghost r3 = element_view(root);
    let ghost p3 = element_view(params);
    write_modulation_fx(&sound.modulation_fx, &mut root, &mut params);
    let ghost r4 = element_view(root);
    let ghost p4 = element_view(params);
    write_distorsion(&sound.distorsion, &mut root, &mut params);
    let ghost r5 = element_view(root);
    let ghost p5 = element_view(params);
    write_sound_params_children(sound, &mut params);
    let ghost p6 = element_view(params);
    assert(p6.attributes =~= spec_sound_params_element(s).attributes);
    assert(p6.children =~= spec_sound_params_element(s).children);
    assert(p6 == spec_sound_params_element(s));
    root.push_child(params);
    assert(element_view(root).attributes =~= spec_sound_element(s, nm).attributes);
    assert(element_view(root).children =~= spec_sound_element(s, nm).children);
    root
}

/// The element of a row of a kit.
pub open spec fn spec_row_element(row: RowKitView) -> XmlElementView {
    match row {
        RowKitView::Sound(r) => spec_sound_element(r.sound, Some(r.name)),
        RowKitView::Midi(m) => leaf("midiOutput"@, seq![value_pair("channel"@, m.channel)].push(value_pair("note"@, m.note))),
        RowKitView::CvGate(g) => leaf("gateOutput"@, seq![value_pair("channel"@, g.channel)]),
    }
}

fn write_row(row: &RowKit) -> (r: XmlElement)
    ensures
        element_view(r) == spec_row_element(row@),
{
    match row {
        RowKit::Sound(r) => write_sound(&r.sound, Some(&r.name)),
        RowKit::Midi(m) => {
            let mut n = XmlElement::new("midiOutput");
            push_value(&mut n, "channel", &m.channel);
            push_value(&mut n, "note", &m.note);
            assert(element_view(n).attributes =~= spec_row_element(row@).attributes);
            n
        },
        RowKit::CvGate(g) => {
            let mut n = XmlElement::new("gateOutput");
            push_value(&mut n, "channel", &g.channel);
            assert(element_view(n).attributes =~= spec_row_element(row@).attributes);
            n
        },
    }
}

/// The element of the rows of a kit.
pub open spec fn spec_sound_sources_element(rows: Seq<RowKitView>) -> XmlElementView {
    with_children(leaf("soundSources"@, Seq::empty()), rows.map_values(|r: RowKitView| spec_row_element(r)))
}

fn write_sound_sources(rows: &Vec<RowKit>) -> (r: XmlElement)
    ensures
        element_view(r) == spec_sound_sources_element(rows@.map_values(|x: RowKit| x@)),
{
    let ghost views = rows@.map_values(|x: RowKit| x@);
    let mut n = XmlElement::new("soundSources");
    let mut i: usize = 0;
    while i < rows.len()
        invariant
            i <= rows@.len(),
            views == rows@.map_values(|x: RowKit| x@),
            element_view(n) == spec_sound_sources_element(views.subrange(0, i as int)),
        decreases rows.len() - i,
    {
        let c = write_row(&rows[i]);
        n.push_child(c);
        proof {
            let before = views.subrange(0, i as int).map_values(|r: RowKitView| spec_row_element(r));
            let after = views.subrange(0, i + 1).map_values(|r: RowKitView| spec_row_element(r));
            assert(after =~= before.push(spec_row_element(views[i as int])));
            assert(element_nodes(after) =~= element_nodes(before).push(XmlNodeView::Element(spec_row_element(views[i as int]))));
        }
        i = i + 1;
    }
    assert(views.subrange(0, i as int) =~= views);
    n
}

/// The firmware attributes written on a patch: the latest supported version, as the
/// version that wrote it and as the earliest that reads it.
pub open spec fn spec_firmware_pairs() -> Seq<(Seq<char>, Seq<char>)> {
    seq![("firmwareVersion"@, "3.1.5"@)].push(("earliestCompatibleFirmware"@, "3.1.5"@))
}

fn push_firmware(e: &mut XmlElement)
    ensures
        element_view(*final(e)) == with_attributes(element_view(*old(e)), spec_firmware_pairs()),
{
    let v1 = crate::text::owned_text(LATEST_SUPPORTED_FIRMWARE_VERSION);
    let v2 = crate::text::owned_text(LATEST_SUPPORTED_FIRMWARE_VERSION);
    e.push_attribute("firmwareVersion", v1);
    e.push_attribute("earliestCompatibleFirmware", v2);
    assert(element_view(*e).attributes =~= element_view(*old(e)).attributes + spec_firmware_pairs());
}

/// The element of a synth patch: its sound, with the firmware attributes.
pub open spec fn spec_synth_element(s: SoundView) -> XmlElementView {
    with_attributes(spec_sound_element(s, None), spec_firmware_pairs())
}

/// Writes a synth patch as its root element.
pub fn write_synth(synth: &Synth) -> (r: XmlElement)
    ensures
        element_view(r) == spec_synth_element(synth@),
{
    let mut n = write_sound(&synth.sound, None);
    push_firmware(&mut n);
    n
}

/// The element of the selected row of a kit.
pub open spec fn spec_selected_row_element(index: u32) -> XmlElementView {
    XmlElementView {
        name: "selectedDrumIndex"@,
        attributes: Seq::empty(),
        children: seq![XmlNodeView::Text(dec_text(index as nat))],
    }
}

/// The global default parameters of a kit that are attributes.
pub open spec fn spec_kit_params_attributes(k: KitView) -> Seq<(Seq<char>, Seq<char>)> {
    seq![value_pair("volume"@, k.volume)].push(value_pair("reverbAmount"@, k.reverb_amount)).push(value_pair("pan"@, k.pan)).push(value_pair("stutterRate"@, k.stutter_rate)).push(value_pair("sidechainCompressorShape"@, k.sidechain.shape)) + spec_mod_fx_params(k.modulation_fx) + seq![value_pair("bitCrush"@, k.bit_crush)].push(value_pair("sampleRateReduction"@, k.decimation))
}

/// The element of a filter of a kit.
pub open spec fn spec_filter_element(name: Seq<char>, frequency: HexU50, resonance: HexU50) -> XmlElementView {
    leaf(name, seq![value_pair("frequency"@, frequency)].push(value_pair("resonance"@, resonance)))
}

/// The default parameters element of a kit.
#[verifier::opaque]
pub open spec fn spec_kit_params_element(k: KitView) -> XmlElementView {
    with_children(
        leaf("defaultParams"@, spec_kit_params_attributes(k)),
        seq![spec_filter_element("lpf"@, k.lpf.frequency, k.lpf.resonance)].push(spec_filter_element("hpf"@, k.hpf.frequency, k.hpf.resonance)).push(spec_equalizer_element(k.equalizer)).push(leaf("delay"@, spec_delay_params(k.delay, "feedback"@, "rate"@))),
    )
}

/// The element of a kit patch.
#[verifier::opaque]
pub open spec fn spec_kit_element(k: KitView) -> XmlElementView {
    with_children(
        leaf(
            "kit"@,
            spec_firmware_pairs() + seq![value_pair("lpfMode"@, k.lpf_mode)].push(value_pair("currentFilterType"@, k.current_filter_type)).push(value_pair("modFXType"@, spec_mod_fx_kind(k.modulation_fx))),
        ),
        seq![spec_delay_element(k.delay)].push(spec_sidechain_element(k.sidechain)).push(spec_sound_sources_element(k.rows))
            + match k.selected_row_index {
            Some(i) => seq![spec_selected_row_element(i)],
            None => Seq::empty(),
        } + seq![spec_kit_params_element(k)],
    )
}

fn write_filter(name: &str, frequency: &HexU50, resonance: &HexU50) -> (r: XmlElement)
    ensures
        element_view(r) == spec_filter_element(name@, *frequency, *resonance),
{
    let mut n = XmlElement::new(name);
    push_value(&mut n, "frequency", frequency);
    push_value(&mut n, "resonance", resonance);
    assert(element_view(n).attributes =~= spec_filter_element(name@, *frequency, *resonance).attributes);
    n
}

/// Writes a kit patch as its root element.
pub fn write_kit(kit: &Kit) -> (r: XmlElement)
    ensures
        element_view(r) == spec_kit_element(kit@),
{
    let ghost k = kit@;
    proof {
        reveal(spec_kit_element);
        reveal(spec_kit_params_element);
    }
    let mut n = XmlElement::new("kit");
    push_firmware(&mut n);
    push_value(&mut n, "lpfMode", &kit.lpf_mode);
    push_value(&mut n, "currentFilterType", &kit.current_filter_type);
    let mut params = XmlElement::new("defaultParams");
    push_value(&mut params, "volume", &kit.volume);
    push_value(&mut params, "reverbAmount", &kit.reverb_amount);
    push_value(&mut params, "pan", &kit.pan);
    push_value(&mut params, "stutterRate", &kit.stutter_rate);
    let mut default_delay = XmlElement::new("delay");
    let delay = write_delay(&kit.delay, &mut default_delay, "feedback", "rate");
    let sidechain = write_sidechain(&kit.sidechain, &mut params, "sidechainCompressorShape");
    let ghost p1 = element_view(params);
    write_modulation_fx(&kit.modulation_fx, &mut n, &mut params);
    let ghost p2 = element_view(params);
    push_value(&mut params, "bitCrush", &kit.bit_crush);
    push_value(&mut params, "sampleRateReduction", &kit.decimation);
    assert(element_view(params).attributes =~= spec_kit_params_attributes(k));
    let lpf = write_filter("lpf", &kit.lpf.frequency, &kit.lpf.resonance);
    let hpf = write_filter("hpf", &kit.hpf.frequency, &kit.hpf.resonance);
    let eq = write_equalizer(&kit.equalizer);
    let ghost dd = element_view(default_delay);
    assert(dd.attributes =~= spec_delay_params(k.delay, "feedback"@, "rate"@));
    let ghost pc = seq![element_view(lpf)].push(element_view(hpf)).push(element_view(eq)).push(dd);
    let ghost pa = element_view(params);
    params.push_child(lpf);
    params.push_child(hpf);
    params.push_child(eq);
    params.push_child(default_delay);
    assert(element_view(params).children =~= element_nodes(pc));
    assert(element_view(params) == spec_kit_params_element(k));
    let sources = write_sound_sources(&kit.rows);
    let ghost attrs = element_view(n).attributes;
    assert(attrs =~= spec_kit_element(k).attributes);
    let ghost c0 = element_view(n).children;
    n.push_child(delay);
    n.push_child(sidechain);
    n.push_child(sources);
    match kit.selected_row_index {
        Some(index) => {
            let mut s = XmlElement::new("selectedDrumIndex");
            s.push_text(u64_text(index as u64));
            assert(element_view(s).children =~= spec_selected_row_element(index).children);
            n.push_child(s);
        },
        None => {},
    }
    n.push_child(params);
    assert(element_view(n).children =~= spec_kit_element(k).children);
    n
}

} // verus!
