//! What reading a patch gives: every value in it is one its type stands for. Together
//! with the round trips of saving, a patch that was read, saved and read again is the
//! patch that was read.
use vstd::prelude::*;
use crate::serialization::loading::{
    spec_child, spec_load_sound, spec_load_sound_arpeggiator, spec_load_sound_sidechain, spec_load_mode,
    spec_load_sound_source, spec_load_row_list, spec_load_kit_nodes, spec_get_element, spec_load_global_delay,
    spec_load_global_sidechain, spec_load_global_filter, spec_load_global_equalizer, spec_load_kit_hexu,
    spec_load_kit_pan, spec_load_global_hexu, spec_load_global_pan,
    spec_load_carrier, spec_load_engine, spec_load_fm_modulation, spec_load_fm_sound, spec_load_oscillator,
    spec_load_retrig_phase, spec_load_ringmode_sound, spec_load_sample, spec_load_sample_oscillator,
    spec_load_sample_range, spec_load_sample_range_list, spec_load_subtractive_sound,
    spec_load_waveform_oscillator, spec_parse_opt_sample_path, spec_parse_sample_path,
    spec_load_arpeggiator_node, spec_load_delay_with, spec_load_distorsion, spec_load_envelope,
    spec_load_equalizer, spec_load_lfo1, spec_load_lfo2, spec_load_modulation_fx, spec_load_patch_cable_list,
    spec_load_patch_cables, spec_load_sidechain_with, spec_load_unison,
};
use crate::serialization::round_trip::{
    sound_well_formed,
    carrier_well_formed, engine_well_formed, fm_well_formed, modulator_well_formed, oscillator_well_formed,
    path_well_formed, range_well_formed, ring_mod_well_formed, sample_oscillator_well_formed,
    sample_well_formed, subtractive_well_formed, waveform_values_well_formed, waveform_well_formed,
    arpeggiator_well_formed, delay_well_formed, distorsion_well_formed, envelope_well_formed,
    equalizer_well_formed, mod_fx_well_formed, sidechain_well_formed, unison_well_formed,
};
use crate::serialization::format_version::FormatVersion;
use crate::serialization::{style_of, TwinSelector};
use crate::sound::modulators::PatchCableView;
use crate::values::{ClippingAmount, FineTranspose, Transpose, XmlValue};
use crate::values::sample_path::{lemma_normalized_path_stable, normalized_path};
use crate::values::simple_enums::{OscType, SynthMode};
use crate::sound::subtractive::SampleRangeView;
use crate::sound::effects::spec_default_sidechain;
use crate::sound::spec_default_arpeggiator;
use crate::serialization::laws::{kit_well_formed, row_well_formed};
use crate::values::OctavesCount;
use crate::values::pan::Pan;
use crate::values::sidechain_values::{AttackSidechain, ReleaseSidechain};
use crate::kit::row::RowKitView;
use crate::xml::element_children;
use crate::xml::{children_named, lookup, spec_parse_opt_value, spec_parse_value, ValueStyle, XmlElementView};

verus! {

/// A value read from a document is well-formed.
pub broadcast proof fn lemma_parsed_value_well_formed<T: XmlValue>(e: XmlElementView, key: Seq<char>, st: ValueStyle)
    ensures
        (#[trigger] spec_parse_value::<T>(e, key, st)) is Ok ==> spec_parse_value::<T>(e, key, st)->Ok_0.spec_well_formed(),
{
    match lookup(e, key, st) {
        Some(text) => T::lemma_read_well_formed(text),
        None => {},
    }
}

/// An optional value read from a document, when there, is well-formed.
pub broadcast proof fn lemma_parsed_opt_value_well_formed<T: XmlValue>(
    e: XmlElementView,
    key: Seq<char>,
    st: ValueStyle,
)
    ensures
        (#[trigger] spec_parse_opt_value::<T>(e, key, st)) is Ok && spec_parse_opt_value::<T>(e, key, st)->Ok_0 is Some
            ==> spec_parse_opt_value::<T>(e, key, st)->Ok_0->Some_0.spec_well_formed(),
{
    match lookup(e, key, st) {
        Some(text) => T::lemma_read_well_formed(text),
        None => {},
    }
}

/// The values read from a document are well-formed.
pub broadcast group group_parsed_well_formed {
    lemma_parsed_value_well_formed,
    lemma_parsed_opt_value_well_formed,
}

/// A read envelope is well-formed.
pub proof fn lemma_loaded_envelope(n: XmlElementView, st: ValueStyle)
    ensures
        spec_load_envelope(n, st) matches Ok(e) ==> envelope_well_formed(e),
{
    broadcast use group_parsed_well_formed;
}

/// A read unison is well-formed.
pub proof fn lemma_loaded_unison(n: XmlElementView, st: ValueStyle)
    ensures
        spec_load_unison(n, st) matches Ok(u) ==> unison_well_formed(u),
{
    broadcast use group_parsed_well_formed;
}

/// The rate of a read first LFO is well-formed.
pub proof fn lemma_loaded_lfo1(n: XmlElementView, params: XmlElementView, st: ValueStyle)
    ensures
        spec_load_lfo1(n, params, st) matches Ok(l) ==> l.rate.spec_well_formed(),
{
    broadcast use group_parsed_well_formed;
}

/// The rate of a read second LFO is well-formed.
pub proof fn lemma_loaded_lfo2(n: XmlElementView, params: XmlElementView, st: ValueStyle)
    ensures
        spec_load_lfo2(n, params, st) matches Ok(l) ==> l.rate.spec_well_formed(),
{
    broadcast use group_parsed_well_formed;
}

/// A read delay is well-formed.
pub proof fn lemma_loaded_delay(
    n: XmlElementView,
    params: XmlElementView,
    st: ValueStyle,
    amount_key: Seq<char>,
    rate_key: Seq<char>,
)
    ensures
        spec_load_delay_with(n, params, st, amount_key, rate_key) matches Ok(d) ==> delay_well_formed(d),
{
    broadcast use group_parsed_well_formed;
}

/// A read arpeggiator is well-formed.
pub proof fn lemma_loaded_arpeggiator(n: XmlElementView, params: XmlElementView, st: ValueStyle)
    ensures
        spec_load_arpeggiator_node(n, params, st) matches Ok(a) ==> arpeggiator_well_formed(a),
{
    broadcast use group_parsed_well_formed;
}

/// A read distortion is well-formed.
pub proof fn lemma_loaded_distorsion(root: XmlElementView, params: XmlElementView, st: ValueStyle)
    ensures
        spec_load_distorsion(root, params, st) matches Ok(d) ==> distorsion_well_formed(d),
{
    broadcast use group_parsed_well_formed;
    ClippingAmount::lemma_value_of_spec_new(0);
}

/// A read equalizer is well-formed.
pub proof fn lemma_loaded_equalizer(n: XmlElementView, st: ValueStyle)
    ensures
        spec_load_equalizer(n, st) matches Ok(e) ==> equalizer_well_formed(e),
{
    broadcast use group_parsed_well_formed;
}

/// A read modulation effect is well-formed.
pub proof fn lemma_loaded_modulation_fx(root: XmlElementView, version: FormatVersion)
    ensures
        spec_load_modulation_fx(root, version) matches Ok(fx) ==> mod_fx_well_formed(fx),
{
    broadcast use group_parsed_well_formed;
}

/// A read sidechain is well-formed.
pub proof fn lemma_loaded_sidechain(n: XmlElementView, params: XmlElementView, st: ValueStyle, shape_key: Seq<char>)
    ensures
        spec_load_sidechain_with(n, params, st, shape_key) matches Ok(s) ==> sidechain_well_formed(s),
{
    broadcast use group_parsed_well_formed;
}

/// The amounts of read patch cables are well-formed.
proof fn lemma_loaded_patch_cable_list(nodes: Seq<XmlElementView>, st: ValueStyle)
    ensures
        spec_load_patch_cable_list(nodes, st) matches Ok(cables) ==> forall|i: int|
            0 <= i < cables.len() ==> (#[trigger] cables[i]).amount.spec_well_formed(),
    decreases nodes.len(),
{
    broadcast use group_parsed_well_formed;
    if nodes.len() > 0 {
        lemma_loaded_patch_cable_list(nodes.drop_last(), st);
    }
}

/// The amounts of read patch cables are well-formed.
pub proof fn lemma_loaded_patch_cables(n: XmlElementView, st: ValueStyle)
    ensures
        spec_load_patch_cables(n, st) matches Ok(cables) ==> forall|i: int|
            0 <= i < cables.len() ==> (#[trigger] cables[i]).amount.spec_well_formed(),
{
    lemma_loaded_patch_cable_list(children_named(n.children, "patchCable"@), st);
}

/// A path read from a document is well-formed.
proof fn lemma_loaded_path(n: XmlElementView, key: Seq<char>, st: ValueStyle)
    ensures
        spec_parse_sample_path(n, key, st) matches Ok(p) ==> path_well_formed(p),
        spec_parse_opt_sample_path(n, key, st) matches Ok(p) ==> path_well_formed(p),
{
    match lookup(n, key, st) {
        Some(t) => lemma_normalized_path_stable(t),
        None => {
            assert(normalized_path(Seq::<char>::empty()) =~= Seq::<char>::empty());
        },
    }
}

/// A read sample range is well-formed.
proof fn lemma_loaded_sample_range(n: XmlElementView, st: ValueStyle)
    ensures
        spec_load_sample_range(n, st) matches Ok(r) ==> range_well_formed(r),
{
    broadcast use group_parsed_well_formed;
    lemma_loaded_path(n, "fileName"@, st);
    Transpose::lemma_value_of_spec_new(0);
    FineTranspose::lemma_value_of_spec_new(0);
}

/// Read sample ranges are well-formed.
proof fn lemma_loaded_sample_range_list(nodes: Seq<XmlElementView>, st: ValueStyle)
    ensures
        spec_load_sample_range_list(nodes, st) matches Ok(ranges) ==> forall|i: int|
            0 <= i < ranges.len() ==> range_well_formed(#[trigger] ranges[i]),
    decreases nodes.len(),
{
    if nodes.len() > 0 {
        lemma_loaded_sample_range_list(nodes.drop_last(), st);
        lemma_loaded_sample_range(nodes.last(), st);
        match spec_load_sample_range_list(nodes, st) {
            Ok(ranges) => {
                let prev = spec_load_sample_range_list(nodes.drop_last(), st)->Ok_0;
                assert forall|i: int| 0 <= i < ranges.len() implies range_well_formed(#[trigger] ranges[i]) by {
                    if i < prev.len() {
                        assert(ranges[i] == prev[i]);
                    }
                }
            },
            Err(_) => {},
        }
    }
}

/// A read sample is well-formed.
proof fn lemma_loaded_sample(n: XmlElementView, st: ValueStyle)
    ensures
        spec_load_sample(n, st) matches Ok(s) ==> sample_well_formed(s),
{
    match crate::xml::child_element(n.children, "sampleRanges"@) {
        Some(ranges_node) => lemma_loaded_sample_range_list(
            children_named(ranges_node.children, "sampleRange"@),
            st,
        ),
        None => lemma_loaded_path(n, "fileName"@, st),
    }
}

/// A read sample oscillator is well-formed.
proof fn lemma_loaded_sample_oscillator(n: XmlElementView, st: ValueStyle)
    ensures
        spec_load_sample_oscillator(n, st) matches Ok(o) ==> sample_oscillator_well_formed(o),
{
    broadcast use group_parsed_well_formed;
    lemma_loaded_sample(n, st);
    Transpose::lemma_value_of_spec_new(0);
    FineTranspose::lemma_value_of_spec_new(0);
}

/// A read retrigger phase is well-formed.
proof fn lemma_loaded_retrig_phase(n: XmlElementView, version: FormatVersion)
    ensures
        spec_load_retrig_phase(n, version) matches Ok(p) ==> p.spec_well_formed(),
{
    broadcast use group_parsed_well_formed;
}

/// The values of a read waveform oscillator are well-formed.
proof fn lemma_loaded_waveform(
    osc_type: OscType,
    n: XmlElementView,
    params: XmlElementView,
    selector: TwinSelector,
    version: FormatVersion,
)
    ensures
        spec_load_waveform_oscillator(osc_type, n, params, selector, version) matches Ok(w) ==> (
        waveform_values_well_formed(w) && w.osc_type == osc_type),
{
    broadcast use group_parsed_well_formed;
    lemma_loaded_retrig_phase(n, version);
}

/// A read oscillator of a subtractive engine is well-formed.
proof fn lemma_loaded_oscillator(n: XmlElementView, params: XmlElementView, selector: TwinSelector, version: FormatVersion)
    ensures
        spec_load_oscillator(n, params, selector, version) matches Ok(o) ==> oscillator_well_formed(o),
{
    match crate::xml::spec_parse_value::<OscType>(n, "type"@, style_of(version)) {
        Ok(t) => {
            lemma_loaded_sample_oscillator(n, style_of(version));
            lemma_loaded_waveform(t, n, params, selector, version);
        },
        Err(_) => {},
    }
}

/// A read FM carrier is well-formed.
proof fn lemma_loaded_carrier(n: XmlElementView, params: XmlElementView, selector: TwinSelector, version: FormatVersion)
    ensures
        spec_load_carrier(n, params, selector, version) matches Ok(c) ==> carrier_well_formed(c),
{
    broadcast use group_parsed_well_formed;
    lemma_loaded_retrig_phase(n, version);
}

/// A read FM modulator is well-formed.
proof fn lemma_loaded_modulator(n: XmlElementView, params: XmlElementView, selector: TwinSelector, version: FormatVersion)
    ensures
        spec_load_fm_modulation(n, params, selector, version) matches Ok(m) ==> modulator_well_formed(m),
{
    broadcast use group_parsed_well_formed;
    lemma_loaded_retrig_phase(n, version);
}

/// A read subtractive engine is well-formed.
proof fn lemma_loaded_subtractive(root: XmlElementView, version: FormatVersion)
    ensures
        spec_load_subtractive_sound(root, version) matches Ok(g) ==> subtractive_well_formed(g),
{
    broadcast use group_parsed_well_formed;
    match (crate::serialization::loading::spec_child(root, "osc1"@), crate::serialization::loading::spec_child(root, "osc2"@), crate::serialization::loading::spec_child(root, "defaultParams"@)) {
        (Ok(o1), Ok(o2), Ok(p)) => {
            lemma_loaded_oscillator(o1, p, TwinSelector::A, version);
            lemma_loaded_oscillator(o2, p, TwinSelector::B, version);
        },
        _ => {},
    }
}

/// A read ring modulation engine is well-formed.
proof fn lemma_loaded_ring_mod(root: XmlElementView, version: FormatVersion)
    ensures
        spec_load_ringmode_sound(root, version) matches Ok(r) ==> ring_mod_well_formed(r),
{
    broadcast use group_parsed_well_formed;
    let st = style_of(version);
    match (crate::serialization::loading::spec_child(root, "osc1"@), crate::serialization::loading::spec_child(root, "osc2"@), crate::serialization::loading::spec_child(root, "defaultParams"@)) {
        (Ok(o1), Ok(o2), Ok(p)) => {
            let t1 = spec_parse_value::<OscType>(o1, "type"@, st)->Ok_0;
            let t2 = spec_parse_value::<OscType>(o2, "type"@, st)->Ok_0;
            lemma_loaded_waveform(t1, o1, p, TwinSelector::A, version);
            lemma_loaded_waveform(t2, o2, p, TwinSelector::B, version);
        },
        _ => {},
    }
}

/// A read FM engine is well-formed.
proof fn lemma_loaded_fm(root: XmlElementView, version: FormatVersion)
    ensures
        spec_load_fm_sound(root, version) matches Ok(f) ==> fm_well_formed(f),
{
    broadcast use group_parsed_well_formed;
    let child = |k: Seq<char>| crate::serialization::loading::spec_child(root, k);
    match (child("osc1"@), child("osc2"@), child("modulator1"@), child("modulator2"@), child("defaultParams"@)) {
        (Ok(o1), Ok(o2), Ok(m1), Ok(m2), Ok(p)) => {
            lemma_loaded_carrier(o1, p, TwinSelector::A, version);
            lemma_loaded_carrier(o2, p, TwinSelector::B, version);
            lemma_loaded_modulator(m1, p, TwinSelector::A, version);
            lemma_loaded_modulator(m2, p, TwinSelector::B, version);
        },
        _ => {},
    }
}

/// A read engine is well-formed.
pub proof fn lemma_loaded_engine(root: XmlElementView, mode: SynthMode, version: FormatVersion)
    ensures
        spec_load_engine(root, mode, version) matches Ok(g) ==> engine_well_formed(g),
{
    lemma_loaded_subtractive(root, version);
    lemma_loaded_ring_mod(root, version);
    lemma_loaded_fm(root, version);
}

/// The arpeggiator a sound holds when its document has none is well-formed.
proof fn lemma_default_arpeggiator()
    ensures
        arpeggiator_well_formed(spec_default_arpeggiator()),
{
    OctavesCount::lemma_value_of_spec_new(2);
}

/// The sidechain a sound holds when its document has none is well-formed.
proof fn lemma_default_sidechain()
    ensures
        sidechain_well_formed(spec_default_sidechain()),
{
    AttackSidechain::lemma_index_of_spec_at(7);
    ReleaseSidechain::lemma_index_of_spec_at(28);
}

/// A read sound is well-formed.
pub proof fn lemma_loaded_sound(root: XmlElementView, version: FormatVersion)
    ensures
        spec_load_sound(root, version) matches Ok(s) ==> sound_well_formed(s),
{
    broadcast use group_parsed_well_formed;
    reveal(spec_load_sound);
    let st = style_of(version);
    match spec_load_mode(root, version) {
        Ok(m) => lemma_loaded_engine(root, m, version),
        Err(_) => {},
    }
    match spec_child(root, "defaultParams"@) {
        Ok(p) => {
            match spec_child(p, "envelope1"@) {
                Ok(n) => lemma_loaded_envelope(n, st),
                Err(_) => {},
            }
            match spec_child(p, "envelope2"@) {
                Ok(n) => lemma_loaded_envelope(n, st),
                Err(_) => {},
            }
            match spec_child(root, "lfo1"@) {
                Ok(n) => lemma_loaded_lfo1(n, p, st),
                Err(_) => {},
            }
            match spec_child(root, "lfo2"@) {
                Ok(n) => lemma_loaded_lfo2(n, p, st),
                Err(_) => {},
            }
            match spec_child(root, "unison"@) {
                Ok(n) => lemma_loaded_unison(n, st),
                Err(_) => {},
            }
            match spec_child(root, "arpeggiator"@) {
                Ok(n) => lemma_loaded_arpeggiator(n, p, ValueStyle::Attribute),
                Err(_) => {},
            }
            match crate::xml::child_element(root.children, "arpeggiator"@) {
                Some(n) => lemma_loaded_arpeggiator(n, p, ValueStyle::Child),
                None => {},
            }
            lemma_default_arpeggiator();
            match spec_child(root, "delay"@) {
                Ok(n) => lemma_loaded_delay(n, p, st, "delayFeedback"@, "delayRate"@),
                Err(_) => {},
            }
            lemma_loaded_distorsion(root, p, st);
            match spec_child(p, "equalizer"@) {
                Ok(n) => lemma_loaded_equalizer(n, st),
                Err(_) => {},
            }
            lemma_loaded_modulation_fx(root, version);
            match spec_child(root, "compressor"@) {
                Ok(n) => lemma_loaded_sidechain(n, p, st, "compressorShape"@),
                Err(_) => {},
            }
            lemma_default_sidechain();
            match spec_child(p, "patchCables"@) {
                Ok(n) => lemma_loaded_patch_cables(n, st),
                Err(_) => {},
            }
            assert(spec_load_sound_arpeggiator(root, p, version) matches Ok(a) ==> arpeggiator_well_formed(a));
            assert(spec_load_sound_sidechain(root, p, version) matches Ok(x) ==> sidechain_well_formed(x));
        },
        Err(_) => {},
    }
}

/// A read row of a kit is well-formed.
proof fn lemma_loaded_row(n: XmlElementView, version: FormatVersion)
    ensures
        spec_load_sound_source(n, version) matches Ok(r) ==> row_well_formed(r),
{
    broadcast use group_parsed_well_formed;
    lemma_loaded_sound(n, crate::serialization::loading::rows_version(version));
}

/// The read rows of a kit are well-formed.
proof fn lemma_loaded_row_list(nodes: Seq<XmlElementView>, version: FormatVersion)
    ensures
        spec_load_row_list(nodes, version) matches Ok(rows) ==> forall|i: int|
            0 <= i < rows.len() ==> row_well_formed(#[trigger] rows[i]),
    decreases nodes.len(),
{
    if nodes.len() > 0 {
        lemma_loaded_row_list(nodes.drop_last(), version);
        lemma_loaded_row(nodes.last(), version);
        match spec_load_row_list(nodes, version) {
            Ok(rows) => {
                let prev = spec_load_row_list(nodes.drop_last(), version)->Ok_0;
                assert forall|i: int| 0 <= i < rows.len() implies row_well_formed(#[trigger] rows[i]) by {
                    if i < prev.len() {
                        assert(rows[i] == prev[i]);
                    }
                }
            },
            Err(_) => {},
        }
    }
}

/// The levels and position of a read kit are well-formed.
proof fn lemma_loaded_kit_levels(kit: XmlElementView, key: Seq<char>, version: FormatVersion)
    ensures
        spec_load_kit_hexu(kit, key, version) matches Ok(v) ==> v.spec_well_formed(),
        spec_load_kit_pan(kit, version) matches Ok(v) ==> v.spec_well_formed(),
{
    broadcast use group_parsed_well_formed;
    Pan::lemma_center_value();
}

/// The effects of a read kit are well-formed.
proof fn lemma_loaded_kit_effects(kit: XmlElementView, version: FormatVersion)
    ensures
        spec_load_global_delay(kit, version) matches Ok(d) ==> delay_well_formed(d),
        spec_load_global_sidechain(kit, version) matches Ok(x) ==> sidechain_well_formed(x),
        spec_load_global_filter(kit, "lpf"@, style_of(version)) matches Ok(f) ==> (f.0.spec_well_formed()
            && f.1.spec_well_formed()),
        spec_load_global_filter(kit, "hpf"@, style_of(version)) matches Ok(f) ==> (f.0.spec_well_formed()
            && f.1.spec_well_formed()),
        spec_load_global_equalizer(kit, version) matches Ok(e) ==> equalizer_well_formed(e),
{
    broadcast use group_parsed_well_formed;
    let st = style_of(version);
    lemma_default_sidechain();
    match spec_child(kit, "defaultParams"@) {
        Ok(p) => {
            match spec_child(p, "delay"@) {
                Ok(dd) => match spec_child(kit, "delay"@) {
                    Ok(d) => lemma_loaded_delay(d, dd, st, "feedback"@, "rate"@),
                    Err(_) => {},
                },
                Err(_) => {},
            }
            match spec_child(p, "equalizer"@) {
                Ok(n) => {
                    lemma_loaded_equalizer(n, ValueStyle::Attribute);
                    lemma_loaded_equalizer(n, ValueStyle::Child);
                },
                Err(_) => {},
            }
            match spec_child(kit, "compressor"@) {
                Ok(c) => lemma_loaded_sidechain(c, p, ValueStyle::Attribute, "sidechainCompressorShape"@),
                Err(_) => {},
            }
        },
        Err(_) => {},
    }
}

/// A read kit is well-formed.
pub proof fn lemma_loaded_kit(roots: Seq<XmlElementView>, version: FormatVersion)
    ensures
        spec_load_kit_nodes(roots, version) matches Ok(k) ==> kit_well_formed(k),
{
    reveal(spec_load_kit_nodes);
    match spec_get_element(roots, "kit"@) {
        Ok(k) => {
            match spec_child(k, "soundSources"@) {
                Ok(sources) => lemma_loaded_row_list(element_children(sources.children), version),
                Err(_) => {},
            }
            lemma_loaded_modulation_fx(k, version);
            lemma_loaded_kit_levels(k, "volume"@, version);
            lemma_loaded_kit_levels(k, "reverbAmount"@, version);
            lemma_loaded_kit_levels(k, "bitCrush"@, version);
            lemma_loaded_kit_levels(k, "sampleRateReduction"@, version);
            lemma_loaded_kit_levels(k, "stutterRate"@, version);
            lemma_loaded_kit_effects(k, version);
        },
        Err(_) => {},
    }
}

} // verus!
