//! The laws of saving: a patch this library saves reads back as the patch it saved.
use vstd::prelude::*;
use crate::card::patch_type::PatchType;
use crate::error::ErrorView;
use crate::kit::row::{CvGateRow, MidiRow, RowKitView, SoundRowView};
use crate::kit::{Hpf, KitView, Lpf};
use crate::serialization::format_version::FormatVersion;
use crate::serialization::loading::{
    spec_load_kit_nodes, spec_load_row_list, spec_load_sound_source, spec_load_synth_nodes, root_element,
};
use crate::serialization::round_trip::{
    delay_well_formed, equalizer_well_formed, holds, lemma_delay_round_trip, lemma_equalizer_round_trip,
    lemma_keys_kit, lemma_keys_sound, lemma_mod_fx_round_trip, lemma_no_extra, lemma_sidechain_round_trip,
    lemma_sound_round_trip, mod_fx_params_hold, mod_fx_well_formed, sidechain_well_formed, sound_root,
    sound_well_formed,
};
use crate::serialization::version_info::spec_load_version;
use crate::serialization::writing::{
    spec_delay_element, spec_equalizer_element, spec_filter_element, spec_kit_element, spec_kit_params_element,
    spec_mod_fx_kind, spec_row_element, spec_selected_row_element, spec_sidechain_element,
    spec_sound_sources_element, spec_synth_element, leaf, spec_delay_params, spec_firmware_pairs,
    spec_sound_element,
};
use crate::sound::SoundView;
use crate::sound::effects::{Delay, Equalizer, ModulationFx, Sidechain};
use crate::values::hexu50::HexU50;
use crate::values::pan::Pan;
use crate::values::simple_enums::{FilterType, LpfMode};
use crate::xml::spec_parse_value;
use crate::serialization::loading::{
    spec_load_global_delay, spec_load_global_equalizer, spec_load_global_filter, spec_load_global_sidechain,
    spec_load_kit_hexu, spec_load_kit_pan, spec_load_modulation_fx, spec_load_selected_row,
};
use crate::values::XmlValue;
use crate::xml::{attr_value, child_element, element_children, element_nodes, lemma_element_children_of_nodes,
    ValueStyle, XmlElementView, XmlNodeView};

verus! {

/// Whether every value of a row of a kit is one its type stands for.
pub open spec fn row_well_formed(r: RowKitView) -> bool {
    match r {
        RowKitView::Sound(s) => sound_well_formed(s.sound),
        RowKitView::Midi(m) => m.channel.spec_well_formed(),
        RowKitView::CvGate(g) => g.channel.spec_well_formed(),
    }
}

/// Whether every value of a kit is one its type stands for: what reading gives back.
pub open spec fn kit_well_formed(k: KitView) -> bool {
    &&& forall|i: int| 0 <= i < k.rows.len() ==> row_well_formed(#[trigger] k.rows[i])
    &&& k.volume.spec_well_formed()
    &&& k.pan.spec_well_formed()
    &&& k.reverb_amount.spec_well_formed()
    &&& k.bit_crush.spec_well_formed()
    &&& k.decimation.spec_well_formed()
    &&& k.stutter_rate.spec_well_formed()
    &&& mod_fx_well_formed(k.modulation_fx)
    &&& delay_well_formed(k.delay)
    &&& sidechain_well_formed(k.sidechain)
    &&& k.lpf.frequency.spec_well_formed() && k.lpf.resonance.spec_well_formed()
    &&& k.hpf.frequency.spec_well_formed() && k.hpf.resonance.spec_well_formed()
    &&& equalizer_well_formed(k.equalizer)
}

proof fn lemma_sound_element_facts(s: SoundView, name: Option<Seq<char>>)
    ensures
        spec_sound_element(s, name).name == "sound"@,
        attr_value(spec_sound_element(s, name).attributes, "name"@) == match name {
            Some(n) => if n.len() > 0 {
                Some(n)
            } else {
                None
            },
            None => None,
        },
        attr_value(spec_sound_element(s, name).attributes, "firmwareVersion"@) is None,
        attr_value(spec_sound_element(s, name).attributes, "earliestCompatibleFirmware"@) is None,
{
    broadcast use {
        crate::xml::lemma_attr_value_push,
        crate::xml::lemma_attr_value_concat,
    };
    reveal(spec_sound_element);
    lemma_keys_sound();
}

proof fn lemma_kit_element_facts(k: KitView)
    ensures
        spec_kit_element(k).name == "kit"@,
        attr_value(spec_kit_element(k).attributes, "firmwareVersion"@) == Some("3.1.5"@),
        attr_value(spec_kit_element(k).attributes, "earliestCompatibleFirmware"@) == Some("3.1.5"@),
{
    broadcast use {
        crate::xml::lemma_attr_value_push,
        crate::xml::lemma_attr_value_concat,
    };
    reveal(spec_kit_element);
    lemma_keys_kit();
}

proof fn lemma_midi_row_round_trip(m: MidiRow)
    requires
        m.channel.spec_well_formed(),
    ensures
        spec_load_sound_source(spec_row_element(RowKitView::Midi(m)), FormatVersion::Version3) == Ok::<
            RowKitView,
            ErrorView,
        >(RowKitView::Midi(m)),
{
    broadcast use {
        crate::xml::lemma_attr_value_push,
        crate::xml::lemma_attr_value_concat,
    };
    lemma_keys_kit();
    crate::serialization::round_trip::lemma_keys_small();
    m.channel.lemma_round_trip();
    m.note.lemma_round_trip();
}

proof fn lemma_gate_row_round_trip(g: CvGateRow)
    requires
        g.channel.spec_well_formed(),
    ensures
        spec_load_sound_source(spec_row_element(RowKitView::CvGate(g)), FormatVersion::Version3) == Ok::<
            RowKitView,
            ErrorView,
        >(RowKitView::CvGate(g)),
{
    broadcast use {
        crate::xml::lemma_attr_value_push,
        crate::xml::lemma_attr_value_concat,
    };
    lemma_keys_kit();
    crate::serialization::round_trip::lemma_keys_small();
    g.channel.lemma_round_trip();
}

/// A row of a kit written then read back is unchanged.
pub proof fn lemma_row_round_trip(r: RowKitView)
    requires
        row_well_formed(r),
    ensures
        spec_load_sound_source(spec_row_element(r), FormatVersion::Version3) == Ok::<RowKitView, ErrorView>(r),
{
    lemma_keys_kit();
    match r {
        RowKitView::Sound(row) => {
            let e = spec_sound_element(row.sound, Some(row.name));
            lemma_sound_element_facts(row.sound, Some(row.name));
            lemma_no_extra(e);
            lemma_sound_round_trip(row.sound, Some(row.name), Seq::empty());
            assert(sound_root(row.sound, Some(row.name), Seq::empty()) == e);
            if row.name.len() == 0 {
                assert(row.name =~= Seq::<char>::empty());
            }
        },
        RowKitView::Midi(m) => lemma_midi_row_round_trip(m),
        RowKitView::CvGate(g) => lemma_gate_row_round_trip(g),
    }
}

proof fn lemma_row_list_round_trip(rows: Seq<RowKitView>)
    requires
        forall|i: int| 0 <= i < rows.len() ==> row_well_formed(#[trigger] rows[i]),
    ensures
        spec_load_row_list(rows.map_values(|r: RowKitView| spec_row_element(r)), FormatVersion::Version3) == Ok::<
            Seq<RowKitView>,
            ErrorView,
        >(rows),
    decreases rows.len(),
{
    let elements = rows.map_values(|r: RowKitView| spec_row_element(r));
    if rows.len() > 0 {
        let last = rows.len() - 1;
        assert(elements.drop_last() =~= rows.drop_last().map_values(|r: RowKitView| spec_row_element(r)));
        lemma_row_list_round_trip(rows.drop_last());
        lemma_row_round_trip(rows[last]);
        assert(elements.last() == spec_row_element(rows[last]));
        assert(rows.drop_last().push(rows[last]) =~= rows);
    } else {
        assert(elements =~= Seq::<XmlElementView>::empty());
        assert(rows =~= Seq::<RowKitView>::empty());
    }
}

/// The element written for a kit holds each of its parts as the child of its own name:
/// its low pass filter under `lpf` and its high pass filter under `hpf` among the default
/// parameters, its delay, sidechain, rows and selected row under theirs.
pub proof fn lemma_kit_children(k: KitView)
    ensures
        child_element(spec_kit_element(k).children, "delay"@) == Some(spec_delay_element(k.delay)),
        child_element(spec_kit_element(k).children, "compressor"@) == Some(spec_sidechain_element(k.sidechain)),
        child_element(spec_kit_element(k).children, "soundSources"@) == Some(spec_sound_sources_element(k.rows)),
        child_element(spec_kit_element(k).children, "selectedDrumIndex"@) == match k.selected_row_index {
            Some(i) => Some(spec_selected_row_element(i)),
            None => None,
        },
        child_element(spec_kit_element(k).children, "defaultParams"@) == Some(spec_kit_params_element(k)),
        child_element(spec_kit_params_element(k).children, "lpf"@) == Some(
            spec_filter_element("lpf"@, k.lpf.frequency, k.lpf.resonance),
        ),
        child_element(spec_kit_params_element(k).children, "hpf"@) == Some(
            spec_filter_element("hpf"@, k.hpf.frequency, k.hpf.resonance),
        ),
        child_element(spec_kit_params_element(k).children, "equalizer"@) == Some(spec_equalizer_element(k.equalizer)),
        child_element(spec_kit_params_element(k).children, "delay"@) == Some(
            leaf("delay"@, spec_delay_params(k.delay, "feedback"@, "rate"@)),
        ),
{
    broadcast use {
        crate::xml::lemma_child_element_push,
        crate::xml::lemma_child_element_concat,
        crate::xml::lemma_element_nodes_push,
        crate::xml::lemma_element_nodes_concat,
    };
    reveal(spec_kit_element);
    reveal(spec_kit_params_element);
    lemma_keys_kit();
    assert(element_nodes(Seq::<XmlElementView>::empty()) =~= Seq::<XmlNodeView>::empty());
}

/// The element written for a kit and its default parameters hold each of its values under
/// the name the Deluge gives it: the volume under `volume`, the bit crush under `bitCrush`,
/// the delay's amount under `feedback` and its rate under `rate`, and so on.
pub proof fn lemma_kit_values(k: KitView)
    ensures
        attr_value(spec_kit_element(k).attributes, "lpfMode"@) == Some(k.lpf_mode.spec_to_text()),
        attr_value(spec_kit_element(k).attributes, "currentFilterType"@) == Some(k.current_filter_type.spec_to_text()),
        attr_value(spec_kit_element(k).attributes, "modFXType"@) == Some(spec_mod_fx_kind(k.modulation_fx).spec_to_text()),
        holds(spec_kit_params_element(k), "volume"@, k.volume),
        holds(spec_kit_params_element(k), "reverbAmount"@, k.reverb_amount),
        holds(spec_kit_params_element(k), "pan"@, k.pan),
        holds(spec_kit_params_element(k), "stutterRate"@, k.stutter_rate),
        holds(spec_kit_params_element(k), "sidechainCompressorShape"@, k.sidechain.shape),
        mod_fx_params_hold(k.modulation_fx, spec_kit_params_element(k)),
        holds(spec_kit_params_element(k), "bitCrush"@, k.bit_crush),
        holds(spec_kit_params_element(k), "sampleRateReduction"@, k.decimation),
        holds(leaf("delay"@, spec_delay_params(k.delay, "feedback"@, "rate"@)), "feedback"@, k.delay.amount),
        holds(leaf("delay"@, spec_delay_params(k.delay, "feedback"@, "rate"@)), "rate"@, k.delay.rate),
{
    broadcast use {
        crate::xml::lemma_attr_value_push,
        crate::xml::lemma_attr_value_concat,
    };
    reveal(spec_kit_element);
    reveal(spec_kit_params_element);
    lemma_keys_kit();
    crate::serialization::round_trip::lemma_keys_params();
}

proof fn lemma_kit_rows(k: KitView)
    requires
        kit_well_formed(k),
    ensures
        spec_load_row_list(
            element_children(spec_sound_sources_element(k.rows).children),
            FormatVersion::Version3,
        ) == Ok::<Seq<RowKitView>, ErrorView>(k.rows),
{
    let elements = k.rows.map_values(|r: RowKitView| spec_row_element(r));
    lemma_element_children_of_nodes(elements);
    assert(spec_sound_sources_element(k.rows).children =~= element_nodes(elements));
    lemma_row_list_round_trip(k.rows);
}

proof fn lemma_kit_settings(k: KitView)
    requires
        kit_well_formed(k),
    ensures
        spec_parse_value::<LpfMode>(spec_kit_element(k), "lpfMode"@, ValueStyle::Attribute) == Ok::<LpfMode, ErrorView>(
            k.lpf_mode,
        ),
        spec_parse_value::<FilterType>(spec_kit_element(k), "currentFilterType"@, ValueStyle::Attribute) == Ok::<
            FilterType,
            ErrorView,
        >(k.current_filter_type),
        spec_load_modulation_fx(spec_kit_element(k), FormatVersion::Version3) == Ok::<ModulationFx, ErrorView>(
            k.modulation_fx,
        ),
        spec_load_selected_row(spec_kit_element(k), FormatVersion::Version3) == Ok::<Option<u32>, ErrorView>(
            k.selected_row_index,
        ),
{
    lemma_kit_children(k);
    lemma_kit_values(k);
    k.lpf_mode.lemma_round_trip();
    k.current_filter_type.lemma_round_trip();
    lemma_mod_fx_round_trip(k.modulation_fx, spec_kit_element(k), spec_kit_params_element(k));
    match k.selected_row_index {
        Some(i) => {
            i.lemma_round_trip();
            assert(crate::text::dec_text(i as nat).len() > 0);
        },
        None => {},
    }
}

proof fn lemma_kit_levels(k: KitView)
    requires
        kit_well_formed(k),
    ensures
        spec_load_kit_hexu(spec_kit_element(k), "volume"@, FormatVersion::Version3) == Ok::<HexU50, ErrorView>(k.volume),
        spec_load_kit_hexu(spec_kit_element(k), "reverbAmount"@, FormatVersion::Version3) == Ok::<HexU50, ErrorView>(
            k.reverb_amount,
        ),
        spec_load_kit_pan(spec_kit_element(k), FormatVersion::Version3) == Ok::<Pan, ErrorView>(k.pan),
        spec_load_kit_hexu(spec_kit_element(k), "bitCrush"@, FormatVersion::Version3) == Ok::<HexU50, ErrorView>(
            k.bit_crush,
        ),
        spec_load_kit_hexu(spec_kit_element(k), "sampleRateReduction"@, FormatVersion::Version3) == Ok::<
            HexU50,
            ErrorView,
        >(k.decimation),
        spec_load_kit_hexu(spec_kit_element(k), "stutterRate"@, FormatVersion::Version3) == Ok::<HexU50, ErrorView>(
            k.stutter_rate,
        ),
{
    lemma_kit_children(k);
    lemma_kit_values(k);
    k.volume.lemma_round_trip();
    k.reverb_amount.lemma_round_trip();
    k.pan.lemma_round_trip();
    k.bit_crush.lemma_round_trip();
    k.decimation.lemma_round_trip();
    k.stutter_rate.lemma_round_trip();
}

proof fn lemma_kit_effects(k: KitView)
    requires
        kit_well_formed(k),
    ensures
        spec_load_global_delay(spec_kit_element(k), FormatVersion::Version3) == Ok::<Delay, ErrorView>(k.delay),
        spec_load_global_sidechain(spec_kit_element(k), FormatVersion::Version3) == Ok::<Sidechain, ErrorView>(
            k.sidechain,
        ),
        spec_load_global_filter(spec_kit_element(k), "lpf"@, ValueStyle::Attribute) == Ok::<
            (HexU50, HexU50),
            ErrorView,
        >((k.lpf.frequency, k.lpf.resonance)),
        spec_load_global_filter(spec_kit_element(k), "hpf"@, ValueStyle::Attribute) == Ok::<
            (HexU50, HexU50),
            ErrorView,
        >((k.hpf.frequency, k.hpf.resonance)),
        spec_load_global_equalizer(spec_kit_element(k), FormatVersion::Version3) == Ok::<Equalizer, ErrorView>(
            k.equalizer,
        ),
{
    broadcast use {
        crate::xml::lemma_attr_value_push,
        crate::xml::lemma_attr_value_concat,
    };
    lemma_kit_children(k);
    lemma_kit_values(k);
    lemma_keys_kit();
    lemma_delay_round_trip(k.delay, leaf("delay"@, spec_delay_params(k.delay, "feedback"@, "rate"@)), "feedback"@, "rate"@);
    lemma_sidechain_round_trip(k.sidechain, spec_kit_params_element(k), "sidechainCompressorShape"@);
    k.lpf.frequency.lemma_round_trip();
    k.lpf.resonance.lemma_round_trip();
    k.hpf.frequency.lemma_round_trip();
    k.hpf.resonance.lemma_round_trip();
    lemma_equalizer_round_trip(k.equalizer);
}

/// A kit written then read back in the latest format is unchanged.
pub proof fn lemma_kit_round_trip(k: KitView)
    requires
        kit_well_formed(k),
    ensures
        spec_load_kit_nodes(seq![spec_kit_element(k)], FormatVersion::Version3) == Ok::<KitView, ErrorView>(k),
{
    reveal(spec_load_kit_nodes);
    reveal_with_fuel(root_element, 2);
    let roots = seq![spec_kit_element(k)];
    let e = spec_kit_element(k);
    lemma_kit_element_facts(k);
    assert(roots.drop_last() =~= Seq::<XmlElementView>::empty());
    assert(root_element(roots, "kit"@) == Some(e));
    lemma_kit_children(k);
    lemma_kit_rows(k);
    lemma_kit_settings(k);
    lemma_kit_levels(k);
    lemma_kit_effects(k);
}

/// Saving a synth, then reading the document in the latest format, gives back the synth,
/// for every synth whose values are ones their types stand for; the document names the
/// latest supported firmware as the one that wrote it and as the earliest that reads it.
pub proof fn lemma_synth_document_round_trip(s: SoundView)
    requires
        sound_well_formed(s),
    ensures
        spec_load_synth_nodes(seq![spec_synth_element(s)], FormatVersion::Version3) == Ok::<SoundView, ErrorView>(s),
        spec_load_version(seq![spec_synth_element(s)], PatchType::Synth, "earliestCompatibleFirmware"@) == Some(
            "3.1.5"@,
        ),
        spec_load_version(seq![spec_synth_element(s)], PatchType::Synth, "firmwareVersion"@) == Some("3.1.5"@),
{
    broadcast use {
        crate::xml::lemma_attr_value_push,
        crate::xml::lemma_attr_value_concat,
    };
    lemma_keys_kit();
    lemma_keys_sound();
    lemma_sound_element_facts(s, None);
    reveal_with_fuel(root_element, 2);
    let roots = seq![spec_synth_element(s)];
    assert(roots.drop_last() =~= Seq::<XmlElementView>::empty());
    assert(attr_value(spec_firmware_pairs(), "sideChainSend"@) is None);
    lemma_sound_round_trip(s, None, spec_firmware_pairs());
    assert(sound_root(s, None, spec_firmware_pairs()) == spec_synth_element(s));
}

/// Saving a kit, then reading the document in the latest format, gives back the kit, for
/// every kit whose values are ones their types stand for; the document names the latest
/// supported firmware as the one that wrote it and as the earliest that reads it.
pub proof fn lemma_kit_document_round_trip(k: KitView)
    requires
        kit_well_formed(k),
    ensures
        spec_load_kit_nodes(seq![spec_kit_element(k)], FormatVersion::Version3) == Ok::<KitView, ErrorView>(k),
        spec_load_version(seq![spec_kit_element(k)], PatchType::Kit, "earliestCompatibleFirmware"@) == Some(
            "3.1.5"@,
        ),
        spec_load_version(seq![spec_kit_element(k)], PatchType::Kit, "firmwareVersion"@) == Some("3.1.5"@),
{
    broadcast use {
        crate::xml::lemma_attr_value_push,
        crate::xml::lemma_attr_value_concat,
    };
    lemma_keys_kit();
    lemma_kit_element_facts(k);
    reveal_with_fuel(root_element, 2);
    let roots = seq![spec_kit_element(k)];
    assert(roots.drop_last() =~= Seq::<XmlElementView>::empty());
    lemma_kit_round_trip(k);
}

/// A synth read from a document in any supported format, then saved, reads back in the
/// latest format as the synth that was read: reading, writing and reading again gives
/// what the first reading gave.
pub proof fn lemma_loaded_synth_round_trip(roots: Seq<XmlElementView>, version: FormatVersion)
    requires
        spec_load_synth_nodes(roots, version) is Ok,
    ensures
        spec_load_synth_nodes(
            seq![spec_synth_element(spec_load_synth_nodes(roots, version)->Ok_0)],
            FormatVersion::Version3,
        ) == spec_load_synth_nodes(roots, version),
{
    let s = spec_load_synth_nodes(roots, version)->Ok_0;
    match crate::serialization::loading::spec_get_element(roots, "sound"@) {
        Ok(n) => crate::serialization::loaded::lemma_loaded_sound(n, version),
        Err(_) => {},
    }
    lemma_synth_document_round_trip(s);
}

/// A kit read from a document in any supported format, then saved, reads back in the
/// latest format as the kit that was read: reading, writing and reading again gives what
/// the first reading gave.
pub proof fn lemma_loaded_kit_round_trip(roots: Seq<XmlElementView>, version: FormatVersion)
    requires
        spec_load_kit_nodes(roots, version) is Ok,
    ensures
        spec_load_kit_nodes(seq![spec_kit_element(spec_load_kit_nodes(roots, version)->Ok_0)], FormatVersion::Version3)
            == spec_load_kit_nodes(roots, version),
{
    let k = spec_load_kit_nodes(roots, version)->Ok_0;
    crate::serialization::loaded::lemma_loaded_kit(roots, version);
    lemma_kit_document_round_trip(k);
}

} // verus!
