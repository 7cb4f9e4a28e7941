//! What reading gives back of what writing wrote: every part of a patch written in the
//! latest format reads back as itself, provided each of its values is one its type stands
//! for.
use vstd::prelude::*;
use crate::error::ErrorView;
use crate::serialization::loading::{
    spec_load_arpeggiator_node, spec_load_delay_with, spec_load_envelope, spec_load_equalizer, spec_load_lfo1,
    spec_load_lfo2, spec_load_mod_knob, spec_load_mod_knob_list, spec_load_mod_knobs, spec_load_patch_cable,
    spec_load_patch_cable_list, spec_load_patch_cables, spec_load_sidechain_with, spec_load_unison,
    spec_parse_sample_zone,
};
use crate::serialization::writing::{
    spec_arpeggiator_element, spec_cable_element, spec_cables_element, spec_delay_element, spec_envelope_element,
    spec_equalizer_element, spec_lfo1_element, spec_lfo2_element, spec_mod_knob_element, spec_mod_knobs_element,
    spec_sidechain_element, spec_unison_element, spec_zone_element, value_pair,
};
use crate::sound::effects::{Delay, Equalizer, Sidechain};
use crate::sound::modulators::{Envelope, Lfo1, Lfo2, ModKnobView, PatchCableView};
use crate::sound::subtractive::SampleZone;
use crate::sound::{Arpeggiator, Unison};
use crate::values::XmlValue;
use crate::xml::{
    attr_value, child_element, element_nodes, lemma_children_named_of_nodes, ValueStyle, XmlElementView, XmlNodeView,
};
use crate::serialization::loading::{
    spec_load_carrier, spec_load_fm_modulation, spec_load_fm_sound, spec_load_oscillator, spec_load_ringmode_sound,
    spec_load_sample, spec_load_sample_oscillator, spec_load_sample_range, spec_load_sample_range_list,
    spec_load_subtractive_sound, spec_load_waveform_oscillator,
};
use crate::serialization::writing::{
    spec_carrier_element, spec_modulator_element, spec_oscillator_element, spec_range_element,
    spec_sample_oscillator_element, spec_waveform_element, with_attributes,
};
use crate::serialization::format_version::FormatVersion;
use crate::serialization::{spec_twin_key, TwinSelector};
use crate::sound::fm::{FmCarrier, FmModulator, FmSynth};
use crate::sound::ring_mod::RingModSynth;
use crate::sound::subtractive::{
    SampleOscillatorView, SampleRangeView, SampleView, SubtractiveOscillatorView, SubtractiveSynthView,
};
use crate::sound::WaveformOscillator;
use crate::values::sample_path::spec_read_sample_path;
use crate::values::simple_enums::OscType;
use crate::values::{FineTranspose, Transpose};
use crate::serialization::loading::spec_load_sound;
use crate::serialization::writing::{
    spec_engine_children, spec_mod_fx_kind, spec_sound_element, spec_sound_params_element,
};
use crate::serialization::loading::{
    spec_child, spec_load_distorsion, spec_load_engine, spec_load_mode, spec_load_modulation_fx,
    spec_load_sound_arpeggiator, spec_load_sound_sidechain,
};
use crate::xml::{lookup, spec_parse_opt_value, spec_parse_value};
use crate::values::simple_enums::{ModulationFxType, SynthMode};
use crate::sound::effects::{Distorsion, ModulationFx};
use crate::sound::{spec_sound_type, SoundView, SynthEngineView};

verus! {

/// Two texts that differ at a position differ.
proof fn lemma_distinct(a: Seq<char>, b: Seq<char>, i: int)
    requires
        0 <= i < a.len(),
        i < b.len(),
        a[i] != b[i],
    ensures
        a != b,
{
}

/// The lengths of the names used in the default parameters of a sound or a kit; those of one length differ.
pub(crate) proof fn lemma_keys_params()
    ensures
        "volume"@.len() == 6,
        "reverbAmount"@.len() == 12,
        "stutterRate"@.len() == 11,
        "pan"@.len() == 3,
        "portamento"@.len() == 10,
        "oscAPulseWidth"@.len() == 14,
        "oscBPulseWidth"@.len() == 14,
        "oscAVolume"@.len() == 10,
        "oscBVolume"@.len() == 10,
        "noiseVolume"@.len() == 11,
        "lpfFrequency"@.len() == 12,
        "lpfResonance"@.len() == 12,
        "hpfFrequency"@.len() == 12,
        "hpfResonance"@.len() == 12,
        "carrier1Feedback"@.len() == 16,
        "carrier2Feedback"@.len() == 16,
        "modulator1Amount"@.len() == 16,
        "modulator1Feedback"@.len() == 18,
        "modulator2Amount"@.len() == 16,
        "modulator2Feedback"@.len() == 18,
        "lfo1Rate"@.len() == 8,
        "lfo2Rate"@.len() == 8,
        "arpeggiatorRate"@.len() == 15,
        "arpeggiatorGate"@.len() == 15,
        "delayFeedback"@.len() == 13,
        "delayRate"@.len() == 9,
        "compressorShape"@.len() == 15,
        "modFXRate"@.len() == 9,
        "modFXFeedback"@.len() == 13,
        "modFXDepth"@.len() == 10,
        "modFXOffset"@.len() == 11,
        "bitCrush"@.len() == 8,
        "sampleRateReduction"@.len() == 19,
        "sidechainCompressorShape"@.len() == 24,
        "reverbAmount"@ != "lpfFrequency"@,
        "reverbAmount"@ != "lpfResonance"@,
        "reverbAmount"@ != "hpfFrequency"@,
        "reverbAmount"@ != "hpfResonance"@,
        "stutterRate"@ != "noiseVolume"@,
        "stutterRate"@ != "modFXOffset"@,
        "portamento"@ != "oscAVolume"@,
        "portamento"@ != "oscBVolume"@,
        "portamento"@ != "modFXDepth"@,
        "oscAPulseWidth"@ != "oscBPulseWidth"@,
        "oscAVolume"@ != "oscBVolume"@,
        "oscAVolume"@ != "modFXDepth"@,
        "oscBVolume"@ != "modFXDepth"@,
        "noiseVolume"@ != "modFXOffset"@,
        "lpfFrequency"@ != "lpfResonance"@,
        "lpfFrequency"@ != "hpfFrequency"@,
        "lpfFrequency"@ != "hpfResonance"@,
        "lpfResonance"@ != "hpfFrequency"@,
        "lpfResonance"@ != "hpfResonance"@,
        "hpfFrequency"@ != "hpfResonance"@,
        "carrier1Feedback"@ != "carrier2Feedback"@,
        "carrier1Feedback"@ != "modulator1Amount"@,
        "carrier1Feedback"@ != "modulator2Amount"@,
        "carrier2Feedback"@ != "modulator1Amount"@,
        "carrier2Feedback"@ != "modulator2Amount"@,
        "modulator1Amount"@ != "modulator2Amount"@,
        "modulator1Feedback"@ != "modulator2Feedback"@,
        "lfo1Rate"@ != "lfo2Rate"@,
        "lfo1Rate"@ != "bitCrush"@,
        "lfo2Rate"@ != "bitCrush"@,
        "arpeggiatorRate"@ != "arpeggiatorGate"@,
        "arpeggiatorRate"@ != "compressorShape"@,
        "arpeggiatorGate"@ != "compressorShape"@,
        "delayFeedback"@ != "modFXFeedback"@,
        "delayRate"@ != "modFXRate"@,
{
    reveal_strlit("volume");
    assert("volume"@.len() == 6);
    reveal_strlit("reverbAmount");
    assert("reverbAmount"@.len() == 12);
    reveal_strlit("stutterRate");
    assert("stutterRate"@.len() == 11);
    reveal_strlit("pan");
    assert("pan"@.len() == 3);
    reveal_strlit("portamento");
    assert("portamento"@.len() == 10);
    reveal_strlit("oscAPulseWidth");
    assert("oscAPulseWidth"@.len() == 14);
    reveal_strlit("oscBPulseWidth");
    assert("oscBPulseWidth"@.len() == 14);
    reveal_strlit("oscAVolume");
    assert("oscAVolume"@.len() == 10);
    reveal_strlit("oscBVolume");
    assert("oscBVolume"@.len() == 10);
    reveal_strlit("noiseVolume");
    assert("noiseVolume"@.len() == 11);
    reveal_strlit("lpfFrequency");
    assert("lpfFrequency"@.len() == 12);
    reveal_strlit("lpfResonance");
    assert("lpfResonance"@.len() == 12);
    reveal_strlit("hpfFrequency");
    assert("hpfFrequency"@.len() == 12);
    reveal_strlit("hpfResonance");
    assert("hpfResonance"@.len() == 12);
    reveal_strlit("carrier1Feedback");
    assert("carrier1Feedback"@.len() == 16);
    reveal_strlit("carrier2Feedback");
    assert("carrier2Feedback"@.len() == 16);
    reveal_strlit("modulator1Amount");
    assert("modulator1Amount"@.len() == 16);
    reveal_strlit("modulator1Feedback");
    assert("modulator1Feedback"@.len() == 18);
    reveal_strlit("modulator2Amount");
    assert("modulator2Amount"@.len() == 16);
    reveal_strlit("modulator2Feedback");
    assert("modulator2Feedback"@.len() == 18);
    reveal_strlit("lfo1Rate");
    assert("lfo1Rate"@.len() == 8);
    reveal_strlit("lfo2Rate");
    assert("lfo2Rate"@.len() == 8);
    reveal_strlit("arpeggiatorRate");
    assert("arpeggiatorRate"@.len() == 15);
    reveal_strlit("arpeggiatorGate");
    assert("arpeggiatorGate"@.len() == 15);
    reveal_strlit("delayFeedback");
    assert("delayFeedback"@.len() == 13);
    reveal_strlit("delayRate");
    assert("delayRate"@.len() == 9);
    reveal_strlit("compressorShape");
    assert("compressorShape"@.len() == 15);
    reveal_strlit("modFXRate");
    assert("modFXRate"@.len() == 9);
    reveal_strlit("modFXFeedback");
    assert("modFXFeedback"@.len() == 13);
    reveal_strlit("modFXDepth");
    assert("modFXDepth"@.len() == 10);
    reveal_strlit("modFXOffset");
    assert("modFXOffset"@.len() == 11);
    reveal_strlit("bitCrush");
    assert("bitCrush"@.len() == 8);
    reveal_strlit("sampleRateReduction");
    assert("sampleRateReduction"@.len() == 19);
    reveal_strlit("sidechainCompressorShape");
    assert("sidechainCompressorShape"@.len() == 24);
    lemma_distinct("reverbAmount"@, "lpfFrequency"@, 0);
    lemma_distinct("reverbAmount"@, "lpfResonance"@, 0);
    lemma_distinct("reverbAmount"@, "hpfFrequency"@, 0);
    lemma_distinct("reverbAmount"@, "hpfResonance"@, 0);
    lemma_distinct("stutterRate"@, "noiseVolume"@, 0);
    lemma_distinct("stutterRate"@, "modFXOffset"@, 0);
    lemma_distinct("portamento"@, "oscAVolume"@, 0);
    lemma_distinct("portamento"@, "oscBVolume"@, 0);
    lemma_distinct("portamento"@, "modFXDepth"@, 0);
    lemma_distinct("oscAPulseWidth"@, "oscBPulseWidth"@, 3);
    lemma_distinct("oscAVolume"@, "oscBVolume"@, 3);
    lemma_distinct("oscAVolume"@, "modFXDepth"@, 0);
    lemma_distinct("oscBVolume"@, "modFXDepth"@, 0);
    lemma_distinct("noiseVolume"@, "modFXOffset"@, 0);
    lemma_distinct("lpfFrequency"@, "lpfResonance"@, 3);
    lemma_distinct("lpfFrequency"@, "hpfFrequency"@, 0);
    lemma_distinct("lpfFrequency"@, "hpfResonance"@, 0);
    lemma_distinct("lpfResonance"@, "hpfFrequency"@, 0);
    lemma_distinct("lpfResonance"@, "hpfResonance"@, 0);
    lemma_distinct("hpfFrequency"@, "hpfResonance"@, 3);
    lemma_distinct("carrier1Feedback"@, "carrier2Feedback"@, 7);
    lemma_distinct("carrier1Feedback"@, "modulator1Amount"@, 0);
    lemma_distinct("carrier1Feedback"@, "modulator2Amount"@, 0);
    lemma_distinct("carrier2Feedback"@, "modulator1Amount"@, 0);
    lemma_distinct("carrier2Feedback"@, "modulator2Amount"@, 0);
    lemma_distinct("modulator1Amount"@, "modulator2Amount"@, 9);
    lemma_distinct("modulator1Feedback"@, "modulator2Feedback"@, 9);
    lemma_distinct("lfo1Rate"@, "lfo2Rate"@, 3);
    lemma_distinct("lfo1Rate"@, "bitCrush"@, 0);
    lemma_distinct("lfo2Rate"@, "bitCrush"@, 0);
    lemma_distinct("arpeggiatorRate"@, "arpeggiatorGate"@, 11);
    lemma_distinct("arpeggiatorRate"@, "compressorShape"@, 0);
    lemma_distinct("arpeggiatorGate"@, "compressorShape"@, 0);
    lemma_distinct("delayFeedback"@, "modFXFeedback"@, 0);
    lemma_distinct("delayRate"@, "modFXRate"@, 0);
}

/// The lengths of the names used in the attributes and children of a sound; those of one length differ.
pub(crate) proof fn lemma_keys_sound()
    ensures
        "name"@.len() == 4,
        "mode"@.len() == 4,
        "polyphonic"@.len() == 10,
        "sideChainSend"@.len() == 13,
        "voicePriority"@.len() == 13,
        "lpfMode"@.len() == 7,
        "modFXType"@.len() == 9,
        "clippingAmount"@.len() == 14,
        "firmwareVersion"@.len() == 15,
        "earliestCompatibleFirmware"@.len() == 26,
        "osc1"@.len() == 4,
        "osc2"@.len() == 4,
        "modulator1"@.len() == 10,
        "modulator2"@.len() == 10,
        "unison"@.len() == 6,
        "lfo1"@.len() == 4,
        "lfo2"@.len() == 4,
        "arpeggiator"@.len() == 11,
        "delay"@.len() == 5,
        "compressor"@.len() == 10,
        "modKnobs"@.len() == 8,
        "defaultParams"@.len() == 13,
        "envelope1"@.len() == 9,
        "envelope2"@.len() == 9,
        "equalizer"@.len() == 9,
        "patchCables"@.len() == 11,
        "name"@ != "mode"@,
        "name"@ != "osc1"@,
        "name"@ != "osc2"@,
        "name"@ != "lfo1"@,
        "name"@ != "lfo2"@,
        "mode"@ != "osc1"@,
        "mode"@ != "osc2"@,
        "mode"@ != "lfo1"@,
        "mode"@ != "lfo2"@,
        "polyphonic"@ != "modulator1"@,
        "polyphonic"@ != "modulator2"@,
        "polyphonic"@ != "compressor"@,
        "sideChainSend"@ != "voicePriority"@,
        "sideChainSend"@ != "defaultParams"@,
        "voicePriority"@ != "defaultParams"@,
        "modFXType"@ != "envelope1"@,
        "modFXType"@ != "envelope2"@,
        "modFXType"@ != "equalizer"@,
        "osc1"@ != "osc2"@,
        "osc1"@ != "lfo1"@,
        "osc1"@ != "lfo2"@,
        "osc2"@ != "lfo1"@,
        "osc2"@ != "lfo2"@,
        "modulator1"@ != "modulator2"@,
        "modulator1"@ != "compressor"@,
        "modulator2"@ != "compressor"@,
        "lfo1"@ != "lfo2"@,
        "arpeggiator"@ != "patchCables"@,
        "envelope1"@ != "envelope2"@,
        "envelope1"@ != "equalizer"@,
        "envelope2"@ != "equalizer"@,
{
    reveal_strlit("name");
    assert("name"@.len() == 4);
    reveal_strlit("mode");
    assert("mode"@.len() == 4);
    reveal_strlit("polyphonic");
    assert("polyphonic"@.len() == 10);
    reveal_strlit("sideChainSend");
    assert("sideChainSend"@.len() == 13);
    reveal_strlit("voicePriority");
    assert("voicePriority"@.len() == 13);
    reveal_strlit("lpfMode");
    assert("lpfMode"@.len() == 7);
    reveal_strlit("modFXType");
    assert("modFXType"@.len() == 9);
    reveal_strlit("clippingAmount");
    assert("clippingAmount"@.len() == 14);
    reveal_strlit("firmwareVersion");
    assert("firmwareVersion"@.len() == 15);
    reveal_strlit("earliestCompatibleFirmware");
    assert("earliestCompatibleFirmware"@.len() == 26);
    reveal_strlit("osc1");
    assert("osc1"@.len() == 4);
    reveal_strlit("osc2");
    assert("osc2"@.len() == 4);
    reveal_strlit("modulator1");
    assert("modulator1"@.len() == 10);
    reveal_strlit("modulator2");
    assert("modulator2"@.len() == 10);
    reveal_strlit("unison");
    assert("unison"@.len() == 6);
    reveal_strlit("lfo1");
    assert("lfo1"@.len() == 4);
    reveal_strlit("lfo2");
    assert("lfo2"@.len() == 4);
    reveal_strlit("arpeggiator");
    assert("arpeggiator"@.len() == 11);
    reveal_strlit("delay");
    assert("delay"@.len() == 5);
    reveal_strlit("compressor");
    assert("compressor"@.len() == 10);
    reveal_strlit("modKnobs");
    assert("modKnobs"@.len() == 8);
    reveal_strlit("defaultParams");
    assert("defaultParams"@.len() == 13);
    reveal_strlit("envelope1");
    assert("envelope1"@.len() == 9);
    reveal_strlit("envelope2");
    assert("envelope2"@.len() == 9);
    reveal_strlit("equalizer");
    assert("equalizer"@.len() == 9);
    reveal_strlit("patchCables");
    assert("patchCables"@.len() == 11);
    lemma_distinct("name"@, "mode"@, 0);
    lemma_distinct("name"@, "osc1"@, 0);
    lemma_distinct("name"@, "osc2"@, 0);
    lemma_distinct("name"@, "lfo1"@, 0);
    lemma_distinct("name"@, "lfo2"@, 0);
    lemma_distinct("mode"@, "osc1"@, 0);
    lemma_distinct("mode"@, "osc2"@, 0);
    lemma_distinct("mode"@, "lfo1"@, 0);
    lemma_distinct("mode"@, "lfo2"@, 0);
    lemma_distinct("polyphonic"@, "modulator1"@, 0);
    lemma_distinct("polyphonic"@, "modulator2"@, 0);
    lemma_distinct("polyphonic"@, "compressor"@, 0);
    lemma_distinct("sideChainSend"@, "voicePriority"@, 0);
    lemma_distinct("sideChainSend"@, "defaultParams"@, 0);
    lemma_distinct("voicePriority"@, "defaultParams"@, 0);
    lemma_distinct("modFXType"@, "envelope1"@, 0);
    lemma_distinct("modFXType"@, "envelope2"@, 0);
    lemma_distinct("modFXType"@, "equalizer"@, 0);
    lemma_distinct("osc1"@, "osc2"@, 3);
    lemma_distinct("osc1"@, "lfo1"@, 0);
    lemma_distinct("osc1"@, "lfo2"@, 0);
    lemma_distinct("osc2"@, "lfo1"@, 0);
    lemma_distinct("osc2"@, "lfo2"@, 0);
    lemma_distinct("modulator1"@, "modulator2"@, 9);
    lemma_distinct("modulator1"@, "compressor"@, 0);
    lemma_distinct("modulator2"@, "compressor"@, 0);
    lemma_distinct("lfo1"@, "lfo2"@, 3);
    lemma_distinct("arpeggiator"@, "patchCables"@, 0);
    lemma_distinct("envelope1"@, "envelope2"@, 8);
    lemma_distinct("envelope1"@, "equalizer"@, 1);
    lemma_distinct("envelope2"@, "equalizer"@, 1);
}

/// The lengths of the names used in the elements of oscillators and samples; those of one length differ.
pub(crate) proof fn lemma_keys_osc()
    ensures
        "type"@.len() == 4,
        "transpose"@.len() == 9,
        "cents"@.len() == 5,
        "retrigPhase"@.len() == 11,
        "reversed"@.len() == 8,
        "loopMode"@.len() == 8,
        "timeStretchEnable"@.len() == 17,
        "timeStretchAmount"@.len() == 17,
        "linearInterpolation"@.len() == 19,
        "fileName"@.len() == 8,
        "oscillatorSync"@.len() == 14,
        "toModulator1"@.len() == 12,
        "zone"@.len() == 4,
        "sampleRanges"@.len() == 12,
        "sampleRange"@.len() == 11,
        "rangeTopNote"@.len() == 12,
        "startSamplePos"@.len() == 14,
        "endSamplePos"@.len() == 12,
        "startLoopPos"@.len() == 12,
        "endLoopPos"@.len() == 10,
        "startMilliseconds"@.len() == 17,
        "endMilliseconds"@.len() == 15,
        "type"@ != "zone"@,
        "retrigPhase"@ != "sampleRange"@,
        "reversed"@ != "loopMode"@,
        "reversed"@ != "fileName"@,
        "loopMode"@ != "fileName"@,
        "timeStretchEnable"@ != "timeStretchAmount"@,
        "timeStretchEnable"@ != "startMilliseconds"@,
        "timeStretchAmount"@ != "startMilliseconds"@,
        "oscillatorSync"@ != "startSamplePos"@,
        "toModulator1"@ != "sampleRanges"@,
        "toModulator1"@ != "rangeTopNote"@,
        "toModulator1"@ != "endSamplePos"@,
        "toModulator1"@ != "startLoopPos"@,
        "sampleRanges"@ != "rangeTopNote"@,
        "sampleRanges"@ != "endSamplePos"@,
        "sampleRanges"@ != "startLoopPos"@,
        "rangeTopNote"@ != "endSamplePos"@,
        "rangeTopNote"@ != "startLoopPos"@,
        "endSamplePos"@ != "startLoopPos"@,
{
    reveal_strlit("type");
    assert("type"@.len() == 4);
    reveal_strlit("transpose");
    assert("transpose"@.len() == 9);
    reveal_strlit("cents");
    assert("cents"@.len() == 5);
    reveal_strlit("retrigPhase");
    assert("retrigPhase"@.len() == 11);
    reveal_strlit("reversed");
    assert("reversed"@.len() == 8);
    reveal_strlit("loopMode");
    assert("loopMode"@.len() == 8);
    reveal_strlit("timeStretchEnable");
    assert("timeStretchEnable"@.len() == 17);
    reveal_strlit("timeStretchAmount");
    assert("timeStretchAmount"@.len() == 17);
    reveal_strlit("linearInterpolation");
    assert("linearInterpolation"@.len() == 19);
    reveal_strlit("fileName");
    assert("fileName"@.len() == 8);
    reveal_strlit("oscillatorSync");
    assert("oscillatorSync"@.len() == 14);
    reveal_strlit("toModulator1");
    assert("toModulator1"@.len() == 12);
    reveal_strlit("zone");
    assert("zone"@.len() == 4);
    reveal_strlit("sampleRanges");
    assert("sampleRanges"@.len() == 12);
    reveal_strlit("sampleRange");
    assert("sampleRange"@.len() == 11);
    reveal_strlit("rangeTopNote");
    assert("rangeTopNote"@.len() == 12);
    reveal_strlit("startSamplePos");
    assert("startSamplePos"@.len() == 14);
    reveal_strlit("endSamplePos");
    assert("endSamplePos"@.len() == 12);
    reveal_strlit("startLoopPos");
    assert("startLoopPos"@.len() == 12);
    reveal_strlit("endLoopPos");
    assert("endLoopPos"@.len() == 10);
    reveal_strlit("startMilliseconds");
    assert("startMilliseconds"@.len() == 17);
    reveal_strlit("endMilliseconds");
    assert("endMilliseconds"@.len() == 15);
    lemma_distinct("type"@, "zone"@, 0);
    lemma_distinct("retrigPhase"@, "sampleRange"@, 0);
    lemma_distinct("reversed"@, "loopMode"@, 0);
    lemma_distinct("reversed"@, "fileName"@, 0);
    lemma_distinct("loopMode"@, "fileName"@, 0);
    lemma_distinct("timeStretchEnable"@, "timeStretchAmount"@, 11);
    lemma_distinct("timeStretchEnable"@, "startMilliseconds"@, 0);
    lemma_distinct("timeStretchAmount"@, "startMilliseconds"@, 0);
    lemma_distinct("oscillatorSync"@, "startSamplePos"@, 0);
    lemma_distinct("toModulator1"@, "sampleRanges"@, 0);
    lemma_distinct("toModulator1"@, "rangeTopNote"@, 0);
    lemma_distinct("toModulator1"@, "endSamplePos"@, 0);
    lemma_distinct("toModulator1"@, "startLoopPos"@, 0);
    lemma_distinct("sampleRanges"@, "rangeTopNote"@, 0);
    lemma_distinct("sampleRanges"@, "endSamplePos"@, 0);
    lemma_distinct("sampleRanges"@, "startLoopPos"@, 1);
    lemma_distinct("rangeTopNote"@, "endSamplePos"@, 0);
    lemma_distinct("rangeTopNote"@, "startLoopPos"@, 0);
    lemma_distinct("endSamplePos"@, "startLoopPos"@, 0);
}

/// The lengths of the names used in the elements of envelopes, effects, modulators and rows; those of one length differ.
pub(crate) proof fn lemma_keys_small()
    ensures
        "attack"@.len() == 6,
        "decay"@.len() == 5,
        "sustain"@.len() == 7,
        "release"@.len() == 7,
        "syncLevel"@.len() == 9,
        "bass"@.len() == 4,
        "bassFrequency"@.len() == 13,
        "treble"@.len() == 6,
        "trebleFrequency"@.len() == 15,
        "num"@.len() == 3,
        "detune"@.len() == 6,
        "mode"@.len() == 4,
        "numOctaves"@.len() == 10,
        "pingPong"@.len() == 8,
        "analog"@.len() == 6,
        "source"@.len() == 6,
        "destination"@.len() == 11,
        "amount"@.len() == 6,
        "controlsParam"@.len() == 13,
        "patchAmountFromSource"@.len() == 21,
        "channel"@.len() == 7,
        "note"@.len() == 4,
        "type"@.len() == 4,
        "attack"@ != "treble"@,
        "attack"@ != "detune"@,
        "attack"@ != "analog"@,
        "attack"@ != "source"@,
        "attack"@ != "amount"@,
        "sustain"@ != "release"@,
        "sustain"@ != "channel"@,
        "release"@ != "channel"@,
        "bass"@ != "mode"@,
        "bass"@ != "note"@,
        "bass"@ != "type"@,
        "bassFrequency"@ != "controlsParam"@,
        "treble"@ != "detune"@,
        "treble"@ != "analog"@,
        "treble"@ != "source"@,
        "treble"@ != "amount"@,
        "detune"@ != "analog"@,
        "detune"@ != "source"@,
        "detune"@ != "amount"@,
        "mode"@ != "note"@,
        "mode"@ != "type"@,
        "analog"@ != "source"@,
        "analog"@ != "amount"@,
        "source"@ != "amount"@,
        "note"@ != "type"@,
{
    reveal_strlit("attack");
    assert("attack"@.len() == 6);
    reveal_strlit("decay");
    assert("decay"@.len() == 5);
    reveal_strlit("sustain");
    assert("sustain"@.len() == 7);
    reveal_strlit("release");
    assert("release"@.len() == 7);
    reveal_strlit("syncLevel");
    assert("syncLevel"@.len() == 9);
    reveal_strlit("bass");
    assert("bass"@.len() == 4);
    reveal_strlit("bassFrequency");
    assert("bassFrequency"@.len() == 13);
    reveal_strlit("treble");
    assert("treble"@.len() == 6);
    reveal_strlit("trebleFrequency");
    assert("trebleFrequency"@.len() == 15);
    reveal_strlit("num");
    assert("num"@.len() == 3);
    reveal_strlit("detune");
    assert("detune"@.len() == 6);
    reveal_strlit("mode");
    assert("mode"@.len() == 4);
    reveal_strlit("numOctaves");
    assert("numOctaves"@.len() == 10);
    reveal_strlit("pingPong");
    assert("pingPong"@.len() == 8);
    reveal_strlit("analog");
    assert("analog"@.len() == 6);
    reveal_strlit("source");
    assert("source"@.len() == 6);
    reveal_strlit("destination");
    assert("destination"@.len() == 11);
    reveal_strlit("amount");
    assert("amount"@.len() == 6);
    reveal_strlit("controlsParam");
    assert("controlsParam"@.len() == 13);
    reveal_strlit("patchAmountFromSource");
    assert("patchAmountFromSource"@.len() == 21);
    reveal_strlit("channel");
    assert("channel"@.len() == 7);
    reveal_strlit("note");
    assert("note"@.len() == 4);
    reveal_strlit("type");
    assert("type"@.len() == 4);
    lemma_distinct("attack"@, "treble"@, 0);
    lemma_distinct("attack"@, "detune"@, 0);
    lemma_distinct("attack"@, "analog"@, 1);
    lemma_distinct("attack"@, "source"@, 0);
    lemma_distinct("attack"@, "amount"@, 1);
    lemma_distinct("sustain"@, "release"@, 0);
    lemma_distinct("sustain"@, "channel"@, 0);
    lemma_distinct("release"@, "channel"@, 0);
    lemma_distinct("bass"@, "mode"@, 0);
    lemma_distinct("bass"@, "note"@, 0);
    lemma_distinct("bass"@, "type"@, 0);
    lemma_distinct("bassFrequency"@, "controlsParam"@, 0);
    lemma_distinct("treble"@, "detune"@, 0);
    lemma_distinct("treble"@, "analog"@, 0);
    lemma_distinct("treble"@, "source"@, 0);
    lemma_distinct("treble"@, "amount"@, 0);
    lemma_distinct("detune"@, "analog"@, 0);
    lemma_distinct("detune"@, "source"@, 0);
    lemma_distinct("detune"@, "amount"@, 0);
    lemma_distinct("mode"@, "note"@, 0);
    lemma_distinct("mode"@, "type"@, 0);
    lemma_distinct("analog"@, "source"@, 0);
    lemma_distinct("analog"@, "amount"@, 1);
    lemma_distinct("source"@, "amount"@, 0);
    lemma_distinct("note"@, "type"@, 0);
}

/// The lengths of the names used in the elements of a kit; those of one length differ.
pub(crate) proof fn lemma_keys_kit()
    ensures
        "kit"@.len() == 3,
        "sound"@.len() == 5,
        "midiOutput"@.len() == 10,
        "gateOutput"@.len() == 10,
        "firmwareVersion"@.len() == 15,
        "earliestCompatibleFirmware"@.len() == 26,
        "lpfMode"@.len() == 7,
        "currentFilterType"@.len() == 17,
        "modFXType"@.len() == 9,
        "delay"@.len() == 5,
        "compressor"@.len() == 10,
        "soundSources"@.len() == 12,
        "selectedDrumIndex"@.len() == 17,
        "defaultParams"@.len() == 13,
        "feedback"@.len() == 8,
        "rate"@.len() == 4,
        "frequency"@.len() == 9,
        "resonance"@.len() == 9,
        "lpf"@.len() == 3,
        "hpf"@.len() == 3,
        "equalizer"@.len() == 9,
        "kit"@ != "lpf"@,
        "kit"@ != "hpf"@,
        "sound"@ != "delay"@,
        "midiOutput"@ != "gateOutput"@,
        "midiOutput"@ != "compressor"@,
        "gateOutput"@ != "compressor"@,
        "currentFilterType"@ != "selectedDrumIndex"@,
        "modFXType"@ != "frequency"@,
        "modFXType"@ != "resonance"@,
        "modFXType"@ != "equalizer"@,
        "frequency"@ != "resonance"@,
        "frequency"@ != "equalizer"@,
        "resonance"@ != "equalizer"@,
        "lpf"@ != "hpf"@,
{
    reveal_strlit("kit");
    assert("kit"@.len() == 3);
    reveal_strlit("sound");
    assert("sound"@.len() == 5);
    reveal_strlit("midiOutput");
    assert("midiOutput"@.len() == 10);
    reveal_strlit("gateOutput");
    assert("gateOutput"@.len() == 10);
    reveal_strlit("firmwareVersion");
    assert("firmwareVersion"@.len() == 15);
    reveal_strlit("earliestCompatibleFirmware");
    assert("earliestCompatibleFirmware"@.len() == 26);
    reveal_strlit("lpfMode");
    assert("lpfMode"@.len() == 7);
    reveal_strlit("currentFilterType");
    assert("currentFilterType"@.len() == 17);
    reveal_strlit("modFXType");
    assert("modFXType"@.len() == 9);
    reveal_strlit("delay");
    assert("delay"@.len() == 5);
    reveal_strlit("compressor");
    assert("compressor"@.len() == 10);
    reveal_strlit("soundSources");
    assert("soundSources"@.len() == 12);
    reveal_strlit("selectedDrumIndex");
    assert("selectedDrumIndex"@.len() == 17);
    reveal_strlit("defaultParams");
    assert("defaultParams"@.len() == 13);
    reveal_strlit("feedback");
    assert("feedback"@.len() == 8);
    reveal_strlit("rate");
    assert("rate"@.len() == 4);
    reveal_strlit("frequency");
    assert("frequency"@.len() == 9);
    reveal_strlit("resonance");
    assert("resonance"@.len() == 9);
    reveal_strlit("lpf");
    assert("lpf"@.len() == 3);
    reveal_strlit("hpf");
    assert("hpf"@.len() == 3);
    reveal_strlit("equalizer");
    assert("equalizer"@.len() == 9);
    lemma_distinct("kit"@, "lpf"@, 0);
    lemma_distinct("kit"@, "hpf"@, 0);
    lemma_distinct("sound"@, "delay"@, 0);
    lemma_distinct("midiOutput"@, "gateOutput"@, 0);
    lemma_distinct("midiOutput"@, "compressor"@, 0);
    lemma_distinct("gateOutput"@, "compressor"@, 0);
    lemma_distinct("currentFilterType"@, "selectedDrumIndex"@, 0);
    lemma_distinct("modFXType"@, "frequency"@, 0);
    lemma_distinct("modFXType"@, "resonance"@, 0);
    lemma_distinct("modFXType"@, "equalizer"@, 0);
    lemma_distinct("frequency"@, "resonance"@, 0);
    lemma_distinct("frequency"@, "equalizer"@, 0);
    lemma_distinct("resonance"@, "equalizer"@, 0);
    lemma_distinct("lpf"@, "hpf"@, 0);
}

/// Whether every value of an envelope is one its type stands for.
pub open spec fn envelope_well_formed(e: Envelope) -> bool {
    &&& e.attack.spec_well_formed()
    &&& e.decay.spec_well_formed()
    &&& e.sustain.spec_well_formed()
    &&& e.release.spec_well_formed()
}

/// An envelope written then read back is unchanged.
pub proof fn lemma_envelope_round_trip(e: Envelope, name: Seq<char>)
    requires
        envelope_well_formed(e),
    ensures
        spec_load_envelope(spec_envelope_element(e, name), ValueStyle::Attribute) == Ok::<Envelope, ErrorView>(e),
{
    broadcast use {
        crate::xml::lemma_attr_value_push,
        crate::xml::lemma_attr_value_concat,
        crate::xml::lemma_child_element_push,
        crate::xml::lemma_child_element_concat,
        crate::xml::lemma_element_nodes_push,
        crate::xml::lemma_element_nodes_concat,
    };
    lemma_keys_small();
    e.attack.lemma_round_trip();
    e.decay.lemma_round_trip();
    e.sustain.lemma_round_trip();
    e.release.lemma_round_trip();
}

/// Whether every value of an equalizer is one its type stands for.
pub open spec fn equalizer_well_formed(e: Equalizer) -> bool {
    &&& e.bass_level.spec_well_formed()
    &&& e.bass_frequency.spec_well_formed()
    &&& e.treble_level.spec_well_formed()
    &&& e.treble_frequency.spec_well_formed()
}

/// An equalizer written then read back is unchanged.
pub proof fn lemma_equalizer_round_trip(e: Equalizer)
    requires
        equalizer_well_formed(e),
    ensures
        spec_load_equalizer(spec_equalizer_element(e), ValueStyle::Attribute) == Ok::<Equalizer, ErrorView>(e),
{
    broadcast use {
        crate::xml::lemma_attr_value_push,
        crate::xml::lemma_attr_value_concat,
        crate::xml::lemma_child_element_push,
        crate::xml::lemma_child_element_concat,
        crate::xml::lemma_element_nodes_push,
        crate::xml::lemma_element_nodes_concat,
    };
    lemma_keys_small();
    e.bass_level.lemma_round_trip();
    e.bass_frequency.lemma_round_trip();
    e.treble_level.lemma_round_trip();
    e.treble_frequency.lemma_round_trip();
}

/// Whether every value of a unison is one its type stands for.
pub open spec fn unison_well_formed(u: Unison) -> bool {
    u.voice_count.spec_well_formed() && u.detune.spec_well_formed()
}

/// A unison written then read back is unchanged.
pub proof fn lemma_unison_round_trip(u: Unison)
    requires
        unison_well_formed(u),
    ensures
        spec_load_unison(spec_unison_element(u), ValueStyle::Attribute) == Ok::<Unison, ErrorView>(u),
{
    broadcast use {
        crate::xml::lemma_attr_value_push,
        crate::xml::lemma_attr_value_concat,
        crate::xml::lemma_child_element_push,
        crate::xml::lemma_child_element_concat,
        crate::xml::lemma_element_nodes_push,
        crate::xml::lemma_element_nodes_concat,
    };
    lemma_keys_small();
    u.voice_count.lemma_round_trip();
    u.detune.lemma_round_trip();
}

/// Whether default parameters hold a value under a name, as the first of that name.
pub open spec fn holds<T: XmlValue>(params: XmlElementView, key: Seq<char>, v: T) -> bool {
    attr_value(params.attributes, key) == Some(v.spec_to_text())
}

/// The first LFO written then read back is unchanged, its rate being among the parameters.
pub proof fn lemma_lfo1_round_trip(l: Lfo1, params: XmlElementView)
    requires
        l.rate.spec_well_formed(),
        holds(params, "lfo1Rate"@, l.rate),
    ensures
        spec_load_lfo1(spec_lfo1_element(l), params, ValueStyle::Attribute) == Ok::<Lfo1, ErrorView>(l),
{
    broadcast use {
        crate::xml::lemma_attr_value_push,
        crate::xml::lemma_attr_value_concat,
        crate::xml::lemma_child_element_push,
        crate::xml::lemma_child_element_concat,
        crate::xml::lemma_element_nodes_push,
        crate::xml::lemma_element_nodes_concat,
    };
    lemma_keys_small();
    l.shape.lemma_round_trip();
    l.sync_level.lemma_round_trip();
    l.rate.lemma_round_trip();
}

/// The second LFO written then read back is unchanged, its rate being among the parameters.
pub proof fn lemma_lfo2_round_trip(l: Lfo2, params: XmlElementView)
    requires
        l.rate.spec_well_formed(),
        holds(params, "lfo2Rate"@, l.rate),
    ensures
        spec_load_lfo2(spec_lfo2_element(l), params, ValueStyle::Attribute) == Ok::<Lfo2, ErrorView>(l),
{
    broadcast use {
        crate::xml::lemma_attr_value_push,
        crate::xml::lemma_attr_value_concat,
        crate::xml::lemma_child_element_push,
        crate::xml::lemma_child_element_concat,
        crate::xml::lemma_element_nodes_push,
        crate::xml::lemma_element_nodes_concat,
    };
    l.shape.lemma_round_trip();
    l.rate.lemma_round_trip();
}

/// Whether every value of an arpeggiator is one its type stands for.
pub open spec fn arpeggiator_well_formed(a: Arpeggiator) -> bool {
    a.octaves_count.spec_well_formed() && a.rate.spec_well_formed() && a.gate.spec_well_formed()
}

/// An arpeggiator written then read back is unchanged, its rate and gate being among the
/// parameters.
pub proof fn lemma_arpeggiator_round_trip(a: Arpeggiator, params: XmlElementView)
    requires
        arpeggiator_well_formed(a),
        holds(params, "arpeggiatorRate"@, a.rate),
        holds(params, "arpeggiatorGate"@, a.gate),
    ensures
        spec_load_arpeggiator_node(spec_arpeggiator_element(a), params, ValueStyle::Attribute) == Ok::<
            Arpeggiator,
            ErrorView,
        >(a),
{
    broadcast use {
        crate::xml::lemma_attr_value_push,
        crate::xml::lemma_attr_value_concat,
        crate::xml::lemma_child_element_push,
        crate::xml::lemma_child_element_concat,
        crate::xml::lemma_element_nodes_push,
        crate::xml::lemma_element_nodes_concat,
    };
    lemma_keys_small();
    a.mode.lemma_round_trip();
    a.sync_level.lemma_round_trip();
    a.octaves_count.lemma_round_trip();
    a.rate.lemma_round_trip();
    a.gate.lemma_round_trip();
}

/// Whether every value of a delay is one its type stands for.
pub open spec fn delay_well_formed(d: Delay) -> bool {
    d.amount.spec_well_formed() && d.rate.spec_well_formed()
}

/// A delay written then read back is unchanged, its amount and rate being among the
/// parameters under the given names.
pub proof fn lemma_delay_round_trip(d: Delay, params: XmlElementView, amount_key: Seq<char>, rate_key: Seq<char>)
    requires
        delay_well_formed(d),
        holds(params, amount_key, d.amount),
        holds(params, rate_key, d.rate),
    ensures
        spec_load_delay_with(spec_delay_element(d), params, ValueStyle::Attribute, amount_key, rate_key) == Ok::<
            Delay,
            ErrorView,
        >(d),
{
    broadcast use {
        crate::xml::lemma_attr_value_push,
        crate::xml::lemma_attr_value_concat,
        crate::xml::lemma_child_element_push,
        crate::xml::lemma_child_element_concat,
        crate::xml::lemma_element_nodes_push,
        crate::xml::lemma_element_nodes_concat,
    };
    lemma_keys_small();
    d.ping_pong.lemma_round_trip();
    d.analog.lemma_round_trip();
    d.sync_level.lemma_round_trip();
    d.amount.lemma_round_trip();
    d.rate.lemma_round_trip();
}

/// Whether every value of a sidechain is one its type stands for.
pub open spec fn sidechain_well_formed(s: Sidechain) -> bool {
    s.attack.spec_well_formed() && s.release.spec_well_formed() && s.shape.spec_well_formed()
}

/// A sidechain written then read back is unchanged, its shape being among the parameters
/// under the given name.
pub proof fn lemma_sidechain_round_trip(s: Sidechain, params: XmlElementView, shape_key: Seq<char>)
    requires
        sidechain_well_formed(s),
        holds(params, shape_key, s.shape),
    ensures
        spec_load_sidechain_with(spec_sidechain_element(s), params, ValueStyle::Attribute, shape_key) == Ok::<
            Sidechain,
            ErrorView,
        >(s),
{
    broadcast use {
        crate::xml::lemma_attr_value_push,
        crate::xml::lemma_attr_value_concat,
        crate::xml::lemma_child_element_push,
        crate::xml::lemma_child_element_concat,
        crate::xml::lemma_element_nodes_push,
        crate::xml::lemma_element_nodes_concat,
    };
    lemma_keys_small();
    s.attack.lemma_round_trip();
    s.release.lemma_round_trip();
    s.sync.lemma_round_trip();
    s.shape.lemma_round_trip();
}

/// A patch cable written then read back is unchanged.
pub proof fn lemma_cable_round_trip(c: PatchCableView)
    requires
        c.amount.spec_well_formed(),
    ensures
        spec_load_patch_cable(spec_cable_element(c), ValueStyle::Attribute) == Ok::<PatchCableView, ErrorView>(c),
{
    broadcast use {
        crate::xml::lemma_attr_value_push,
        crate::xml::lemma_attr_value_concat,
        crate::xml::lemma_child_element_push,
        crate::xml::lemma_child_element_concat,
        crate::xml::lemma_element_nodes_push,
        crate::xml::lemma_element_nodes_concat,
    };
    lemma_keys_small();
    c.amount.lemma_round_trip();
}

proof fn lemma_cable_list_round_trip(cables: Seq<PatchCableView>)
    requires
        forall|i: int| 0 <= i < cables.len() ==> (#[trigger] cables[i]).amount.spec_well_formed(),
    ensures
        spec_load_patch_cable_list(cables.map_values(|c: PatchCableView| spec_cable_element(c)), ValueStyle::Attribute)
            == Ok::<Seq<PatchCableView>, ErrorView>(cables),
    decreases cables.len(),
{
    let elements = cables.map_values(|c: PatchCableView| spec_cable_element(c));
    if cables.len() > 0 {
        let last = cables.len() - 1;
        assert(elements.drop_last() =~= cables.drop_last().map_values(|c: PatchCableView| spec_cable_element(c)));
        lemma_cable_list_round_trip(cables.drop_last());
        lemma_cable_round_trip(cables[last]);
        assert(elements.last() == spec_cable_element(cables[last]));
        assert(cables.drop_last().push(cables[last]) =~= cables);
        assert(spec_load_patch_cable_list(elements.drop_last(), ValueStyle::Attribute) == Ok::<Seq<PatchCableView>, ErrorView>(cables.drop_last()));
        assert(spec_load_patch_cable(elements.last(), ValueStyle::Attribute) == Ok::<PatchCableView, ErrorView>(cables[last]));
        assert(elements.len() > 0);
    } else {
        assert(elements =~= Seq::<XmlElementView>::empty());
        assert(cables =~= Seq::<PatchCableView>::empty());
    }
}

/// Patch cables written then read back are unchanged.
pub proof fn lemma_cables_round_trip(cables: Seq<PatchCableView>)
    requires
        forall|i: int| 0 <= i < cables.len() ==> (#[trigger] cables[i]).amount.spec_well_formed(),
    ensures
        spec_load_patch_cables(spec_cables_element(cables), ValueStyle::Attribute) == Ok::<
            Seq<PatchCableView>,
            ErrorView,
        >(cables),
{
    broadcast use {
        crate::xml::lemma_attr_value_push,
        crate::xml::lemma_attr_value_concat,
        crate::xml::lemma_child_element_push,
        crate::xml::lemma_child_element_concat,
        crate::xml::lemma_element_nodes_push,
        crate::xml::lemma_element_nodes_concat,
    };
    let elements = cables.map_values(|c: PatchCableView| spec_cable_element(c));
    assert(spec_cables_element(cables).children =~= element_nodes(elements));
    assert forall|i: int| 0 <= i < elements.len() implies #[trigger] elements[i].name == "patchCable"@ by {}
    lemma_children_named_of_nodes(elements, "patchCable"@);
    lemma_cable_list_round_trip(cables);
}

/// A mod knob written then read back is unchanged.
pub proof fn lemma_mod_knob_round_trip(k: ModKnobView)
    ensures
        spec_load_mod_knob(spec_mod_knob_element(k), ValueStyle::Attribute) == Ok::<ModKnobView, ErrorView>(k),
{
    broadcast use {
        crate::xml::lemma_attr_value_push,
        crate::xml::lemma_attr_value_concat,
        crate::xml::lemma_child_element_push,
        crate::xml::lemma_child_element_concat,
        crate::xml::lemma_element_nodes_push,
        crate::xml::lemma_element_nodes_concat,
    };
    lemma_keys_small();
}

proof fn lemma_mod_knob_list_round_trip(knobs: Seq<ModKnobView>)
    ensures
        spec_load_mod_knob_list(knobs.map_values(|k: ModKnobView| spec_mod_knob_element(k)), ValueStyle::Attribute)
            == Ok::<Seq<ModKnobView>, ErrorView>(knobs),
    decreases knobs.len(),
{
    let elements = knobs.map_values(|k: ModKnobView| spec_mod_knob_element(k));
    if knobs.len() > 0 {
        let last = knobs.len() - 1;
        assert(elements.drop_last() =~= knobs.drop_last().map_values(|k: ModKnobView| spec_mod_knob_element(k)));
        lemma_mod_knob_list_round_trip(knobs.drop_last());
        lemma_mod_knob_round_trip(knobs[last]);
        assert(elements.last() == spec_mod_knob_element(knobs[last]));
        assert(knobs.drop_last().push(knobs[last]) =~= knobs);
    } else {
        assert(elements =~= Seq::<XmlElementView>::empty());
        assert(knobs =~= Seq::<ModKnobView>::empty());
    }
}

/// Mod knobs written then read back are unchanged.
pub proof fn lemma_mod_knobs_round_trip(knobs: Seq<ModKnobView>)
    ensures
        spec_load_mod_knobs(spec_mod_knobs_element(knobs), ValueStyle::Attribute) == Ok::<Seq<ModKnobView>, ErrorView>(
            knobs,
        ),
{
    broadcast use {
        crate::xml::lemma_attr_value_push,
        crate::xml::lemma_attr_value_concat,
        crate::xml::lemma_child_element_push,
        crate::xml::lemma_child_element_concat,
        crate::xml::lemma_element_nodes_push,
        crate::xml::lemma_element_nodes_concat,
    };
    let elements = knobs.map_values(|k: ModKnobView| spec_mod_knob_element(k));
    assert(spec_mod_knobs_element(knobs).children =~= element_nodes(elements));
    assert forall|i: int| 0 <= i < elements.len() implies #[trigger] elements[i].name == "modKnob"@ by {}
    lemma_children_named_of_nodes(elements, "modKnob"@);
    lemma_mod_knob_list_round_trip(knobs);
}

/// A sample zone written then read back is unchanged.
pub proof fn lemma_zone_round_trip(z: SampleZone)
    ensures
        spec_parse_sample_zone(spec_zone_element(z), ValueStyle::Attribute) == Ok::<SampleZone, ErrorView>(z),
{
    broadcast use {
        crate::xml::lemma_attr_value_push,
        crate::xml::lemma_attr_value_concat,
        crate::xml::lemma_child_element_push,
        crate::xml::lemma_child_element_concat,
        crate::xml::lemma_element_nodes_push,
        crate::xml::lemma_element_nodes_concat,
    };
    lemma_keys_osc();
    z.start.lemma_round_trip();
    z.end.lemma_round_trip();
    match z.start_loop {
        Some(p) => p.lemma_round_trip(),
        None => {},
    }
    match z.end_loop {
        Some(p) => p.lemma_round_trip(),
        None => {},
    }
}


/// Whether a sample path is in the form reading gives: relative and normalised.
pub open spec fn path_well_formed(path: Seq<char>) -> bool {
    spec_read_sample_path(path) == Ok::<Seq<char>, ErrorView>(path)
}

/// Whether every value of a sample range is one its type stands for.
pub open spec fn range_well_formed(r: SampleRangeView) -> bool {
    &&& r.transpose.spec_well_formed()
    &&& r.fine_transpose.spec_well_formed()
    &&& path_well_formed(r.file_path)
}

/// A sample range written then read back is unchanged.
pub proof fn lemma_range_round_trip(r: SampleRangeView)
    requires
        range_well_formed(r),
    ensures
        spec_load_sample_range(spec_range_element(r), ValueStyle::Attribute) == Ok::<SampleRangeView, ErrorView>(r),
{
    broadcast use {
        crate::xml::lemma_attr_value_push,
        crate::xml::lemma_attr_value_concat,
        crate::xml::lemma_child_element_push,
        crate::xml::lemma_child_element_concat,
        crate::xml::lemma_element_nodes_push,
        crate::xml::lemma_element_nodes_concat,
    };
    lemma_keys_osc();
    assert(element_nodes(Seq::<XmlElementView>::empty()) =~= Seq::<XmlNodeView>::empty());
    lemma_zone_round_trip(r.zone);
    match r.range_top_note {
        Some(t) => t.lemma_round_trip(),
        None => {},
    }
    r.transpose.lemma_round_trip();
    r.fine_transpose.lemma_round_trip();
    Transpose::lemma_spec_new_of_value(r.transpose);
    FineTranspose::lemma_spec_new_of_value(r.fine_transpose);
}

proof fn lemma_range_list_round_trip(ranges: Seq<SampleRangeView>)
    requires
        forall|i: int| 0 <= i < ranges.len() ==> range_well_formed(#[trigger] ranges[i]),
    ensures
        spec_load_sample_range_list(
            ranges.map_values(|r: SampleRangeView| spec_range_element(r)),
            ValueStyle::Attribute,
        ) == Ok::<Seq<SampleRangeView>, ErrorView>(ranges),
    decreases ranges.len(),
{
    let elements = ranges.map_values(|r: SampleRangeView| spec_range_element(r));
    if ranges.len() > 0 {
        let last = ranges.len() - 1;
        assert(elements.drop_last() =~= ranges.drop_last().map_values(|r: SampleRangeView| spec_range_element(r)));
        lemma_range_list_round_trip(ranges.drop_last());
        lemma_range_round_trip(ranges[last]);
        assert(elements.last() == spec_range_element(ranges[last]));
        assert(ranges.drop_last().push(ranges[last]) =~= ranges);
    } else {
        assert(elements =~= Seq::<XmlElementView>::empty());
        assert(ranges =~= Seq::<SampleRangeView>::empty());
    }
}

/// Whether every value of a sample is one its type stands for.
pub open spec fn sample_well_formed(s: SampleView) -> bool {
    match s {
        SampleView::OneZone(z) => path_well_formed(z.file_path),
        SampleView::SampleRanges(ranges) => forall|i: int|
            0 <= i < ranges.len() ==> range_well_formed(#[trigger] ranges[i]),
    }
}

/// Whether every value of a sample oscillator is one its type stands for.
pub open spec fn sample_oscillator_well_formed(o: SampleOscillatorView) -> bool {
    &&& o.transpose.spec_well_formed()
    &&& o.fine_transpose.spec_well_formed()
    &&& o.time_stretch_amount.spec_well_formed()
    &&& sample_well_formed(o.sample)
}

/// A sample oscillator written then read back is unchanged, whatever attributes follow
/// its own.
pub proof fn lemma_sample_oscillator_round_trip(
    o: SampleOscillatorView,
    name: Seq<char>,
    extra: Seq<(Seq<char>, Seq<char>)>,
)
    requires
        sample_oscillator_well_formed(o),
    ensures
        spec_load_sample_oscillator(
            with_attributes(spec_sample_oscillator_element(o, name), extra),
            ValueStyle::Attribute,
        ) == Ok::<SampleOscillatorView, ErrorView>(o),
{
    broadcast use {
        crate::xml::lemma_attr_value_push,
        crate::xml::lemma_attr_value_concat,
        crate::xml::lemma_child_element_push,
        crate::xml::lemma_child_element_concat,
        crate::xml::lemma_element_nodes_push,
        crate::xml::lemma_element_nodes_concat,
    };
    lemma_keys_osc();
    assert(element_nodes(Seq::<XmlElementView>::empty()) =~= Seq::<XmlNodeView>::empty());
    o.transpose.lemma_round_trip();
    o.fine_transpose.lemma_round_trip();
    o.reversed.lemma_round_trip();
    o.mode.lemma_round_trip();
    o.pitch_speed.lemma_round_trip();
    o.time_stretch_amount.lemma_round_trip();
    o.linear_interpolation.lemma_round_trip();
    let n = with_attributes(spec_sample_oscillator_element(o, name), extra);
    match o.sample {
        SampleView::OneZone(z) => {
            match z.zone {
                Some(zone) => lemma_zone_round_trip(zone),
                None => {},
            }
            assert(spec_load_sample(n, ValueStyle::Attribute) == Ok::<SampleView, ErrorView>(o.sample));
        },
        SampleView::SampleRanges(ranges) => {
            let elements = ranges.map_values(|r: SampleRangeView| spec_range_element(r));
            assert forall|i: int| 0 <= i < elements.len() implies #[trigger] elements[i].name == "sampleRange"@ by {}
            lemma_children_named_of_nodes(elements, "sampleRange"@);
            lemma_range_list_round_trip(ranges);
            assert(spec_load_sample(n, ValueStyle::Attribute) == Ok::<SampleView, ErrorView>(o.sample));
        },
    }
}

/// Whether every value of a waveform oscillator is one its type stands for.
pub open spec fn waveform_values_well_formed(w: WaveformOscillator) -> bool {
    &&& w.transpose.spec_well_formed()
    &&& w.fine_transpose.spec_well_formed()
    &&& w.retrig_phase.spec_well_formed()
    &&& w.pulse_width.spec_well_formed()
}

/// Whether a waveform oscillator of a subtractive engine is well-formed: its values are,
/// and its type is a waveform, not a sample (a sample reads back as a sample oscillator).
pub open spec fn waveform_well_formed(w: WaveformOscillator) -> bool {
    w.osc_type != OscType::Sample && waveform_values_well_formed(w)
}

/// A waveform oscillator written then read back is unchanged, its pulse width being among
/// the parameters, whatever attributes follow its own.
pub proof fn lemma_waveform_round_trip(
    w: WaveformOscillator,
    name: Seq<char>,
    extra: Seq<(Seq<char>, Seq<char>)>,
    params: XmlElementView,
    selector: TwinSelector,
)
    requires
        waveform_values_well_formed(w),
        holds(params, spec_twin_key(selector, "oscAPulseWidth"@, "oscBPulseWidth"@), w.pulse_width),
    ensures
        spec_load_waveform_oscillator(
            w.osc_type,
            with_attributes(spec_waveform_element(w, name), extra),
            params,
            selector,
            FormatVersion::Version3,
        ) == Ok::<WaveformOscillator, ErrorView>(w),
{
    broadcast use {
        crate::xml::lemma_attr_value_push,
        crate::xml::lemma_attr_value_concat,
        crate::xml::lemma_child_element_push,
        crate::xml::lemma_child_element_concat,
        crate::xml::lemma_element_nodes_push,
        crate::xml::lemma_element_nodes_concat,
    };
    lemma_keys_osc();
    w.transpose.lemma_round_trip();
    w.fine_transpose.lemma_round_trip();
    w.retrig_phase.lemma_round_trip();
    w.pulse_width.lemma_round_trip();
}

/// Whether every value of an oscillator of a subtractive engine is one its type stands for.
pub open spec fn oscillator_well_formed(o: SubtractiveOscillatorView) -> bool {
    match o {
        SubtractiveOscillatorView::Waveform(w) => waveform_well_formed(w),
        SubtractiveOscillatorView::Sample(s) => sample_oscillator_well_formed(s),
    }
}

/// Whether the parameters hold what an oscillator put there.
pub open spec fn oscillator_params_hold(o: SubtractiveOscillatorView, params: XmlElementView, selector: TwinSelector) -> bool {
    match o {
        SubtractiveOscillatorView::Waveform(w) => holds(
            params,
            spec_twin_key(selector, "oscAPulseWidth"@, "oscBPulseWidth"@),
            w.pulse_width,
        ),
        SubtractiveOscillatorView::Sample(_) => true,
    }
}

/// An oscillator of a subtractive engine written then read back is unchanged.
pub proof fn lemma_oscillator_round_trip(
    o: SubtractiveOscillatorView,
    selector: TwinSelector,
    extra: Seq<(Seq<char>, Seq<char>)>,
    params: XmlElementView,
)
    requires
        oscillator_well_formed(o),
        oscillator_params_hold(o, params, selector),
    ensures
        spec_load_oscillator(
            with_attributes(spec_oscillator_element(o, selector), extra),
            params,
            selector,
            FormatVersion::Version3,
        ) == Ok::<SubtractiveOscillatorView, ErrorView>(o),
{
    broadcast use {
        crate::xml::lemma_attr_value_push,
        crate::xml::lemma_attr_value_concat,
        crate::xml::lemma_child_element_push,
        crate::xml::lemma_child_element_concat,
        crate::xml::lemma_element_nodes_push,
        crate::xml::lemma_element_nodes_concat,
    };
    lemma_keys_osc();
    match o {
        SubtractiveOscillatorView::Waveform(w) => {
            w.osc_type.lemma_round_trip();
            lemma_waveform_round_trip(w, spec_twin_key(selector, "osc1"@, "osc2"@), extra, params, selector);
        },
        SubtractiveOscillatorView::Sample(s) => {
            OscType::Sample.lemma_round_trip();
            lemma_sample_oscillator_round_trip(s, spec_twin_key(selector, "osc1"@, "osc2"@), extra);
        },
    }
}

/// Whether every value of an FM carrier is one its type stands for.
pub open spec fn carrier_well_formed(c: FmCarrier) -> bool {
    &&& c.transpose.spec_well_formed()
    &&& c.fine_transpose.spec_well_formed()
    &&& c.retrig_phase.spec_well_formed()
    &&& c.feedback.spec_well_formed()
}

/// An FM carrier written then read back is unchanged, its feedback being among the
/// parameters.
pub proof fn lemma_carrier_round_trip(c: FmCarrier, selector: TwinSelector, params: XmlElementView)
    requires
        carrier_well_formed(c),
        holds(params, spec_twin_key(selector, "carrier1Feedback"@, "carrier2Feedback"@), c.feedback),
    ensures
        spec_load_carrier(spec_carrier_element(c, selector), params, selector, FormatVersion::Version3) == Ok::<
            FmCarrier,
            ErrorView,
        >(c),
{
    broadcast use {
        crate::xml::lemma_attr_value_push,
        crate::xml::lemma_attr_value_concat,
        crate::xml::lemma_child_element_push,
        crate::xml::lemma_child_element_concat,
        crate::xml::lemma_element_nodes_push,
        crate::xml::lemma_element_nodes_concat,
    };
    lemma_keys_osc();
    c.transpose.lemma_round_trip();
    c.fine_transpose.lemma_round_trip();
    c.retrig_phase.lemma_round_trip();
    c.feedback.lemma_round_trip();
}

/// Whether every value of an FM modulator is one its type stands for.
pub open spec fn modulator_well_formed(m: FmModulator) -> bool {
    &&& m.transpose.spec_well_formed()
    &&& m.fine_transpose.spec_well_formed()
    &&& m.retrig_phase.spec_well_formed()
    &&& m.amount.spec_well_formed()
    &&& m.feedback.spec_well_formed()
}

/// An FM modulator written then read back is unchanged, its amount and feedback being
/// among the parameters, whatever attributes follow its own.
pub proof fn lemma_modulator_round_trip(
    m: FmModulator,
    selector: TwinSelector,
    extra: Seq<(Seq<char>, Seq<char>)>,
    params: XmlElementView,
)
    requires
        modulator_well_formed(m),
        holds(params, spec_twin_key(selector, "modulator1Amount"@, "modulator2Amount"@), m.amount),
        holds(params, spec_twin_key(selector, "modulator1Feedback"@, "modulator2Feedback"@), m.feedback),
    ensures
        spec_load_fm_modulation(
            with_attributes(spec_modulator_element(m, selector), extra),
            params,
            selector,
            FormatVersion::Version3,
        ) == Ok::<FmModulator, ErrorView>(m),
{
    broadcast use {
        crate::xml::lemma_attr_value_push,
        crate::xml::lemma_attr_value_concat,
        crate::xml::lemma_child_element_push,
        crate::xml::lemma_child_element_concat,
        crate::xml::lemma_element_nodes_push,
        crate::xml::lemma_element_nodes_concat,
    };
    lemma_keys_osc();
    m.transpose.lemma_round_trip();
    m.fine_transpose.lemma_round_trip();
    m.retrig_phase.lemma_round_trip();
    m.amount.lemma_round_trip();
    m.feedback.lemma_round_trip();
}


/// Whether the parameters hold what an engine put there.
pub open spec fn engine_params_hold(g: SynthEngineView, p: XmlElementView) -> bool {
    match g {
        SynthEngineView::Subtractive(x) => {
            &&& oscillator_params_hold(x.osc1, p, TwinSelector::A)
            &&& oscillator_params_hold(x.osc2, p, TwinSelector::B)
            &&& holds(p, "oscAVolume"@, x.osc1_volume)
            &&& holds(p, "oscBVolume"@, x.osc2_volume)
            &&& holds(p, "noiseVolume"@, x.noise)
            &&& holds(p, "lpfFrequency"@, x.lpf_frequency)
            &&& holds(p, "lpfResonance"@, x.lpf_resonance)
            &&& holds(p, "hpfFrequency"@, x.hpf_frequency)
            &&& holds(p, "hpfResonance"@, x.hpf_resonance)
        },
        SynthEngineView::RingMod(r) => {
            &&& holds(p, "oscAPulseWidth"@, r.osc1.pulse_width)
            &&& holds(p, "oscBPulseWidth"@, r.osc2.pulse_width)
            &&& holds(p, "noiseVolume"@, r.noise)
        },
        SynthEngineView::Fm(f) => {
            &&& holds(p, "carrier1Feedback"@, f.osc1.feedback)
            &&& holds(p, "carrier2Feedback"@, f.osc2.feedback)
            &&& holds(p, "modulator1Amount"@, f.modulator1.amount)
            &&& holds(p, "modulator1Feedback"@, f.modulator1.feedback)
            &&& holds(p, "modulator2Amount"@, f.modulator2.amount)
            &&& holds(p, "modulator2Feedback"@, f.modulator2.feedback)
            &&& holds(p, "oscAVolume"@, f.osc1_volume)
            &&& holds(p, "oscBVolume"@, f.osc2_volume)
        },
    }
}

/// Whether the parameters hold what a modulation effect put there.
pub open spec fn mod_fx_params_hold(fx: ModulationFx, p: XmlElementView) -> bool {
    match fx {
        ModulationFx::Off => true,
        ModulationFx::Flanger(f) => holds(p, "modFXRate"@, f.rate) && holds(p, "modFXFeedback"@, f.feedback),
        ModulationFx::Chorus(c) => {
            &&& holds(p, "modFXRate"@, c.rate)
            &&& holds(p, "modFXDepth"@, c.depth)
            &&& holds(p, "modFXOffset"@, c.offset)
        },
        ModulationFx::Phaser(x) => {
            &&& holds(p, "modFXRate"@, x.rate)
            &&& holds(p, "modFXFeedback"@, x.feedback)
            &&& holds(p, "modFXDepth"@, x.depth)
        },
    }
}

proof fn lemma_sound_params_base(s: SoundView)
    ensures
        holds(spec_sound_params_element(s), "volume"@, s.volume),
        holds(spec_sound_params_element(s), "reverbAmount"@, s.reverb_amount),
        holds(spec_sound_params_element(s), "stutterRate"@, s.stutter_rate),
        holds(spec_sound_params_element(s), "pan"@, s.pan),
        holds(spec_sound_params_element(s), "portamento"@, s.portamento),
{
    reveal(spec_sound_params_element);
    broadcast use {
        crate::xml::lemma_attr_value_push,
        crate::xml::lemma_attr_value_concat,
    };
    lemma_keys_params();
}

proof fn lemma_sound_params_engine(s: SoundView)
    ensures
        engine_params_hold(s.generator, spec_sound_params_element(s)),
{
    reveal(spec_sound_params_element);
    broadcast use {
        crate::xml::lemma_attr_value_push,
        crate::xml::lemma_attr_value_concat,
    };
    lemma_keys_params();
}

proof fn lemma_sound_params_effects(s: SoundView)
    ensures
        holds(spec_sound_params_element(s), "lfo1Rate"@, s.lfo1.rate),
        holds(spec_sound_params_element(s), "lfo2Rate"@, s.lfo2.rate),
        holds(spec_sound_params_element(s), "arpeggiatorRate"@, s.arpeggiator.rate),
        holds(spec_sound_params_element(s), "arpeggiatorGate"@, s.arpeggiator.gate),
        holds(spec_sound_params_element(s), "delayFeedback"@, s.delay.amount),
        holds(spec_sound_params_element(s), "delayRate"@, s.delay.rate),
        holds(spec_sound_params_element(s), "compressorShape"@, s.sidechain.shape),
{
    reveal(spec_sound_params_element);
    broadcast use {
        crate::xml::lemma_attr_value_push,
        crate::xml::lemma_attr_value_concat,
    };
    lemma_keys_params();
}

proof fn lemma_sound_params_tail(s: SoundView)
    ensures
        mod_fx_params_hold(s.modulation_fx, spec_sound_params_element(s)),
        holds(spec_sound_params_element(s), "bitCrush"@, s.distorsion.bit_crush),
        holds(spec_sound_params_element(s), "sampleRateReduction"@, s.distorsion.decimation),
{
    reveal(spec_sound_params_element);
    broadcast use {
        crate::xml::lemma_attr_value_push,
        crate::xml::lemma_attr_value_concat,
    };
    lemma_keys_params();
}

/// The default parameters written for a sound hold each of its values under the name the
/// Deluge gives it: the volume under `volume`, the first LFO's rate under `lfo1Rate`, the
/// delay's amount under `delayFeedback` and its rate under `delayRate`, and so on for the
/// engine and the modulation effect.
pub proof fn lemma_sound_params_hold(s: SoundView)
    ensures
        holds(spec_sound_params_element(s), "volume"@, s.volume),
        holds(spec_sound_params_element(s), "reverbAmount"@, s.reverb_amount),
        holds(spec_sound_params_element(s), "stutterRate"@, s.stutter_rate),
        holds(spec_sound_params_element(s), "pan"@, s.pan),
        holds(spec_sound_params_element(s), "portamento"@, s.portamento),
        engine_params_hold(s.generator, spec_sound_params_element(s)),
        holds(spec_sound_params_element(s), "lfo1Rate"@, s.lfo1.rate),
        holds(spec_sound_params_element(s), "lfo2Rate"@, s.lfo2.rate),
        holds(spec_sound_params_element(s), "arpeggiatorRate"@, s.arpeggiator.rate),
        holds(spec_sound_params_element(s), "arpeggiatorGate"@, s.arpeggiator.gate),
        holds(spec_sound_params_element(s), "delayFeedback"@, s.delay.amount),
        holds(spec_sound_params_element(s), "delayRate"@, s.delay.rate),
        holds(spec_sound_params_element(s), "compressorShape"@, s.sidechain.shape),
        mod_fx_params_hold(s.modulation_fx, spec_sound_params_element(s)),
        holds(spec_sound_params_element(s), "bitCrush"@, s.distorsion.bit_crush),
        holds(spec_sound_params_element(s), "sampleRateReduction"@, s.distorsion.decimation),
{
    lemma_sound_params_base(s);
    lemma_sound_params_engine(s);
    lemma_sound_params_effects(s);
    lemma_sound_params_tail(s);
}


/// Whether every value of a subtractive engine is one its type stands for.
pub open spec fn subtractive_well_formed(g: SubtractiveSynthView) -> bool {
    &&& oscillator_well_formed(g.osc1)
    &&& oscillator_well_formed(g.osc2)
    &&& g.osc1_volume.spec_well_formed()
    &&& g.osc2_volume.spec_well_formed()
    &&& g.noise.spec_well_formed()
    &&& g.lpf_frequency.spec_well_formed()
    &&& g.lpf_resonance.spec_well_formed()
    &&& g.hpf_frequency.spec_well_formed()
    &&& g.hpf_resonance.spec_well_formed()
}

/// Whether every value of a ring modulation engine is one its type stands for.
pub open spec fn ring_mod_well_formed(r: RingModSynth) -> bool {
    waveform_values_well_formed(r.osc1) && waveform_values_well_formed(r.osc2) && r.noise.spec_well_formed()
}

/// Whether every value of an FM engine is one its type stands for.
pub open spec fn fm_well_formed(f: FmSynth) -> bool {
    &&& carrier_well_formed(f.osc1)
    &&& carrier_well_formed(f.osc2)
    &&& modulator_well_formed(f.modulator1)
    &&& modulator_well_formed(f.modulator2)
    &&& f.osc1_volume.spec_well_formed()
    &&& f.osc2_volume.spec_well_formed()
}

/// Whether every value of an engine is one its type stands for.
pub open spec fn engine_well_formed(g: SynthEngineView) -> bool {
    match g {
        SynthEngineView::Subtractive(x) => subtractive_well_formed(x),
        SynthEngineView::RingMod(r) => ring_mod_well_formed(r),
        SynthEngineView::Fm(f) => fm_well_formed(f),
    }
}

pub(crate) proof fn lemma_no_extra(e: XmlElementView)
    ensures
        with_attributes(e, Seq::empty()) == e,
{
    assert(e.attributes + Seq::<(Seq<char>, Seq<char>)>::empty() =~= e.attributes);
}

proof fn lemma_oscillator_sync(o: SubtractiveOscillatorView, sync: crate::values::on_off::OnOff)
    ensures
        attr_value(
            with_attributes(
                spec_oscillator_element(o, TwinSelector::B),
                seq![value_pair("oscillatorSync"@, sync)],
            ).attributes,
            "oscillatorSync"@,
        ) == Some(sync.spec_to_text()),
{
    broadcast use {
        crate::xml::lemma_attr_value_push,
        crate::xml::lemma_attr_value_concat,
        crate::xml::lemma_child_element_push,
        crate::xml::lemma_child_element_concat,
        crate::xml::lemma_element_nodes_push,
        crate::xml::lemma_element_nodes_concat,
    };
    lemma_keys_osc();
}

/// A subtractive engine written then read back from its sound is unchanged.
#[verifier::rlimit(40)]
proof fn lemma_subtractive_round_trip(g: SubtractiveSynthView, root: XmlElementView, p: XmlElementView)
    requires
        subtractive_well_formed(g),
        child_element(root.children, "osc1"@) == Some(spec_oscillator_element(g.osc1, TwinSelector::A)),
        child_element(root.children, "osc2"@) == Some(
            with_attributes(
                spec_oscillator_element(g.osc2, TwinSelector::B),
                seq![value_pair("oscillatorSync"@, g.osc2_sync)],
            ),
        ),
        child_element(root.children, "defaultParams"@) == Some(p),
        attr_value(root.attributes, "lpfMode"@) == Some(g.lpf_mode.spec_to_text()),
        engine_params_hold(SynthEngineView::Subtractive(g), p),
    ensures
        spec_load_subtractive_sound(root, FormatVersion::Version3) == Ok::<SubtractiveSynthView, ErrorView>(g),
{
    broadcast use {
        crate::xml::lemma_attr_value_push,
        crate::xml::lemma_attr_value_concat,
        crate::xml::lemma_child_element_push,
        crate::xml::lemma_child_element_concat,
        crate::xml::lemma_element_nodes_push,
        crate::xml::lemma_element_nodes_concat,
    };
    lemma_no_extra(spec_oscillator_element(g.osc1, TwinSelector::A));
    lemma_oscillator_round_trip(g.osc1, TwinSelector::A, Seq::empty(), p);
    lemma_oscillator_round_trip(g.osc2, TwinSelector::B, seq![value_pair("oscillatorSync"@, g.osc2_sync)], p);
    lemma_oscillator_sync(g.osc2, g.osc2_sync);
    g.osc2_sync.lemma_round_trip();
    g.lpf_mode.lemma_round_trip();
    g.osc1_volume.lemma_round_trip();
    g.osc2_volume.lemma_round_trip();
    g.noise.lemma_round_trip();
    g.lpf_frequency.lemma_round_trip();
    g.lpf_resonance.lemma_round_trip();
    g.hpf_frequency.lemma_round_trip();
    g.hpf_resonance.lemma_round_trip();
}

/// A ring modulation engine written then read back from its sound is unchanged.
proof fn lemma_ring_mod_round_trip(r: RingModSynth, root: XmlElementView, p: XmlElementView)
    requires
        ring_mod_well_formed(r),
        child_element(root.children, "osc1"@) == Some(spec_waveform_element(r.osc1, "osc1"@)),
        child_element(root.children, "osc2"@) == Some(
            with_attributes(spec_waveform_element(r.osc2, "osc2"@), seq![value_pair("oscillatorSync"@, r.osc2_sync)]),
        ),
        child_element(root.children, "defaultParams"@) == Some(p),
        engine_params_hold(SynthEngineView::RingMod(r), p),
    ensures
        spec_load_ringmode_sound(root, FormatVersion::Version3) == Ok::<RingModSynth, ErrorView>(r),
{
    broadcast use {
        crate::xml::lemma_attr_value_push,
        crate::xml::lemma_attr_value_concat,
        crate::xml::lemma_child_element_push,
        crate::xml::lemma_child_element_concat,
        crate::xml::lemma_element_nodes_push,
        crate::xml::lemma_element_nodes_concat,
    };
    lemma_keys_osc();
    lemma_no_extra(spec_waveform_element(r.osc1, "osc1"@));
    r.osc1.osc_type.lemma_round_trip();
    r.osc2.osc_type.lemma_round_trip();
    lemma_waveform_round_trip(r.osc1, "osc1"@, Seq::empty(), p, TwinSelector::A);
    lemma_waveform_round_trip(
        r.osc2,
        "osc2"@,
        seq![value_pair("oscillatorSync"@, r.osc2_sync)],
        p,
        TwinSelector::B,
    );
    r.osc2_sync.lemma_round_trip();
    r.noise.lemma_round_trip();
}

/// An FM engine written then read back from its sound is unchanged.
proof fn lemma_fm_round_trip(f: FmSynth, root: XmlElementView, p: XmlElementView)
    requires
        fm_well_formed(f),
        child_element(root.children, "osc1"@) == Some(spec_carrier_element(f.osc1, TwinSelector::A)),
        child_element(root.children, "osc2"@) == Some(spec_carrier_element(f.osc2, TwinSelector::B)),
        child_element(root.children, "modulator1"@) == Some(spec_modulator_element(f.modulator1, TwinSelector::A)),
        child_element(root.children, "modulator2"@) == Some(
            with_attributes(
                spec_modulator_element(f.modulator2, TwinSelector::B),
                seq![value_pair("toModulator1"@, f.modulator2_to_modulator1)],
            ),
        ),
        child_element(root.children, "defaultParams"@) == Some(p),
        engine_params_hold(SynthEngineView::Fm(f), p),
    ensures
        spec_load_fm_sound(root, FormatVersion::Version3) == Ok::<FmSynth, ErrorView>(f),
{
    broadcast use {
        crate::xml::lemma_attr_value_push,
        crate::xml::lemma_attr_value_concat,
        crate::xml::lemma_child_element_push,
        crate::xml::lemma_child_element_concat,
        crate::xml::lemma_element_nodes_push,
        crate::xml::lemma_element_nodes_concat,
    };
    lemma_keys_osc();
    lemma_no_extra(spec_modulator_element(f.modulator1, TwinSelector::A));
    lemma_carrier_round_trip(f.osc1, TwinSelector::A, p);
    lemma_carrier_round_trip(f.osc2, TwinSelector::B, p);
    lemma_modulator_round_trip(f.modulator1, TwinSelector::A, Seq::empty(), p);
    lemma_modulator_round_trip(
        f.modulator2,
        TwinSelector::B,
        seq![value_pair("toModulator1"@, f.modulator2_to_modulator1)],
        p,
    );
    f.modulator2_to_modulator1.lemma_round_trip();
    f.osc1_volume.lemma_round_trip();
    f.osc2_volume.lemma_round_trip();
}


/// Whether every value of a modulation effect is one its type stands for.
pub open spec fn mod_fx_well_formed(fx: ModulationFx) -> bool {
    match fx {
        ModulationFx::Off => true,
        ModulationFx::Flanger(f) => f.rate.spec_well_formed() && f.feedback.spec_well_formed(),
        ModulationFx::Chorus(c) => c.rate.spec_well_formed() && c.depth.spec_well_formed()
            && c.offset.spec_well_formed(),
        ModulationFx::Phaser(x) => x.rate.spec_well_formed() && x.depth.spec_well_formed()
            && x.feedback.spec_well_formed(),
    }
}

/// Whether every value of a distortion is one its type stands for.
pub open spec fn distorsion_well_formed(d: Distorsion) -> bool {
    d.saturation.spec_well_formed() && d.bit_crush.spec_well_formed() && d.decimation.spec_well_formed()
}

/// Whether every value of a sound is one its type stands for: what reading gives back.
pub open spec fn sound_well_formed(s: SoundView) -> bool {
    &&& engine_well_formed(s.generator)
    &&& s.volume.spec_well_formed()
    &&& s.pan.spec_well_formed()
    &&& s.portamento.spec_well_formed()
    &&& s.reverb_amount.spec_well_formed()
    &&& s.stutter_rate.spec_well_formed()
    &&& match s.sidechain_send {
        Some(d) => d.spec_well_formed(),
        None => true,
    }
    &&& envelope_well_formed(s.envelope1)
    &&& envelope_well_formed(s.envelope2)
    &&& s.lfo1.rate.spec_well_formed()
    &&& s.lfo2.rate.spec_well_formed()
    &&& unison_well_formed(s.unison)
    &&& arpeggiator_well_formed(s.arpeggiator)
    &&& delay_well_formed(s.delay)
    &&& distorsion_well_formed(s.distorsion)
    &&& mod_fx_well_formed(s.modulation_fx)
    &&& equalizer_well_formed(s.equalizer)
    &&& sidechain_well_formed(s.sidechain)
    &&& forall|i: int| 0 <= i < s.cables.len() ==> (#[trigger] s.cables[i]).amount.spec_well_formed()
}

/// The element of a sound, followed by other attributes.
pub open spec fn sound_root(s: SoundView, name: Option<Seq<char>>, extra: Seq<(Seq<char>, Seq<char>)>) -> XmlElementView {
    with_attributes(spec_sound_element(s, name), extra)
}

proof fn lemma_engine_children_named(g: SynthEngineView, key: Seq<char>)
    requires
        key != "osc1"@,
        key != "osc2"@,
        key != "modulator1"@,
        key != "modulator2"@,
    ensures
        child_element(element_nodes(spec_engine_children(g)), key) is None,
{
    broadcast use {
        crate::xml::lemma_attr_value_push,
        crate::xml::lemma_attr_value_concat,
        crate::xml::lemma_child_element_push,
        crate::xml::lemma_child_element_concat,
        crate::xml::lemma_element_nodes_push,
        crate::xml::lemma_element_nodes_concat,
    };
    assert(element_nodes(Seq::<XmlElementView>::empty()) =~= Seq::<XmlNodeView>::empty());
    match g {
        SynthEngineView::Subtractive(x) => {
            assert(spec_oscillator_element(x.osc1, TwinSelector::A).name == "osc1"@);
            assert(spec_oscillator_element(x.osc2, TwinSelector::B).name == "osc2"@);
        },
        _ => {},
    }
}

/// The element written for a sound holds each of its parts as the child of its own name:
/// the unison under `unison`, the first LFO under `lfo1` and the second under `lfo2`, the
/// first envelope under `envelope1` and the second under `envelope2` among the default
/// parameters, and so on.
pub proof fn lemma_sound_children(s: SoundView, name: Option<Seq<char>>, extra: Seq<(Seq<char>, Seq<char>)>)
    ensures
        child_element(sound_root(s, name, extra).children, "defaultParams"@) == Some(spec_sound_params_element(s)),
        child_element(sound_root(s, name, extra).children, "unison"@) == Some(spec_unison_element(s.unison)),
        child_element(sound_root(s, name, extra).children, "lfo1"@) == Some(spec_lfo1_element(s.lfo1)),
        child_element(sound_root(s, name, extra).children, "lfo2"@) == Some(spec_lfo2_element(s.lfo2)),
        child_element(sound_root(s, name, extra).children, "arpeggiator"@) == Some(
            spec_arpeggiator_element(s.arpeggiator),
        ),
        child_element(sound_root(s, name, extra).children, "delay"@) == Some(spec_delay_element(s.delay)),
        child_element(sound_root(s, name, extra).children, "compressor"@) == Some(spec_sidechain_element(s.sidechain)),
        child_element(sound_root(s, name, extra).children, "modKnobs"@) == Some(spec_mod_knobs_element(s.mod_knobs)),
        child_element(spec_sound_params_element(s).children, "envelope1"@) == Some(
            spec_envelope_element(s.envelope1, "envelope1"@),
        ),
        child_element(spec_sound_params_element(s).children, "envelope2"@) == Some(
            spec_envelope_element(s.envelope2, "envelope2"@),
        ),
        child_element(spec_sound_params_element(s).children, "equalizer"@) == Some(spec_equalizer_element(s.equalizer)),
        child_element(spec_sound_params_element(s).children, "patchCables"@) == Some(spec_cables_element(s.cables)),
{
    reveal(spec_sound_element);
    reveal(spec_sound_params_element);
    broadcast use {
        crate::xml::lemma_attr_value_push,
        crate::xml::lemma_attr_value_concat,
        crate::xml::lemma_child_element_push,
        crate::xml::lemma_child_element_concat,
        crate::xml::lemma_element_nodes_push,
        crate::xml::lemma_element_nodes_concat,
    };
    lemma_keys_sound();
    assert(element_nodes(Seq::<XmlElementView>::empty()) =~= Seq::<XmlNodeView>::empty());
    lemma_engine_children_named(s.generator, "defaultParams"@);
    lemma_engine_children_named(s.generator, "unison"@);
    lemma_engine_children_named(s.generator, "lfo1"@);
    lemma_engine_children_named(s.generator, "lfo2"@);
    lemma_engine_children_named(s.generator, "arpeggiator"@);
    lemma_engine_children_named(s.generator, "delay"@);
    lemma_engine_children_named(s.generator, "compressor"@);
    lemma_engine_children_named(s.generator, "modKnobs"@);
    let e = spec_sound_element(s, name);
    let a = spec_engine_children(s.generator);
    let b = crate::serialization::writing::spec_sound_effect_elements(s);
    let c = seq![spec_sound_params_element(s)];
    assert(e.children == Seq::<XmlNodeView>::empty() + element_nodes(a + b + c));
    assert(element_nodes(a + b + c) == element_nodes(a) + element_nodes(b) + element_nodes(c));
    assert(child_element(element_nodes(b), "defaultParams"@) is None);
    assert(child_element(element_nodes(c), "defaultParams"@) == Some(spec_sound_params_element(s)));
    assert(child_element(element_nodes(a), "defaultParams"@) is None);
    assert(child_element(e.children, "defaultParams"@) == Some(spec_sound_params_element(s)));
}

/// The element written for a sound holds the first oscillator of its engine under `osc1`
/// and the second under `osc2`, and the modulators of an FM engine under `modulator1` and
/// `modulator2`.
pub proof fn lemma_engine_children(s: SoundView, name: Option<Seq<char>>, extra: Seq<(Seq<char>, Seq<char>)>)
    ensures
        match s.generator {
            SynthEngineView::Subtractive(g) => {
                &&& child_element(sound_root(s, name, extra).children, "osc1"@) == Some(
                    spec_oscillator_element(g.osc1, TwinSelector::A),
                )
                &&& child_element(sound_root(s, name, extra).children, "osc2"@) == Some(
                    with_attributes(
                        spec_oscillator_element(g.osc2, TwinSelector::B),
                        seq![value_pair("oscillatorSync"@, g.osc2_sync)],
                    ),
                )
            },
            SynthEngineView::RingMod(r) => {
                &&& child_element(sound_root(s, name, extra).children, "osc1"@) == Some(
                    spec_waveform_element(r.osc1, "osc1"@),
                )
                &&& child_element(sound_root(s, name, extra).children, "osc2"@) == Some(
                    with_attributes(
                        spec_waveform_element(r.osc2, "osc2"@),
                        seq![value_pair("oscillatorSync"@, r.osc2_sync)],
                    ),
                )
            },
            SynthEngineView::Fm(f) => {
                &&& child_element(sound_root(s, name, extra).children, "osc1"@) == Some(
                    spec_carrier_element(f.osc1, TwinSelector::A),
                )
                &&& child_element(sound_root(s, name, extra).children, "osc2"@) == Some(
                    spec_carrier_element(f.osc2, TwinSelector::B),
                )
                &&& child_element(sound_root(s, name, extra).children, "modulator1"@) == Some(
                    spec_modulator_element(f.modulator1, TwinSelector::A),
                )
                &&& child_element(sound_root(s, name, extra).children, "modulator2"@) == Some(
                    with_attributes(
                        spec_modulator_element(f.modulator2, TwinSelector::B),
                        seq![value_pair("toModulator1"@, f.modulator2_to_modulator1)],
                    ),
                )
            },
        },
{
    reveal(spec_sound_element);
    broadcast use {
        crate::xml::lemma_attr_value_push,
        crate::xml::lemma_attr_value_concat,
        crate::xml::lemma_child_element_push,
        crate::xml::lemma_child_element_concat,
        crate::xml::lemma_element_nodes_push,
        crate::xml::lemma_element_nodes_concat,
    };
    lemma_keys_sound();
    assert(element_nodes(Seq::<XmlElementView>::empty()) =~= Seq::<XmlNodeView>::empty());
    let e = spec_sound_element(s, name);
    let a = spec_engine_children(s.generator);
    let b = crate::serialization::writing::spec_sound_effect_elements(s);
    let c = seq![spec_sound_params_element(s)];
    assert(e.children == Seq::<XmlNodeView>::empty() + element_nodes(a + b + c));
    assert(element_nodes(a + b + c) == element_nodes(a) + element_nodes(b) + element_nodes(c));
    match s.generator {
        SynthEngineView::Subtractive(x) => {
            assert(spec_oscillator_element(x.osc1, TwinSelector::A).name == "osc1"@);
            assert(spec_oscillator_element(x.osc2, TwinSelector::B).name == "osc2"@);
            assert(child_element(element_nodes(a), "osc1"@) == Some(spec_oscillator_element(x.osc1, TwinSelector::A)));
            assert(child_element(element_nodes(a), "osc2"@) == Some(a[1]));
        },
        SynthEngineView::RingMod(r) => {
            assert(child_element(element_nodes(a), "osc1"@) == Some(a[0]));
            assert(child_element(element_nodes(a), "osc2"@) == Some(a[1]));
        },
        SynthEngineView::Fm(f) => {
            assert(child_element(element_nodes(a), "osc1"@) == Some(a[0]));
            assert(child_element(element_nodes(a), "osc2"@) == Some(a[1]));
            assert(child_element(element_nodes(a), "modulator1"@) == Some(a[2]));
            assert(child_element(element_nodes(a), "modulator2"@) == Some(a[3]));
        },
    }
}

/// The element written for a sound holds its engine's kind under `mode`, its polyphony
/// under `polyphonic`, its voice priority under `voicePriority` and its sidechain send, if
/// any, under `sideChainSend`, whatever attributes follow its own.
pub proof fn lemma_sound_attributes(s: SoundView, name: Option<Seq<char>>, extra: Seq<(Seq<char>, Seq<char>)>)
    requires
        attr_value(extra, "sideChainSend"@) is None,
    ensures
        attr_value(sound_root(s, name, extra).attributes, "mode"@) == Some(spec_sound_type(s.generator).spec_to_text()),
        attr_value(sound_root(s, name, extra).attributes, "polyphonic"@) == Some(s.polyphonic.spec_to_text()),
        attr_value(sound_root(s, name, extra).attributes, "voicePriority"@) == Some(s.voice_priority.spec_to_text()),
        attr_value(sound_root(s, name, extra).attributes, "sideChainSend"@) == match s.sidechain_send {
            Some(d) => Some(d.spec_to_text()),
            None => None,
        },
        attr_value(sound_root(s, name, extra).attributes, "modFXType"@) == Some(
            spec_mod_fx_kind(s.modulation_fx).spec_to_text(),
        ),
        attr_value(sound_root(s, name, extra).attributes, "clippingAmount"@) == Some(
            s.distorsion.saturation.spec_to_text(),
        ),
        s.generator matches SynthEngineView::Subtractive(g) ==> attr_value(
            sound_root(s, name, extra).attributes,
            "lpfMode"@,
        ) == Some(g.lpf_mode.spec_to_text()),
{
    reveal(spec_sound_element);
    broadcast use {
        crate::xml::lemma_attr_value_push,
        crate::xml::lemma_attr_value_concat,
        crate::xml::lemma_child_element_push,
        crate::xml::lemma_child_element_concat,
        crate::xml::lemma_element_nodes_push,
        crate::xml::lemma_element_nodes_concat,
    };
    lemma_keys_sound();
}


/// A modulation effect written then read back is unchanged, its kind on the element and
/// its settings among the parameters.
pub proof fn lemma_mod_fx_round_trip(fx: ModulationFx, root: XmlElementView, p: XmlElementView)
    requires
        mod_fx_well_formed(fx),
        attr_value(root.attributes, "modFXType"@) == Some(spec_mod_fx_kind(fx).spec_to_text()),
        child_element(root.children, "defaultParams"@) == Some(p),
        mod_fx_params_hold(fx, p),
    ensures
        spec_load_modulation_fx(root, FormatVersion::Version3) == Ok::<ModulationFx, ErrorView>(fx),
{
    spec_mod_fx_kind(fx).lemma_round_trip();
    match fx {
        ModulationFx::Off => {},
        ModulationFx::Flanger(f) => {
            f.rate.lemma_round_trip();
            f.feedback.lemma_round_trip();
        },
        ModulationFx::Chorus(c) => {
            c.rate.lemma_round_trip();
            c.depth.lemma_round_trip();
            c.offset.lemma_round_trip();
        },
        ModulationFx::Phaser(x) => {
            x.rate.lemma_round_trip();
            x.depth.lemma_round_trip();
            x.feedback.lemma_round_trip();
        },
    }
}

proof fn lemma_distorsion_round_trip(d: Distorsion, root: XmlElementView, p: XmlElementView)
    requires
        distorsion_well_formed(d),
        attr_value(root.attributes, "clippingAmount"@) == Some(d.saturation.spec_to_text()),
        holds(p, "bitCrush"@, d.bit_crush),
        holds(p, "sampleRateReduction"@, d.decimation),
    ensures
        spec_load_distorsion(root, p, ValueStyle::Attribute) == Ok::<Distorsion, ErrorView>(d),
{
    d.saturation.lemma_round_trip();
    d.bit_crush.lemma_round_trip();
    d.decimation.lemma_round_trip();
}

proof fn lemma_engine_round_trip(s: SoundView, name: Option<Seq<char>>, extra: Seq<(Seq<char>, Seq<char>)>)
    requires
        sound_well_formed(s),
        attr_value(extra, "sideChainSend"@) is None,
    ensures
        spec_load_engine(sound_root(s, name, extra), spec_sound_type(s.generator), FormatVersion::Version3) == Ok::<
            SynthEngineView,
            ErrorView,
        >(s.generator),
{
    let root = sound_root(s, name, extra);
    let p = spec_sound_params_element(s);
    lemma_sound_children(s, name, extra);
    lemma_engine_children(s, name, extra);
    lemma_sound_attributes(s, name, extra);
    lemma_sound_params_hold(s);
    match s.generator {
        SynthEngineView::Subtractive(g) => lemma_subtractive_round_trip(g, root, p),
        SynthEngineView::RingMod(r) => lemma_ring_mod_round_trip(r, root, p),
        SynthEngineView::Fm(f) => lemma_fm_round_trip(f, root, p),
    }
}

/// A sound written then read back is unchanged, whatever attributes follow its own, but
/// one named `sideChainSend`.
#[verifier::rlimit(40)]
pub proof fn lemma_sound_round_trip(s: SoundView, name: Option<Seq<char>>, extra: Seq<(Seq<char>, Seq<char>)>)
    requires
        sound_well_formed(s),
        attr_value(extra, "sideChainSend"@) is None,
    ensures
        spec_load_sound(sound_root(s, name, extra), FormatVersion::Version3) == Ok::<SoundView, ErrorView>(s),
{
    reveal(spec_load_sound);
    let root = sound_root(s, name, extra);
    let p = spec_sound_params_element(s);
    lemma_sound_children(s, name, extra);
    lemma_sound_attributes(s, name, extra);
    lemma_sound_params_hold(s);
    lemma_engine_round_trip(s, name, extra);
    spec_sound_type(s.generator).lemma_round_trip();
    assert(spec_load_mode(root, FormatVersion::Version3) == Ok::<SynthMode, ErrorView>(spec_sound_type(s.generator)));
    s.polyphonic.lemma_round_trip();
    s.voice_priority.lemma_round_trip();
    s.volume.lemma_round_trip();
    s.reverb_amount.lemma_round_trip();
    s.stutter_rate.lemma_round_trip();
    s.pan.lemma_round_trip();
    s.portamento.lemma_round_trip();
    match s.sidechain_send {
        Some(d) => d.lemma_round_trip(),
        None => {},
    }
    lemma_envelope_round_trip(s.envelope1, "envelope1"@);
    lemma_envelope_round_trip(s.envelope2, "envelope2"@);
    lemma_lfo1_round_trip(s.lfo1, p);
    lemma_lfo2_round_trip(s.lfo2, p);
    lemma_unison_round_trip(s.unison);
    lemma_arpeggiator_round_trip(s.arpeggiator, p);
    lemma_delay_round_trip(s.delay, p, "delayFeedback"@, "delayRate"@);
    lemma_distorsion_round_trip(s.distorsion, root, p);
    lemma_equalizer_round_trip(s.equalizer);
    lemma_mod_fx_round_trip(s.modulation_fx, root, p);
    lemma_sidechain_round_trip(s.sidechain, p, "compressorShape"@);
    lemma_cables_round_trip(s.cables);
    lemma_mod_knobs_round_trip(s.mod_knobs);
    assert(spec_load_sound_arpeggiator(root, p, FormatVersion::Version3) == Ok::<
        crate::sound::Arpeggiator,
        ErrorView,
    >(s.arpeggiator));
    assert(spec_load_sound_sidechain(root, p, FormatVersion::Version3) == Ok::<Sidechain, ErrorView>(s.sidechain));
}

} // verus!
