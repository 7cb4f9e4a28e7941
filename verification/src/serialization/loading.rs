//! Loading the parts of a patch from its XML elements, in every format.
//!
//! The first two formats write each value as the text of a child element, the third
//! one as an attribute (`ValueStyle`). A few parts differ between formats; those
//! functions take the format version.
use vstd::prelude::*;
use crate::error::{result_view, ErrorView, SerializationError};
use crate::sound::effects::{Chorus, Delay, Distorsion, Equalizer, Flanger, ModulationFx, Phaser, Sidechain};
use crate::sound::modulators::{Envelope, Lfo1, Lfo2};
use crate::sound::subtractive::SampleZone;
use crate::sound::{spec_default_arpeggiator, Arpeggiator, Unison};
use crate::values::hexu50::HexU50;
use crate::values::on_off::OnOff;
use crate::values::sample_position::SamplePosition;
use crate::values::sidechain_values::{AttackSidechain, ReleaseSidechain};
use crate::values::simple_enums::{ArpeggiatorMode, LfoShape, ModulationFxType, SyncLevel};
use crate::values::{ClippingAmount, OctavesCount, UnisonDetune, UnisonVoiceCount, XmlValue};
use crate::xml::{
    child_element, children_named, element_view, get_all_children_element_with_name, get_opt_children_element,
    get_value, lookup, missing, missing_error, parse_opt_value, parse_value, spec_parse_opt_value, spec_parse_value,
    spec_text_value, text_value, ValueStyle, XmlElement, XmlElementView,
};
use crate::serialization::format_version::FormatVersion;
use crate::serialization::{
    convert_milliseconds_to_samples, spec_milliseconds_to_samples, MAX_MILLISECONDS, spec_twin_key, style_of, value_style, TwinSelector,
};
use crate::sound::modulators::{ModKnob, ModKnobView, PatchCable, PatchCableView};
use crate::sound::subtractive::{
    Sample, SampleOneZone, SampleOneZoneView, SampleOscillator, SampleOscillatorView, SampleRange, SampleRangeView,
    SampleView, SubtractiveOscillator, SubtractiveOscillatorView,
};
use crate::sound::fm::{FmCarrier, FmModulator, FmSynth};
use crate::sound::ring_mod::RingModSynth;
use crate::sound::subtractive::{SubtractiveSynth, SubtractiveSynthView};
use crate::sound::effects::spec_default_sidechain;
use crate::sound::{Sound, SoundView, SynthEngine, SynthEngineView, WaveformOscillator};
use crate::values::decu50::DecU50;
use crate::kit::row::{CvGateRow, MidiRow, RowKit, RowKitView, SoundRow, SoundRowView};
use crate::kit::{Hpf, Kit, KitView, Lpf};
use crate::values::simple_enums::FilterType;
use crate::values::{CvGateChannel, MidiChannel};
use crate::xml::{element_children, first_text, get_element_children, get_first_text};
use crate::values::simple_enums::{LpfMode, Polyphony, SynthMode, VoicePriority};
use crate::values::pan::Pan;
use crate::values::retrig_phase::RetrigPhase;
use crate::values::sample_path::{read_sample_path, spec_read_sample_path, SamplePath};
use crate::values::simple_enums::{OscType, PitchSpeed, SamplePlayMode};
use crate::values::{FineTranspose, TimeStretchAmount, Transpose};
use crate::text::{dec_text, owned_text, str_eq, u64_text};

verus! {

/// The first error of a result.
pub open spec fn err_of<T>(r: Result<T, ErrorView>) -> ErrorView {
    r->Err_0
}

/// The value of a result.
pub open spec fn ok_of<T>(r: Result<T, ErrorView>) -> T {
    r->Ok_0
}

/// What reading a required child element gives.
pub open spec fn spec_child(e: XmlElementView, key: Seq<char>) -> Result<XmlElementView, ErrorView> {
    match child_element(e.children, key) {
        Some(c) => Ok(c),
        None => Err(ErrorView::MissingChild(e.name, key)),
    }
}

/// Finds a required child element.
pub fn get_children_element<'a>(e: &'a XmlElement, key: &str) -> (r: Result<&'a XmlElement, SerializationError>)
    ensures
        match spec_child(element_view(*e), key@) {
            Ok(c) => r matches Ok(x) && element_view(*x) == c,
            Err(err) => r matches Err(f) && f@ == err,
        },
{
    match get_opt_children_element(e, key) {
        Some(c) => Ok(c),
        None => Err(missing_error(e, key, ValueStyle::Child)),
    }
}

/// What loading an envelope gives.
pub open spec fn spec_load_envelope(n: XmlElementView, st: ValueStyle) -> Result<Envelope, ErrorView> {
    let attack = spec_parse_value::<HexU50>(n, "attack"@, st);
    let decay = spec_parse_value::<HexU50>(n, "decay"@, st);
    let sustain = spec_parse_value::<HexU50>(n, "sustain"@, st);
    let release = spec_parse_value::<HexU50>(n, "release"@, st);
    if attack is Err {
        Err(err_of(attack))
    } else if decay is Err {
        Err(err_of(decay))
    } else if sustain is Err {
        Err(err_of(sustain))
    } else if release is Err {
        Err(err_of(release))
    } else {
        Ok(Envelope { attack: ok_of(attack), decay: ok_of(decay), sustain: ok_of(sustain), release: ok_of(release) })
    }
}

/// Loads an envelope.
pub fn load_envelope(n: &XmlElement, st: ValueStyle) -> (r: Result<Envelope, SerializationError>)
    ensures
        result_view(r) == spec_load_envelope(element_view(*n), st),
{
    let attack = match parse_value::<HexU50>(n, "attack", st) {
        Ok(v) => v,
        Err(e) => return Err(e),
    };
    let decay = match parse_value::<HexU50>(n, "decay", st) {
        Ok(v) => v,
        Err(e) => return Err(e),
    };
    let sustain = match parse_value::<HexU50>(n, "sustain", st) {
        Ok(v) => v,
        Err(e) => return Err(e),
    };
    let release = match parse_value::<HexU50>(n, "release", st) {
        Ok(v) => v,
        Err(e) => return Err(e),
    };
    Ok(Envelope { attack, decay, sustain, release })
}

/// What loading the first LFO gives: its shape and sync on its element, its rate among
/// the default parameters.
pub open spec fn spec_load_lfo1(n: XmlElementView, params: XmlElementView, st: ValueStyle) -> Result<Lfo1, ErrorView> {
    let shape = spec_parse_value::<LfoShape>(n, "type"@, st);
    let sync_level = spec_parse_value::<SyncLevel>(n, "syncLevel"@, st);
    let rate = spec_parse_value::<HexU50>(params, "lfo1Rate"@, st);
    if shape is Err {
        Err(err_of(shape))
    } else if sync_level is Err {
        Err(err_of(sync_level))
    } else if rate is Err {
        Err(err_of(rate))
    } else {
        Ok(Lfo1 { shape: ok_of(shape), sync_level: ok_of(sync_level), rate: ok_of(rate) })
    }
}

/// Loads the first LFO.
pub fn load_lfo1(n: &XmlElement, params: &XmlElement, st: ValueStyle) -> (r: Result<Lfo1, SerializationError>)
    ensures
        result_view(r) == spec_load_lfo1(element_view(*n), element_view(*params), st),
{
    let shape = match parse_value::<LfoShape>(n, "type", st) {
        Ok(v) => v,
        Err(e) => return Err(e),
    };
    let sync_level = match parse_value::<SyncLevel>(n, "syncLevel", st) {
        Ok(v) => v,
        Err(e) => return Err(e),
    };
    let rate = match parse_value::<HexU50>(params, "lfo1Rate", st) {
        Ok(v) => v,
        Err(e) => return Err(e),
    };
    Ok(Lfo1 { shape, sync_level, rate })
}

/// What loading the second LFO gives.
pub open spec fn spec_load_lfo2(n: XmlElementView, params: XmlElementView, st: ValueStyle) -> Result<Lfo2, ErrorView> {
    let shape = spec_parse_value::<LfoShape>(n, "type"@, st);
    let rate = spec_parse_value::<HexU50>(params, "lfo2Rate"@, st);
    if shape is Err {
        Err(err_of(shape))
    } else if rate is Err {
        Err(err_of(rate))
    } else {
        Ok(Lfo2 { shape: ok_of(shape), rate: ok_of(rate) })
    }
}

/// Loads the second LFO.
pub fn load_lfo2(n: &XmlElement, params: &XmlElement, st: ValueStyle) -> (r: Result<Lfo2, SerializationError>)
    ensures
        result_view(r) == spec_load_lfo2(element_view(*n), element_view(*params), st),
{
    let shape = match parse_value::<LfoShape>(n, "type", st) {
        Ok(v) => v,
        Err(e) => return Err(e),
    };
    let rate = match parse_value::<HexU50>(params, "lfo2Rate", st) {
        Ok(v) => v,
        Err(e) => return Err(e),
    };
    Ok(Lfo2 { shape, rate })
}

/// What loading the unison gives.
pub open spec fn spec_load_unison(n: XmlElementView, st: ValueStyle) -> Result<Unison, ErrorView> {
    let voice_count = spec_parse_value::<UnisonVoiceCount>(n, "num"@, st);
    let detune = spec_parse_value::<UnisonDetune>(n, "detune"@, st);
    if voice_count is Err {
        Err(err_of(voice_count))
    } else if detune is Err {
        Err(err_of(detune))
    } else {
        Ok(Unison { voice_count: ok_of(voice_count), detune: ok_of(detune) })
    }
}

/// Loads the unison.
pub fn load_unison(n: &XmlElement, st: ValueStyle) -> (r: Result<Unison, SerializationError>)
    ensures
        result_view(r) == spec_load_unison(element_view(*n), st),
{
    let voice_count = match parse_value::<UnisonVoiceCount>(n, "num", st) {
        Ok(v) => v,
        Err(e) => return Err(e),
    };
    let detune = match parse_value::<UnisonDetune>(n, "detune", st) {
        Ok(v) => v,
        Err(e) => return Err(e),
    };
    Ok(Unison { voice_count, detune })
}

/// What loading a delay gives: its switches on its element, its amount and rate among
/// the default parameters under the given names.
pub open spec fn spec_load_delay_with(
    n: XmlElementView,
    params: XmlElementView,
    st: ValueStyle,
    amount_key: Seq<char>,
    rate_key: Seq<char>,
) -> Result<Delay, ErrorView> {
    let ping_pong = spec_parse_value::<OnOff>(n, "pingPong"@, st);
    let analog = spec_parse_value::<OnOff>(n, "analog"@, st);
    let sync_level = spec_parse_value::<SyncLevel>(n, "syncLevel"@, st);
    let amount = spec_parse_value::<HexU50>(params, amount_key, st);
    let rate = spec_parse_value::<HexU50>(params, rate_key, st);
    if ping_pong is Err {
        Err(err_of(ping_pong))
    } else if analog is Err {
        Err(err_of(analog))
    } else if sync_level is Err {
        Err(err_of(sync_level))
    } else if amount is Err {
        Err(err_of(amount))
    } else if rate is Err {
        Err(err_of(rate))
    } else {
        Ok(
            Delay {
                ping_pong: ok_of(ping_pong),
                analog: ok_of(analog),
                sync_level: ok_of(sync_level),
                amount: ok_of(amount),
                rate: ok_of(rate),
            },
        )
    }
}

/// Loads a delay whose amount and rate are among the default parameters under the given names.
pub fn load_delay_with(n: &XmlElement, params: &XmlElement, st: ValueStyle, amount_key: &str, rate_key: &str) -> (r: Result<
    Delay,
    SerializationError,
>)
    ensures
        result_view(r) == spec_load_delay_with(element_view(*n), element_view(*params), st, amount_key@, rate_key@),
{
    let ping_pong = match parse_value::<OnOff>(n, "pingPong", st) {
        Ok(v) => v,
        Err(e) => return Err(e),
    };
    let analog = match parse_value::<OnOff>(n, "analog", st) {
        Ok(v) => v,
        Err(e) => return Err(e),
    };
    let sync_level = match parse_value::<SyncLevel>(n, "syncLevel", st) {
        Ok(v) => v,
        Err(e) => return Err(e),
    };
    let amount = match parse_value::<HexU50>(params, amount_key, st) {
        Ok(v) => v,
        Err(e) => return Err(e),
    };
    let rate = match parse_value::<HexU50>(params, rate_key, st) {
        Ok(v) => v,
        Err(e) => return Err(e),
    };
    Ok(Delay { ping_pong, analog, sync_level, amount, rate })
}

/// Loads the delay of a sound.
pub fn load_delay(n: &XmlElement, params: &XmlElement, st: ValueStyle) -> (r: Result<Delay, SerializationError>)
    ensures
        result_view(r) == spec_load_delay_with(
            element_view(*n),
            element_view(*params),
            st,
            "delayFeedback"@,
            "delayRate"@,
        ),
{
    load_delay_with(n, params, st, "delayFeedback", "delayRate")
}

/// What loading an arpeggiator gives.
pub open spec fn spec_load_arpeggiator_node(n: XmlElementView, params: XmlElementView, st: ValueStyle) -> Result<
    Arpeggiator,
    ErrorView,
> {
    let mode = spec_parse_value::<ArpeggiatorMode>(n, "mode"@, st);
    let sync_level = spec_parse_value::<SyncLevel>(n, "syncLevel"@, st);
    let octaves_count = spec_parse_value::<OctavesCount>(n, "numOctaves"@, st);
    let rate = spec_parse_value::<HexU50>(params, "arpeggiatorRate"@, st);
    let gate = spec_parse_value::<HexU50>(params, "arpeggiatorGate"@, st);
    if mode is Err {
        Err(err_of(mode))
    } else if sync_level is Err {
        Err(err_of(sync_level))
    } else if octaves_count is Err {
        Err(err_of(octaves_count))
    } else if rate is Err {
        Err(err_of(rate))
    } else if gate is Err {
        Err(err_of(gate))
    } else {
        Ok(
            Arpeggiator {
                mode: ok_of(mode),
                sync_level: ok_of(sync_level),
                octaves_count: ok_of(octaves_count),
                rate: ok_of(rate),
                gate: ok_of(gate),
            },
        )
    }
}

/// Loads an arpeggiator from its element.
pub fn load_arpeggiator_node(n: &XmlElement, params: &XmlElement, st: ValueStyle) -> (r: Result<
    Arpeggiator,
    SerializationError,
>)
    ensures
        result_view(r) == spec_load_arpeggiator_node(element_view(*n), element_view(*params), st),
{
    let mode = match parse_value::<ArpeggiatorMode>(n, "mode", st) {
        Ok(v) => v,
        Err(e) => return Err(e),
    };
    let sync_level = match parse_value::<SyncLevel>(n, "syncLevel", st) {
        Ok(v) => v,
        Err(e) => return Err(e),
    };
    let octaves_count = match parse_value::<OctavesCount>(n, "numOctaves", st) {
        Ok(v) => v,
        Err(e) => return Err(e),
    };
    let rate = match parse_value::<HexU50>(params, "arpeggiatorRate", st) {
        Ok(v) => v,
        Err(e) => return Err(e),
    };
    let gate = match parse_value::<HexU50>(params, "arpeggiatorGate", st) {
        Ok(v) => v,
        Err(e) => return Err(e),
    };
    Ok(Arpeggiator { mode, sync_level, octaves_count, rate, gate })
}

/// What loading a distortion gives: the saturation on the sound, 0 when absent; the
/// rest among the default parameters.
pub open spec fn spec_load_distorsion(root: XmlElementView, params: XmlElementView, st: ValueStyle) -> Result<
    Distorsion,
    ErrorView,
> {
    let saturation = spec_parse_opt_value::<ClippingAmount>(root, "clippingAmount"@, st);
    let bit_crush = spec_parse_value::<HexU50>(params, "bitCrush"@, st);
    let decimation = spec_parse_value::<HexU50>(params, "sampleRateReduction"@, st);
    if saturation is Err {
        Err(err_of(saturation))
    } else if bit_crush is Err {
        Err(err_of(bit_crush))
    } else if decimation is Err {
        Err(err_of(decimation))
    } else {
        Ok(
            Distorsion {
                saturation: match ok_of(saturation) {
                    Some(v) => v,
                    None => ClippingAmount::spec_new(0),
                },
                bit_crush: ok_of(bit_crush),
                decimation: ok_of(decimation),
            },
        )
    }
}

/// Loads a distortion.
pub fn load_distorsion(root: &XmlElement, params: &XmlElement, st: ValueStyle) -> (r: Result<
    Distorsion,
    SerializationError,
>)
    ensures
        result_view(r) == spec_load_distorsion(element_view(*root), element_view(*params), st),
{
    let saturation = match parse_opt_value::<ClippingAmount>(root, "clippingAmount", st) {
        Ok(Some(v)) => v,
        Ok(None) => {
            let v = ClippingAmount::default();
            proof {
                ClippingAmount::lemma_spec_new_of_value(v);
            }
            v
        },
        Err(e) => return Err(e),
    };
    let bit_crush = match parse_value::<HexU50>(params, "bitCrush", st) {
        Ok(v) => v,
        Err(e) => return Err(e),
    };
    let decimation = match parse_value::<HexU50>(params, "sampleRateReduction", st) {
        Ok(v) => v,
        Err(e) => return Err(e),
    };
    Ok(Distorsion { saturation, bit_crush, decimation })
}

/// What loading an equalizer gives.
pub open spec fn spec_load_equalizer(n: XmlElementView, st: ValueStyle) -> Result<Equalizer, ErrorView> {
    let bass_level = spec_parse_value::<HexU50>(n, "bass"@, st);
    let bass_frequency = spec_parse_value::<HexU50>(n, "bassFrequency"@, st);
    let treble_level = spec_parse_value::<HexU50>(n, "treble"@, st);
    let treble_frequency = spec_parse_value::<HexU50>(n, "trebleFrequency"@, st);
    if bass_level is Err {
        Err(err_of(bass_level))
    } else if bass_frequency is Err {
        Err(err_of(bass_frequency))
    } else if treble_level is Err {
        Err(err_of(treble_level))
    } else if treble_frequency is Err {
        Err(err_of(treble_frequency))
    } else {
        Ok(
            Equalizer {
                bass_level: ok_of(bass_level),
                bass_frequency: ok_of(bass_frequency),
                treble_level: ok_of(treble_level),
                treble_frequency: ok_of(treble_frequency),
            },
        )
    }
}

/// Loads an equalizer.
pub fn load_equalizer(n: &XmlElement, st: ValueStyle) -> (r: Result<Equalizer, SerializationError>)
    ensures
        result_view(r) == spec_load_equalizer(element_view(*n), st),
{
    let bass_level = match parse_value::<HexU50>(n, "bass", st) {
        Ok(v) => v,
        Err(e) => return Err(e),
    };
    let bass_frequency = match parse_value::<HexU50>(n, "bassFrequency", st) {
        Ok(v) => v,
        Err(e) => return Err(e),
    };
    let treble_level = match parse_value::<HexU50>(n, "treble", st) {
        Ok(v) => v,
        Err(e) => return Err(e),
    };
    let treble_frequency = match parse_value::<HexU50>(n, "trebleFrequency", st) {
        Ok(v) => v,
        Err(e) => return Err(e),
    };
    Ok(Equalizer { bass_level, bass_frequency, treble_level, treble_frequency })
}

/// What reading the kind of a modulation effect gives. The third format reports an
/// unknown name as an unsupported effect.
pub open spec fn spec_mod_fx_type(root: XmlElementView, version: FormatVersion) -> Result<ModulationFxType, ErrorView> {
    if version == FormatVersion::Version3 {
        match spec_text_value(root, "modFXType"@, ValueStyle::Attribute) {
            Ok(t) => match ModulationFxType::spec_named(t) {
                Some(k) => Ok(k),
                None => Err(ErrorView::UnsupportedModulationFx(t)),
            },
            Err(e) => Err(e),
        }
    } else {
        spec_parse_value::<ModulationFxType>(root, "modFXType"@, ValueStyle::Child)
    }
}

fn mod_fx_type(root: &XmlElement, version: FormatVersion) -> (r: Result<ModulationFxType, SerializationError>)
    ensures
        result_view(r) == spec_mod_fx_type(element_view(*root), version),
{
    if version == FormatVersion::Version3 {
        match text_value(root, "modFXType", ValueStyle::Attribute) {
            Ok(t) => match ModulationFxType::from_text(t.as_str()) {
                Ok(k) => Ok(k),
                Err(_) => Err(SerializationError::UnsupportedModulationFx(t)),
            },
            Err(e) => Err(e),
        }
    } else {
        parse_value::<ModulationFxType>(root, "modFXType", ValueStyle::Child)
    }
}

/// What loading the modulation effect of a sound or a kit gives: its kind on the element,
/// its settings among the default parameters, which must be there.
pub open spec fn spec_load_modulation_fx(root: XmlElementView, version: FormatVersion) -> Result<
    ModulationFx,
    ErrorView,
> {
    let st = style_of(version);
    let kind = spec_mod_fx_type(root, version);
    let params = spec_child(root, "defaultParams"@);
    if kind is Err {
        Err(err_of(kind))
    } else if params is Err {
        Err(err_of(params))
    } else {
        let p = ok_of(params);
        let rate = spec_parse_value::<HexU50>(p, "modFXRate"@, st);
        let feedback = spec_parse_value::<HexU50>(p, "modFXFeedback"@, st);
        let depth = spec_parse_value::<HexU50>(p, "modFXDepth"@, st);
        let offset = spec_parse_value::<HexU50>(p, "modFXOffset"@, st);
        match ok_of(kind) {
            ModulationFxType::Off => Ok(ModulationFx::Off),
            ModulationFxType::Flanger => if rate is Err {
                Err(err_of(rate))
            } else if feedback is Err {
                Err(err_of(feedback))
            } else {
                Ok(ModulationFx::Flanger(Flanger { rate: ok_of(rate), feedback: ok_of(feedback) }))
            },
            ModulationFxType::Chorus => if rate is Err {
                Err(err_of(rate))
            } else if depth is Err {
                Err(err_of(depth))
            } else if offset is Err {
                Err(err_of(offset))
            } else {
                Ok(ModulationFx::Chorus(Chorus { rate: ok_of(rate), depth: ok_of(depth), offset: ok_of(offset) }))
            },
            ModulationFxType::Phaser => if rate is Err {
                Err(err_of(rate))
            } else if depth is Err {
                Err(err_of(depth))
            } else if feedback is Err {
                Err(err_of(feedback))
            } else {
                Ok(ModulationFx::Phaser(Phaser { rate: ok_of(rate), depth: ok_of(depth), feedback: ok_of(feedback) }))
            },
        }
    }
}

/// Loads the modulation effect of a sound or a kit.
pub fn load_modulation_fx(root: &XmlElement, version: FormatVersion) -> (r: Result<ModulationFx, SerializationError>)
    ensures
        result_view(r) == spec_load_modulation_fx(element_view(*root), version),
{
    let st = value_style(version);
    let kind = match mod_fx_type(root, version) {
        Ok(k) => k,
        Err(e) => return Err(e),
    };
    let params = match get_children_element(root, "defaultParams") {
        Ok(p) => p,
        Err(e) => return Err(e),
    };
    match kind {
        ModulationFxType::Off => Ok(ModulationFx::Off),
        ModulationFxType::Flanger => {
            let rate = match parse_value::<HexU50>(params, "modFXRate", st) {
                Ok(v) => v,
                Err(e) => return Err(e),
            };
            let feedback = match parse_value::<HexU50>(params, "modFXFeedback", st) {
                Ok(v) => v,
                Err(e) => return Err(e),
            };
            Ok(ModulationFx::Flanger(Flanger { rate, feedback }))
        },
        ModulationFxType::Chorus => {
            let rate = match parse_value::<HexU50>(params, "modFXRate", st) {
                Ok(v) => v,
                Err(e) => return Err(e),
            };
            let depth = match parse_value::<HexU50>(params, "modFXDepth", st) {
                Ok(v) => v,
                Err(e) => return Err(e),
            };
            let offset = match parse_value::<HexU50>(params, "modFXOffset", st) {
                Ok(v) => v,
                Err(e) => return Err(e),
            };
            Ok(ModulationFx::Chorus(Chorus { rate, depth, offset }))
        },
        ModulationFxType::Phaser => {
            let rate = match parse_value::<HexU50>(params, "modFXRate", st) {
                Ok(v) => v,
                Err(e) => return Err(e),
            };
            let depth = match parse_value::<HexU50>(params, "modFXDepth", st) {
                Ok(v) => v,
                Err(e) => return Err(e),
            };
            let feedback = match parse_value::<HexU50>(params, "modFXFeedback", st) {
                Ok(v) => v,
                Err(e) => return Err(e),
            };
            Ok(ModulationFx::Phaser(Phaser { rate, depth, feedback }))
        },
    }
}

/// What loading a sidechain gives: attack, release and sync on the compressor element,
/// the shape among the default parameters under the given name.
pub open spec fn spec_load_sidechain_with(
    n: XmlElementView,
    params: XmlElementView,
    st: ValueStyle,
    shape_key: Seq<char>,
) -> Result<Sidechain, ErrorView> {
    let attack = spec_parse_value::<AttackSidechain>(n, "attack"@, st);
    let release = spec_parse_value::<ReleaseSidechain>(n, "release"@, st);
    let shape = spec_parse_value::<HexU50>(params, shape_key, st);
    let sync = spec_parse_value::<SyncLevel>(n, "syncLevel"@, st);
    if attack is Err {
        Err(err_of(attack))
    } else if release is Err {
        Err(err_of(release))
    } else if shape is Err {
        Err(err_of(shape))
    } else if sync is Err {
        Err(err_of(sync))
    } else {
        Ok(Sidechain { attack: ok_of(attack), release: ok_of(release), shape: ok_of(shape), sync: ok_of(sync) })
    }
}

/// Loads a sidechain whose shape is among the default parameters under the given name.
pub fn load_sidechain_with(n: &XmlElement, params: &XmlElement, st: ValueStyle, shape_key: &str) -> (r: Result<
    Sidechain,
    SerializationError,
>)
    ensures
        result_view(r) == spec_load_sidechain_with(element_view(*n), element_view(*params), st, shape_key@),
{
    let attack = match parse_value::<AttackSidechain>(n, "attack", st) {
        Ok(v) => v,
        Err(e) => return Err(e),
    };
    let release = match parse_value::<ReleaseSidechain>(n, "release", st) {
        Ok(v) => v,
        Err(e) => return Err(e),
    };
    let shape = match parse_value::<HexU50>(params, shape_key, st) {
        Ok(v) => v,
        Err(e) => return Err(e),
    };
    let sync = match parse_value::<SyncLevel>(n, "syncLevel", st) {
        Ok(v) => v,
        Err(e) => return Err(e),
    };
    Ok(Sidechain { attack, release, shape, sync })
}

/// What loading a patch cable gives.
pub open spec fn spec_load_patch_cable(n: XmlElementView, st: ValueStyle) -> Result<PatchCableView, ErrorView> {
    let source = spec_text_value(n, "source"@, st);
    let destination = spec_text_value(n, "destination"@, st);
    let amount = spec_parse_value::<HexU50>(n, "amount"@, st);
    if source is Err {
        Err(err_of(source))
    } else if destination is Err {
        Err(err_of(destination))
    } else if amount is Err {
        Err(err_of(amount))
    } else {
        Ok(PatchCableView { source: ok_of(source), destination: ok_of(destination), amount: ok_of(amount) })
    }
}

/// Loads a patch cable.
pub fn load_patch_cable(n: &XmlElement, st: ValueStyle) -> (r: Result<PatchCable, SerializationError>)
    ensures
        match spec_load_patch_cable(element_view(*n), st) {
            Ok(v) => r matches Ok(c) && c@ == v,
            Err(e) => r matches Err(f) && f@ == e,
        },
{
    let source = match text_value(n, "source", st) {
        Ok(v) => v,
        Err(e) => return Err(e),
    };
    let destination = match text_value(n, "destination", st) {
        Ok(v) => v,
        Err(e) => return Err(e),
    };
    let amount = match parse_value::<HexU50>(n, "amount", st) {
        Ok(v) => v,
        Err(e) => return Err(e),
    };
    Ok(PatchCable { source, destination, amount })
}

/// What loading patch cables gives: each in order; the first error stops.
pub open spec fn spec_load_patch_cable_list(nodes: Seq<XmlElementView>, st: ValueStyle) -> Result<
    Seq<PatchCableView>,
    ErrorView,
>
    decreases nodes.len(),
{
    if nodes.len() == 0 {
        Ok(Seq::empty())
    } else {
        match spec_load_patch_cable_list(nodes.drop_last(), st) {
            Err(e) => Err(e),
            Ok(v) => match spec_load_patch_cable(nodes.last(), st) {
                Err(e) => Err(e),
                Ok(c) => Ok(v.push(c)),
            },
        }
    }
}

/// What loading the patch cables of an element gives.
pub open spec fn spec_load_patch_cables(n: XmlElementView, st: ValueStyle) -> Result<Seq<PatchCableView>, ErrorView> {
    spec_load_patch_cable_list(children_named(n.children, "patchCable"@), st)
}

/// Loads the `patchCable` children of an element.
pub fn load_patch_cables(n: &XmlElement, st: ValueStyle) -> (r: Result<Vec<PatchCable>, SerializationError>)
    ensures
        match spec_load_patch_cables(element_view(*n), st) {
            Ok(v) => r matches Ok(c) && c@.map_values(|x: PatchCable| x@) == v,
            Err(e) => r matches Err(f) && f@ == e,
        },
{
    let nodes = get_all_children_element_with_name(n, "patchCable");
    let ghost views = children_named(element_view(*n).children, "patchCable"@);
    let mut cables: Vec<PatchCable> = Vec::new();
    let mut i: usize = 0;
    assert(views.subrange(0, 0) =~= Seq::<XmlElementView>::empty());
    assert(cables@.map_values(|x: PatchCable| x@) =~= Seq::<PatchCableView>::empty());
    while i < nodes.len()
        invariant
            i <= nodes@.len(),
            nodes@.len() == views.len(),
            views == children_named(element_view(*n).children, "patchCable"@),
            forall|j: int| 0 <= j < nodes@.len() ==> element_view(*nodes@[j]) == #[trigger] views[j],
            spec_load_patch_cable_list(views.subrange(0, i as int), st) == Ok::<Seq<PatchCableView>, ErrorView>(
                cables@.map_values(|x: PatchCable| x@),
            ),
        decreases nodes.len() - i,
    {
        assert(views.subrange(0, i + 1).drop_last() =~= views.subrange(0, i as int));
        assert(views.subrange(0, i + 1).last() == views[i as int]);
        let c = match load_patch_cable(nodes[i], st) {
            Ok(c) => c,
            Err(e) => {
                proof {
                    lemma_list_err_extends_cables(views, (i + 1) as int, st);
                }
                return Err(e);
            },
        };
        let ghost before = cables@;
        cables.push(c);
        assert(cables@.map_values(|x: PatchCable| x@) =~= before.map_values(|x: PatchCable| x@).push(c@));
        i = i + 1;
    }
    assert(views.subrange(0, i as int) =~= views);
    Ok(cables)
}

proof fn lemma_list_err_extends_cables(nodes: Seq<XmlElementView>, k: int, st: ValueStyle)
    requires
        0 <= k <= nodes.len(),
        spec_load_patch_cable_list(nodes.subrange(0, k), st) is Err,
    ensures
        spec_load_patch_cable_list(nodes, st) == spec_load_patch_cable_list(nodes.subrange(0, k), st),
    decreases nodes.len() - k,
{
    if k == nodes.len() {
        assert(nodes.subrange(0, k) =~= nodes);
    } else {
        assert(nodes.subrange(0, k + 1).drop_last() =~= nodes.subrange(0, k));
        lemma_list_err_extends_cables(nodes, k + 1, st);
    }
}

/// What loading a mod knob gives.
pub open spec fn spec_load_mod_knob(n: XmlElementView, st: ValueStyle) -> Result<ModKnobView, ErrorView> {
    let control_param = spec_text_value(n, "controlsParam"@, st);
    if control_param is Err {
        Err(err_of(control_param))
    } else {
        Ok(
            ModKnobView {
                control_param: ok_of(control_param),
                patch_amount_from_source: lookup(n, "patchAmountFromSource"@, st),
            },
        )
    }
}

/// Loads a mod knob.
pub fn load_mod_knob(n: &XmlElement, st: ValueStyle) -> (r: Result<ModKnob, SerializationError>)
    ensures
        match spec_load_mod_knob(element_view(*n), st) {
            Ok(v) => r matches Ok(k) && k@ == v,
            Err(e) => r matches Err(f) && f@ == e,
        },
{
    let control_param = match text_value(n, "controlsParam", st) {
        Ok(v) => v,
        Err(e) => return Err(e),
    };
    let patch_amount_from_source = match get_value(n, "patchAmountFromSource", st) {
        Some(t) => Some(owned_text(t)),
        None => None,
    };
    Ok(ModKnob { control_param, patch_amount_from_source })
}

/// What loading mod knobs gives: each in order; the first error stops.
pub open spec fn spec_load_mod_knob_list(nodes: Seq<XmlElementView>, st: ValueStyle) -> Result<
    Seq<ModKnobView>,
    ErrorView,
>
    decreases nodes.len(),
{
    if nodes.len() == 0 {
        Ok(Seq::empty())
    } else {
        match spec_load_mod_knob_list(nodes.drop_last(), st) {
            Err(e) => Err(e),
            Ok(v) => match spec_load_mod_knob(nodes.last(), st) {
                Err(e) => Err(e),
                Ok(k) => Ok(v.push(k)),
            },
        }
    }
}

/// What loading the mod knobs of an element gives.
pub open spec fn spec_load_mod_knobs(n: XmlElementView, st: ValueStyle) -> Result<Seq<ModKnobView>, ErrorView> {
    spec_load_mod_knob_list(children_named(n.children, "modKnob"@), st)
}

proof fn lemma_list_err_extends_knobs(nodes: Seq<XmlElementView>, k: int, st: ValueStyle)
    requires
        0 <= k <= nodes.len(),
        spec_load_mod_knob_list(nodes.subrange(0, k), st) is Err,
    ensures
        spec_load_mod_knob_list(nodes, st) == spec_load_mod_knob_list(nodes.subrange(0, k), st),
    decreases nodes.len() - k,
{
    if k == nodes.len() {
        assert(nodes.subrange(0, k) =~= nodes);
    } else {
        assert(nodes.subrange(0, k + 1).drop_last() =~= nodes.subrange(0, k));
        lemma_list_err_extends_knobs(nodes, k + 1, st);
    }
}

/// Loads the `modKnob` children of an element.
pub fn load_mod_knobs(n: &XmlElement, st: ValueStyle) -> (r: Result<Vec<ModKnob>, SerializationError>)
    ensures
        match spec_load_mod_knobs(element_view(*n), st) {
            Ok(v) => r matches Ok(k) && k@.map_values(|x: ModKnob| x@) == v,
            Err(e) => r matches Err(f) && f@ == e,
        },
{
    let nodes = get_all_children_element_with_name(n, "modKnob");
    let ghost views = children_named(element_view(*n).children, "modKnob"@);
    let mut knobs: Vec<ModKnob> = Vec::new();
    let mut i: usize = 0;
    assert(views.subrange(0, 0) =~= Seq::<XmlElementView>::empty());
    assert(knobs@.map_values(|x: ModKnob| x@) =~= Seq::<ModKnobView>::empty());
    while i < nodes.len()
        invariant
            i <= nodes@.len(),
            nodes@.len() == views.len(),
            views == children_named(element_view(*n).children, "modKnob"@),
            forall|j: int| 0 <= j < nodes@.len() ==> element_view(*nodes@[j]) == #[trigger] views[j],
            spec_load_mod_knob_list(views.subrange(0, i as int), st) == Ok::<Seq<ModKnobView>, ErrorView>(
                knobs@.map_values(|x: ModKnob| x@),
            ),
        decreases nodes.len() - i,
    {
        assert(views.subrange(0, i + 1).drop_last() =~= views.subrange(0, i as int));
        assert(views.subrange(0, i + 1).last() == views[i as int]);
        let k = match load_mod_knob(nodes[i], st) {
            Ok(k) => k,
            Err(e) => {
                proof {
                    lemma_list_err_extends_knobs(views, (i + 1) as int, st);
                }
                return Err(e);
            },
        };
        let ghost before = knobs@;
        knobs.push(k);
        assert(knobs@.map_values(|x: ModKnob| x@) =~= before.map_values(|x: ModKnob| x@).push(k@));
        i = i + 1;
    }
    assert(views.subrange(0, i as int) =~= views);
    Ok(knobs)
}

/// What reading a position gives: in frames when written so, else converted from
/// milliseconds (refused when the frames would not fit in a `u64`), else 0.
pub open spec fn spec_load_position(n: XmlElementView, samples_key: Seq<char>, ms_key: Seq<char>, st: ValueStyle) -> Result<
    SamplePosition,
    ErrorView,
> {
    let samples = spec_parse_opt_value::<SamplePosition>(n, samples_key, st);
    let ms = spec_parse_opt_value::<SamplePosition>(n, ms_key, st);
    if samples is Err {
        Err(err_of(samples))
    } else {
        match ok_of(samples) {
            Some(p) => Ok(p),
            None => if ms is Err {
                Err(err_of(ms))
            } else {
                match ok_of(ms) {
                    Some(m) => if m.0 <= MAX_MILLISECONDS {
                        Ok(SamplePosition(spec_milliseconds_to_samples(m.0) as u64))
                    } else {
                        Err(ErrorView::Overflow(dec_text(m.0 as nat), dec_text(MAX_MILLISECONDS as nat)))
                    },
                    None => Ok(SamplePosition(0)),
                }
            },
        }
    }
}

fn load_position(n: &XmlElement, samples_key: &str, ms_key: &str, st: ValueStyle) -> (r: Result<
    SamplePosition,
    SerializationError,
>)
    ensures
        result_view(r) == spec_load_position(element_view(*n), samples_key@, ms_key@, st),
{
    match parse_opt_value::<SamplePosition>(n, samples_key, st) {
        Err(e) => Err(e),
        Ok(Some(p)) => Ok(p),
        Ok(None) => match parse_opt_value::<SamplePosition>(n, ms_key, st) {
            Err(e) => Err(e),
            Ok(Some(m)) => if m.0 <= MAX_MILLISECONDS {
                Ok(SamplePosition::new(convert_milliseconds_to_samples(m.0)))
            } else {
                Err(SerializationError::Overflow(u64_text(m.0), u64_text(MAX_MILLISECONDS)))
            },
            Ok(None) => Ok(SamplePosition::new(0)),
        },
    }
}

/// What parsing a sample zone gives: start and end, then the optional loop points.
pub open spec fn spec_parse_sample_zone(n: XmlElementView, st: ValueStyle) -> Result<SampleZone, ErrorView> {
    let start = spec_load_position(n, "startSamplePos"@, "startMilliseconds"@, st);
    let end = spec_load_position(n, "endSamplePos"@, "endMilliseconds"@, st);
    let start_loop = spec_parse_opt_value::<SamplePosition>(n, "startLoopPos"@, st);
    let end_loop = spec_parse_opt_value::<SamplePosition>(n, "endLoopPos"@, st);
    if start is Err {
        Err(err_of(start))
    } else if end is Err {
        Err(err_of(end))
    } else if start_loop is Err {
        Err(err_of(start_loop))
    } else if end_loop is Err {
        Err(err_of(end_loop))
    } else {
        Ok(
            SampleZone {
                start: ok_of(start),
                end: ok_of(end),
                start_loop: ok_of(start_loop),
                end_loop: ok_of(end_loop),
            },
        )
    }
}

/// Parses a `zone` element: positions in frames, or in milliseconds when only those are
/// written, 0 when neither is.
pub fn parse_sample_zone(n: &XmlElement, st: ValueStyle) -> (r: Result<SampleZone, SerializationError>)
    ensures
        result_view(r) == spec_parse_sample_zone(element_view(*n), st),
{
    let start = match load_position(n, "startSamplePos", "startMilliseconds", st) {
        Ok(v) => v,
        Err(e) => return Err(e),
    };
    let end = match load_position(n, "endSamplePos", "endMilliseconds", st) {
        Ok(v) => v,
        Err(e) => return Err(e),
    };
    let start_loop = match parse_opt_value::<SamplePosition>(n, "startLoopPos", st) {
        Ok(v) => v,
        Err(e) => return Err(e),
    };
    let end_loop = match parse_opt_value::<SamplePosition>(n, "endLoopPos", st) {
        Ok(v) => v,
        Err(e) => return Err(e),
    };
    Ok(SampleZone { start, end, start_loop, end_loop })
}

/// What reading a required sample path gives.
pub open spec fn spec_parse_sample_path(n: XmlElementView, key: Seq<char>, st: ValueStyle) -> Result<
    Seq<char>,
    ErrorView,
> {
    match lookup(n, key, st) {
        Some(t) => spec_read_sample_path(t),
        None => Err(missing(n, key, st)),
    }
}

/// What reading an optional sample path gives; the empty path when absent.
pub open spec fn spec_parse_opt_sample_path(n: XmlElementView, key: Seq<char>, st: ValueStyle) -> Result<
    Seq<char>,
    ErrorView,
> {
    match lookup(n, key, st) {
        Some(t) => spec_read_sample_path(t),
        None => Ok(Seq::empty()),
    }
}

fn parse_sample_path(n: &XmlElement, key: &str, st: ValueStyle, required: bool) -> (r: Result<
    SamplePath,
    SerializationError,
>)
    ensures
        match (if required {
            spec_parse_sample_path(element_view(*n), key@, st)
        } else {
            spec_parse_opt_sample_path(element_view(*n), key@, st)
        }) {
            Ok(p) => r matches Ok(q) && q@ == p,
            Err(e) => r matches Err(f) && f@ == e,
        },
{
    match get_value(n, key, st) {
        Some(t) => read_sample_path(t),
        None => if required {
            Err(missing_error(n, key, st))
        } else {
            Ok(SamplePath::default())
        },
    }
}

/// What loading a sample range gives.
pub open spec fn spec_load_sample_range(n: XmlElementView, st: ValueStyle) -> Result<SampleRangeView, ErrorView> {
    let zone_node = spec_child(n, "zone"@);
    let top = spec_parse_opt_value::<u8>(n, "rangeTopNote"@, st);
    let file_path = spec_parse_sample_path(n, "fileName"@, st);
    let transpose = spec_parse_opt_value::<Transpose>(n, "transpose"@, st);
    let cents = spec_parse_opt_value::<FineTranspose>(n, "cents"@, st);
    if zone_node is Err {
        Err(err_of(zone_node))
    } else if top is Err {
        Err(err_of(top))
    } else if file_path is Err {
        Err(err_of(file_path))
    } else if transpose is Err {
        Err(err_of(transpose))
    } else if cents is Err {
        Err(err_of(cents))
    } else {
        let zone = spec_parse_sample_zone(ok_of(zone_node), st);
        if zone is Err {
            Err(err_of(zone))
        } else {
            Ok(
                SampleRangeView {
                    range_top_note: ok_of(top),
                    file_path: ok_of(file_path),
                    transpose: match ok_of(transpose) {
                        Some(t) => t,
                        None => Transpose::spec_new(0),
                    },
                    fine_transpose: match ok_of(cents) {
                        Some(t) => t,
                        None => FineTranspose::spec_new(0),
                    },
                    zone: ok_of(zone),
                },
            )
        }
    }
}

fn zero_transpose() -> (r: Transpose)
    ensures
        r == Transpose::spec_new(0),
{
    let r = Transpose::new(0);
    proof {
        Transpose::lemma_spec_new_of_value(r);
    }
    r
}

fn zero_fine_transpose() -> (r: FineTranspose)
    ensures
        r == FineTranspose::spec_new(0),
{
    let r = FineTranspose::new(0);
    proof {
        FineTranspose::lemma_spec_new_of_value(r);
    }
    r
}

/// Loads a sample range.
pub fn load_sample_range(n: &XmlElement, st: ValueStyle) -> (r: Result<SampleRange, SerializationError>)
    ensures
        match spec_load_sample_range(element_view(*n), st) {
            Ok(v) => r matches Ok(x) && x@ == v,
            Err(e) => r matches Err(f) && f@ == e,
        },
{
    let zone_node = match get_children_element(n, "zone") {
        Ok(z) => z,
        Err(e) => return Err(e),
    };
    let range_top_note = match parse_opt_value::<u8>(n, "rangeTopNote", st) {
        Ok(v) => v,
        Err(e) => return Err(e),
    };
    let file_path = match parse_sample_path(n, "fileName", st, true) {
        Ok(v) => v,
        Err(e) => return Err(e),
    };
    let transpose = match parse_opt_value::<Transpose>(n, "transpose", st) {
        Ok(Some(v)) => v,
        Ok(None) => zero_transpose(),
        Err(e) => return Err(e),
    };
    let fine_transpose = match parse_opt_value::<FineTranspose>(n, "cents", st) {
        Ok(Some(v)) => v,
        Ok(None) => zero_fine_transpose(),
        Err(e) => return Err(e),
    };
    let zone = match parse_sample_zone(zone_node, st) {
        Ok(v) => v,
        Err(e) => return Err(e),
    };
    Ok(SampleRange { range_top_note, transpose, fine_transpose, file_path, zone })
}

/// What loading sample ranges gives: each in order; the first error stops.
pub open spec fn spec_load_sample_range_list(nodes: Seq<XmlElementView>, st: ValueStyle) -> Result<
    Seq<SampleRangeView>,
    ErrorView,
>
    decreases nodes.len(),
{
    if nodes.len() == 0 {
        Ok(Seq::empty())
    } else {
        match spec_load_sample_range_list(nodes.drop_last(), st) {
            Err(e) => Err(e),
            Ok(v) => match spec_load_sample_range(nodes.last(), st) {
                Err(e) => Err(e),
                Ok(x) => Ok(v.push(x)),
            },
        }
    }
}

proof fn lemma_list_err_extends_ranges(nodes: Seq<XmlElementView>, k: int, st: ValueStyle)
    requires
        0 <= k <= nodes.len(),
        spec_load_sample_range_list(nodes.subrange(0, k), st) is Err,
    ensures
        spec_load_sample_range_list(nodes, st) == spec_load_sample_range_list(nodes.subrange(0, k), st),
    decreases nodes.len() - k,
{
    if k == nodes.len() {
        assert(nodes.subrange(0, k) =~= nodes);
    } else {
        assert(nodes.subrange(0, k + 1).drop_last() =~= nodes.subrange(0, k));
        lemma_list_err_extends_ranges(nodes, k + 1, st);
    }
}

fn load_sample_ranges(n: &XmlElement, st: ValueStyle) -> (r: Result<Vec<SampleRange>, SerializationError>)
    ensures
        match spec_load_sample_range_list(children_named(element_view(*n).children, "sampleRange"@), st) {
            Ok(v) => r matches Ok(x) && x@.map_values(|y: SampleRange| y@) == v,
            Err(e) => r matches Err(f) && f@ == e,
        },
{
    let nodes = get_all_children_element_with_name(n, "sampleRange");
    let ghost views = children_named(element_view(*n).children, "sampleRange"@);
    let mut ranges: Vec<SampleRange> = Vec::new();
    let mut i: usize = 0;
    assert(views.subrange(0, 0) =~= Seq::<XmlElementView>::empty());
    assert(ranges@.map_values(|x: SampleRange| x@) =~= Seq::<SampleRangeView>::empty());
    while i < nodes.len()
        invariant
            i <= nodes@.len(),
            nodes@.len() == views.len(),
            views == children_named(element_view(*n).children, "sampleRange"@),
            forall|j: int| 0 <= j < nodes@.len() ==> element_view(*nodes@[j]) == #[trigger] views[j],
            spec_load_sample_range_list(views.subrange(0, i as int), st) == Ok::<Seq<SampleRangeView>, ErrorView>(
                ranges@.map_values(|x: SampleRange| x@),
            ),
        decreases nodes.len() - i,
    {
        assert(views.subrange(0, i + 1).drop_last() =~= views.subrange(0, i as int));
        assert(views.subrange(0, i + 1).last() == views[i as int]);
        let x = match load_sample_range(nodes[i], st) {
            Ok(x) => x,
            Err(e) => {
                proof {
                    lemma_list_err_extends_ranges(views, (i + 1) as int, st);
                }
                return Err(e);
            },
        };
        let ghost before = ranges@;
        ranges.push(x);
        assert(ranges@.map_values(|y: SampleRange| y@) =~= before.map_values(|y: SampleRange| y@).push(x@));
        i = i + 1;
    }
    assert(views.subrange(0, i as int) =~= views);
    Ok(ranges)
}

/// What loading the sample of an oscillator gives: its ranges when it has some, else
/// one zone of one file.
pub open spec fn spec_load_sample(n: XmlElementView, st: ValueStyle) -> Result<SampleView, ErrorView> {
    match child_element(n.children, "sampleRanges"@) {
        Some(ranges_node) => match spec_load_sample_range_list(children_named(ranges_node.children, "sampleRange"@), st) {
            Ok(v) => Ok(SampleView::SampleRanges(v)),
            Err(e) => Err(e),
        },
        None => {
            let file_path = spec_parse_opt_sample_path(n, "fileName"@, st);
            if file_path is Err {
                Err(err_of(file_path))
            } else {
                match child_element(n.children, "zone"@) {
                    Some(zone_node) => {
                        let zone = spec_parse_sample_zone(zone_node, st);
                        if zone is Err {
                            Err(err_of(zone))
                        } else {
                            Ok(
                                SampleView::OneZone(
                                    SampleOneZoneView { file_path: ok_of(file_path), zone: Some(ok_of(zone)) },
                                ),
                            )
                        }
                    },
                    None => Ok(SampleView::OneZone(SampleOneZoneView { file_path: ok_of(file_path), zone: None })),
                }
            }
        },
    }
}

/// Loads the sample of an oscillator.
pub fn load_sample(n: &XmlElement, st: ValueStyle) -> (r: Result<Sample, SerializationError>)
    ensures
        match spec_load_sample(element_view(*n), st) {
            Ok(v) => r matches Ok(x) && x@ == v,
            Err(e) => r matches Err(f) && f@ == e,
        },
{
    match get_opt_children_element(n, "sampleRanges") {
        Some(ranges_node) => match load_sample_ranges(ranges_node, st) {
            Ok(v) => Ok(Sample::SampleRanges(v)),
            Err(e) => Err(e),
        },
        None => {
            let file_path = match parse_sample_path(n, "fileName", st, false) {
                Ok(v) => v,
                Err(e) => return Err(e),
            };
            match get_opt_children_element(n, "zone") {
                Some(zone_node) => {
                    let zone = match parse_sample_zone(zone_node, st) {
                        Ok(v) => v,
                        Err(e) => return Err(e),
                    };
                    Ok(Sample::OneZone(SampleOneZone { file_path, zone: Some(zone) }))
                },
                None => Ok(Sample::OneZone(SampleOneZone { file_path, zone: None })),
            }
        },
    }
}

/// What loading a sample oscillator gives.
pub open spec fn spec_load_sample_oscillator(n: XmlElementView, st: ValueStyle) -> Result<SampleOscillatorView, ErrorView> {
    let transpose = spec_parse_opt_value::<Transpose>(n, "transpose"@, st);
    let cents = spec_parse_opt_value::<FineTranspose>(n, "cents"@, st);
    let reversed = spec_parse_value::<OnOff>(n, "reversed"@, st);
    let mode = spec_parse_value::<SamplePlayMode>(n, "loopMode"@, st);
    let pitch_speed = spec_parse_value::<PitchSpeed>(n, "timeStretchEnable"@, st);
    let time_stretch_amount = spec_parse_value::<TimeStretchAmount>(n, "timeStretchAmount"@, st);
    let sample = spec_load_sample(n, st);
    let linear_interpolation = spec_parse_opt_value::<OnOff>(n, "linearInterpolation"@, st);
    if transpose is Err {
        Err(err_of(transpose))
    } else if cents is Err {
        Err(err_of(cents))
    } else if reversed is Err {
        Err(err_of(reversed))
    } else if mode is Err {
        Err(err_of(mode))
    } else if pitch_speed is Err {
        Err(err_of(pitch_speed))
    } else if time_stretch_amount is Err {
        Err(err_of(time_stretch_amount))
    } else if sample is Err {
        Err(err_of(sample))
    } else if linear_interpolation is Err {
        Err(err_of(linear_interpolation))
    } else {
        Ok(
            SampleOscillatorView {
                transpose: match ok_of(transpose) {
                    Some(t) => t,
                    None => Transpose::spec_new(0),
                },
                fine_transpose: match ok_of(cents) {
                    Some(t) => t,
                    None => FineTranspose::spec_new(0),
                },
                reversed: ok_of(reversed),
                mode: ok_of(mode),
                pitch_speed: ok_of(pitch_speed),
                time_stretch_amount: ok_of(time_stretch_amount),
                sample: ok_of(sample),
                linear_interpolation: match ok_of(linear_interpolation) {
                    Some(v) => v,
                    None => OnOff::Off,
                },
            },
        )
    }
}

/// Loads a sample oscillator.
pub fn load_sample_oscillator(n: &XmlElement, st: ValueStyle) -> (r: Result<SampleOscillator, SerializationError>)
    ensures
        match spec_load_sample_oscillator(element_view(*n), st) {
            Ok(v) => r matches Ok(x) && x@ == v,
            Err(e) => r matches Err(f) && f@ == e,
        },
{
    let transpose = match parse_opt_value::<Transpose>(n, "transpose", st) {
        Ok(Some(v)) => v,
        Ok(None) => zero_transpose(),
        Err(e) => return Err(e),
    };
    let fine_transpose = match parse_opt_value::<FineTranspose>(n, "cents", st) {
        Ok(Some(v)) => v,
        Ok(None) => zero_fine_transpose(),
        Err(e) => return Err(e),
    };
    let reversed = match parse_value::<OnOff>(n, "reversed", st) {
        Ok(v) => v,
        Err(e) => return Err(e),
    };
    let mode = match parse_value::<SamplePlayMode>(n, "loopMode", st) {
        Ok(v) => v,
        Err(e) => return Err(e),
    };
    let pitch_speed = match parse_value::<PitchSpeed>(n, "timeStretchEnable", st) {
        Ok(v) => v,
        Err(e) => return Err(e),
    };
    let time_stretch_amount = match parse_value::<TimeStretchAmount>(n, "timeStretchAmount", st) {
        Ok(v) => v,
        Err(e) => return Err(e),
    };
    let sample = match load_sample(n, st) {
        Ok(v) => v,
        Err(e) => return Err(e),
    };
    let linear_interpolation = match parse_opt_value::<OnOff>(n, "linearInterpolation", st) {
        Ok(Some(v)) => v,
        Ok(None) => OnOff::Off,
        Err(e) => return Err(e),
    };
    Ok(
        SampleOscillator {
            transpose,
            fine_transpose,
            mode,
            reversed,
            pitch_speed,
            time_stretch_amount,
            linear_interpolation,
            sample,
        },
    )
}

/// What reading the retrigger phase of an oscillator gives: required in the third
/// format, off when absent before.
pub open spec fn spec_load_retrig_phase(n: XmlElementView, version: FormatVersion) -> Result<RetrigPhase, ErrorView> {
    if version == FormatVersion::Version3 {
        spec_parse_value::<RetrigPhase>(n, "retrigPhase"@, ValueStyle::Attribute)
    } else {
        match spec_parse_opt_value::<RetrigPhase>(n, "retrigPhase"@, ValueStyle::Child) {
            Ok(Some(p)) => Ok(p),
            Ok(None) => Ok(RetrigPhase::Off),
            Err(e) => Err(e),
        }
    }
}

fn load_retrig_phase(n: &XmlElement, version: FormatVersion) -> (r: Result<RetrigPhase, SerializationError>)
    ensures
        result_view(r) == spec_load_retrig_phase(element_view(*n), version),
{
    if version == FormatVersion::Version3 {
        parse_value::<RetrigPhase>(n, "retrigPhase", ValueStyle::Attribute)
    } else {
        match parse_opt_value::<RetrigPhase>(n, "retrigPhase", ValueStyle::Child) {
            Ok(Some(p)) => Ok(p),
            Ok(None) => Ok(RetrigPhase::Off),
            Err(e) => Err(e),
        }
    }
}

/// What loading a waveform oscillator gives; its pulse width is among the default
/// parameters, under the name of its twin.
pub open spec fn spec_load_waveform_oscillator(
    osc_type: OscType,
    n: XmlElementView,
    params: XmlElementView,
    selector: TwinSelector,
    version: FormatVersion,
) -> Result<WaveformOscillator, ErrorView> {
    let st = style_of(version);
    let transpose = spec_parse_value::<Transpose>(n, "transpose"@, st);
    let cents = spec_parse_value::<FineTranspose>(n, "cents"@, st);
    let retrig_phase = spec_load_retrig_phase(n, version);
    let pulse_width = spec_parse_value::<HexU50>(
        params,
        spec_twin_key(selector, "oscAPulseWidth"@, "oscBPulseWidth"@),
        st,
    );
    if transpose is Err {
        Err(err_of(transpose))
    } else if cents is Err {
        Err(err_of(cents))
    } else if retrig_phase is Err {
        Err(err_of(retrig_phase))
    } else if pulse_width is Err {
        Err(err_of(pulse_width))
    } else {
        Ok(
            WaveformOscillator {
                osc_type,
                transpose: ok_of(transpose),
                fine_transpose: ok_of(cents),
                retrig_phase: ok_of(retrig_phase),
                pulse_width: ok_of(pulse_width),
            },
        )
    }
}

/// Loads a waveform oscillator.
pub fn load_waveform_oscillator(
    osc_type: OscType,
    n: &XmlElement,
    params: &XmlElement,
    selector: TwinSelector,
    version: FormatVersion,
) -> (r: Result<WaveformOscillator, SerializationError>)
    ensures
        result_view(r) == spec_load_waveform_oscillator(osc_type, element_view(*n), element_view(*params), selector, version),
{
    let st = value_style(version);
    let transpose = match parse_value::<Transpose>(n, "transpose", st) {
        Ok(v) => v,
        Err(e) => return Err(e),
    };
    let fine_transpose = match parse_value::<FineTranspose>(n, "cents", st) {
        Ok(v) => v,
        Err(e) => return Err(e),
    };
    let retrig_phase = match load_retrig_phase(n, version) {
        Ok(v) => v,
        Err(e) => return Err(e),
    };
    let pulse_width = match parse_value::<HexU50>(params, selector.get_key("oscAPulseWidth", "oscBPulseWidth"), st) {
        Ok(v) => v,
        Err(e) => return Err(e),
    };
    Ok(WaveformOscillator { osc_type, transpose, fine_transpose, retrig_phase, pulse_width })
}

/// What loading an oscillator of a subtractive engine gives: a sample oscillator when
/// its type says so, else a waveform one.
pub open spec fn spec_load_oscillator(
    n: XmlElementView,
    params: XmlElementView,
    selector: TwinSelector,
    version: FormatVersion,
) -> Result<SubtractiveOscillatorView, ErrorView> {
    match spec_parse_value::<OscType>(n, "type"@, style_of(version)) {
        Err(e) => Err(e),
        Ok(OscType::Sample) => match spec_load_sample_oscillator(n, style_of(version)) {
            Ok(s) => Ok(SubtractiveOscillatorView::Sample(s)),
            Err(e) => Err(e),
        },
        Ok(t) => match spec_load_waveform_oscillator(t, n, params, selector, version) {
            Ok(w) => Ok(SubtractiveOscillatorView::Waveform(w)),
            Err(e) => Err(e),
        },
    }
}

/// Loads an oscillator of a subtractive engine.
pub fn load_oscillator(n: &XmlElement, params: &XmlElement, selector: TwinSelector, version: FormatVersion) -> (r: Result<
    SubtractiveOscillator,
    SerializationError,
>)
    ensures
        match spec_load_oscillator(element_view(*n), element_view(*params), selector, version) {
            Ok(v) => r matches Ok(x) && x@ == v,
            Err(e) => r matches Err(f) && f@ == e,
        },
{
    let st = value_style(version);
    match parse_value::<OscType>(n, "type", st) {
        Err(e) => Err(e),
        Ok(OscType::Sample) => match load_sample_oscillator(n, st) {
            Ok(s) => Ok(SubtractiveOscillator::Sample(s)),
            Err(e) => Err(e),
        },
        Ok(t) => match load_waveform_oscillator(t, n, params, selector, version) {
            Ok(w) => Ok(SubtractiveOscillator::Waveform(w)),
            Err(e) => Err(e),
        },
    }
}

/// What loading an FM carrier gives; its feedback is among the default parameters.
pub open spec fn spec_load_carrier(
    n: XmlElementView,
    params: XmlElementView,
    selector: TwinSelector,
    version: FormatVersion,
) -> Result<FmCarrier, ErrorView> {
    let st = style_of(version);
    let transpose = spec_parse_value::<Transpose>(n, "transpose"@, st);
    let cents = spec_parse_value::<FineTranspose>(n, "cents"@, st);
    let retrig_phase = spec_load_retrig_phase(n, version);
    let feedback = spec_parse_value::<HexU50>(
        params,
        spec_twin_key(selector, "carrier1Feedback"@, "carrier2Feedback"@),
        st,
    );
    if transpose is Err {
        Err(err_of(transpose))
    } else if cents is Err {
        Err(err_of(cents))
    } else if retrig_phase is Err {
        Err(err_of(retrig_phase))
    } else if feedback is Err {
        Err(err_of(feedback))
    } else {
        Ok(
            FmCarrier {
                transpose: ok_of(transpose),
                fine_transpose: ok_of(cents),
                retrig_phase: ok_of(retrig_phase),
                feedback: ok_of(feedback),
            },
        )
    }
}

/// Loads an FM carrier.
pub fn load_carrier(n: &XmlElement, params: &XmlElement, selector: TwinSelector, version: FormatVersion) -> (r: Result<
    FmCarrier,
    SerializationError,
>)
    ensures
        result_view(r) == spec_load_carrier(element_view(*n), element_view(*params), selector, version),
{
    let st = value_style(version);
    let transpose = match parse_value::<Transpose>(n, "transpose", st) {
        Ok(v) => v,
        Err(e) => return Err(e),
    };
    let fine_transpose = match parse_value::<FineTranspose>(n, "cents", st) {
        Ok(v) => v,
        Err(e) => return Err(e),
    };
    let retrig_phase = match load_retrig_phase(n, version) {
        Ok(v) => v,
        Err(e) => return Err(e),
    };
    let feedback = match parse_value::<HexU50>(params, selector.get_key("carrier1Feedback", "carrier2Feedback"), st) {
        Ok(v) => v,
        Err(e) => return Err(e),
    };
    Ok(FmCarrier { transpose, fine_transpose, retrig_phase, feedback })
}

/// What loading an FM modulator gives; its amount and feedback are among the default
/// parameters.
pub open spec fn spec_load_fm_modulation(
    n: XmlElementView,
    params: XmlElementView,
    selector: TwinSelector,
    version: FormatVersion,
) -> Result<FmModulator, ErrorView> {
    let st = style_of(version);
    let transpose = spec_parse_value::<Transpose>(n, "transpose"@, st);
    let cents = spec_parse_value::<FineTranspose>(n, "cents"@, st);
    let retrig_phase = spec_load_retrig_phase(n, version);
    let amount = spec_parse_value::<HexU50>(
        params,
        spec_twin_key(selector, "modulator1Amount"@, "modulator2Amount"@),
        st,
    );
    let feedback = spec_parse_value::<HexU50>(
        params,
        spec_twin_key(selector, "modulator1Feedback"@, "modulator2Feedback"@),
        st,
    );
    if transpose is Err {
        Err(err_of(transpose))
    } else if cents is Err {
        Err(err_of(cents))
    } else if retrig_phase is Err {
        Err(err_of(retrig_phase))
    } else if amount is Err {
        Err(err_of(amount))
    } else if feedback is Err {
        Err(err_of(feedback))
    } else {
        Ok(
            FmModulator {
                transpose: ok_of(transpose),
                fine_transpose: ok_of(cents),
                retrig_phase: ok_of(retrig_phase),
                amount: ok_of(amount),
                feedback: ok_of(feedback),
            },
        )
    }
}

/// Loads an FM modulator.
pub fn load_fm_modulation(n: &XmlElement, params: &XmlElement, selector: TwinSelector, version: FormatVersion) -> (r: Result<
    FmModulator,
    SerializationError,
>)
    ensures
        result_view(r) == spec_load_fm_modulation(element_view(*n), element_view(*params), selector, version),
{
    let st = value_style(version);
    let transpose = match parse_value::<Transpose>(n, "transpose", st) {
        Ok(v) => v,
        Err(e) => return Err(e),
    };
    let fine_transpose = match parse_value::<FineTranspose>(n, "cents", st) {
        Ok(v) => v,
        Err(e) => return Err(e),
    };
    let retrig_phase = match load_retrig_phase(n, version) {
        Ok(v) => v,
        Err(e) => return Err(e),
    };
    let amount = match parse_value::<HexU50>(params, selector.get_key("modulator1Amount", "modulator2Amount"), st) {
        Ok(v) => v,
        Err(e) => return Err(e),
    };
    let feedback = match parse_value::<HexU50>(
        params,
        selector.get_key("modulator1Feedback", "modulator2Feedback"),
        st,
    ) {
        Ok(v) => v,
        Err(e) => return Err(e),
    };
    Ok(FmModulator { transpose, fine_transpose, retrig_phase, amount, feedback })
}

/// The retrigger phase that the oscillator reset switch of the first format means.
pub open spec fn spec_retrig_phase_from_oscillator_reset(reset: OnOff) -> RetrigPhase {
    match reset {
        OnOff::On => RetrigPhase::Degrees(0),
        OnOff::Off => RetrigPhase::Off,
    }
}

/// The retrigger phase that the oscillator reset switch of the first format means:
/// on restarts at 0 degrees, off never restarts.
pub fn retrig_phase_from_oscillator_reset(reset: OnOff) -> (r: RetrigPhase)
    ensures
        r == spec_retrig_phase_from_oscillator_reset(reset),
{
    match reset {
        OnOff::On => RetrigPhase::Degrees(0),
        OnOff::Off => RetrigPhase::Off,
    }
}

/// What the first format's oscillator reset switch does to a waveform oscillator.
pub open spec fn spec_reset_waveform(osc: WaveformOscillator, reset: Option<OnOff>) -> WaveformOscillator {
    match reset {
        Some(x) => WaveformOscillator { retrig_phase: spec_retrig_phase_from_oscillator_reset(x), ..osc },
        None => osc,
    }
}

/// What the first format's oscillator reset switch does to an oscillator: it sets the
/// phase of a waveform one and leaves a sample one.
pub open spec fn spec_reset_oscillator(osc: SubtractiveOscillatorView, reset: Option<OnOff>) -> SubtractiveOscillatorView {
    match osc {
        SubtractiveOscillatorView::Waveform(w) => SubtractiveOscillatorView::Waveform(spec_reset_waveform(w, reset)),
        SubtractiveOscillatorView::Sample(s) => SubtractiveOscillatorView::Sample(s),
    }
}

/// What reading the oscillator reset switch gives: only the first format has it.
pub open spec fn spec_load_reset(root: XmlElementView, version: FormatVersion) -> Result<Option<OnOff>, ErrorView> {
    if version == FormatVersion::Version1 {
        spec_parse_opt_value::<OnOff>(root, "oscillatorReset"@, ValueStyle::Child)
    } else {
        Ok(None)
    }
}

fn load_reset(root: &XmlElement, version: FormatVersion) -> (r: Result<Option<OnOff>, SerializationError>)
    ensures
        result_view(r) == spec_load_reset(element_view(*root), version),
{
    if version == FormatVersion::Version1 {
        parse_opt_value::<OnOff>(root, "oscillatorReset", ValueStyle::Child)
    } else {
        Ok(None)
    }
}

fn reset_waveform(osc: WaveformOscillator, reset: Option<OnOff>) -> (r: WaveformOscillator)
    ensures
        r == spec_reset_waveform(osc, reset),
{
    match reset {
        Some(x) => WaveformOscillator { retrig_phase: retrig_phase_from_oscillator_reset(x), ..osc },
        None => osc,
    }
}

fn reset_oscillator(osc: SubtractiveOscillator, reset: Option<OnOff>) -> (r: SubtractiveOscillator)
    ensures
        r@ == spec_reset_oscillator(osc@, reset),
{
    match osc {
        SubtractiveOscillator::Waveform(w) => SubtractiveOscillator::Waveform(reset_waveform(w, reset)),
        SubtractiveOscillator::Sample(s) => SubtractiveOscillator::Sample(s),
    }
}

/// What loading a subtractive engine gives.
pub open spec fn spec_load_subtractive_sound(root: XmlElementView, version: FormatVersion) -> Result<
    SubtractiveSynthView,
    ErrorView,
> {
    let st = style_of(version);
    let osc1_node = spec_child(root, "osc1"@);
    let osc2_node = spec_child(root, "osc2"@);
    let params = spec_child(root, "defaultParams"@);
    if osc1_node is Err {
        Err(err_of(osc1_node))
    } else if osc2_node is Err {
        Err(err_of(osc2_node))
    } else if params is Err {
        Err(err_of(params))
    } else {
        let p = ok_of(params);
        let osc1 = spec_load_oscillator(ok_of(osc1_node), p, TwinSelector::A, version);
        let osc2 = spec_load_oscillator(ok_of(osc2_node), p, TwinSelector::B, version);
        let reset = spec_load_reset(root, version);
        let osc2_sync = spec_parse_opt_value::<OnOff>(ok_of(osc2_node), "oscillatorSync"@, st);
        let noise = spec_parse_value::<HexU50>(p, "noiseVolume"@, st);
        let lpf_mode = spec_parse_value::<LpfMode>(root, "lpfMode"@, st);
        let lpf_frequency = spec_parse_value::<HexU50>(p, "lpfFrequency"@, st);
        let lpf_resonance = spec_parse_value::<HexU50>(p, "lpfResonance"@, st);
        let hpf_frequency = spec_parse_value::<HexU50>(p, "hpfFrequency"@, st);
        let hpf_resonance = spec_parse_value::<HexU50>(p, "hpfResonance"@, st);
        let osc1_volume = spec_parse_value::<HexU50>(p, "oscAVolume"@, st);
        let osc2_volume = spec_parse_value::<HexU50>(p, "oscBVolume"@, st);
        if osc1 is Err {
            Err(err_of(osc1))
        } else if osc2 is Err {
            Err(err_of(osc2))
        } else if reset is Err {
            Err(err_of(reset))
        } else if osc2_sync is Err {
            Err(err_of(osc2_sync))
        } else if noise is Err {
            Err(err_of(noise))
        } else if lpf_mode is Err {
            Err(err_of(lpf_mode))
        } else if lpf_frequency is Err {
            Err(err_of(lpf_frequency))
        } else if lpf_resonance is Err {
            Err(err_of(lpf_resonance))
        } else if hpf_frequency is Err {
            Err(err_of(hpf_frequency))
        } else if hpf_resonance is Err {
            Err(err_of(hpf_resonance))
        } else if osc1_volume is Err {
            Err(err_of(osc1_volume))
        } else if osc2_volume is Err {
            Err(err_of(osc2_volume))
        } else {
            Ok(
                SubtractiveSynthView {
                    osc1: spec_reset_oscillator(ok_of(osc1), ok_of(reset)),
                    osc2: spec_reset_oscillator(ok_of(osc2), ok_of(reset)),
                    osc2_sync: match ok_of(osc2_sync) {
                        Some(v) => v,
                        None => OnOff::Off,
                    },
                    noise: ok_of(noise),
                    lpf_mode: ok_of(lpf_mode),
                    lpf_frequency: ok_of(lpf_frequency),
                    lpf_resonance: ok_of(lpf_resonance),
                    hpf_frequency: ok_of(hpf_frequency),
                    hpf_resonance: ok_of(hpf_resonance),
                    osc1_volume: ok_of(osc1_volume),
                    osc2_volume: ok_of(osc2_volume),
                },
            )
        }
    }
}

/// Loads a subtractive engine.
pub fn load_subtractive_sound(root: &XmlElement, version: FormatVersion) -> (r: Result<
    SubtractiveSynth,
    SerializationError,
>)
    ensures
        match spec_load_subtractive_sound(element_view(*root), version) {
            Ok(v) => r matches Ok(x) && x@ == v,
            Err(e) => r matches Err(f) && f@ == e,
        },
{
    let st = value_style(version);
    let osc1_node = match get_children_element(root, "osc1") {
        Ok(v) => v,
        Err(e) => return Err(e),
    };
    let osc2_node = match get_children_element(root, "osc2") {
        Ok(v) => v,
        Err(e) => return Err(e),
    };
    let params = match get_children_element(root, "defaultParams") {
        Ok(v) => v,
        Err(e) => return Err(e),
    };
    let osc1 = match load_oscillator(osc1_node, params, TwinSelector::A, version) {
        Ok(v) => v,
        Err(e) => return Err(e),
    };
    let osc2 = match load_oscillator(osc2_node, params, TwinSelector::B, version) {
        Ok(v) => v,
        Err(e) => return Err(e),
    };
    let reset = match load_reset(root, version) {
        Ok(v) => v,
        Err(e) => return Err(e),
    };
    let osc2_sync = match parse_opt_value::<OnOff>(osc2_node, "oscillatorSync", st) {
        Ok(Some(v)) => v,
        Ok(None) => OnOff::Off,
        Err(e) => return Err(e),
    };
    let noise = match parse_value::<HexU50>(params, "noiseVolume", st) {
        Ok(v) => v,
        Err(e) => return Err(e),
    };
    let lpf_mode = match parse_value::<LpfMode>(root, "lpfMode", st) {
        Ok(v) => v,
        Err(e) => return Err(e),
    };
    let lpf_frequency = match parse_value::<HexU50>(params, "lpfFrequency", st) {
        Ok(v) => v,
        Err(e) => return Err(e),
    };
    let lpf_resonance = match parse_value::<HexU50>(params, "lpfResonance", st) {
        Ok(v) => v,
        Err(e) => return Err(e),
    };
    let hpf_frequency = match parse_value::<HexU50>(params, "hpfFrequency", st) {
        Ok(v) => v,
        Err(e) => return Err(e),
    };
    let hpf_resonance = match parse_value::<HexU50>(params, "hpfResonance", st) {
        Ok(v) => v,
        Err(e) => return Err(e),
    };
    let osc1_volume = match parse_value::<HexU50>(params, "oscAVolume", st) {
        Ok(v) => v,
        Err(e) => return Err(e),
    };
    let osc2_volume = match parse_value::<HexU50>(params, "oscBVolume", st) {
        Ok(v) => v,
        Err(e) => return Err(e),
    };
    Ok(
        SubtractiveSynth {
            osc1: reset_oscillator(osc1, reset),
            osc2: reset_oscillator(osc2, reset),
            osc2_sync,
            noise,
            lpf_mode,
            lpf_frequency,
            lpf_resonance,
            hpf_frequency,
            hpf_resonance,
            osc1_volume,
            osc2_volume,
        },
    )
}

/// What loading a ring modulation engine gives: two waveform oscillators of the types
/// their elements give.
pub open spec fn spec_load_ringmode_sound(root: XmlElementView, version: FormatVersion) -> Result<RingModSynth, ErrorView> {
    let st = style_of(version);
    let osc1_node = spec_child(root, "osc1"@);
    let osc2_node = spec_child(root, "osc2"@);
    if osc1_node is Err {
        Err(err_of(osc1_node))
    } else if osc2_node is Err {
        Err(err_of(osc2_node))
    } else {
        let osc1_type = spec_parse_value::<OscType>(ok_of(osc1_node), "type"@, st);
        let osc2_type = spec_parse_value::<OscType>(ok_of(osc2_node), "type"@, st);
        let params = spec_child(root, "defaultParams"@);
        if osc1_type is Err {
            Err(err_of(osc1_type))
        } else if osc2_type is Err {
            Err(err_of(osc2_type))
        } else if params is Err {
            Err(err_of(params))
        } else {
            let p = ok_of(params);
            let osc1 = spec_load_waveform_oscillator(ok_of(osc1_type), ok_of(osc1_node), p, TwinSelector::A, version);
            let osc2 = spec_load_waveform_oscillator(ok_of(osc2_type), ok_of(osc2_node), p, TwinSelector::B, version);
            let reset = spec_load_reset(root, version);
            let osc2_sync = spec_parse_opt_value::<OnOff>(ok_of(osc2_node), "oscillatorSync"@, st);
            let noise = spec_parse_value::<HexU50>(p, "noiseVolume"@, st);
            if osc1 is Err {
                Err(err_of(osc1))
            } else if osc2 is Err {
                Err(err_of(osc2))
            } else if reset is Err {
                Err(err_of(reset))
            } else if osc2_sync is Err {
                Err(err_of(osc2_sync))
            } else if noise is Err {
                Err(err_of(noise))
            } else {
                Ok(
                    RingModSynth {
                        osc1: spec_reset_waveform(ok_of(osc1), ok_of(reset)),
                        osc2: spec_reset_waveform(ok_of(osc2), ok_of(reset)),
                        osc2_sync: match ok_of(osc2_sync) {
                            Some(v) => v,
                            None => OnOff::Off,
                        },
                        noise: ok_of(noise),
                    },
                )
            }
        }
    }
}

/// Loads a ring modulation engine.
pub fn load_ringmode_sound(root: &XmlElement, version: FormatVersion) -> (r: Result<RingModSynth, SerializationError>)
    ensures
        result_view(r) == spec_load_ringmode_sound(element_view(*root), version),
{
    let st = value_style(version);
    let osc1_node = match get_children_element(root, "osc1") {
        Ok(v) => v,
        Err(e) => return Err(e),
    };
    let osc2_node = match get_children_element(root, "osc2") {
        Ok(v) => v,
        Err(e) => return Err(e),
    };
    let osc1_type = match parse_value::<OscType>(osc1_node, "type", st) {
        Ok(v) => v,
        Err(e) => return Err(e),
    };
    let osc2_type = match parse_value::<OscType>(osc2_node, "type", st) {
        Ok(v) => v,
        Err(e) => return Err(e),
    };
    let params = match get_children_element(root, "defaultParams") {
        Ok(v) => v,
        Err(e) => return Err(e),
    };
    let osc1 = match load_waveform_oscillator(osc1_type, osc1_node, params, TwinSelector::A, version) {
        Ok(v) => v,
        Err(e) => return Err(e),
    };
    let osc2 = match load_waveform_oscillator(osc2_type, osc2_node, params, TwinSelector::B, version) {
        Ok(v) => v,
        Err(e) => return Err(e),
    };
    let reset = match load_reset(root, version) {
        Ok(v) => v,
        Err(e) => return Err(e),
    };
    let osc2_sync = match parse_opt_value::<OnOff>(osc2_node, "oscillatorSync", st) {
        Ok(Some(v)) => v,
        Ok(None) => OnOff::Off,
        Err(e) => return Err(e),
    };
    let noise = match parse_value::<HexU50>(params, "noiseVolume", st) {
        Ok(v) => v,
        Err(e) => return Err(e),
    };
    Ok(
        RingModSynth {
            osc1: reset_waveform(osc1, reset),
            osc2: reset_waveform(osc2, reset),
            osc2_sync,
            noise,
        },
    )
}

/// What loading an FM engine gives. The first format's oscillator reset switch is read,
/// and an unreadable one refused, but it does not change the carriers.
pub open spec fn spec_load_fm_sound(root: XmlElementView, version: FormatVersion) -> Result<FmSynth, ErrorView> {
    let st = style_of(version);
    let osc1_node = spec_child(root, "osc1"@);
    let osc2_node = spec_child(root, "osc2"@);
    let mod1_node = spec_child(root, "modulator1"@);
    let mod2_node = spec_child(root, "modulator2"@);
    let params = spec_child(root, "defaultParams"@);
    if osc1_node is Err {
        Err(err_of(osc1_node))
    } else if osc2_node is Err {
        Err(err_of(osc2_node))
    } else if mod1_node is Err {
        Err(err_of(mod1_node))
    } else if mod2_node is Err {
        Err(err_of(mod2_node))
    } else if params is Err {
        Err(err_of(params))
    } else {
        let p = ok_of(params);
        let osc1 = spec_load_carrier(ok_of(osc1_node), p, TwinSelector::A, version);
        let osc2 = spec_load_carrier(ok_of(osc2_node), p, TwinSelector::B, version);
        let reset = spec_load_reset(root, version);
        let modulator1 = spec_load_fm_modulation(ok_of(mod1_node), p, TwinSelector::A, version);
        let modulator2 = spec_load_fm_modulation(ok_of(mod2_node), p, TwinSelector::B, version);
        let to_mod1 = spec_parse_value::<OnOff>(ok_of(mod2_node), "toModulator1"@, st);
        let osc1_volume = spec_parse_value::<HexU50>(p, "oscAVolume"@, st);
        let osc2_volume = spec_parse_value::<HexU50>(p, "oscBVolume"@, st);
        if osc1 is Err {
            Err(err_of(osc1))
        } else if osc2 is Err {
            Err(err_of(osc2))
        } else if reset is Err {
            Err(err_of(reset))
        } else if modulator1 is Err {
            Err(err_of(modulator1))
        } else if modulator2 is Err {
            Err(err_of(modulator2))
        } else if to_mod1 is Err {
            Err(err_of(to_mod1))
        } else if osc1_volume is Err {
            Err(err_of(osc1_volume))
        } else if osc2_volume is Err {
            Err(err_of(osc2_volume))
        } else {
            Ok(
                FmSynth {
                    osc1: ok_of(osc1),
                    osc2: ok_of(osc2),
                    modulator1: ok_of(modulator1),
                    modulator2: ok_of(modulator2),
                    modulator2_to_modulator1: ok_of(to_mod1),
                    osc1_volume: ok_of(osc1_volume),
                    osc2_volume: ok_of(osc2_volume),
                },
            )
        }
    }
}

/// Loads an FM engine.
pub fn load_fm_sound(root: &XmlElement, version: FormatVersion) -> (r: Result<FmSynth, SerializationError>)
    ensures
        result_view(r) == spec_load_fm_sound(element_view(*root), version),
{
    let st = value_style(version);
    let osc1_node = match get_children_element(root, "osc1") {
        Ok(v) => v,
        Err(e) => return Err(e),
    };
    let osc2_node = match get_children_element(root, "osc2") {
        Ok(v) => v,
        Err(e) => return Err(e),
    };
    let mod1_node = match get_children_element(root, "modulator1") {
        Ok(v) => v,
        Err(e) => return Err(e),
    };
    let mod2_node = match get_children_element(root, "modulator2") {
        Ok(v) => v,
        Err(e) => return Err(e),
    };
    let params = match get_children_element(root, "defaultParams") {
        Ok(v) => v,
        Err(e) => return Err(e),
    };
    let osc1 = match load_carrier(osc1_node, params, TwinSelector::A, version) {
        Ok(v) => v,
        Err(e) => return Err(e),
    };
    let osc2 = match load_carrier(osc2_node, params, TwinSelector::B, version) {
        Ok(v) => v,
        Err(e) => return Err(e),
    };
    match load_reset(root, version) {
        Ok(_) => {},
        Err(e) => return Err(e),
    }
    let modulator1 = match load_fm_modulation(mod1_node, params, TwinSelector::A, version) {
        Ok(v) => v,
        Err(e) => return Err(e),
    };
    let modulator2 = match load_fm_modulation(mod2_node, params, TwinSelector::B, version) {
        Ok(v) => v,
        Err(e) => return Err(e),
    };
    let modulator2_to_modulator1 = match parse_value::<OnOff>(mod2_node, "toModulator1", st) {
        Ok(v) => v,
        Err(e) => return Err(e),
    };
    let osc1_volume = match parse_value::<HexU50>(params, "oscAVolume", st) {
        Ok(v) => v,
        Err(e) => return Err(e),
    };
    let osc2_volume = match parse_value::<HexU50>(params, "oscBVolume", st) {
        Ok(v) => v,
        Err(e) => return Err(e),
    };
    Ok(FmSynth { osc1, osc2, modulator1, modulator2, modulator2_to_modulator1, osc1_volume, osc2_volume })
}

/// What reading the synthesis mode of a sound gives: required in the second and third
/// formats, subtractive when absent in the first one.
pub open spec fn spec_load_mode(root: XmlElementView, version: FormatVersion) -> Result<SynthMode, ErrorView> {
    if version == FormatVersion::Version3 {
        spec_parse_value::<SynthMode>(root, "mode"@, ValueStyle::Attribute)
    } else if version == FormatVersion::Version2 {
        spec_parse_value::<SynthMode>(root, "mode"@, ValueStyle::Child)
    } else {
        match spec_parse_opt_value::<SynthMode>(root, "mode"@, ValueStyle::Child) {
            Ok(Some(m)) => Ok(m),
            Ok(None) => Ok(SynthMode::Subtractive),
            Err(e) => Err(e),
        }
    }
}

fn load_mode(root: &XmlElement, version: FormatVersion) -> (r: Result<SynthMode, SerializationError>)
    ensures
        result_view(r) == spec_load_mode(element_view(*root), version),
{
    if version == FormatVersion::Version3 {
        parse_value::<SynthMode>(root, "mode", ValueStyle::Attribute)
    } else if version == FormatVersion::Version2 {
        parse_value::<SynthMode>(root, "mode", ValueStyle::Child)
    } else {
        match parse_opt_value::<SynthMode>(root, "mode", ValueStyle::Child) {
            Ok(Some(m)) => Ok(m),
            Ok(None) => Ok(SynthMode::Subtractive),
            Err(e) => Err(e),
        }
    }
}

/// What loading the engine of a sound gives, by its mode; a sound whose mode is off is
/// refused.
pub open spec fn spec_load_engine(root: XmlElementView, mode: SynthMode, version: FormatVersion) -> Result<
    SynthEngineView,
    ErrorView,
> {
    match mode {
        SynthMode::Subtractive => match spec_load_subtractive_sound(root, version) {
            Ok(g) => Ok(SynthEngineView::Subtractive(g)),
            Err(e) => Err(e),
        },
        SynthMode::Fm => match spec_load_fm_sound(root, version) {
            Ok(g) => Ok(SynthEngineView::Fm(g)),
            Err(e) => Err(e),
        },
        SynthMode::RingMod => match spec_load_ringmode_sound(root, version) {
            Ok(g) => Ok(SynthEngineView::RingMod(g)),
            Err(e) => Err(e),
        },
        SynthMode::Off => Err(ErrorView::UnsupportedSoundType),
    }
}

fn load_engine(root: &XmlElement, mode: SynthMode, version: FormatVersion) -> (r: Result<SynthEngine, SerializationError>)
    ensures
        match spec_load_engine(element_view(*root), mode, version) {
            Ok(v) => r matches Ok(x) && x@ == v,
            Err(e) => r matches Err(f) && f@ == e,
        },
{
    match mode {
        SynthMode::Subtractive => match load_subtractive_sound(root, version) {
            Ok(g) => Ok(SynthEngine::Subtractive(g)),
            Err(e) => Err(e),
        },
        SynthMode::Fm => match load_fm_sound(root, version) {
            Ok(g) => Ok(SynthEngine::Fm(g)),
            Err(e) => Err(e),
        },
        SynthMode::RingMod => match load_ringmode_sound(root, version) {
            Ok(g) => Ok(SynthEngine::RingMod(g)),
            Err(e) => Err(e),
        },
        SynthMode::Off => Err(SerializationError::UnsupportedSoundType),
    }
}

/// What loading the arpeggiator of a sound gives: required in the third format,
/// the default one when absent in the second, always the default one in the first.
pub open spec fn spec_load_sound_arpeggiator(root: XmlElementView, params: XmlElementView, version: FormatVersion) -> Result<
    Arpeggiator,
    ErrorView,
> {
    if version == FormatVersion::Version3 {
        match spec_child(root, "arpeggiator"@) {
            Ok(n) => spec_load_arpeggiator_node(n, params, ValueStyle::Attribute),
            Err(e) => Err(e),
        }
    } else if version == FormatVersion::Version2 {
        match child_element(root.children, "arpeggiator"@) {
            Some(n) => spec_load_arpeggiator_node(n, params, ValueStyle::Child),
            None => Ok(spec_default_arpeggiator()),
        }
    } else {
        Ok(spec_default_arpeggiator())
    }
}

fn load_sound_arpeggiator(root: &XmlElement, params: &XmlElement, version: FormatVersion) -> (r: Result<
    Arpeggiator,
    SerializationError,
>)
    ensures
        result_view(r) == spec_load_sound_arpeggiator(element_view(*root), element_view(*params), version),
{
    if version == FormatVersion::Version3 {
        match get_children_element(root, "arpeggiator") {
            Ok(n) => load_arpeggiator_node(n, params, ValueStyle::Attribute),
            Err(e) => Err(e),
        }
    } else if version == FormatVersion::Version2 {
        match get_opt_children_element(root, "arpeggiator") {
            Some(n) => load_arpeggiator_node(n, params, ValueStyle::Child),
            None => Ok(Arpeggiator::default()),
        }
    } else {
        Ok(Arpeggiator::default())
    }
}

/// What loading the sidechain of a sound gives: the default one in the first format.
pub open spec fn spec_load_sound_sidechain(root: XmlElementView, params: XmlElementView, version: FormatVersion) -> Result<
    Sidechain,
    ErrorView,
> {
    if version == FormatVersion::Version1 {
        Ok(spec_default_sidechain())
    } else {
        match spec_child(root, "compressor"@) {
            Ok(n) => spec_load_sidechain_with(n, params, style_of(version), "compressorShape"@),
            Err(e) => Err(e),
        }
    }
}

fn load_sound_sidechain(root: &XmlElement, params: &XmlElement, version: FormatVersion) -> (r: Result<
    Sidechain,
    SerializationError,
>)
    ensures
        result_view(r) == spec_load_sound_sidechain(element_view(*root), element_view(*params), version),
{
    if version == FormatVersion::Version1 {
        Ok(Sidechain::default())
    } else {
        match get_children_element(root, "compressor") {
            Ok(n) => load_sidechain_with(n, params, value_style(version), "compressorShape"),
            Err(e) => Err(e),
        }
    }
}

/// What loading a sound gives. Its mode and default parameters come first, then its
/// engine, then every setting in the order of the fields of `Sound`.
#[verifier::opaque]
pub open spec fn spec_load_sound(root: XmlElementView, version: FormatVersion) -> Result<SoundView, ErrorView> {
    let st = style_of(version);
    let mode = spec_load_mode(root, version);
    let params = spec_child(root, "defaultParams"@);
    if mode is Err {
        Err(err_of(mode))
    } else if params is Err {
        Err(err_of(params))
    } else {
        let p = ok_of(params);
        let generator = spec_load_engine(root, ok_of(mode), version);
        let polyphonic = spec_parse_value::<Polyphony>(root, "polyphonic"@, st);
        let voice_priority = spec_parse_value::<VoicePriority>(root, "voicePriority"@, st);
        let volume = spec_parse_value::<HexU50>(p, "volume"@, st);
        let reverb_amount = spec_parse_value::<HexU50>(p, "reverbAmount"@, st);
        let stutter_rate = spec_parse_value::<HexU50>(p, "stutterRate"@, st);
        let pan = spec_parse_value::<Pan>(p, "pan"@, st);
        let portamento = spec_parse_value::<HexU50>(p, "portamento"@, st);
        let sidechain_send = spec_parse_opt_value::<DecU50>(root, "sideChainSend"@, st);
        let envelope1 = match spec_child(p, "envelope1"@) {
            Ok(n) => spec_load_envelope(n, st),
            Err(e) => Err(e),
        };
        let envelope2 = match spec_child(p, "envelope2"@) {
            Ok(n) => spec_load_envelope(n, st),
            Err(e) => Err(e),
        };
        let lfo1 = match spec_child(root, "lfo1"@) {
            Ok(n) => spec_load_lfo1(n, p, st),
            Err(e) => Err(e),
        };
        let lfo2 = match spec_child(root, "lfo2"@) {
            Ok(n) => spec_load_lfo2(n, p, st),
            Err(e) => Err(e),
        };
        let unison = match spec_child(root, "unison"@) {
            Ok(n) => spec_load_unison(n, st),
            Err(e) => Err(e),
        };
        let arpeggiator = spec_load_sound_arpeggiator(root, p, version);
        let delay = match spec_child(root, "delay"@) {
            Ok(n) => spec_load_delay_with(n, p, st, "delayFeedback"@, "delayRate"@),
            Err(e) => Err(e),
        };
        let distorsion = spec_load_distorsion(root, p, st);
        let equalizer = match spec_child(p, "equalizer"@) {
            Ok(n) => spec_load_equalizer(n, st),
            Err(e) => Err(e),
        };
        let modulation_fx = spec_load_modulation_fx(root, version);
        let sidechain = spec_load_sound_sidechain(root, p, version);
        let cables = match spec_child(p, "patchCables"@) {
            Ok(n) => spec_load_patch_cables(n, st),
            Err(e) => Err(e),
        };
        let mod_knobs = match spec_child(root, "modKnobs"@) {
            Ok(n) => spec_load_mod_knobs(n, st),
            Err(e) => Err(e),
        };
        if generator is Err {
            Err(err_of(generator))
        } else if polyphonic is Err {
            Err(err_of(polyphonic))
        } else if voice_priority is Err {
            Err(err_of(voice_priority))
        } else if volume is Err {
            Err(err_of(volume))
        } else if reverb_amount is Err {
            Err(err_of(reverb_amount))
        } else if stutter_rate is Err {
            Err(err_of(stutter_rate))
        } else if pan is Err {
            Err(err_of(pan))
        } else if portamento is Err {
            Err(err_of(portamento))
        } else if sidechain_send is Err {
            Err(err_of(sidechain_send))
        } else if envelope1 is Err {
            Err(err_of(envelope1))
        } else if envelope2 is Err {
            Err(err_of(envelope2))
        } else if lfo1 is Err {
            Err(err_of(lfo1))
        } else if lfo2 is Err {
            Err(err_of(lfo2))
        } else if unison is Err {
            Err(err_of(unison))
        } else if arpeggiator is Err {
            Err(err_of(arpeggiator))
        } else if delay is Err {
            Err(err_of(delay))
        } else if distorsion is Err {
            Err(err_of(distorsion))
        } else if equalizer is Err {
            Err(err_of(equalizer))
        } else if modulation_fx is Err {
            Err(err_of(modulation_fx))
        } else if sidechain is Err {
            Err(err_of(sidechain))
        } else if cables is Err {
            Err(err_of(cables))
        } else if mod_knobs is Err {
            Err(err_of(mod_knobs))
        } else {
            Ok(
                SoundView {
                    generator: ok_of(generator),
                    polyphonic: ok_of(polyphonic),
                    voice_priority: ok_of(voice_priority),
                    volume: ok_of(volume),
                    reverb_amount: ok_of(reverb_amount),
                    stutter_rate: ok_of(stutter_rate),
                    pan: ok_of(pan),
                    portamento: ok_of(portamento),
                    sidechain_send: ok_of(sidechain_send),
                    envelope1: ok_of(envelope1),
                    envelope2: ok_of(envelope2),
                    lfo1: ok_of(lfo1),
                    lfo2: ok_of(lfo2),
                    unison: ok_of(unison),
                    arpeggiator: ok_of(arpeggiator),
                    delay: ok_of(delay),
                    distorsion: ok_of(distorsion),
                    equalizer: ok_of(equalizer),
                    modulation_fx: ok_of(modulation_fx),
                    sidechain: ok_of(sidechain),
                    cables: ok_of(cables),
                    mod_knobs: ok_of(mod_knobs),
                },
            )
        }
    }
}

/// Loads a sound: a synth patch, or a row of a kit.
pub fn load_sound(root: &XmlElement, version: FormatVersion) -> (r: Result<Sound, SerializationError>)
    ensures
        match spec_load_sound(element_view(*root), version) {
            Ok(v) => r matches Ok(x) && x@ == v,
            Err(e) => r matches Err(f) && f@ == e,
        },
{
    proof {
        reveal(spec_load_sound);
    }
    let st = value_style(version);
    let mode = match load_mode(root, version) {
        Ok(v) => v,
        Err(e) => return Err(e),
    };
    let params = match get_children_element(root, "defaultParams") {
        Ok(v) => v,
        Err(e) => return Err(e),
    };
    let generator = match load_engine(root, mode, version) {
        Ok(v) => v,
        Err(e) => return Err(e),
    };
    let polyphonic = match parse_value::<Polyphony>(root, "polyphonic", st) {
        Ok(v) => v,
        Err(e) => return Err(e),
    };
    let voice_priority = match parse_value::<VoicePriority>(root, "voicePriority", st) {
        Ok(v) => v,
        Err(e) => return Err(e),
    };
    let volume = match parse_value::<HexU50>(params, "volume", st) {
        Ok(v) => v,
        Err(e) => return Err(e),
    };
    let reverb_amount = match parse_value::<HexU50>(params, "reverbAmount", st) {
        Ok(v) => v,
        Err(e) => return Err(e),
    };
    let stutter_rate = match parse_value::<HexU50>(params, "stutterRate", st) {
        Ok(v) => v,
        Err(e) => return Err(e),
    };
    let pan = match parse_value::<Pan>(params, "pan", st) {
        Ok(v) => v,
        Err(e) => return Err(e),
    };
    let portamento = match parse_value::<HexU50>(params, "portamento", st) {
        Ok(v) => v,
        Err(e) => return Err(e),
    };
    let sidechain_send = match parse_opt_value::<DecU50>(root, "sideChainSend", st) {
        Ok(v) => v,
        Err(e) => return Err(e),
    };
    let envelope1 = match match get_children_element(params, "envelope1") {
        Ok(n) => load_envelope(n, st),
        Err(e) => Err(e),
    } {
        Ok(v) => v,
        Err(e) => return Err(e),
    };
    let envelope2 = match match get_children_element(params, "envelope2") {
        Ok(n) => load_envelope(n, st),
        Err(e) => Err(e),
    } {
        Ok(v) => v,
        Err(e) => return Err(e),
    };
    let lfo1 = match match get_children_element(root, "lfo1") {
        Ok(n) => load_lfo1(n, params, st),
        Err(e) => Err(e),
    } {
        Ok(v) => v,
        Err(e) => return Err(e),
    };
    let lfo2 = match match get_children_element(root, "lfo2") {
        Ok(n) => load_lfo2(n, params, st),
        Err(e) => Err(e),
    } {
        Ok(v) => v,
        Err(e) => return Err(e),
    };
    let unison = match match get_children_element(root, "unison") {
        Ok(n) => load_unison(n, st),
        Err(e) => Err(e),
    } {
        Ok(v) => v,
        Err(e) => return Err(e),
    };
    let arpeggiator = match load_sound_arpeggiator(root, params, version) {
        Ok(v) => v,
        Err(e) => return Err(e),
    };
    let delay = match match get_children_element(root, "delay") {
        Ok(n) => load_delay_with(n, params, st, "delayFeedback", "delayRate"),
        Err(e) => Err(e),
    } {
        Ok(v) => v,
        Err(e) => return Err(e),
    };
    let distorsion = match load_distorsion(root, params, st) {
        Ok(v) => v,
        Err(e) => return Err(e),
    };
    let equalizer = match match get_children_element(params, "equalizer") {
        Ok(n) => load_equalizer(n, st),
        Err(e) => Err(e),
    } {
        Ok(v) => v,
        Err(e) => return Err(e),
    };
    let modulation_fx = match load_modulation_fx(root, version) {
        Ok(v) => v,
        Err(e) => return Err(e),
    };
    let sidechain = match load_sound_sidechain(root, params, version) {
        Ok(v) => v,
        Err(e) => return Err(e),
    };
    let cables = match match get_children_element(params, "patchCables") {
        Ok(n) => load_patch_cables(n, st),
        Err(e) => Err(e),
    } {
        Ok(v) => v,
        Err(e) => return Err(e),
    };
    let mod_knobs = match match get_children_element(root, "modKnobs") {
        Ok(n) => load_mod_knobs(n, st),
        Err(e) => Err(e),
    } {
        Ok(v) => v,
        Err(e) => return Err(e),
    };
    Ok(
        Sound {
            generator,
            polyphonic,
            voice_priority,
            volume,
            reverb_amount,
            stutter_rate,
            pan,
            portamento,
            sidechain_send,
            envelope1,
            envelope2,
            lfo1,
            lfo2,
            unison,
            arpeggiator,
            delay,
            distorsion,
            equalizer,
            modulation_fx,
            sidechain,
            cables,
            mod_knobs,
        },
    )
}

/// The version whose sound loader reads the rows of a kit: the second format reads
/// its rows as the first one does.
pub open spec fn rows_version(version: FormatVersion) -> FormatVersion {
    if version == FormatVersion::Version3 {
        FormatVersion::Version3
    } else {
        FormatVersion::Version1
    }
}

/// What loading a row of a kit gives, by the name of its element.
pub open spec fn spec_load_sound_source(n: XmlElementView, version: FormatVersion) -> Result<RowKitView, ErrorView> {
    let st = style_of(version);
    if n.name == "sound"@ {
        let sound = spec_load_sound(n, rows_version(version));
        if sound is Err {
            Err(err_of(sound))
        } else if version == FormatVersion::Version3 {
            Ok(
                RowKitView::Sound(
                    SoundRowView {
                        sound: ok_of(sound),
                        name: match lookup(n, "name"@, ValueStyle::Attribute) {
                            Some(t) => t,
                            None => Seq::empty(),
                        },
                    },
                ),
            )
        } else {
            match spec_text_value(n, "name"@, ValueStyle::Child) {
                Ok(name) => Ok(RowKitView::Sound(SoundRowView { sound: ok_of(sound), name })),
                Err(e) => Err(e),
            }
        }
    } else if n.name == "midiOutput"@ {
        let channel = spec_parse_value::<MidiChannel>(n, "channel"@, st);
        let note = spec_parse_value::<u8>(n, "note"@, st);
        if channel is Err {
            Err(err_of(channel))
        } else if note is Err {
            Err(err_of(note))
        } else {
            Ok(RowKitView::Midi(MidiRow { channel: ok_of(channel), note: ok_of(note) }))
        }
    } else if n.name == "gateOutput"@ {
        match spec_parse_value::<CvGateChannel>(n, "channel"@, st) {
            Ok(channel) => Ok(RowKitView::CvGate(CvGateRow { channel })),
            Err(e) => Err(e),
        }
    } else {
        Err(ErrorView::UnsupportedSoundSource(n.name))
    }
}

fn rows_version_of(version: FormatVersion) -> (r: FormatVersion)
    ensures
        r == rows_version(version),
{
    if version == FormatVersion::Version3 {
        FormatVersion::Version3
    } else {
        FormatVersion::Version1
    }
}

/// Loads a row of a kit.
pub fn load_sound_source(n: &XmlElement, version: FormatVersion) -> (r: Result<RowKit, SerializationError>)
    ensures
        match spec_load_sound_source(element_view(*n), version) {
            Ok(v) => r matches Ok(x) && x@ == v,
            Err(e) => r matches Err(f) && f@ == e,
        },
{
    let st = value_style(version);
    if str_eq(n.name.as_str(), "sound") {
        let sound = match load_sound(n, rows_version_of(version)) {
            Ok(v) => v,
            Err(e) => return Err(e),
        };
        if version == FormatVersion::Version3 {
            let name = match get_value(n, "name", ValueStyle::Attribute) {
                Some(t) => owned_text(t),
                None => String::new(),
            };
            Ok(RowKit::Sound(SoundRow { sound: Box::new(sound), name }))
        } else {
            match text_value(n, "name", ValueStyle::Child) {
                Ok(name) => Ok(RowKit::Sound(SoundRow { sound: Box::new(sound), name })),
                Err(e) => Err(e),
            }
        }
    } else if str_eq(n.name.as_str(), "midiOutput") {
        let channel = match parse_value::<MidiChannel>(n, "channel", st) {
            Ok(v) => v,
            Err(e) => return Err(e),
        };
        let note = match parse_value::<u8>(n, "note", st) {
            Ok(v) => v,
            Err(e) => return Err(e),
        };
        Ok(RowKit::Midi(MidiRow { channel, note }))
    } else if str_eq(n.name.as_str(), "gateOutput") {
        match parse_value::<CvGateChannel>(n, "channel", st) {
            Ok(channel) => Ok(RowKit::CvGate(CvGateRow { channel })),
            Err(e) => Err(e),
        }
    } else {
        Err(SerializationError::UnsupportedSoundSource(n.name.clone()))
    }
}

/// What loading rows gives: each in order; the first error stops.
pub open spec fn spec_load_row_list(nodes: Seq<XmlElementView>, version: FormatVersion) -> Result<
    Seq<RowKitView>,
    ErrorView,
>
    decreases nodes.len(),
{
    if nodes.len() == 0 {
        Ok(Seq::empty())
    } else {
        match spec_load_row_list(nodes.drop_last(), version) {
            Err(e) => Err(e),
            Ok(v) => match spec_load_sound_source(nodes.last(), version) {
                Err(e) => Err(e),
                Ok(x) => Ok(v.push(x)),
            },
        }
    }
}

proof fn lemma_list_err_extends_rows(nodes: Seq<XmlElementView>, k: int, version: FormatVersion)
    requires
        0 <= k <= nodes.len(),
        spec_load_row_list(nodes.subrange(0, k), version) is Err,
    ensures
        spec_load_row_list(nodes, version) == spec_load_row_list(nodes.subrange(0, k), version),
    decreases nodes.len() - k,
{
    if k == nodes.len() {
        assert(nodes.subrange(0, k) =~= nodes);
    } else {
        assert(nodes.subrange(0, k + 1).drop_last() =~= nodes.subrange(0, k));
        lemma_list_err_extends_rows(nodes, k + 1, version);
    }
}

/// Loads every element child of the sound sources as a row.
pub fn load_rows(sources: &XmlElement, version: FormatVersion) -> (r: Result<Vec<RowKit>, SerializationError>)
    ensures
        match spec_load_row_list(element_children(element_view(*sources).children), version) {
            Ok(v) => r matches Ok(x) && x@.map_values(|y: RowKit| y@) == v,
            Err(e) => r matches Err(f) && f@ == e,
        },
{
    let nodes = get_element_children(sources);
    let ghost views = element_children(element_view(*sources).children);
    let mut rows: Vec<RowKit> = Vec::new();
    let mut i: usize = 0;
    assert(views.subrange(0, 0) =~= Seq::<XmlElementView>::empty());
    assert(rows@.map_values(|x: RowKit| x@) =~= Seq::<RowKitView>::empty());
    while i < nodes.len()
        invariant
            i <= nodes@.len(),
            nodes@.len() == views.len(),
            views == element_children(element_view(*sources).children),
            forall|j: int| 0 <= j < nodes@.len() ==> element_view(*nodes@[j]) == #[trigger] views[j],
            spec_load_row_list(views.subrange(0, i as int), version) == Ok::<Seq<RowKitView>, ErrorView>(
                rows@.map_values(|x: RowKit| x@),
            ),
        decreases nodes.len() - i,
    {
        assert(views.subrange(0, i + 1).drop_last() =~= views.subrange(0, i as int));
        assert(views.subrange(0, i + 1).last() == views[i as int]);
        let x = match load_sound_source(nodes[i], version) {
            Ok(x) => x,
            Err(e) => {
                proof {
                    lemma_list_err_extends_rows(views, (i + 1) as int, version);
                }
                return Err(e);
            },
        };
        let ghost before = rows@;
        rows.push(x);
        assert(rows@.map_values(|y: RowKit| y@) =~= before.map_values(|y: RowKit| y@).push(x@));
        i = i + 1;
    }
    assert(views.subrange(0, i as int) =~= views);
    Ok(rows)
}

/// The first root element with that name.
pub open spec fn root_element(roots: Seq<XmlElementView>, key: Seq<char>) -> Option<XmlElementView>
    decreases roots.len(),
{
    if roots.len() == 0 {
        None
    } else {
        match root_element(roots.drop_last(), key) {
            Some(e) => Some(e),
            None => if roots.last().name == key {
                Some(roots.last())
            } else {
                None
            },
        }
    }
}

/// The views of root elements.
pub open spec fn roots_view(roots: Seq<XmlElement>) -> Seq<XmlElementView> {
    roots.map_values(|e: XmlElement| element_view(e))
}

/// What finding a required root element gives.
pub open spec fn spec_get_element(roots: Seq<XmlElementView>, key: Seq<char>) -> Result<XmlElementView, ErrorView> {
    match root_element(roots, key) {
        Some(e) => Ok(e),
        None => Err(ErrorView::MissingElement(key)),
    }
}

proof fn lemma_root_element_prefix(roots: Seq<XmlElementView>, k: int, key: Seq<char>)
    requires
        0 <= k <= roots.len(),
        root_element(roots.subrange(0, k), key) is Some,
    ensures
        root_element(roots, key) == root_element(roots.subrange(0, k), key),
    decreases roots.len() - k,
{
    if k == roots.len() {
        assert(roots.subrange(0, k) =~= roots);
    } else {
        assert(roots.subrange(0, k + 1).drop_last() =~= roots.subrange(0, k));
        lemma_root_element_prefix(roots, k + 1, key);
    }
}

/// Finds the first root element with that name.
pub fn get_opt_element<'a>(roots: &'a Vec<XmlElement>, key: &str) -> (r: Option<&'a XmlElement>)
    ensures
        match root_element(roots_view(roots@), key@) {
            Some(e) => r matches Some(x) && element_view(*x) == e,
            None => r is None,
        },
{
    let ghost views = roots_view(roots@);
    let mut i: usize = 0;
    assert(views.subrange(0, 0) =~= Seq::<XmlElementView>::empty());
    while i < roots.len()
        invariant
            i <= roots@.len(),
            views == roots_view(roots@),
            root_element(views.subrange(0, i as int), key@) is None,
        decreases roots.len() - i,
    {
        assert(views.subrange(0, i + 1).drop_last() =~= views.subrange(0, i as int));
        assert(views.subrange(0, i + 1).last() == element_view(roots@[i as int]));
        if str_eq(roots[i].name.as_str(), key) {
            proof {
                lemma_root_element_prefix(views, (i + 1) as int, key@);
            }
            return Some(&roots[i]);
        }
        i = i + 1;
    }
    assert(views.subrange(0, i as int) =~= views);
    None
}

/// Finds a required root element.
pub fn get_element<'a>(roots: &'a Vec<XmlElement>, key: &str) -> (r: Result<&'a XmlElement, SerializationError>)
    ensures
        match spec_get_element(roots_view(roots@), key@) {
            Ok(e) => r matches Ok(x) && element_view(*x) == e,
            Err(err) => r matches Err(f) && f@ == err,
        },
{
    match get_opt_element(roots, key) {
        Some(e) => Ok(e),
        None => Err(SerializationError::MissingElement(owned_text(key))),
    }
}

/// What loading a synth patch gives: the sound at the root.
pub open spec fn spec_load_synth_nodes(roots: Seq<XmlElementView>, version: FormatVersion) -> Result<SoundView, ErrorView> {
    match spec_get_element(roots, "sound"@) {
        Ok(n) => spec_load_sound(n, version),
        Err(e) => Err(e),
    }
}

/// Loads a synth patch from the root elements of its document.
pub fn load_synth_nodes(roots: &Vec<XmlElement>, version: FormatVersion) -> (r: Result<crate::synth::Synth, SerializationError>)
    ensures
        match spec_load_synth_nodes(roots_view(roots@), version) {
            Ok(v) => r matches Ok(x) && x@ == v,
            Err(e) => r matches Err(f) && f@ == e,
        },
{
    match get_element(roots, "sound") {
        Ok(n) => match load_sound(n, version) {
            Ok(sound) => Ok(crate::synth::Synth { sound }),
            Err(e) => Err(e),
        },
        Err(e) => Err(e),
    }
}

/// What reading the selected row of a kit gives: an empty text is none. The first two
/// formats require the element, the third one may leave it out.
pub open spec fn spec_load_selected_row(kit: XmlElementView, version: FormatVersion) -> Result<Option<u32>, ErrorView> {
    let node = if version == FormatVersion::Version3 {
        match child_element(kit.children, "selectedDrumIndex"@) {
            Some(n) => Ok(Some(n)),
            None => Ok(None),
        }
    } else {
        match spec_child(kit, "selectedDrumIndex"@) {
            Ok(n) => Ok(Some(n)),
            Err(e) => Err(e),
        }
    };
    match node {
        Err(e) => Err(e),
        Ok(None) => Ok(None),
        Ok(Some(n)) => {
            let t = first_text(n.children);
            if t.len() == 0 {
                Ok(None)
            } else {
                match u32::spec_from_text(t) {
                    Ok(v) => Ok(Some(v)),
                    Err(e) => Err(e),
                }
            }
        },
    }
}

fn load_selected_row(kit: &XmlElement, version: FormatVersion) -> (r: Result<Option<u32>, SerializationError>)
    ensures
        result_view(r) == spec_load_selected_row(element_view(*kit), version),
{
    let node = if version == FormatVersion::Version3 {
        get_opt_children_element(kit, "selectedDrumIndex")
    } else {
        match get_children_element(kit, "selectedDrumIndex") {
            Ok(n) => Some(n),
            Err(e) => return Err(e),
        }
    };
    match node {
        None => Ok(None),
        Some(n) => {
            let t = get_first_text(n);
            if vstd::string::StrSliceExecFns::unicode_len(t) == 0 {
                Ok(None)
            } else {
                match u32::from_text(t) {
                    Ok(v) => Ok(Some(v)),
                    Err(e) => Err(e),
                }
            }
        },
    }
}

/// What reading a global value of a kit in the first two formats gives: from its default
/// parameters when it has some, else 0.
pub open spec fn spec_load_global_hexu(kit: XmlElementView, key: Seq<char>) -> Result<HexU50, ErrorView> {
    match child_element(kit.children, "defaultParams"@) {
        Some(p) => spec_parse_value::<HexU50>(p, key, ValueStyle::Child),
        None => Ok(HexU50(0)),
    }
}

/// Reads a global value of a kit in the first two formats.
pub fn load_global_hexu(kit: &XmlElement, key: &str) -> (r: Result<HexU50, SerializationError>)
    ensures
        result_view(r) == spec_load_global_hexu(element_view(*kit), key@),
{
    match get_opt_children_element(kit, "defaultParams") {
        Some(p) => parse_value::<HexU50>(p, key, ValueStyle::Child),
        None => Ok(HexU50::new(0)),
    }
}

/// What reading the pan of a kit in the first two formats gives: the centre when it has
/// no default parameters.
pub open spec fn spec_load_global_pan(kit: XmlElementView) -> Result<Pan, ErrorView> {
    match child_element(kit.children, "defaultParams"@) {
        Some(p) => spec_parse_value::<Pan>(p, "pan"@, ValueStyle::Child),
        None => Ok(Pan::spec_center()),
    }
}

/// Reads the pan of a kit in the first two formats.
pub fn load_global_pan(kit: &XmlElement) -> (r: Result<Pan, SerializationError>)
    ensures
        result_view(r) == spec_load_global_pan(element_view(*kit)),
{
    match get_opt_children_element(kit, "defaultParams") {
        Some(p) => parse_value::<Pan>(p, "pan", ValueStyle::Child),
        None => Ok(Pan::default()),
    }
}

/// What reading a global value of a kit gives, in any format.
pub open spec fn spec_load_kit_hexu(kit: XmlElementView, key: Seq<char>, version: FormatVersion) -> Result<HexU50, ErrorView> {
    if version == FormatVersion::Version3 {
        match spec_child(kit, "defaultParams"@) {
            Ok(p) => spec_parse_value::<HexU50>(p, key, ValueStyle::Attribute),
            Err(e) => Err(e),
        }
    } else {
        spec_load_global_hexu(kit, key)
    }
}

fn load_kit_hexu(kit: &XmlElement, key: &str, version: FormatVersion) -> (r: Result<HexU50, SerializationError>)
    ensures
        result_view(r) == spec_load_kit_hexu(element_view(*kit), key@, version),
{
    if version == FormatVersion::Version3 {
        match get_children_element(kit, "defaultParams") {
            Ok(p) => parse_value::<HexU50>(p, key, ValueStyle::Attribute),
            Err(e) => Err(e),
        }
    } else {
        load_global_hexu(kit, key)
    }
}

/// What reading the pan of a kit gives, in any format.
pub open spec fn spec_load_kit_pan(kit: XmlElementView, version: FormatVersion) -> Result<Pan, ErrorView> {
    if version == FormatVersion::Version3 {
        match spec_child(kit, "defaultParams"@) {
            Ok(p) => spec_parse_value::<Pan>(p, "pan"@, ValueStyle::Attribute),
            Err(e) => Err(e),
        }
    } else {
        spec_load_global_pan(kit)
    }
}

fn load_kit_pan(kit: &XmlElement, version: FormatVersion) -> (r: Result<Pan, SerializationError>)
    ensures
        result_view(r) == spec_load_kit_pan(element_view(*kit), version),
{
    if version == FormatVersion::Version3 {
        match get_children_element(kit, "defaultParams") {
            Ok(p) => parse_value::<Pan>(p, "pan", ValueStyle::Attribute),
            Err(e) => Err(e),
        }
    } else {
        load_global_pan(kit)
    }
}

/// What loading the delay of a kit gives. Its amount and rate are in a `delay` element
/// among the default parameters; the first format has no other setting and uses the
/// default ones, the others read them on the `delay` element of the kit.
pub open spec fn spec_load_global_delay(kit: XmlElementView, version: FormatVersion) -> Result<Delay, ErrorView> {
    let st = style_of(version);
    let params = spec_child(kit, "defaultParams"@);
    if params is Err {
        Err(err_of(params))
    } else {
        let default_delay = spec_child(ok_of(params), "delay"@);
        if default_delay is Err {
            Err(err_of(default_delay))
        } else if version == FormatVersion::Version1 {
            let amount = spec_parse_value::<HexU50>(ok_of(default_delay), "feedback"@, st);
            let rate = spec_parse_value::<HexU50>(ok_of(default_delay), "rate"@, st);
            if amount is Err {
                Err(err_of(amount))
            } else if rate is Err {
                Err(err_of(rate))
            } else {
                Ok(
                    Delay {
                        ping_pong: OnOff::On,
                        analog: OnOff::Off,
                        sync_level: SyncLevel::Sixteenth,
                        amount: ok_of(amount),
                        rate: ok_of(rate),
                    },
                )
            }
        } else {
            match spec_child(kit, "delay"@) {
                Ok(d) => spec_load_delay_with(d, ok_of(default_delay), st, "feedback"@, "rate"@),
                Err(e) => Err(e),
            }
        }
    }
}

/// Loads the delay of a kit.
pub fn load_global_delay(kit: &XmlElement, version: FormatVersion) -> (r: Result<Delay, SerializationError>)
    ensures
        result_view(r) == spec_load_global_delay(element_view(*kit), version),
{
    let st = value_style(version);
    let params = match get_children_element(kit, "defaultParams") {
        Ok(v) => v,
        Err(e) => return Err(e),
    };
    let default_delay = match get_children_element(params, "delay") {
        Ok(v) => v,
        Err(e) => return Err(e),
    };
    if version == FormatVersion::Version1 {
        let amount = match parse_value::<HexU50>(default_delay, "feedback", st) {
            Ok(v) => v,
            Err(e) => return Err(e),
        };
        let rate = match parse_value::<HexU50>(default_delay, "rate", st) {
            Ok(v) => v,
            Err(e) => return Err(e),
        };
        Ok(Delay { ping_pong: OnOff::On, analog: OnOff::Off, sync_level: SyncLevel::Sixteenth, amount, rate })
    } else {
        match get_children_element(kit, "delay") {
            Ok(d) => load_delay_with(d, default_delay, st, "feedback", "rate"),
            Err(e) => Err(e),
        }
    }
}

/// What loading the sidechain of a kit gives: the default one in the first format; in
/// the second one, the default one with the sync of its compressor element, if any; in
/// the third one, read in full.
pub open spec fn spec_load_global_sidechain(kit: XmlElementView, version: FormatVersion) -> Result<Sidechain, ErrorView> {
    if version == FormatVersion::Version1 {
        Ok(spec_default_sidechain())
    } else if version == FormatVersion::Version2 {
        match child_element(kit.children, "compressor"@) {
            Some(c) => match spec_parse_value::<SyncLevel>(c, "syncLevel"@, ValueStyle::Child) {
                Ok(sync) => Ok(Sidechain { sync, ..spec_default_sidechain() }),
                Err(e) => Err(e),
            },
            None => Ok(spec_default_sidechain()),
        }
    } else {
        let compressor = spec_child(kit, "compressor"@);
        let params = spec_child(kit, "defaultParams"@);
        if compressor is Err {
            Err(err_of(compressor))
        } else if params is Err {
            Err(err_of(params))
        } else {
            spec_load_sidechain_with(
                ok_of(compressor),
                ok_of(params),
                ValueStyle::Attribute,
                "sidechainCompressorShape"@,
            )
        }
    }
}

/// Loads the sidechain of a kit.
pub fn load_global_sidechain(kit: &XmlElement, version: FormatVersion) -> (r: Result<Sidechain, SerializationError>)
    ensures
        result_view(r) == spec_load_global_sidechain(element_view(*kit), version),
{
    if version == FormatVersion::Version1 {
        Ok(Sidechain::default())
    } else if version == FormatVersion::Version2 {
        match get_opt_children_element(kit, "compressor") {
            Some(c) => match parse_value::<SyncLevel>(c, "syncLevel", ValueStyle::Child) {
                Ok(sync) => Ok(Sidechain { sync, ..Sidechain::default() }),
                Err(e) => Err(e),
            },
            None => Ok(Sidechain::default()),
        }
    } else {
        let compressor = match get_children_element(kit, "compressor") {
            Ok(v) => v,
            Err(e) => return Err(e),
        };
        let params = match get_children_element(kit, "defaultParams") {
            Ok(v) => v,
            Err(e) => return Err(e),
        };
        load_sidechain_with(compressor, params, ValueStyle::Attribute, "sidechainCompressorShape")
    }
}

/// What loading a filter of a kit gives: its element among the default parameters.
pub open spec fn spec_load_global_filter(kit: XmlElementView, key: Seq<char>, st: ValueStyle) -> Result<
    (HexU50, HexU50),
    ErrorView,
> {
    let params = spec_child(kit, "defaultParams"@);
    if params is Err {
        Err(err_of(params))
    } else {
        match spec_child(ok_of(params), key) {
            Err(e) => Err(e),
            Ok(n) => {
                let frequency = spec_parse_value::<HexU50>(n, "frequency"@, st);
                let resonance = spec_parse_value::<HexU50>(n, "resonance"@, st);
                if frequency is Err {
                    Err(err_of(frequency))
                } else if resonance is Err {
                    Err(err_of(resonance))
                } else {
                    Ok((ok_of(frequency), ok_of(resonance)))
                }
            },
        }
    }
}

fn load_global_filter(kit: &XmlElement, key: &str, st: ValueStyle) -> (r: Result<(HexU50, HexU50), SerializationError>)
    ensures
        result_view(r) == spec_load_global_filter(element_view(*kit), key@, st),
{
    let params = match get_children_element(kit, "defaultParams") {
        Ok(v) => v,
        Err(e) => return Err(e),
    };
    let n = match get_children_element(params, key) {
        Ok(v) => v,
        Err(e) => return Err(e),
    };
    let frequency = match parse_value::<HexU50>(n, "frequency", st) {
        Ok(v) => v,
        Err(e) => return Err(e),
    };
    let resonance = match parse_value::<HexU50>(n, "resonance", st) {
        Ok(v) => v,
        Err(e) => return Err(e),
    };
    Ok((frequency, resonance))
}

/// Loads the low pass filter of a kit.
pub fn load_global_lpf(kit: &XmlElement, st: ValueStyle) -> (r: Result<Lpf, SerializationError>)
    ensures
        match spec_load_global_filter(element_view(*kit), "lpf"@, st) {
            Ok((f, res)) => r matches Ok(x) && x == (Lpf { frequency: f, resonance: res }),
            Err(e) => r matches Err(x) && x@ == e,
        },
{
    match load_global_filter(kit, "lpf", st) {
        Ok((frequency, resonance)) => Ok(Lpf { frequency, resonance }),
        Err(e) => Err(e),
    }
}

/// Loads the high pass filter of a kit.
pub fn load_global_hpf(kit: &XmlElement, st: ValueStyle) -> (r: Result<Hpf, SerializationError>)
    ensures
        match spec_load_global_filter(element_view(*kit), "hpf"@, st) {
            Ok((f, res)) => r matches Ok(x) && x == (Hpf { frequency: f, resonance: res }),
            Err(e) => r matches Err(x) && x@ == e,
        },
{
    match load_global_filter(kit, "hpf", st) {
        Ok((frequency, resonance)) => Ok(Hpf { frequency, resonance }),
        Err(e) => Err(e),
    }
}

/// What loading the equalizer of a kit gives: in the first two formats, the default one
/// when it has no default parameters.
pub open spec fn spec_load_global_equalizer(kit: XmlElementView, version: FormatVersion) -> Result<Equalizer, ErrorView> {
    if version == FormatVersion::Version3 {
        match spec_child(kit, "defaultParams"@) {
            Err(e) => Err(e),
            Ok(p) => match spec_child(p, "equalizer"@) {
                Ok(n) => spec_load_equalizer(n, ValueStyle::Attribute),
                Err(e) => Err(e),
            },
        }
    } else {
        match child_element(kit.children, "defaultParams"@) {
            Some(p) => match spec_child(p, "equalizer"@) {
                Ok(n) => spec_load_equalizer(n, ValueStyle::Child),
                Err(e) => Err(e),
            },
            None => Ok(
                Equalizer {
                    bass_level: HexU50(25),
                    bass_frequency: HexU50(25),
                    treble_level: HexU50(25),
                    treble_frequency: HexU50(25),
                },
            ),
        }
    }
}

/// Loads the equalizer of a kit.
pub fn load_global_equalizer(kit: &XmlElement, version: FormatVersion) -> (r: Result<Equalizer, SerializationError>)
    ensures
        result_view(r) == spec_load_global_equalizer(element_view(*kit), version),
{
    if version == FormatVersion::Version3 {
        match get_children_element(kit, "defaultParams") {
            Err(e) => Err(e),
            Ok(p) => match get_children_element(p, "equalizer") {
                Ok(n) => load_equalizer(n, ValueStyle::Attribute),
                Err(e) => Err(e),
            },
        }
    } else {
        match get_opt_children_element(kit, "defaultParams") {
            Some(p) => match get_children_element(p, "equalizer") {
                Ok(n) => load_equalizer(n, ValueStyle::Child),
                Err(e) => Err(e),
            },
            None => Ok(Equalizer::default()),
        }
    }
}

/// What loading a kit patch gives, from the root elements of its document: its rows
/// first, then every global setting in turn; the first error stops.
#[verifier::opaque]
pub open spec fn spec_load_kit_nodes(roots: Seq<XmlElementView>, version: FormatVersion) -> Result<KitView, ErrorView> {
    let st = style_of(version);
    let kit = spec_get_element(roots, "kit"@);
    if kit is Err {
        Err(err_of(kit))
    } else {
        let k = ok_of(kit);
        let sources = spec_child(k, "soundSources"@);
        if sources is Err {
            Err(err_of(sources))
        } else {
            let rows = spec_load_row_list(element_children(ok_of(sources).children), version);
            let lpf_mode = spec_parse_value::<LpfMode>(k, "lpfMode"@, st);
            let modulation_fx = spec_load_modulation_fx(k, version);
            let current_filter_type = spec_parse_value::<FilterType>(k, "currentFilterType"@, st);
            let selected_row_index = spec_load_selected_row(k, version);
            let volume = spec_load_kit_hexu(k, "volume"@, version);
            let reverb_amount = spec_load_kit_hexu(k, "reverbAmount"@, version);
            let pan = spec_load_kit_pan(k, version);
            let bit_crush = spec_load_kit_hexu(k, "bitCrush"@, version);
            let decimation = spec_load_kit_hexu(k, "sampleRateReduction"@, version);
            let stutter_rate = spec_load_kit_hexu(k, "stutterRate"@, version);
            let delay = spec_load_global_delay(k, version);
            let sidechain = spec_load_global_sidechain(k, version);
            let lpf = spec_load_global_filter(k, "lpf"@, st);
            let hpf = spec_load_global_filter(k, "hpf"@, st);
            let equalizer = spec_load_global_equalizer(k, version);
            if rows is Err {
                Err(err_of(rows))
            } else if lpf_mode is Err {
                Err(err_of(lpf_mode))
            } else if modulation_fx is Err {
                Err(err_of(modulation_fx))
            } else if current_filter_type is Err {
                Err(err_of(current_filter_type))
            } else if selected_row_index is Err {
                Err(err_of(selected_row_index))
            } else if volume is Err {
                Err(err_of(volume))
            } else if reverb_amount is Err {
                Err(err_of(reverb_amount))
            } else if pan is Err {
                Err(err_of(pan))
            } else if bit_crush is Err {
                Err(err_of(bit_crush))
            } else if decimation is Err {
                Err(err_of(decimation))
            } else if stutter_rate is Err {
                Err(err_of(stutter_rate))
            } else if delay is Err {
                Err(err_of(delay))
            } else if sidechain is Err {
                Err(err_of(sidechain))
            } else if lpf is Err {
                Err(err_of(lpf))
            } else if hpf is Err {
                Err(err_of(hpf))
            } else if equalizer is Err {
                Err(err_of(equalizer))
            } else {
                Ok(
                    KitView {
                        rows: ok_of(rows),
                        selected_row_index: ok_of(selected_row_index),
                        volume: ok_of(volume),
                        pan: ok_of(pan),
                        reverb_amount: ok_of(reverb_amount),
                        lpf_mode: ok_of(lpf_mode),
                        current_filter_type: ok_of(current_filter_type),
                        bit_crush: ok_of(bit_crush),
                        decimation: ok_of(decimation),
                        stutter_rate: ok_of(stutter_rate),
                        modulation_fx: ok_of(modulation_fx),
                        delay: ok_of(delay),
                        sidechain: ok_of(sidechain),
                        lpf: Lpf { frequency: ok_of(lpf).0, resonance: ok_of(lpf).1 },
                        hpf: Hpf { frequency: ok_of(hpf).0, resonance: ok_of(hpf).1 },
                        equalizer: ok_of(equalizer),
                    },
                )
            }
        }
    }
}

/// Loads a kit patch from the root elements of its document.
pub fn load_kit_nodes(roots: &Vec<XmlElement>, version: FormatVersion) -> (r: Result<Kit, SerializationError>)
    ensures
        match spec_load_kit_nodes(roots_view(roots@), version) {
            Ok(v) => r matches Ok(x) && x@ == v,
            Err(e) => r matches Err(f) && f@ == e,
        },
{
    proof {
        reveal(spec_load_kit_nodes);
    }
    let st = value_style(version);
    let kit = match get_element(roots, "kit") {
        Ok(v) => v,
        Err(e) => return Err(e),
    };
    let sources = match get_children_element(kit, "soundSources") {
        Ok(v) => v,
        Err(e) => return Err(e),
    };
    let rows = match load_rows(sources, version) {
        Ok(v) => v,
        Err(e) => return Err(e),
    };
    let lpf_mode = match parse_value::<LpfMode>(kit, "lpfMode", st) {
        Ok(v) => v,
        Err(e) => return Err(e),
    };
    let modulation_fx = match load_modulation_fx(kit, version) {
        Ok(v) => v,
        Err(e) => return Err(e),
    };
    let current_filter_type = match parse_value::<FilterType>(kit, "currentFilterType", st) {
        Ok(v) => v,
        Err(e) => return Err(e),
    };
    let selected_row_index = match load_selected_row(kit, version) {
        Ok(v) => v,
        Err(e) => return Err(e),
    };
    let volume = match load_kit_hexu(kit, "volume", version) {
        Ok(v) => v,
        Err(e) => return Err(e),
    };
    let reverb_amount = match load_kit_hexu(kit, "reverbAmount", version) {
        Ok(v) => v,
        Err(e) => return Err(e),
    };
    let pan = match load_kit_pan(kit, version) {
        Ok(v) => v,
        Err(e) => return Err(e),
    };
    let bit_crush = match load_kit_hexu(kit, "bitCrush", version) {
        Ok(v) => v,
        Err(e) => return Err(e),
    };
    let decimation = match load_kit_hexu(kit, "sampleRateReduction", version) {
        Ok(v) => v,
        Err(e) => return Err(e),
    };
    let stutter_rate = match load_kit_hexu(kit, "stutterRate", version) {
        Ok(v) => v,
        Err(e) => return Err(e),
    };
    let delay = match load_global_delay(kit, version) {
        Ok(v) => v,
        Err(e) => return Err(e),
    };
    let sidechain = match load_global_sidechain(kit, version) {
        Ok(v) => v,
        Err(e) => return Err(e),
    };
    let lpf = match load_global_lpf(kit, st) {
        Ok(v) => v,
        Err(e) => return Err(e),
    };
    let hpf = match load_global_hpf(kit, st) {
        Ok(v) => v,
        Err(e) => return Err(e),
    };
    let equalizer = match load_global_equalizer(kit, version) {
        Ok(v) => v,
        Err(e) => return Err(e),
    };
    Ok(
        Kit {
            rows,
            selected_row_index,
            volume,
            pan,
            reverb_amount,
            lpf_mode,
            current_filter_type,
            bit_crush,
            decimation,
            stutter_rate,
            modulation_fx,
            delay,
            sidechain,
            lpf,
            hpf,
            equalizer,
        },
    )
}

} // verus!
