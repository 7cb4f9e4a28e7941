//! Under which name each value of a patch is written, and from which name it is read.
//!
//! Each writer puts a value under the name the Deluge gives it, and each loader takes a
//! value from that same name; these laws state it name by name, so that two values are
//! never exchanged, however the writer and the loader are written.
use vstd::prelude::*;
use crate::error::ErrorView;
use crate::kit::{Hpf, Lpf};
use crate::serialization::format_version::FormatVersion;
use crate::serialization::loading::{
    spec_child, spec_load_delay_with, spec_load_envelope, spec_load_equalizer, spec_load_global_delay,
    spec_load_global_filter, spec_load_patch_cable, spec_load_sidechain_with, spec_load_unison,
    spec_parse_sample_zone, spec_reset_waveform,
};
use crate::serialization::spec_milliseconds_to_samples;
use crate::serialization::loading::spec_load_sound_source;
use crate::serialization::writing::{spec_mod_knob_element, spec_row_element};
use crate::serialization::loading::spec_load_mod_knob;
use crate::sound::modulators::ModKnobView;
use crate::xml::lookup;
use crate::kit::row::{CvGateRow, MidiRow, RowKitView};
use crate::values::{CvGateChannel, MidiChannel};
use crate::values::sample_position::SamplePosition;
use crate::values::sidechain_values::{AttackSidechain, ReleaseSidechain};
use crate::values::simple_enums::SyncLevel;
use crate::values::{UnisonDetune, UnisonVoiceCount};
use crate::xml::{spec_parse_opt_value, spec_text_value};
use crate::serialization::round_trip::{holds, lemma_keys_small};
use crate::serialization::writing::{
    spec_arpeggiator_element, spec_cable_element, spec_carrier_element, spec_delay_element, spec_envelope_element,
    spec_equalizer_element, spec_filter_element, spec_lfo1_element, spec_modulator_element,
    spec_sample_oscillator_element, spec_sidechain_element, spec_unison_element, spec_waveform_element,
    spec_zone_element,
};
use crate::serialization::TwinSelector;
use crate::sound::effects::{Delay, Sidechain};
use crate::sound::fm::{FmCarrier, FmModulator};
use crate::sound::modulators::{Lfo1, PatchCableView};
use crate::sound::subtractive::{SampleOscillatorView, SampleZone};
use crate::sound::{Arpeggiator, Unison};
use crate::values::XmlValue;
use crate::xml::attr_value;
use crate::sound::effects::Equalizer;
use crate::sound::modulators::Envelope;
use crate::sound::WaveformOscillator;
use crate::values::hexu50::HexU50;
use crate::values::on_off::OnOff;
use crate::values::retrig_phase::RetrigPhase;
use crate::xml::{spec_parse_value, ValueStyle, XmlElementView};

verus! {

/// The element written for an envelope holds its attack under `attack`, its decay under
/// `decay`, its sustain under `sustain` and its release under `release`.
pub proof fn lemma_envelope_written_keys(e: Envelope, name: Seq<char>)
    ensures
        holds(spec_envelope_element(e, name), "attack"@, e.attack),
        holds(spec_envelope_element(e, name), "decay"@, e.decay),
        holds(spec_envelope_element(e, name), "sustain"@, e.sustain),
        holds(spec_envelope_element(e, name), "release"@, e.release),
{
    broadcast use crate::xml::lemma_attr_value_push;

    lemma_keys_small();
}

/// Loading an envelope takes its attack from `attack`, its decay from `decay`, its sustain
/// from `sustain` and its release from `release`, and succeeds whenever all four read.
pub proof fn lemma_envelope_read_keys(n: XmlElementView, st: ValueStyle)
    ensures
        spec_load_envelope(n, st) matches Ok(e) ==> {
            &&& spec_parse_value::<HexU50>(n, "attack"@, st) == Ok::<HexU50, ErrorView>(e.attack)
            &&& spec_parse_value::<HexU50>(n, "decay"@, st) == Ok::<HexU50, ErrorView>(e.decay)
            &&& spec_parse_value::<HexU50>(n, "sustain"@, st) == Ok::<HexU50, ErrorView>(e.sustain)
            &&& spec_parse_value::<HexU50>(n, "release"@, st) == Ok::<HexU50, ErrorView>(e.release)
        },
        spec_parse_value::<HexU50>(n, "attack"@, st) is Ok && spec_parse_value::<HexU50>(n, "decay"@, st) is Ok
            && spec_parse_value::<HexU50>(n, "sustain"@, st) is Ok && spec_parse_value::<HexU50>(n, "release"@, st) is Ok
            ==> spec_load_envelope(n, st) is Ok,
{
}

/// The element written for an equalizer holds its bass level under `bass`, its bass
/// frequency under `bassFrequency`, its treble level under `treble` and its treble
/// frequency under `trebleFrequency`.
pub proof fn lemma_equalizer_written_keys(eq: Equalizer)
    ensures
        holds(spec_equalizer_element(eq), "bass"@, eq.bass_level),
        holds(spec_equalizer_element(eq), "bassFrequency"@, eq.bass_frequency),
        holds(spec_equalizer_element(eq), "treble"@, eq.treble_level),
        holds(spec_equalizer_element(eq), "trebleFrequency"@, eq.treble_frequency),
{
    broadcast use crate::xml::lemma_attr_value_push;

    lemma_keys_small();
}

/// Loading an equalizer takes its bass level from `bass`, its bass frequency from
/// `bassFrequency`, its treble level from `treble` and its treble frequency from
/// `trebleFrequency`, and succeeds whenever all four read.
pub proof fn lemma_equalizer_read_keys(n: XmlElementView, st: ValueStyle)
    ensures
        spec_load_equalizer(n, st) matches Ok(eq) ==> {
            &&& spec_parse_value::<HexU50>(n, "bass"@, st) == Ok::<HexU50, ErrorView>(eq.bass_level)
            &&& spec_parse_value::<HexU50>(n, "bassFrequency"@, st) == Ok::<HexU50, ErrorView>(eq.bass_frequency)
            &&& spec_parse_value::<HexU50>(n, "treble"@, st) == Ok::<HexU50, ErrorView>(eq.treble_level)
            &&& spec_parse_value::<HexU50>(n, "trebleFrequency"@, st) == Ok::<HexU50, ErrorView>(eq.treble_frequency)
        },
        spec_parse_value::<HexU50>(n, "bass"@, st) is Ok && spec_parse_value::<HexU50>(n, "bassFrequency"@, st) is Ok
            && spec_parse_value::<HexU50>(n, "treble"@, st) is Ok && spec_parse_value::<HexU50>(
            n,
            "trebleFrequency"@,
            st,
        ) is Ok ==> spec_load_equalizer(n, st) is Ok,
{
}

/// The element written for a filter of a kit holds its frequency under `frequency` and
/// its resonance under `resonance`.
pub proof fn lemma_filter_written_keys(name: Seq<char>, frequency: HexU50, resonance: HexU50)
    ensures
        holds(spec_filter_element(name, frequency, resonance), "frequency"@, frequency),
        holds(spec_filter_element(name, frequency, resonance), "resonance"@, resonance),
{
    broadcast use crate::xml::lemma_attr_value_push;

    reveal_strlit("frequency");
    reveal_strlit("resonance");
    assert("frequency"@[0] != "resonance"@[0]);
}

/// Loading a filter of a kit takes, from its element among the default parameters, the
/// frequency from `frequency` and the resonance from `resonance`.
pub proof fn lemma_filter_read_keys(kit: XmlElementView, key: Seq<char>, st: ValueStyle)
    ensures
        spec_load_global_filter(kit, key, st) matches Ok((f, r)) ==> (spec_child(kit, "defaultParams"@) matches Ok(
            params,
        ) && spec_child(params, key) matches Ok(n) && spec_parse_value::<HexU50>(n, "frequency"@, st) == Ok::<
            HexU50,
            ErrorView,
        >(f) && spec_parse_value::<HexU50>(n, "resonance"@, st) == Ok::<HexU50, ErrorView>(r)),
{
}

/// In the first format, an oscillator reset switch that is on makes a waveform oscillator
/// restart at phase 0, and one that is off makes it never restart; without the switch the
/// oscillator is left as it is. Nothing else of the oscillator changes.
pub proof fn lemma_oscillator_reset_phase(osc: WaveformOscillator, reset: Option<OnOff>)
    ensures
        reset == Some(OnOff::On) ==> spec_reset_waveform(osc, reset).retrig_phase == RetrigPhase::Degrees(0),
        reset == Some(OnOff::Off) ==> spec_reset_waveform(osc, reset).retrig_phase == RetrigPhase::Off,
        reset is None ==> spec_reset_waveform(osc, reset) == osc,
        spec_reset_waveform(osc, reset) == (WaveformOscillator {
            retrig_phase: spec_reset_waveform(osc, reset).retrig_phase,
            ..osc
        }),
{
}

/// The element written for a delay holds its ping-pong switch under `pingPong`, its
/// analog switch under `analog` and its sync level under `syncLevel`.
pub proof fn lemma_delay_written_keys(d: Delay)
    ensures
        holds(spec_delay_element(d), "pingPong"@, d.ping_pong),
        holds(spec_delay_element(d), "analog"@, d.analog),
        holds(spec_delay_element(d), "syncLevel"@, d.sync_level),
{
    broadcast use crate::xml::lemma_attr_value_push;

    lemma_keys_small();
}

/// The element written for a sidechain holds its attack under `attack`, its release under
/// `release` and its sync level under `syncLevel`.
pub proof fn lemma_sidechain_written_keys(sc: Sidechain)
    ensures
        holds(spec_sidechain_element(sc), "attack"@, sc.attack),
        holds(spec_sidechain_element(sc), "release"@, sc.release),
        holds(spec_sidechain_element(sc), "syncLevel"@, sc.sync),
{
    broadcast use crate::xml::lemma_attr_value_push;

    lemma_keys_small();
}

/// The element written for a unison holds its voice count under `num` and its detune
/// under `detune`.
pub proof fn lemma_unison_written_keys(u: Unison)
    ensures
        holds(spec_unison_element(u), "num"@, u.voice_count),
        holds(spec_unison_element(u), "detune"@, u.detune),
{
    broadcast use crate::xml::lemma_attr_value_push;

    lemma_keys_small();
}

/// The element written for an arpeggiator holds its mode under `mode`, its sync level
/// under `syncLevel` and its number of octaves under `numOctaves`.
pub proof fn lemma_arpeggiator_written_keys(a: Arpeggiator)
    ensures
        holds(spec_arpeggiator_element(a), "mode"@, a.mode),
        holds(spec_arpeggiator_element(a), "syncLevel"@, a.sync_level),
        holds(spec_arpeggiator_element(a), "numOctaves"@, a.octaves_count),
{
    broadcast use crate::xml::lemma_attr_value_push;

    lemma_keys_small();
}

/// The element written for the first LFO holds its shape under `type` and its sync level
/// under `syncLevel`.
pub proof fn lemma_lfo1_written_keys(l: Lfo1)
    ensures
        holds(spec_lfo1_element(l), "type"@, l.shape),
        holds(spec_lfo1_element(l), "syncLevel"@, l.sync_level),
{
    broadcast use crate::xml::lemma_attr_value_push;

    lemma_keys_small();
}

/// The element written for a patch cable holds its source under `source`, its destination
/// under `destination` and its amount under `amount`.
pub proof fn lemma_cable_written_keys(c: PatchCableView)
    ensures
        attr_value(spec_cable_element(c).attributes, "source"@) == Some(c.source),
        attr_value(spec_cable_element(c).attributes, "destination"@) == Some(c.destination),
        holds(spec_cable_element(c), "amount"@, c.amount),
{
    broadcast use crate::xml::lemma_attr_value_push;

    lemma_keys_small();
}

/// The element written for a sample zone holds its start under `startSamplePos`, its end
/// under `endSamplePos`, and its loop start and end, when it has them, under
/// `startLoopPos` and `endLoopPos`.
pub proof fn lemma_zone_written_keys(z: SampleZone)
    ensures
        holds(spec_zone_element(z), "startSamplePos"@, z.start),
        holds(spec_zone_element(z), "endSamplePos"@, z.end),
        attr_value(spec_zone_element(z).attributes, "startLoopPos"@) == match z.start_loop {
            Some(p) => Some(p.spec_to_text()),
            None => None,
        },
        attr_value(spec_zone_element(z).attributes, "endLoopPos"@) == match z.end_loop {
            Some(p) => Some(p.spec_to_text()),
            None => None,
        },
{
    broadcast use {
        crate::xml::lemma_attr_value_push,
        crate::xml::lemma_attr_value_concat,
    };

    crate::serialization::round_trip::lemma_keys_osc();
    assert(attr_value(Seq::<(Seq<char>, Seq<char>)>::empty(), "startLoopPos"@) is None);
    assert(attr_value(Seq::<(Seq<char>, Seq<char>)>::empty(), "endLoopPos"@) is None);
}

/// The element written for a waveform oscillator holds its type under `type`, its
/// transpose under `transpose`, its fine transpose under `cents` and its retrigger phase
/// under `retrigPhase`.
pub proof fn lemma_waveform_written_keys(w: WaveformOscillator, name: Seq<char>)
    ensures
        holds(spec_waveform_element(w, name), "type"@, w.osc_type),
        holds(spec_waveform_element(w, name), "transpose"@, w.transpose),
        holds(spec_waveform_element(w, name), "cents"@, w.fine_transpose),
        holds(spec_waveform_element(w, name), "retrigPhase"@, w.retrig_phase),
{
    broadcast use crate::xml::lemma_attr_value_push;

    crate::serialization::round_trip::lemma_keys_osc();
}

/// The element written for a sample oscillator holds its transpose under `transpose`, its
/// fine transpose under `cents`, its reverse switch under `reversed`, its play mode under
/// `loopMode`, its pitch and speed link under `timeStretchEnable`, its time stretch under
/// `timeStretchAmount` and its interpolation switch under `linearInterpolation`.
pub proof fn lemma_sample_oscillator_written_keys(o: SampleOscillatorView, name: Seq<char>)
    ensures
        holds(spec_sample_oscillator_element(o, name), "transpose"@, o.transpose),
        holds(spec_sample_oscillator_element(o, name), "cents"@, o.fine_transpose),
        holds(spec_sample_oscillator_element(o, name), "reversed"@, o.reversed),
        holds(spec_sample_oscillator_element(o, name), "loopMode"@, o.mode),
        holds(spec_sample_oscillator_element(o, name), "timeStretchEnable"@, o.pitch_speed),
        holds(spec_sample_oscillator_element(o, name), "timeStretchAmount"@, o.time_stretch_amount),
        holds(spec_sample_oscillator_element(o, name), "linearInterpolation"@, o.linear_interpolation),
{
    broadcast use {
        crate::xml::lemma_attr_value_push,
        crate::xml::lemma_attr_value_concat,
    };

    crate::serialization::round_trip::lemma_keys_osc();
}

/// The element written for an FM carrier holds its transpose under `transpose`, its fine
/// transpose under `cents` and its retrigger phase under `retrigPhase`.
pub proof fn lemma_carrier_written_keys(c: FmCarrier, selector: TwinSelector)
    ensures
        holds(spec_carrier_element(c, selector), "transpose"@, c.transpose),
        holds(spec_carrier_element(c, selector), "cents"@, c.fine_transpose),
        holds(spec_carrier_element(c, selector), "retrigPhase"@, c.retrig_phase),
{
    broadcast use crate::xml::lemma_attr_value_push;

    crate::serialization::round_trip::lemma_keys_osc();
}

/// The element written for an FM modulator holds its transpose under `transpose`, its
/// fine transpose under `cents` and its retrigger phase under `retrigPhase`.
pub proof fn lemma_modulator_written_keys(m: FmModulator, selector: TwinSelector)
    ensures
        holds(spec_modulator_element(m, selector), "transpose"@, m.transpose),
        holds(spec_modulator_element(m, selector), "cents"@, m.fine_transpose),
        holds(spec_modulator_element(m, selector), "retrigPhase"@, m.retrig_phase),
{
    broadcast use crate::xml::lemma_attr_value_push;

    crate::serialization::round_trip::lemma_keys_osc();
}

/// Loading a delay takes its ping-pong switch from `pingPong`, its analog switch from
/// `analog` and its sync level from `syncLevel` on its element, and its amount and rate
/// from the parameters under the names given for them.
pub proof fn lemma_delay_read_keys(
    n: XmlElementView,
    params: XmlElementView,
    st: ValueStyle,
    amount_key: Seq<char>,
    rate_key: Seq<char>,
)
    ensures
        spec_load_delay_with(n, params, st, amount_key, rate_key) matches Ok(d) ==> {
            &&& spec_parse_value::<OnOff>(n, "pingPong"@, st) == Ok::<OnOff, ErrorView>(d.ping_pong)
            &&& spec_parse_value::<OnOff>(n, "analog"@, st) == Ok::<OnOff, ErrorView>(d.analog)
            &&& spec_parse_value::<SyncLevel>(n, "syncLevel"@, st) == Ok::<SyncLevel, ErrorView>(d.sync_level)
            &&& spec_parse_value::<HexU50>(params, amount_key, st) == Ok::<HexU50, ErrorView>(d.amount)
            &&& spec_parse_value::<HexU50>(params, rate_key, st) == Ok::<HexU50, ErrorView>(d.rate)
        },
{
}

/// In the first format, a kit's delay takes its amount from `feedback` and its rate from
/// `rate` of the `delay` element among its default parameters, and is otherwise the
/// default one: ping-pong, digital, synced to sixteenths.
pub proof fn lemma_first_format_kit_delay(kit: XmlElementView)
    ensures
        spec_load_global_delay(kit, FormatVersion::Version1) matches Ok(d) ==> (spec_child(kit, "defaultParams"@) matches Ok(
            params,
        ) && spec_child(params, "delay"@) matches Ok(n) && spec_parse_value::<HexU50>(n, "feedback"@, ValueStyle::Child)
            == Ok::<HexU50, ErrorView>(d.amount) && spec_parse_value::<HexU50>(n, "rate"@, ValueStyle::Child) == Ok::<
            HexU50,
            ErrorView,
        >(d.rate) && d.ping_pong == OnOff::On && d.analog == OnOff::Off && d.sync_level == SyncLevel::Sixteenth),
{
}

/// Loading a sidechain takes its attack from `attack`, its release from `release` and its
/// sync level from `syncLevel` on its element, and its shape from the parameters under the
/// name given for it.
pub proof fn lemma_sidechain_read_keys(n: XmlElementView, params: XmlElementView, st: ValueStyle, shape_key: Seq<char>)
    ensures
        spec_load_sidechain_with(n, params, st, shape_key) matches Ok(sc) ==> {
            &&& spec_parse_value::<AttackSidechain>(n, "attack"@, st) == Ok::<AttackSidechain, ErrorView>(sc.attack)
            &&& spec_parse_value::<ReleaseSidechain>(n, "release"@, st) == Ok::<ReleaseSidechain, ErrorView>(sc.release)
            &&& spec_parse_value::<SyncLevel>(n, "syncLevel"@, st) == Ok::<SyncLevel, ErrorView>(sc.sync)
            &&& spec_parse_value::<HexU50>(params, shape_key, st) == Ok::<HexU50, ErrorView>(sc.shape)
        },
{
}

/// Loading a unison takes its voice count from `num` and its detune from `detune`.
pub proof fn lemma_unison_read_keys(n: XmlElementView, st: ValueStyle)
    ensures
        spec_load_unison(n, st) matches Ok(u) ==> {
            &&& spec_parse_value::<UnisonVoiceCount>(n, "num"@, st) == Ok::<UnisonVoiceCount, ErrorView>(u.voice_count)
            &&& spec_parse_value::<UnisonDetune>(n, "detune"@, st) == Ok::<UnisonDetune, ErrorView>(u.detune)
        },
{
}

/// Loading a patch cable takes its source from `source`, its destination from
/// `destination` and its amount from `amount`.
pub proof fn lemma_cable_read_keys(n: XmlElementView, st: ValueStyle)
    ensures
        spec_load_patch_cable(n, st) matches Ok(c) ==> {
            &&& spec_text_value(n, "source"@, st) == Ok::<Seq<char>, ErrorView>(c.source)
            &&& spec_text_value(n, "destination"@, st) == Ok::<Seq<char>, ErrorView>(c.destination)
            &&& spec_parse_value::<HexU50>(n, "amount"@, st) == Ok::<HexU50, ErrorView>(c.amount)
        },
{
}

/// Loading a sample zone takes its start from `startSamplePos`, or, when only
/// `startMilliseconds` is there, from that time at 44100 frames a second; its end likewise
/// from `endSamplePos` or `endMilliseconds`; a position given in neither form is 0. Its
/// loop start and end are those under `startLoopPos` and `endLoopPos`, if any.
pub proof fn lemma_zone_read_keys(n: XmlElementView, st: ValueStyle)
    ensures
        spec_parse_sample_zone(n, st) matches Ok(z) ==> {
            &&& spec_parse_opt_value::<SamplePosition>(n, "startSamplePos"@, st) matches Ok(Some(p)) ==> z.start == p
            &&& spec_parse_opt_value::<SamplePosition>(n, "startSamplePos"@, st) is Ok
            &&& spec_parse_opt_value::<SamplePosition>(n, "startSamplePos"@, st) == Ok::<Option<SamplePosition>, ErrorView>(None)
                ==> match spec_parse_opt_value::<SamplePosition>(n, "startMilliseconds"@, st) {
                    Ok(Some(m)) => z.start.0 == spec_milliseconds_to_samples(m.0),
                    Ok(None) => z.start.0 == 0,
                    Err(_) => false,
                }
            &&& spec_parse_opt_value::<SamplePosition>(n, "endSamplePos"@, st) matches Ok(Some(p)) ==> z.end == p
            &&& spec_parse_opt_value::<SamplePosition>(n, "endSamplePos"@, st) is Ok
            &&& spec_parse_opt_value::<SamplePosition>(n, "endSamplePos"@, st) == Ok::<Option<SamplePosition>, ErrorView>(None)
                ==> match spec_parse_opt_value::<SamplePosition>(n, "endMilliseconds"@, st) {
                    Ok(Some(m)) => z.end.0 == spec_milliseconds_to_samples(m.0),
                    Ok(None) => z.end.0 == 0,
                    Err(_) => false,
                }
            &&& spec_parse_opt_value::<SamplePosition>(n, "startLoopPos"@, st) == Ok::<Option<SamplePosition>, ErrorView>(
                z.start_loop,
            )
            &&& spec_parse_opt_value::<SamplePosition>(n, "endLoopPos"@, st) == Ok::<Option<SamplePosition>, ErrorView>(
                z.end_loop,
            )
        },
{
}

/// The element written for a MIDI row of a kit is a `midiOutput` holding its channel under
/// `channel` and its note under `note`; that of a CV gate row is a `gateOutput` holding its
/// channel under `channel`; that of a sound row is a `sound`.
pub proof fn lemma_row_written_keys(row: RowKitView)
    ensures
        row matches RowKitView::Midi(m) ==> (spec_row_element(row).name == "midiOutput"@ && holds(
            spec_row_element(row),
            "channel"@,
            m.channel,
        ) && holds(spec_row_element(row), "note"@, m.note)),
        row matches RowKitView::CvGate(g) ==> (spec_row_element(row).name == "gateOutput"@ && holds(
            spec_row_element(row),
            "channel"@,
            g.channel,
        )),
        row is Sound ==> spec_row_element(row).name == "sound"@,
{
    broadcast use crate::xml::lemma_attr_value_push;

    lemma_keys_small();
    match row {
        RowKitView::Sound(r) => {
            reveal(crate::serialization::writing::spec_sound_element);
        },
        _ => {},
    }
}

/// Loading a row of a kit gives a sound row from a `sound` element, a MIDI row from a
/// `midiOutput` element, with its channel from `channel` and its note from `note`, and a
/// CV gate row from a `gateOutput` element, with its channel from `channel`.
pub proof fn lemma_row_read_keys(n: XmlElementView, version: FormatVersion)
    ensures
        spec_load_sound_source(n, version) matches Ok(row) ==> {
            &&& row is Sound <==> n.name == "sound"@
            &&& row is Midi <==> n.name == "midiOutput"@
            &&& row is CvGate <==> n.name == "gateOutput"@
            &&& row matches RowKitView::Midi(m) ==> (spec_parse_value::<MidiChannel>(
                n,
                "channel"@,
                crate::serialization::style_of(version),
            ) == Ok::<MidiChannel, ErrorView>(m.channel) && spec_parse_value::<u8>(
                n,
                "note"@,
                crate::serialization::style_of(version),
            ) == Ok::<u8, ErrorView>(m.note))
            &&& row matches RowKitView::CvGate(g) ==> spec_parse_value::<CvGateChannel>(
                n,
                "channel"@,
                crate::serialization::style_of(version),
            ) == Ok::<CvGateChannel, ErrorView>(g.channel)
        },
{
    reveal_strlit("sound");
    reveal_strlit("midiOutput");
    reveal_strlit("gateOutput");
    assert("midiOutput"@[0] != "gateOutput"@[0]);
}

/// The element written for a mod knob holds the parameter it controls under
/// `controlsParam` and, when it has one, the source whose patch amount it controls under
/// `patchAmountFromSource`.
pub proof fn lemma_mod_knob_written_keys(k: ModKnobView)
    ensures
        attr_value(spec_mod_knob_element(k).attributes, "controlsParam"@) == Some(k.control_param),
        attr_value(spec_mod_knob_element(k).attributes, "patchAmountFromSource"@) == k.patch_amount_from_source,
{
    broadcast use {
        crate::xml::lemma_attr_value_push,
        crate::xml::lemma_attr_value_concat,
    };

    lemma_keys_small();
    assert(attr_value(Seq::<(Seq<char>, Seq<char>)>::empty(), "patchAmountFromSource"@) is None);
}

/// Loading a mod knob takes the parameter it controls from `controlsParam` and the source
/// whose patch amount it controls from `patchAmountFromSource`, if there.
pub proof fn lemma_mod_knob_read_keys(n: XmlElementView, st: ValueStyle)
    ensures
        spec_load_mod_knob(n, st) matches Ok(k) ==> {
            &&& spec_text_value(n, "controlsParam"@, st) == Ok::<Seq<char>, ErrorView>(k.control_param)
            &&& k.patch_amount_from_source == lookup(n, "patchAmountFromSource"@, st)
        },
{
}

} // verus!
