//! Kit patches: rows of sounds, MIDI and CV/gate outputs, with global effects.
use vstd::prelude::*;
use crate::kit::row::{CvGateRow, MidiRow, RowKit, RowKitView, SoundRow, SoundRowView};
use crate::sound::effects::{Delay, Equalizer, Flanger, ModulationFx, Sidechain};
use crate::sound::modulators::ModKnob;
use crate::sound::subtractive::{Sample, SampleOneZone, SubtractiveOscillator};
use crate::sound::{has_default_settings, spec_default_mod_knobs, Sound, SoundView, SynthEngineView};
use crate::sound::modulators::ModKnobView;
use crate::sound::subtractive::{
    spec_default_sample, spec_default_sample_oscillator, spec_default_subtractive, SampleOneZoneView,
    SampleOscillatorView, SampleView, SubtractiveOscillatorView, SubtractiveSynthView,
};
use crate::text::{push_char, push_dec, dec_text};
use crate::values::hexu50::HexU50;
use crate::values::pan::Pan;
use crate::values::sample_path::SamplePath;
use crate::values::simple_enums::{FilterType, LpfMode, Polyphony};
use crate::values::{CvGateChannel, MidiChannel};

pub mod row;

verus! {

/// A kit patch.
///
/// The Deluge shows the rows from bottom to top; the file lists them in the order in
/// which they were added.
#[derive(Clone, Debug, PartialEq, Eq)]
pub struct Kit {
    pub rows: Vec<RowKit>,
    pub selected_row_index: Option<u32>,
    pub volume: HexU50,
    pub pan: Pan,
    pub reverb_amount: HexU50,
    pub lpf_mode: LpfMode,
    /// The filter controlled by the gold knobs.
    pub current_filter_type: FilterType,
    pub bit_crush: HexU50,
    pub decimation: HexU50,
    pub stutter_rate: HexU50,
    /// The modulation effect of the whole kit.
    pub modulation_fx: ModulationFx,
    /// The delay of the whole kit.
    pub delay: Delay,
    /// The sidechain of the whole kit.
    pub sidechain: Sidechain,
    /// The low pass filter of the whole kit.
    pub lpf: Lpf,
    /// The high pass filter of the whole kit.
    pub hpf: Hpf,
    /// The equalizer of the whole kit.
    pub equalizer: Equalizer,
}

/// A kit with its texts seen as character sequences.
pub struct KitView {
    pub rows: Seq<RowKitView>,
    pub selected_row_index: Option<u32>,
    pub volume: HexU50,
    pub pan: Pan,
    pub reverb_amount: HexU50,
    pub lpf_mode: LpfMode,
    pub current_filter_type: FilterType,
    pub bit_crush: HexU50,
    pub decimation: HexU50,
    pub stutter_rate: HexU50,
    pub modulation_fx: ModulationFx,
    pub delay: Delay,
    pub sidechain: Sidechain,
    pub lpf: Lpf,
    pub hpf: Hpf,
    pub equalizer: Equalizer,
}

impl View for Kit {
    type V = KitView;

    open spec fn view(&self) -> KitView {
        KitView {
            rows: self.rows@.map_values(|r: RowKit| r@),
            selected_row_index: self.selected_row_index,
            volume: self.volume,
            pan: self.pan,
            reverb_amount: self.reverb_amount,
            lpf_mode: self.lpf_mode,
            current_filter_type: self.current_filter_type,
            bit_crush: self.bit_crush,
            decimation: self.decimation,
            stutter_rate: self.stutter_rate,
            modulation_fx: self.modulation_fx,
            delay: self.delay,
            sidechain: self.sidechain,
            lpf: self.lpf,
            hpf: self.hpf,
            equalizer: self.equalizer,
        }
    }
}

/// Whether a kit has the global settings of a new kit.
pub open spec fn has_default_kit_settings(k: KitView) -> bool {
    &&& k.lpf_mode == LpfMode::Lpf24
    &&& k.modulation_fx == ModulationFx::Flanger(Flanger { rate: HexU50(19), feedback: HexU50(0) })
    &&& k.volume == HexU50(35)
    &&& k.pan.value() == 0
    &&& k.reverb_amount == HexU50(0)
    &&& k.current_filter_type == FilterType::Lpf
    &&& k.bit_crush == HexU50(0)
    &&& k.decimation == HexU50(0)
    &&& k.stutter_rate == HexU50(25)
    &&& k.delay == (Delay {
        ping_pong: crate::values::on_off::OnOff::On,
        analog: crate::values::on_off::OnOff::Off,
        amount: HexU50(0),
        rate: HexU50(25),
        sync_level: crate::values::simple_enums::SyncLevel::Sixteenth,
    })
    &&& k.sidechain.attack.index() == 7 && k.sidechain.release.index() == 28 && k.sidechain.shape == HexU50(18)
        && k.sidechain.sync == crate::values::simple_enums::SyncLevel::Sixteenth
    &&& k.lpf == (Lpf { frequency: HexU50(50), resonance: HexU50(0) })
    &&& k.hpf == (Hpf { frequency: HexU50(0), resonance: HexU50(0) })
    &&& k.equalizer == (Equalizer {
        bass_level: HexU50(25),
        bass_frequency: HexU50(25),
        treble_level: HexU50(25),
        treble_frequency: HexU50(25),
    })
}

/// The name of the `n`-th sound row added, counted from 1: "U1", "U2", ...
pub open spec fn spec_row_name(n: nat) -> Seq<char> {
    seq!['U'] + dec_text(n)
}

impl Kit {
    /// A kit of rows with the global settings of a new kit; the first row, if any, is selected.
    pub fn new(rows: Vec<RowKit>) -> (r: Self)
        ensures
            r@.rows == rows@.map_values(|row: RowKit| row@),
            r.selected_row_index == (if rows@.len() == 0 { None } else { Some(0u32) }),
            has_default_kit_settings(r@),
    {
        let has_no_rows = rows.len() == 0;
        Self {
            rows,
            lpf_mode: LpfMode::Lpf24,
            modulation_fx: ModulationFx::Flanger(Flanger { rate: HexU50::new(19), feedback: HexU50::new(0) }),
            volume: HexU50::new(35),
            pan: Pan::default(),
            reverb_amount: HexU50::new(0),
            current_filter_type: FilterType::Lpf,
            bit_crush: HexU50::new(0),
            decimation: HexU50::new(0),
            stutter_rate: HexU50::new(25),
            selected_row_index: if has_no_rows { None } else { Some(0) },
            delay: Delay::default(),
            sidechain: Sidechain::default(),
            lpf: Lpf::default(),
            hpf: Hpf::default(),
            equalizer: Equalizer::default(),
        }
    }

    fn add_row(&mut self, row: RowKit)
        ensures
            final(self)@ == (KitView { rows: old(self)@.rows.push(row@), ..old(self)@ }),
    {
        self.rows.push(row);
        assert(self@.rows =~= old(self)@.rows.push(row@));
    }

    /// The sound of the last row, which plays one, to change in place.
    fn last_sound_mut(&mut self) -> (r: &mut Sound)
        requires
            old(self)@.rows.len() > 0,
            old(self)@.rows.last() is Sound,
        ensures
            old(self)@.rows.last() == RowKitView::Sound(
                SoundRowView { sound: r@, name: old(self)@.rows.last()->Sound_0.name },
            ),
            final(self)@.rows == old(self)@.rows.update(
                old(self)@.rows.len() - 1,
                RowKitView::Sound(SoundRowView { sound: final(r)@, name: old(self)@.rows.last()->Sound_0.name }),
            ),
            final(self)@ == (KitView { rows: final(self)@.rows, ..old(self)@ }),
    {
        let i = self.rows.len() - 1;
        match &mut self.rows[i] {
            RowKit::Sound(row) => &mut *row.sound,
            _ => {
                proof {
                    assert(old(self)@.rows[i as int] == old(self).rows@[i as int]@);
                }
                vstd::pervasive::unreached()
            },
        }
    }

    /// Adds a sound row named after its position: "U1" for the first row, and so on; the
    /// new row's sound is handed back to change in place.
    pub fn add_sound_row(&mut self, sound: Sound) -> (r: &mut Sound)
        requires
            old(self).rows@.len() < u64::MAX,
        ensures
            r@ == sound@,
            final(self)@.rows == old(self)@.rows.push(
                RowKitView::Sound(SoundRowView { sound: final(r)@, name: spec_row_name(old(self).rows@.len() + 1) }),
            ),
            final(self)@ == (KitView { rows: final(self)@.rows, ..old(self)@ }),
    {
        let mut name = String::new();
        push_char(&mut name, 'U');
        push_dec(&mut name, (self.rows.len() as u64) + 1);
        assert(name@ =~= spec_row_name(self.rows@.len() + 1));
        self.add_row(RowKit::new_sound(sound, name.as_str()));
        self.last_sound_mut()
    }

    /// Adds a sound row with a name; the new row's sound is handed back to change in place.
    pub fn add_sound_row_with_name(&mut self, sound: Sound, name: &str) -> (r: &mut Sound)
        ensures
            r@ == sound@,
            final(self)@.rows == old(self)@.rows.push(RowKitView::Sound(SoundRowView { sound: final(r)@, name: name@ })),
            final(self)@ == (KitView { rows: final(self)@.rows, ..old(self)@ }),
    {
        self.add_row(RowKit::new_sound(sound, name));
        self.last_sound_mut()
    }

    /// Adds a MIDI row.
    pub fn add_midi_row(&mut self, channel: MidiChannel, note: u8)
        ensures
            final(self)@ == (KitView {
                rows: old(self)@.rows.push(RowKitView::Midi(MidiRow { channel, note })),
                ..old(self)@
            }),
    {
        self.add_row(RowKit::new_midi(channel, note));
    }

    /// Adds a CV/gate row.
    pub fn add_gate_row(&mut self, channel: CvGateChannel)
        ensures
            final(self)@ == (KitView {
                rows: old(self)@.rows.push(RowKitView::CvGate(CvGateRow { channel })),
                ..old(self)@
            }),
    {
        self.add_row(RowKit::new_cv_gate(channel));
    }
}

impl Default for Kit {
    /// The kit the Deluge creates for a new patch: one sound row "U1" playing a sample,
    /// its voices allocated automatically.
    fn default() -> (r: Self)
        ensures
            has_default_kit_settings(r@),
            r.selected_row_index == Some(0u32),
            r@.rows.len() == 1,
            r@.rows[0] matches RowKitView::Sound(row) && row.name == "U1"@ && row.sound.polyphonic
                == Polyphony::Auto && row.sound.mod_knobs == spec_default_mod_knobs().update(
                12,
                ModKnobView { control_param: "pitch"@, patch_amount_from_source: None },
            ) && has_default_settings(
                SoundView { polyphonic: Polyphony::Poly, mod_knobs: spec_default_mod_knobs(), ..row.sound },
            ) && row.sound.generator == SynthEngineView::Subtractive(
                SubtractiveSynthView {
                    osc1: SubtractiveOscillatorView::Sample(
                        SampleOscillatorView { sample: spec_default_sample(), ..spec_default_sample_oscillator() },
                    ),
                    osc2: SubtractiveOscillatorView::Sample(
                        SampleOscillatorView {
                            sample: SampleView::OneZone(SampleOneZoneView { file_path: Seq::empty(), zone: None }),
                            ..spec_default_sample_oscillator()
                        },
                    ),
                    ..spec_default_subtractive()
                },
            ),
    {
        let osc1 = SubtractiveOscillator::new_sample(Sample::default());
        let osc2 = SubtractiveOscillator::new_sample(
            Sample::OneZone(SampleOneZone { file_path: SamplePath::default(), zone: None }),
        );
        let mut default_sound = Sound::new_substractive(osc1, osc2);
        default_sound.polyphonic = Polyphony::Auto;
        assert(default_sound@.mod_knobs.len() == 16);
        assert(default_sound.mod_knobs@.len() == 16);
        let pitch = ModKnob::new("pitch");
        default_sound.mod_knobs.set(12, pitch);
        assert(default_sound@.mod_knobs[12] == pitch@);
        let row = RowKit::new_sound(default_sound, "U1");
        let mut rows: Vec<RowKit> = Vec::new();
        rows.push(row);
        let r = Self::new(rows);
        assert(r@.rows[0] == row@);
        r
    }
}

/// The low pass filter of a kit.
#[derive(Clone, Copy, Debug, PartialEq, Eq, Structural)]
pub struct Lpf {
    pub frequency: HexU50,
    pub resonance: HexU50,
}

impl Default for Lpf {
    fn default() -> (r: Self)
        ensures
            r == (Lpf { frequency: HexU50(50), resonance: HexU50(0) }),
    {
        Self { frequency: HexU50::new(50), resonance: HexU50::new(0) }
    }
}

/// The high pass filter of a kit.
#[derive(Clone, Copy, Debug, PartialEq, Eq, Structural)]
pub struct Hpf {
    pub frequency: HexU50,
    pub resonance: HexU50,
}

impl Default for Hpf {
    fn default() -> (r: Self)
        ensures
            r == (Hpf { frequency: HexU50(0), resonance: HexU50(0) }),
    {
        Self { frequency: HexU50::new(0), resonance: HexU50::new(0) }
    }
}

} // verus!
