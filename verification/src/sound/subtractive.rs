//! Subtractive synthesis: two oscillators, waveforms or samples, then filters.
use vstd::prelude::*;
use crate::sound::{spec_default_waveform_oscillator, WaveformOscillator};
use crate::values::hexu50::HexU50;
use crate::values::on_off::OnOff;
use crate::values::sample_path::SamplePath;
use crate::values::sample_position::SamplePosition;
use crate::values::simple_enums::{LpfMode, PitchSpeed, SamplePlayMode};
use crate::values::{FineTranspose, TimeStretchAmount, Transpose};

verus! {

/// An oscillator of a subtractive engine.
#[derive(Clone, Debug, PartialEq, Eq)]
pub enum SubtractiveOscillator {
    Waveform(WaveformOscillator),
    Sample(SampleOscillator),
}

/// A subtractive oscillator with its texts seen as character sequences.
pub enum SubtractiveOscillatorView {
    Waveform(WaveformOscillator),
    Sample(SampleOscillatorView),
}

impl View for SubtractiveOscillator {
    type V = SubtractiveOscillatorView;

    open spec fn view(&self) -> SubtractiveOscillatorView {
        match self {
            SubtractiveOscillator::Waveform(w) => SubtractiveOscillatorView::Waveform(*w),
            SubtractiveOscillator::Sample(s) => SubtractiveOscillatorView::Sample(s@),
        }
    }
}

impl SubtractiveOscillator {
    /// A waveform oscillator.
    pub fn new_waveform(waveform: WaveformOscillator) -> (r: Self)
        ensures
            r@ == SubtractiveOscillatorView::Waveform(waveform),
    {
        SubtractiveOscillator::Waveform(waveform)
    }

    /// A sample oscillator with default settings playing a sample.
    pub fn new_sample(sample: Sample) -> (r: Self)
        ensures
            r@ == SubtractiveOscillatorView::Sample(SampleOscillatorView { sample: sample@, ..spec_default_sample_oscillator() }),
    {
        SubtractiveOscillator::Sample(SampleOscillator::new(sample))
    }
}

/// Subtractive engine.
#[derive(Clone, Debug, PartialEq, Eq)]
pub struct SubtractiveSynth {
    pub osc1: SubtractiveOscillator,
    pub osc2: SubtractiveOscillator,
    pub osc2_sync: OnOff,
    pub osc1_volume: HexU50,
    pub osc2_volume: HexU50,
    pub noise: HexU50,
    pub lpf_mode: LpfMode,
    pub lpf_frequency: HexU50,
    pub lpf_resonance: HexU50,
    pub hpf_frequency: HexU50,
    pub hpf_resonance: HexU50,
}

/// A subtractive engine with its texts seen as character sequences.
pub struct SubtractiveSynthView {
    pub osc1: SubtractiveOscillatorView,
    pub osc2: SubtractiveOscillatorView,
    pub osc2_sync: OnOff,
    pub osc1_volume: HexU50,
    pub osc2_volume: HexU50,
    pub noise: HexU50,
    pub lpf_mode: LpfMode,
    pub lpf_frequency: HexU50,
    pub lpf_resonance: HexU50,
    pub hpf_frequency: HexU50,
    pub hpf_resonance: HexU50,
}

impl View for SubtractiveSynth {
    type V = SubtractiveSynthView;

    open spec fn view(&self) -> SubtractiveSynthView {
        SubtractiveSynthView {
            osc1: self.osc1@,
            osc2: self.osc2@,
            osc2_sync: self.osc2_sync,
            osc1_volume: self.osc1_volume,
            osc2_volume: self.osc2_volume,
            noise: self.noise,
            lpf_mode: self.lpf_mode,
            lpf_frequency: self.lpf_frequency,
            lpf_resonance: self.lpf_resonance,
            hpf_frequency: self.hpf_frequency,
            hpf_resonance: self.hpf_resonance,
        }
    }
}

/// The subtractive engine of a new patch: two square waves, the second one silent.
pub open spec fn spec_default_subtractive() -> SubtractiveSynthView {
    SubtractiveSynthView {
        osc1: SubtractiveOscillatorView::Waveform(spec_default_waveform_oscillator()),
        osc2: SubtractiveOscillatorView::Waveform(spec_default_waveform_oscillator()),
        osc2_sync: OnOff::Off,
        osc1_volume: HexU50(50),
        osc2_volume: HexU50(0),
        noise: HexU50(0),
        lpf_mode: LpfMode::Lpf24,
        lpf_frequency: HexU50(50),
        lpf_resonance: HexU50(0),
        hpf_frequency: HexU50(0),
        hpf_resonance: HexU50(0),
    }
}

impl SubtractiveSynth {
    /// A subtractive engine with two oscillators and default settings.
    pub fn new(osc1: SubtractiveOscillator, osc2: SubtractiveOscillator) -> (r: Self)
        ensures
            r@ == (SubtractiveSynthView { osc1: osc1@, osc2: osc2@, ..spec_default_subtractive() }),
    {
        Self {
            osc1,
            osc2,
            osc2_sync: OnOff::Off,
            osc1_volume: HexU50::new(50),
            osc2_volume: HexU50::new(0),
            noise: HexU50::new(0),
            lpf_mode: LpfMode::Lpf24,
            lpf_frequency: HexU50::new(50),
            lpf_resonance: HexU50::new(0),
            hpf_frequency: HexU50::new(0),
            hpf_resonance: HexU50::new(0),
        }
    }
}

impl Default for SubtractiveSynth {
    fn default() -> (r: Self)
        ensures
            r@ == spec_default_subtractive(),
    {
        Self::new(
            SubtractiveOscillator::Waveform(WaveformOscillator::new_square()),
            SubtractiveOscillator::Waveform(WaveformOscillator::new_square()),
        )
    }
}

/// An oscillator playing a sample.
#[derive(Clone, Debug, PartialEq, Eq)]
pub struct SampleOscillator {
    pub transpose: Transpose,
    pub fine_transpose: FineTranspose,
    pub mode: SamplePlayMode,
    pub reversed: OnOff,
    pub pitch_speed: PitchSpeed,
    pub time_stretch_amount: TimeStretchAmount,
    /// When on, the low quality linear interpolation is used; off selects high quality.
    pub linear_interpolation: OnOff,
    pub sample: Sample,
}

/// A sample oscillator with its texts seen as character sequences.
pub struct SampleOscillatorView {
    pub transpose: Transpose,
    pub fine_transpose: FineTranspose,
    pub mode: SamplePlayMode,
    pub reversed: OnOff,
    pub pitch_speed: PitchSpeed,
    pub time_stretch_amount: TimeStretchAmount,
    pub linear_interpolation: OnOff,
    pub sample: SampleView,
}

impl View for SampleOscillator {
    type V = SampleOscillatorView;

    open spec fn view(&self) -> SampleOscillatorView {
        SampleOscillatorView {
            transpose: self.transpose,
            fine_transpose: self.fine_transpose,
            mode: self.mode,
            reversed: self.reversed,
            pitch_speed: self.pitch_speed,
            time_stretch_amount: self.time_stretch_amount,
            linear_interpolation: self.linear_interpolation,
            sample: self.sample@,
        }
    }
}

/// The sample oscillator of a new patch.
pub open spec fn spec_default_sample_oscillator() -> SampleOscillatorView {
    SampleOscillatorView {
        transpose: Transpose::spec_new(0),
        fine_transpose: FineTranspose::spec_new(0),
        mode: SamplePlayMode::Cut,
        reversed: OnOff::Off,
        pitch_speed: PitchSpeed::Independent,
        time_stretch_amount: TimeStretchAmount::spec_new(0),
        linear_interpolation: OnOff::Off,
        sample: spec_default_sample(),
    }
}

impl SampleOscillator {
    /// A sample oscillator with default settings playing a sample.
    pub fn new(sample: Sample) -> (r: Self)
        ensures
            r@ == (SampleOscillatorView { sample: sample@, ..spec_default_sample_oscillator() }),
    {
        let r = Self {
            transpose: Transpose::new(0),
            fine_transpose: FineTranspose::new(0),
            mode: SamplePlayMode::Cut,
            reversed: OnOff::Off,
            pitch_speed: PitchSpeed::Independent,
            time_stretch_amount: TimeStretchAmount::new(0),
            linear_interpolation: OnOff::Off,
            sample,
        };
        proof {
            Transpose::lemma_spec_new_of_value(r.transpose);
            FineTranspose::lemma_spec_new_of_value(r.fine_transpose);
            TimeStretchAmount::lemma_spec_new_of_value(r.time_stretch_amount);
        }
        r
    }
}

impl Default for SampleOscillator {
    fn default() -> (r: Self)
        ensures
            r@ == spec_default_sample_oscillator(),
    {
        Self::new(Sample::default())
    }
}

/// The sample an oscillator plays: one zone of one file, or one file per range of notes.
#[derive(Clone, Debug, PartialEq, Eq)]
pub enum Sample {
    OneZone(SampleOneZone),
    SampleRanges(Vec<SampleRange>),
}

/// A sample with its texts seen as character sequences.
pub enum SampleView {
    OneZone(SampleOneZoneView),
    SampleRanges(Seq<SampleRangeView>),
}

impl View for Sample {
    type V = SampleView;

    open spec fn view(&self) -> SampleView {
        match self {
            Sample::OneZone(z) => SampleView::OneZone(z@),
            Sample::SampleRanges(ranges) => SampleView::SampleRanges(ranges@.map_values(|r: SampleRange| r@)),
        }
    }
}

/// The sample of a new patch: no file, from 0 to 9999999.
pub open spec fn spec_default_sample() -> SampleView {
    SampleView::OneZone(
        SampleOneZoneView {
            file_path: Seq::empty(),
            zone: Some(
                SampleZone {
                    start: SamplePosition(0),
                    end: SamplePosition(9999999),
                    start_loop: None,
                    end_loop: None,
                },
            ),
        },
    )
}

impl Sample {
    /// One zone of one file.
    pub fn new(file_path: SamplePath, start: SamplePosition, end: SamplePosition) -> (r: Self)
        ensures
            r@ == SampleView::OneZone(
                SampleOneZoneView {
                    file_path: file_path@,
                    zone: Some(SampleZone { start, end, start_loop: None, end_loop: None }),
                },
            ),
    {
        Self::OneZone(
            SampleOneZone { file_path, zone: Some(SampleZone { start, end, start_loop: None, end_loop: None }) },
        )
    }

    /// The paths of the files of the sample, in order.
    pub fn get_sample_paths(&self) -> (r: Vec<SamplePath>)
        ensures
            r@.map_values(|p: SamplePath| p@) == match self@ {
                SampleView::OneZone(z) => seq![z.file_path],
                SampleView::SampleRanges(ranges) => ranges.map_values(|r: SampleRangeView| r.file_path),
            },
    {
        match self {
            Sample::OneZone(zone) => {
                let mut v = Vec::new();
                v.push(zone.file_path.clone());
                assert(v@.map_values(|p: SamplePath| p@) =~= seq![zone.file_path@]);
                v
            },
            Sample::SampleRanges(ranges) => {
                let mut v: Vec<SamplePath> = Vec::new();
                let mut i: usize = 0;
                while i < ranges.len()
                    invariant
                        i <= ranges.len(),
                        v@.len() == i,
                        forall|j: int| 0 <= j < i ==> v@[j]@ == ranges@[j].file_path@,
                    decreases ranges.len() - i,
                {
                    v.push(ranges[i].file_path.clone());
                    i = i + 1;
                }
                assert(v@.map_values(|p: SamplePath| p@) =~= ranges@.map_values(|r: SampleRange| r@).map_values(
                    |r: SampleRangeView| r.file_path,
                ));
                v
            },
        }
    }
}

impl Default for Sample {
    fn default() -> (r: Self)
        ensures
            r@ == spec_default_sample(),
    {
        Self::new(SamplePath::default(), SamplePosition::new(0), SamplePosition::new(9999999))
    }
}

/// One zone of one file.
#[derive(Clone, Debug, PartialEq, Eq, Default)]
pub struct SampleOneZone {
    pub file_path: SamplePath,
    pub zone: Option<SampleZone>,
}

/// A sample zone with its path seen as a character sequence.
pub struct SampleOneZoneView {
    pub file_path: Seq<char>,
    pub zone: Option<SampleZone>,
}

impl View for SampleOneZone {
    type V = SampleOneZoneView;

    open spec fn view(&self) -> SampleOneZoneView {
        SampleOneZoneView { file_path: self.file_path@, zone: self.zone }
    }
}

/// The file played up to a note.
#[derive(Clone, Debug, PartialEq, Eq)]
pub struct SampleRange {
    pub range_top_note: Option<u8>,
    pub transpose: Transpose,
    pub fine_transpose: FineTranspose,
    pub file_path: SamplePath,
    pub zone: SampleZone,
}

/// A sample range with its path seen as a character sequence.
pub struct SampleRangeView {
    pub range_top_note: Option<u8>,
    pub transpose: Transpose,
    pub fine_transpose: FineTranspose,
    pub file_path: Seq<char>,
    pub zone: SampleZone,
}

impl View for SampleRange {
    type V = SampleRangeView;

    open spec fn view(&self) -> SampleRangeView {
        SampleRangeView {
            range_top_note: self.range_top_note,
            transpose: self.transpose,
            fine_transpose: self.fine_transpose,
            file_path: self.file_path@,
            zone: self.zone,
        }
    }
}

/// The part of a file that is played, and the part that loops.
#[derive(Clone, Copy, Debug, PartialEq, Eq, Structural)]
pub struct SampleZone {
    pub start: SamplePosition,
    pub end: SamplePosition,
    pub start_loop: Option<SamplePosition>,
    pub end_loop: Option<SamplePosition>,
}

} // verus!
