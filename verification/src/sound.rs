//! Sounds: the main component of a synth patch and of a sound row of a kit.
use vstd::prelude::*;
use crate::sound::effects::{Delay, Distorsion, Equalizer, ModulationFx, Sidechain};
use crate::sound::fm::{FmCarrier, FmSynth};
use crate::sound::modulators::{Envelope, Lfo1, Lfo2, ModKnob, ModKnobView, PatchCable, PatchCableView};
use crate::sound::ring_mod::RingModSynth;
use crate::sound::subtractive::{
    spec_default_sample_oscillator, spec_default_subtractive, Sample, SampleOneZoneView, SampleOscillatorView,
    SampleView, SampleZone, SubtractiveOscillator, SubtractiveOscillatorView, SubtractiveSynth, SubtractiveSynthView,
};
use crate::values::decu50::DecU50;
use crate::values::hexu50::HexU50;
use crate::values::pan::Pan;
use crate::values::retrig_phase::RetrigPhase;
use crate::values::sample_path::SamplePath;
use crate::values::path_order::{lemma_path_before_total, lemma_path_before_transitive, path_before, path_precedes};
use crate::values::sample_position::SamplePosition;
use crate::values::simple_enums::{ArpeggiatorMode, OscType, Polyphony, SyncLevel, SynthMode, VoicePriority};
use crate::values::{ClippingAmount, FineTranspose, OctavesCount, Transpose, UnisonDetune, UnisonVoiceCount};
use crate::values::sidechain_values::{AttackSidechain, ReleaseSidechain};

pub mod effects;
pub mod fm;
pub mod modulators;
pub mod ring_mod;
pub mod subtractive;

verus! {

/// An oscillator playing a waveform.
#[derive(Clone, Copy, Debug, PartialEq, Eq)]
pub struct WaveformOscillator {
    pub osc_type: OscType,
    pub transpose: Transpose,
    pub fine_transpose: FineTranspose,
    pub retrig_phase: RetrigPhase,
    pub pulse_width: HexU50,
}

/// The oscillator of a new patch: a square wave.
pub open spec fn spec_default_waveform_oscillator() -> WaveformOscillator {
    WaveformOscillator {
        osc_type: OscType::Square,
        transpose: Transpose::spec_new(0),
        fine_transpose: FineTranspose::spec_new(0),
        retrig_phase: RetrigPhase::Off,
        pulse_width: HexU50(25),
    }
}

impl WaveformOscillator {
    /// A square wave, as in a new patch.
    pub fn new_square() -> (r: Self)
        ensures
            r == spec_default_waveform_oscillator(),
    {
        let r = Self {
            osc_type: OscType::Square,
            transpose: Transpose::new(0),
            fine_transpose: FineTranspose::new(0),
            retrig_phase: RetrigPhase::Off,
            pulse_width: HexU50::new(25),
        };
        proof {
            Transpose::lemma_spec_new_of_value(r.transpose);
            FineTranspose::lemma_spec_new_of_value(r.fine_transpose);
        }
        r
    }
}

/// Unison voices.
#[derive(Clone, Copy, Debug, PartialEq, Eq)]
pub struct Unison {
    pub voice_count: UnisonVoiceCount,
    pub detune: UnisonDetune,
}

impl Default for Unison {
    fn default() -> (r: Self)
        ensures
            r.voice_count.value() == 1,
            r.detune.value() == 8,
    {
        Self { voice_count: UnisonVoiceCount::new(1), detune: UnisonDetune::new(8) }
    }
}

/// The arpeggiator.
#[derive(Clone, Copy, Debug, PartialEq, Eq)]
pub struct Arpeggiator {
    pub mode: ArpeggiatorMode,
    pub gate: HexU50,
    pub rate: HexU50,
    pub sync_level: SyncLevel,
    pub octaves_count: OctavesCount,
}

/// The arpeggiator of a new patch.
pub open spec fn spec_default_arpeggiator() -> Arpeggiator {
    Arpeggiator {
        mode: ArpeggiatorMode::Off,
        gate: HexU50(25),
        rate: HexU50(25),
        sync_level: SyncLevel::Sixteenth,
        octaves_count: OctavesCount::spec_new(2),
    }
}

impl Default for Arpeggiator {
    fn default() -> (r: Self)
        ensures
            r == spec_default_arpeggiator(),
    {
        let r = Self {
            mode: ArpeggiatorMode::Off,
            gate: HexU50::new(25),
            rate: HexU50::new(25),
            sync_level: SyncLevel::Sixteenth,
            octaves_count: OctavesCount::new(2),
        };
        proof {
            OctavesCount::lemma_spec_new_of_value(r.octaves_count);
        }
        r
    }
}

/// The synthesis engine of a sound, with its settings.
#[derive(Clone, Debug, PartialEq, Eq)]
pub enum SynthEngine {
    Subtractive(SubtractiveSynth),
    RingMod(RingModSynth),
    Fm(FmSynth),
}

/// A synthesis engine with its texts seen as character sequences.
pub enum SynthEngineView {
    Subtractive(SubtractiveSynthView),
    RingMod(RingModSynth),
    Fm(FmSynth),
}

impl View for SynthEngine {
    type V = SynthEngineView;

    open spec fn view(&self) -> SynthEngineView {
        match self {
            SynthEngine::Subtractive(g) => SynthEngineView::Subtractive(g@),
            SynthEngine::RingMod(g) => SynthEngineView::RingMod(*g),
            SynthEngine::Fm(g) => SynthEngineView::Fm(*g),
        }
    }
}

/// The kind of an engine.
pub open spec fn spec_sound_type(g: SynthEngineView) -> SynthMode {
    match g {
        SynthEngineView::Subtractive(_) => SynthMode::Subtractive,
        SynthEngineView::RingMod(_) => SynthMode::RingMod,
        SynthEngineView::Fm(_) => SynthMode::Fm,
    }
}

impl SynthEngine {
    /// The kind of the engine.
    pub fn to_sound_type(&self) -> (r: SynthMode)
        ensures
            r == spec_sound_type(self@),
    {
        match self {
            SynthEngine::Subtractive(_) => SynthMode::Subtractive,
            SynthEngine::Fm(_) => SynthMode::Fm,
            SynthEngine::RingMod(_) => SynthMode::RingMod,
        }
    }
}

impl Default for SynthEngine {
    fn default() -> (r: Self)
        ensures
            r@ == SynthEngineView::Subtractive(spec_default_subtractive()),
    {
        SynthEngine::Subtractive(SubtractiveSynth::default())
    }
}

/// A sound: the main component of a synth patch, and of a sound row of a kit.
#[derive(Clone, Debug, PartialEq, Eq)]
pub struct Sound {
    pub generator: SynthEngine,
    pub polyphonic: Polyphony,
    pub voice_priority: VoicePriority,
    pub volume: HexU50,
    pub pan: Pan,
    pub portamento: HexU50,
    pub reverb_amount: HexU50,
    pub stutter_rate: HexU50,
    pub sidechain_send: Option<DecU50>,
    pub envelope1: Envelope,
    pub envelope2: Envelope,
    pub lfo1: Lfo1,
    pub lfo2: Lfo2,
    pub unison: Unison,
    pub arpeggiator: Arpeggiator,
    pub delay: Delay,
    pub distorsion: Distorsion,
    pub modulation_fx: ModulationFx,
    pub equalizer: Equalizer,
    pub sidechain: Sidechain,
    pub cables: Vec<PatchCable>,
    pub mod_knobs: Vec<ModKnob>,
}

/// A sound with its texts seen as character sequences.
pub struct SoundView {
    pub generator: SynthEngineView,
    pub polyphonic: Polyphony,
    pub voice_priority: VoicePriority,
    pub volume: HexU50,
    pub pan: Pan,
    pub portamento: HexU50,
    pub reverb_amount: HexU50,
    pub stutter_rate: HexU50,
    pub sidechain_send: Option<DecU50>,
    pub envelope1: Envelope,
    pub envelope2: Envelope,
    pub lfo1: Lfo1,
    pub lfo2: Lfo2,
    pub unison: Unison,
    pub arpeggiator: Arpeggiator,
    pub delay: Delay,
    pub distorsion: Distorsion,
    pub modulation_fx: ModulationFx,
    pub equalizer: Equalizer,
    pub sidechain: Sidechain,
    pub cables: Seq<PatchCableView>,
    pub mod_knobs: Seq<ModKnobView>,
}

impl View for Sound {
    type V = SoundView;

    open spec fn view(&self) -> SoundView {
        SoundView {
            generator: self.generator@,
            polyphonic: self.polyphonic,
            voice_priority: self.voice_priority,
            volume: self.volume,
            pan: self.pan,
            portamento: self.portamento,
            reverb_amount: self.reverb_amount,
            stutter_rate: self.stutter_rate,
            sidechain_send: self.sidechain_send,
            envelope1: self.envelope1,
            envelope2: self.envelope2,
            lfo1: self.lfo1,
            lfo2: self.lfo2,
            unison: self.unison,
            arpeggiator: self.arpeggiator,
            delay: self.delay,
            distorsion: self.distorsion,
            modulation_fx: self.modulation_fx,
            equalizer: self.equalizer,
            sidechain: self.sidechain,
            cables: self.cables@.map_values(|c: PatchCable| c@),
            mod_knobs: self.mod_knobs@.map_values(|k: ModKnob| k@),
        }
    }
}

/// A mod knob without patch amount, as a view.
pub open spec fn knob(param: Seq<char>) -> ModKnobView {
    ModKnobView { control_param: param, patch_amount_from_source: None }
}

/// The mod knobs of a new patch.
pub open spec fn spec_default_mod_knobs() -> Seq<ModKnobView> {
    seq![
        knob("pan"@),
        knob("volumePostFX"@),
        knob("lpfResonance"@),
        knob("lpfFrequency"@),
        knob("env1Release"@),
        knob("env1Attack"@),
        knob("delayFeedback"@),
        knob("delayRate"@),
        knob("reverbAmount"@),
        ModKnobView { control_param: "volumePostReverbSend"@, patch_amount_from_source: Some("compressor"@) },
        ModKnobView { control_param: "pitch"@, patch_amount_from_source: Some("lfo1"@) },
        knob("lfo1Rate"@),
        knob("portamento"@),
        knob("stutterRate"@),
        knob("bitcrushAmount"@),
        knob("sampleRateReduction"@),
    ]
}

/// Whether a sound has the settings of a new patch, but for its engine.
pub open spec fn has_default_settings(s: SoundView) -> bool {
    &&& s.polyphonic == Polyphony::Poly
    &&& s.voice_priority == VoicePriority::Medium
    &&& s.volume == HexU50(40)
    &&& s.pan.value() == 0
    &&& s.portamento == HexU50(0)
    &&& s.reverb_amount == HexU50(0)
    &&& s.stutter_rate == HexU50(25)
    &&& s.sidechain_send is None
    &&& s.envelope1 == (Envelope { attack: HexU50(0), decay: HexU50(20), sustain: HexU50(50), release: HexU50(0) })
    &&& s.envelope2 == (Envelope { attack: HexU50(20), decay: HexU50(20), sustain: HexU50(25), release: HexU50(20) })
    &&& s.lfo1 == (Lfo1 { shape: crate::values::simple_enums::LfoShape::Triangle, sync_level: SyncLevel::Off, rate: HexU50(30) })
    &&& s.lfo2 == (Lfo2 { shape: crate::values::simple_enums::LfoShape::Triangle, rate: HexU50(25) })
    &&& s.unison.voice_count.value() == 1 && s.unison.detune.value() == 8
    &&& s.arpeggiator == spec_default_arpeggiator()
    &&& s.delay == (Delay {
        ping_pong: crate::values::on_off::OnOff::On,
        analog: crate::values::on_off::OnOff::Off,
        amount: HexU50(0),
        rate: HexU50(25),
        sync_level: SyncLevel::Sixteenth,
    })
    &&& s.distorsion.bit_crush == HexU50(0) && s.distorsion.saturation.value() == 0 && s.distorsion.decimation
        == HexU50(0)
    &&& s.modulation_fx == ModulationFx::Off
    &&& s.equalizer == (Equalizer {
        bass_level: HexU50(25),
        bass_frequency: HexU50(25),
        treble_level: HexU50(25),
        treble_frequency: HexU50(25),
    })
    &&& s.sidechain.attack.index() == 7 && s.sidechain.release.index() == 28 && s.sidechain.shape == HexU50(18)
        && s.sidechain.sync == SyncLevel::Sixteenth
    &&& s.cables == seq![PatchCableView { source: "velocity"@, destination: "volume"@, amount: HexU50(37) }]
    &&& s.mod_knobs == spec_default_mod_knobs()
}

impl Default for Sound {
    /// The sound the Deluge creates for a new synth patch.
    fn default() -> (r: Self)
        ensures
            has_default_settings(r@),
            r.generator@ == SynthEngineView::Subtractive(spec_default_subtractive()),
    {
        let envelope1 = Envelope {
            attack: HexU50::new(0),
            decay: HexU50::new(20),
            sustain: HexU50::new(50),
            release: HexU50::new(0),
        };
        let envelope2 = Envelope {
            attack: HexU50::new(20),
            decay: HexU50::new(20),
            sustain: HexU50::new(25),
            release: HexU50::new(20),
        };
        let mut mod_knobs: Vec<ModKnob> = Vec::new();
        mod_knobs.push(ModKnob::new("pan"));
        mod_knobs.push(ModKnob::new("volumePostFX"));
        mod_knobs.push(ModKnob::new("lpfResonance"));
        mod_knobs.push(ModKnob::new("lpfFrequency"));
        mod_knobs.push(ModKnob::new("env1Release"));
        mod_knobs.push(ModKnob::new("env1Attack"));
        mod_knobs.push(ModKnob::new("delayFeedback"));
        mod_knobs.push(ModKnob::new("delayRate"));
        mod_knobs.push(ModKnob::new("reverbAmount"));
        mod_knobs.push(ModKnob::new_with_patch_amount("volumePostReverbSend", "compressor"));
        mod_knobs.push(ModKnob::new_with_patch_amount("pitch", "lfo1"));
        mod_knobs.push(ModKnob::new("lfo1Rate"));
        mod_knobs.push(ModKnob::new("portamento"));
        mod_knobs.push(ModKnob::new("stutterRate"));
        mod_knobs.push(ModKnob::new("bitcrushAmount"));
        mod_knobs.push(ModKnob::new("sampleRateReduction"));
        let mut cables: Vec<PatchCable> = Vec::new();
        cables.push(PatchCable::new("velocity", "volume", HexU50::new(37)));
        let r = Self {
            generator: SynthEngine::default(),
            polyphonic: Polyphony::Poly,
            voice_priority: VoicePriority::Medium,
            volume: HexU50::new(40),
            pan: Pan::default(),
            portamento: HexU50::new(0),
            reverb_amount: HexU50::new(0),
            stutter_rate: HexU50::new(25),
            sidechain_send: None,
            envelope1,
            envelope2,
            lfo1: Lfo1::default(),
            lfo2: Lfo2::default(),
            unison: Unison::default(),
            arpeggiator: Arpeggiator::default(),
            delay: Delay::default(),
            distorsion: Distorsion::default(),
            modulation_fx: ModulationFx::Off,
            equalizer: Equalizer::default(),
            sidechain: Sidechain::default(),
            cables,
            mod_knobs,
        };
        assert(r@.mod_knobs =~= spec_default_mod_knobs());
        assert(r@.cables =~= seq![PatchCableView { source: "velocity"@, destination: "volume"@, amount: HexU50(37) }]);
        r
    }
}

/// The paths of the files of a sample, in order.
pub open spec fn spec_sample_paths(s: SampleView) -> Seq<Seq<char>> {
    match s {
        SampleView::OneZone(z) => seq![z.file_path],
        SampleView::SampleRanges(ranges) => ranges.map_values(|r: crate::sound::subtractive::SampleRangeView| r.file_path),
    }
}

/// The paths of the files an oscillator plays.
pub open spec fn spec_oscillator_paths(o: SubtractiveOscillatorView) -> Seq<Seq<char>> {
    match o {
        SubtractiveOscillatorView::Sample(s) => spec_sample_paths(s.sample),
        SubtractiveOscillatorView::Waveform(_) => Seq::empty(),
    }
}

/// The paths of the files a sound plays: those of the sample oscillators of a subtractive
/// engine, the first one's first.
pub open spec fn spec_sound_paths(s: SoundView) -> Seq<Seq<char>> {
    match s.generator {
        SynthEngineView::Subtractive(g) => spec_oscillator_paths(g.osc1) + spec_oscillator_paths(g.osc2),
        _ => Seq::empty(),
    }
}

fn oscillator_paths(o: &SubtractiveOscillator) -> (r: Vec<SamplePath>)
    ensures
        r@.map_values(|p: SamplePath| p@) == spec_oscillator_paths(o@),
{
    match o {
        SubtractiveOscillator::Sample(s) => s.sample.get_sample_paths(),
        SubtractiveOscillator::Waveform(_) => {
            let v: Vec<SamplePath> = Vec::new();
            assert(v@.map_values(|p: SamplePath| p@) =~= Seq::<Seq<char>>::empty());
            v
        },
    }
}

/// The texts of paths.
pub open spec fn path_texts(v: Seq<SamplePath>) -> Seq<Seq<char>> {
    v.map_values(|p: SamplePath| p@)
}

/// Whether paths are in strictly increasing order of `std::path::Path`: sorted, each once.
pub open spec fn sorted_paths(s: Seq<Seq<char>>) -> bool {
    forall|i: int, j: int| 0 <= i < j < s.len() ==> path_before(#[trigger] s[i], #[trigger] s[j])
}

proof fn lemma_insert_to_set(s: Seq<Seq<char>>, k: int, a: Seq<char>)
    requires
        0 <= k <= s.len(),
    ensures
        s.insert(k, a).to_set() == s.to_set().insert(a),
{
    let t = s.insert(k, a);
    assert forall|x: Seq<char>| t.to_set().contains(x) <==> s.to_set().insert(a).contains(x) by {
        if t.contains(x) {
            let m = choose|m: int| 0 <= m < t.len() && t[m] == x;
            if m < k {
                assert(s[m] == x);
            } else if m > k {
                assert(s[m - 1] == x);
            }
        }
        if s.contains(x) {
            let m = choose|m: int| 0 <= m < s.len() && s[m] == x;
            if m < k {
                assert(t[m] == x);
            } else {
                assert(t[m + 1] == x);
            }
        }
        if x == a {
            assert(t[k] == a);
        }
    }
    assert(t.to_set() =~= s.to_set().insert(a));
}

/// Puts a path in its place among sorted paths, unless it is there.
fn insert_path(out: &mut Vec<SamplePath>, path: &SamplePath)
    requires
        sorted_paths(path_texts(old(out)@)),
    ensures
        sorted_paths(path_texts(final(out)@)),
        path_texts(final(out)@).to_set() == path_texts(old(out)@).to_set().insert(path@),
{
    let ghost before = path_texts(out@);
    let mut i: usize = 0;
    while i < out.len() && path_precedes(out[i].as_str(), path.as_str())
        invariant
            i <= out@.len(),
            before == path_texts(out@),
            forall|j: int| 0 <= j < i ==> path_before(#[trigger] before[j], path@),
        decreases out.len() - i,
    {
        assert(before[i as int] == out@[i as int]@);
        i = i + 1;
    }
    if i < out.len() && crate::text::str_eq(out[i].as_str(), path.as_str()) {
        assert(before[i as int] == path@);
        assert(before.to_set().insert(path@) =~= before.to_set());
        return;
    }
    proof {
        if i < out.len() {
            assert(before[i as int] == out@[i as int]@);
            assert(before[i as int] != path@);
            assert(!path_before(before[i as int], path@));
            lemma_path_before_total(before[i as int], path@);
        }
    }
    out.insert(i, path.clone());
    let ghost after = path_texts(out@);
    assert(after =~= before.insert(i as int, path@));
    proof {
        lemma_insert_to_set(before, i as int, path@);
        assert forall|x: int, y: int| 0 <= x < y < after.len() implies path_before(
            #[trigger] after[x],
            #[trigger] after[y],
        ) by {
            if y < i {
                assert(after[x] == before[x] && after[y] == before[y]);
            } else if y == i {
                assert(after[x] == before[x]);
            } else if x < i {
                assert(after[x] == before[x] && after[y] == before[y - 1]);
                assert(path_before(before[i as int], before[y - 1]) || i == y - 1);
                if i < y - 1 {
                    lemma_path_before_transitive(path@, before[i as int], before[y - 1]);
                }
                lemma_path_before_transitive(before[x], path@, before[y - 1]);
            } else if x == i {
                assert(after[y] == before[y - 1]);
                if i < y - 1 {
                    lemma_path_before_transitive(path@, before[i as int], before[y - 1]);
                }
            } else {
                assert(after[x] == before[x - 1] && after[y] == before[y - 1]);
            }
        }
    }
}

/// Puts paths in their places among sorted paths.
fn insert_paths(out: &mut Vec<SamplePath>, paths: Vec<SamplePath>)
    requires
        sorted_paths(path_texts(old(out)@)),
    ensures
        sorted_paths(path_texts(final(out)@)),
        path_texts(final(out)@).to_set() == path_texts(old(out)@).to_set() + path_texts(paths@).to_set(),
{
    let ghost start = path_texts(out@);
    let ghost candidates = path_texts(paths@);
    let mut i: usize = 0;
    while i < paths.len()
        invariant
            i <= paths@.len(),
            candidates == path_texts(paths@),
            sorted_paths(path_texts(out@)),
            path_texts(out@).to_set() == start.to_set() + candidates.subrange(0, i as int).to_set(),
        decreases paths.len() - i,
    {
        insert_path(out, &paths[i]);
        assert(candidates.subrange(0, i + 1) =~= candidates.subrange(0, i as int).insert(i as int, candidates[i as int]));
        proof {
            lemma_insert_to_set(candidates.subrange(0, i as int), i as int, candidates[i as int]);
        }
        assert(path_texts(out@).to_set() =~= start.to_set() + candidates.subrange(0, i + 1).to_set());
        i = i + 1;
    }
    assert(candidates.subrange(0, i as int) =~= candidates);
}

impl Sound {
    /// Gets all the sample paths in this sound, each once, in the order of
    /// `std::path::Path`.
    pub fn get_sample_paths(&self) -> (r: Vec<SamplePath>)
        ensures
            sorted_paths(path_texts(r@)),
            path_texts(r@).to_set() == spec_sound_paths(self@).to_set(),
    {
        let mut out: Vec<SamplePath> = Vec::new();
        assert(path_texts(out@) =~= Seq::<Seq<char>>::empty());
        match &self.generator {
            SynthEngine::Subtractive(g) => {
                let first = oscillator_paths(&g.osc1);
                let second = oscillator_paths(&g.osc2);
                let ghost a = path_texts(first@);
                let ghost b = path_texts(second@);
                insert_paths(&mut out, first);
                insert_paths(&mut out, second);
                proof {
                    vstd::seq_lib::seq_to_set_distributes_over_add(a, b);
                    assert(Seq::<Seq<char>>::empty().to_set() =~= Set::<Seq<char>>::empty());
                    assert(path_texts(out@).to_set() =~= spec_sound_paths(self@).to_set());
                }
            },
            _ => {
                assert(spec_sound_paths(self@).to_set() =~= Set::<Seq<char>>::empty());
                assert(Seq::<Seq<char>>::empty().to_set() =~= Set::<Seq<char>>::empty());
            },
        }
        out
    }

    /// A sound of a regular sample: a subtractive engine whose first oscillator plays a zone
    /// of a file and whose second one is silent.
    pub fn new_sample(path: SamplePath, start: SamplePosition, end: SamplePosition) -> (r: Self)
        ensures
            has_default_settings(r@),
            r.generator@ == SynthEngineView::Subtractive(
                SubtractiveSynthView {
                    osc1: SubtractiveOscillatorView::Sample(
                        SampleOscillatorView {
                            sample: SampleView::OneZone(
                                SampleOneZoneView {
                                    file_path: path@,
                                    zone: Some(SampleZone { start, end, start_loop: None, end_loop: None }),
                                },
                            ),
                            ..spec_default_sample_oscillator()
                        },
                    ),
                    osc2: SubtractiveOscillatorView::Sample(spec_default_sample_oscillator()),
                    osc2_volume: HexU50(0),
                    ..spec_default_subtractive()
                },
            ),
    {
        let mut generator = SubtractiveSynth::new(
            SubtractiveOscillator::new_sample(Sample::new(path, start, end)),
            SubtractiveOscillator::new_sample(Sample::default()),
        );
        generator.osc2_volume = HexU50::new(0);
        let mut s = Self::default();
        s.generator = SynthEngine::Subtractive(generator);
        s
    }

    /// A subtractive sound with two oscillators and default settings.
    pub fn new_substractive(osc1: SubtractiveOscillator, osc2: SubtractiveOscillator) -> (r: Self)
        ensures
            has_default_settings(r@),
            r.generator@ == SynthEngineView::Subtractive(
                SubtractiveSynthView { osc1: osc1@, osc2: osc2@, ..spec_default_subtractive() },
            ),
    {
        let mut s = Self::default();
        s.generator = SynthEngine::Subtractive(SubtractiveSynth::new(osc1, osc2));
        s
    }

    /// A ring modulation sound with two oscillators and default settings.
    pub fn new_ringmod(osc1: WaveformOscillator, osc2: WaveformOscillator) -> (r: Self)
        ensures
            has_default_settings(r@),
            r.generator@ == SynthEngineView::RingMod(
                RingModSynth { osc1, osc2, ..crate::sound::ring_mod::spec_default_ring_mod() },
            ),
    {
        let mut s = Self::default();
        s.generator = SynthEngine::RingMod(RingModSynth::new(osc1, osc2));
        s
    }

    /// An FM sound with two carriers and default settings.
    pub fn new_fm(carrier1: FmCarrier, carrier2: FmCarrier) -> (r: Self)
        ensures
            has_default_settings(r@),
            r.generator matches SynthEngine::Fm(g) && g.osc1 == carrier1 && g.osc2 == carrier2
                && g.modulator1 == crate::sound::fm::spec_default_fm_modulator()
                && g.modulator2 == crate::sound::fm::spec_default_fm_modulator()
                && g.osc1_volume == HexU50(50) && g.osc2_volume == HexU50(39)
                && g.modulator2_to_modulator1 == crate::values::on_off::OnOff::Off,
    {
        let mut s = Self::default();
        s.generator = SynthEngine::Fm(FmSynth::new(carrier1, carrier2));
        s
    }
}

/// An FM engine, under the name the sound module also gives it.
pub type FmGenerator = crate::sound::fm::FmSynth;

} // verus!
