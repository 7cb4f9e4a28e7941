//! Enumerations written as names or as small numbers.
use vstd::prelude::*;
use crate::error::{result_view, ErrorView, SerializationError};
use crate::text::{dec_text, lemma_parse_unsigned_dec_text, owned_text, parse_unsigned, spec_parse_unsigned, str_eq, u64_text};
use crate::values::XmlValue;

verus! {
/// The synthesis engine of a sound.
#[derive(Clone, Copy, Debug, PartialEq, Eq, Structural)]
pub enum SynthMode {
    Off,
    Subtractive,
    RingMod,
    Fm,
}
impl SynthMode {
    /// The name of the value in the files.
    pub open spec fn spec_name(self) -> Seq<char> {
        match self {
            SynthMode::Off => "off"@,
            SynthMode::Subtractive => "subtractive"@,
            SynthMode::RingMod => "ringmod"@,
            SynthMode::Fm => "fm"@,
        }
    }

    /// The value a name designates.
    pub open spec fn spec_named(text: Seq<char>) -> Option<Self> {
        if text == "off"@ {
            Some(SynthMode::Off)
        } else if text == "subtractive"@ {
            Some(SynthMode::Subtractive)
        } else if text == "ringmod"@ {
            Some(SynthMode::RingMod)
        } else if text == "fm"@ {
            Some(SynthMode::Fm)
        } else {
            None
        }
    }
}

impl XmlValue for SynthMode {
    open spec fn spec_from_text(text: Seq<char>) -> Result<SynthMode, ErrorView> {
        match SynthMode::spec_named(text) {
            Some(v) => Ok(v),
            None => Err(ErrorView::InvalidValue(text)),
        }
    }

    open spec fn spec_to_text(self) -> Seq<char> {
        self.spec_name()
    }

    open spec fn spec_well_formed(self) -> bool {
        true
    }

    proof fn lemma_round_trip(self) {
        lemma_synth_mode_round_trip(self);
    }

    proof fn lemma_read_well_formed(text: Seq<char>) {
    }

    fn from_text(text: &str) -> (r: Result<SynthMode, SerializationError>) {
        if str_eq(text, "off") {
            Ok(SynthMode::Off)
        } else if str_eq(text, "subtractive") {
            Ok(SynthMode::Subtractive)
        } else if str_eq(text, "ringmod") {
            Ok(SynthMode::RingMod)
        } else if str_eq(text, "fm") {
            Ok(SynthMode::Fm)
        } else {
            Err(SerializationError::InvalidValue(owned_text(text)))
        }
    }

    fn to_text(&self) -> (r: String) {
        match self {
            SynthMode::Off => owned_text("off"),
            SynthMode::Subtractive => owned_text("subtractive"),
            SynthMode::RingMod => owned_text("ringmod"),
            SynthMode::Fm => owned_text("fm"),
        }
    }
}

/// A `SynthMode` written then read back is unchanged.
pub proof fn lemma_synth_mode_round_trip(value: SynthMode)
    ensures
        SynthMode::spec_from_text(value.spec_to_text()) == Ok::<SynthMode, ErrorView>(value),
{
    reveal_strlit("off");
    reveal_strlit("subtractive");
    reveal_strlit("ringmod");
    reveal_strlit("fm");
    assert("off"@.len() != "subtractive"@.len());
    assert("off"@.len() != "ringmod"@.len());
    assert("off"@.len() != "fm"@.len());
    assert("subtractive"@.len() != "ringmod"@.len());
    assert("subtractive"@.len() != "fm"@.len());
    assert("ringmod"@.len() != "fm"@.len());
}

/// The waveform of an oscillator.
#[derive(Clone, Copy, Debug, PartialEq, Eq, Structural)]
pub enum OscType {
    Square,
    Sine,
    Saw,
    Triangle,
    AnalogSquare,
    AnalogSaw,
    Sample,
}
impl OscType {
    /// The name of the value in the files.
    pub open spec fn spec_name(self) -> Seq<char> {
        match self {
            OscType::Square => "square"@,
            OscType::Sine => "sine"@,
            OscType::Saw => "saw"@,
            OscType::Triangle => "triangle"@,
            OscType::AnalogSquare => "analogSquare"@,
            OscType::AnalogSaw => "analogSaw"@,
            OscType::Sample => "sample"@,
        }
    }

    /// The value a name designates.
    pub open spec fn spec_named(text: Seq<char>) -> Option<Self> {
        if text == "square"@ {
            Some(OscType::Square)
        } else if text == "sine"@ {
            Some(OscType::Sine)
        } else if text == "saw"@ {
            Some(OscType::Saw)
        } else if text == "triangle"@ {
            Some(OscType::Triangle)
        } else if text == "analogSquare"@ {
            Some(OscType::AnalogSquare)
        } else if text == "analogSaw"@ {
            Some(OscType::AnalogSaw)
        } else if text == "sample"@ {
            Some(OscType::Sample)
        } else {
            None
        }
    }
}

impl XmlValue for OscType {
    open spec fn spec_from_text(text: Seq<char>) -> Result<OscType, ErrorView> {
        match OscType::spec_named(text) {
            Some(v) => Ok(v),
            None => Err(ErrorView::InvalidValue(text)),
        }
    }

    open spec fn spec_to_text(self) -> Seq<char> {
        self.spec_name()
    }

    open spec fn spec_well_formed(self) -> bool {
        true
    }

    proof fn lemma_round_trip(self) {
        lemma_osc_type_round_trip(self);
    }

    proof fn lemma_read_well_formed(text: Seq<char>) {
    }

    fn from_text(text: &str) -> (r: Result<OscType, SerializationError>) {
        if str_eq(text, "square") {
            Ok(OscType::Square)
        } else if str_eq(text, "sine") {
            Ok(OscType::Sine)
        } else if str_eq(text, "saw") {
            Ok(OscType::Saw)
        } else if str_eq(text, "triangle") {
            Ok(OscType::Triangle)
        } else if str_eq(text, "analogSquare") {
            Ok(OscType::AnalogSquare)
        } else if str_eq(text, "analogSaw") {
            Ok(OscType::AnalogSaw)
        } else if str_eq(text, "sample") {
            Ok(OscType::Sample)
        } else {
            Err(SerializationError::InvalidValue(owned_text(text)))
        }
    }

    fn to_text(&self) -> (r: String) {
        match self {
            OscType::Square => owned_text("square"),
            OscType::Sine => owned_text("sine"),
            OscType::Saw => owned_text("saw"),
            OscType::Triangle => owned_text("triangle"),
            OscType::AnalogSquare => owned_text("analogSquare"),
            OscType::AnalogSaw => owned_text("analogSaw"),
            OscType::Sample => owned_text("sample"),
        }
    }
}

/// A `OscType` written then read back is unchanged.
pub proof fn lemma_osc_type_round_trip(value: OscType)
    ensures
        OscType::spec_from_text(value.spec_to_text()) == Ok::<OscType, ErrorView>(value),
{
    reveal_strlit("square");
    reveal_strlit("sine");
    reveal_strlit("saw");
    reveal_strlit("triangle");
    reveal_strlit("analogSquare");
    reveal_strlit("analogSaw");
    reveal_strlit("sample");
    assert("square"@.len() != "sine"@.len());
    assert("square"@.len() != "saw"@.len());
    assert("square"@.len() != "triangle"@.len());
    assert("square"@.len() != "analogSquare"@.len());
    assert("square"@.len() != "analogSaw"@.len());
    assert("square"@[1] != "sample"@[1]);
    assert("sine"@.len() != "saw"@.len());
    assert("sine"@.len() != "triangle"@.len());
    assert("sine"@.len() != "analogSquare"@.len());
    assert("sine"@.len() != "analogSaw"@.len());
    assert("sine"@.len() != "sample"@.len());
    assert("saw"@.len() != "triangle"@.len());
    assert("saw"@.len() != "analogSquare"@.len());
    assert("saw"@.len() != "analogSaw"@.len());
    assert("saw"@.len() != "sample"@.len());
    assert("triangle"@.len() != "analogSquare"@.len());
    assert("triangle"@.len() != "analogSaw"@.len());
    assert("triangle"@.len() != "sample"@.len());
    assert("analogSquare"@.len() != "analogSaw"@.len());
    assert("analogSquare"@.len() != "sample"@.len());
    assert("analogSaw"@.len() != "sample"@.len());
}

/// The waveform of a low frequency oscillator.
#[derive(Clone, Copy, Debug, PartialEq, Eq, Structural)]
pub enum LfoShape {
    Square,
    Sine,
    Saw,
    Triangle,
}
impl LfoShape {
    /// The name of the value in the files.
    pub open spec fn spec_name(self) -> Seq<char> {
        match self {
            LfoShape::Square => "square"@,
            LfoShape::Sine => "sine"@,
            LfoShape::Saw => "saw"@,
            LfoShape::Triangle => "triangle"@,
        }
    }

    /// The value a name designates.
    pub open spec fn spec_named(text: Seq<char>) -> Option<Self> {
        if text == "square"@ {
            Some(LfoShape::Square)
        } else if text == "sine"@ {
            Some(LfoShape::Sine)
        } else if text == "saw"@ {
            Some(LfoShape::Saw)
        } else if text == "triangle"@ {
            Some(LfoShape::Triangle)
        } else {
            None
        }
    }
}

impl XmlValue for LfoShape {
    open spec fn spec_from_text(text: Seq<char>) -> Result<LfoShape, ErrorView> {
        match LfoShape::spec_named(text) {
            Some(v) => Ok(v),
            None => Err(ErrorView::InvalidValue(text)),
        }
    }

    open spec fn spec_to_text(self) -> Seq<char> {
        self.spec_name()
    }

    open spec fn spec_well_formed(self) -> bool {
        true
    }

    proof fn lemma_round_trip(self) {
        lemma_lfo_shape_round_trip(self);
    }

    proof fn lemma_read_well_formed(text: Seq<char>) {
    }

    fn from_text(text: &str) -> (r: Result<LfoShape, SerializationError>) {
        if str_eq(text, "square") {
            Ok(LfoShape::Square)
        } else if str_eq(text, "sine") {
            Ok(LfoShape::Sine)
        } else if str_eq(text, "saw") {
            Ok(LfoShape::Saw)
        } else if str_eq(text, "triangle") {
            Ok(LfoShape::Triangle)
        } else {
            Err(SerializationError::InvalidValue(owned_text(text)))
        }
    }

    fn to_text(&self) -> (r: String) {
        match self {
            LfoShape::Square => owned_text("square"),
            LfoShape::Sine => owned_text("sine"),
            LfoShape::Saw => owned_text("saw"),
            LfoShape::Triangle => owned_text("triangle"),
        }
    }
}

/// A `LfoShape` written then read back is unchanged.
pub proof fn lemma_lfo_shape_round_trip(value: LfoShape)
    ensures
        LfoShape::spec_from_text(value.spec_to_text()) == Ok::<LfoShape, ErrorView>(value),
{
    reveal_strlit("square");
    reveal_strlit("sine");
    reveal_strlit("saw");
    reveal_strlit("triangle");
    assert("square"@.len() != "sine"@.len());
    assert("square"@.len() != "saw"@.len());
    assert("square"@.len() != "triangle"@.len());
    assert("sine"@.len() != "saw"@.len());
    assert("sine"@.len() != "triangle"@.len());
    assert("saw"@.len() != "triangle"@.len());
}

/// The slope of the low pass filter.
#[derive(Clone, Copy, Debug, PartialEq, Eq, Structural)]
pub enum LpfMode {
    Lpf24,
    Lpf12,
    Lpf24Drive,
}
impl LpfMode {
    /// The name of the value in the files.
    pub open spec fn spec_name(self) -> Seq<char> {
        match self {
            LpfMode::Lpf24 => "24dB"@,
            LpfMode::Lpf12 => "12dB"@,
            LpfMode::Lpf24Drive => "24dBDrive"@,
        }
    }

    /// The value a name designates.
    pub open spec fn spec_named(text: Seq<char>) -> Option<Self> {
        if text == "24dB"@ {
            Some(LpfMode::Lpf24)
        } else if text == "12dB"@ {
            Some(LpfMode::Lpf12)
        } else if text == "24dBDrive"@ {
            Some(LpfMode::Lpf24Drive)
        } else {
            None
        }
    }
}

impl XmlValue for LpfMode {
    open spec fn spec_from_text(text: Seq<char>) -> Result<LpfMode, ErrorView> {
        match LpfMode::spec_named(text) {
            Some(v) => Ok(v),
            None => Err(ErrorView::InvalidValue(text)),
        }
    }

    open spec fn spec_to_text(self) -> Seq<char> {
        self.spec_name()
    }

    open spec fn spec_well_formed(self) -> bool {
        true
    }

    proof fn lemma_round_trip(self) {
        lemma_lpf_mode_round_trip(self);
    }

    proof fn lemma_read_well_formed(text: Seq<char>) {
    }

    fn from_text(text: &str) -> (r: Result<LpfMode, SerializationError>) {
        if str_eq(text, "24dB") {
            Ok(LpfMode::Lpf24)
        } else if str_eq(text, "12dB") {
            Ok(LpfMode::Lpf12)
        } else if str_eq(text, "24dBDrive") {
            Ok(LpfMode::Lpf24Drive)
        } else {
            Err(SerializationError::InvalidValue(owned_text(text)))
        }
    }

    fn to_text(&self) -> (r: String) {
        match self {
            LpfMode::Lpf24 => owned_text("24dB"),
            LpfMode::Lpf12 => owned_text("12dB"),
            LpfMode::Lpf24Drive => owned_text("24dBDrive"),
        }
    }
}

/// A `LpfMode` written then read back is unchanged.
pub proof fn lemma_lpf_mode_round_trip(value: LpfMode)
    ensures
        LpfMode::spec_from_text(value.spec_to_text()) == Ok::<LpfMode, ErrorView>(value),
{
    reveal_strlit("24dB");
    reveal_strlit("12dB");
    reveal_strlit("24dBDrive");
    assert("24dB"@[0] != "12dB"@[0]);
    assert("24dB"@.len() != "24dBDrive"@.len());
    assert("12dB"@.len() != "24dBDrive"@.len());
}

/// The direction of the arpeggiator.
#[derive(Clone, Copy, Debug, PartialEq, Eq, Structural)]
pub enum ArpeggiatorMode {
    Off,
    Up,
    Down,
    Both,
    Random,
}
impl ArpeggiatorMode {
    /// The name of the value in the files.
    pub open spec fn spec_name(self) -> Seq<char> {
        match self {
            ArpeggiatorMode::Off => "off"@,
            ArpeggiatorMode::Up => "up"@,
            ArpeggiatorMode::Down => "down"@,
            ArpeggiatorMode::Both => "both"@,
            ArpeggiatorMode::Random => "random"@,
        }
    }

    /// The value a name designates.
    pub open spec fn spec_named(text: Seq<char>) -> Option<Self> {
        if text == "off"@ {
            Some(ArpeggiatorMode::Off)
        } else if text == "up"@ {
            Some(ArpeggiatorMode::Up)
        } else if text == "down"@ {
            Some(ArpeggiatorMode::Down)
        } else if text == "both"@ {
            Some(ArpeggiatorMode::Both)
        } else if text == "random"@ {
            Some(ArpeggiatorMode::Random)
        } else {
            None
        }
    }
}

impl XmlValue for ArpeggiatorMode {
    open spec fn spec_from_text(text: Seq<char>) -> Result<ArpeggiatorMode, ErrorView> {
        match ArpeggiatorMode::spec_named(text) {
            Some(v) => Ok(v),
            None => Err(ErrorView::InvalidValue(text)),
        }
    }

    open spec fn spec_to_text(self) -> Seq<char> {
        self.spec_name()
    }

    open spec fn spec_well_formed(self) -> bool {
        true
    }

    proof fn lemma_round_trip(self) {
        lemma_arpeggiator_mode_round_trip(self);
    }

    proof fn lemma_read_well_formed(text: Seq<char>) {
    }

    fn from_text(text: &str) -> (r: Result<ArpeggiatorMode, SerializationError>) {
        if str_eq(text, "off") {
            Ok(ArpeggiatorMode::Off)
        } else if str_eq(text, "up") {
            Ok(ArpeggiatorMode::Up)
        } else if str_eq(text, "down") {
            Ok(ArpeggiatorMode::Down)
        } else if str_eq(text, "both") {
            Ok(ArpeggiatorMode::Both)
        } else if str_eq(text, "random") {
            Ok(ArpeggiatorMode::Random)
        } else {
            Err(SerializationError::InvalidValue(owned_text(text)))
        }
    }

    fn to_text(&self) -> (r: String) {
        match self {
            ArpeggiatorMode::Off => owned_text("off"),
            ArpeggiatorMode::Up => owned_text("up"),
            ArpeggiatorMode::Down => owned_text("down"),
            ArpeggiatorMode::Both => owned_text("both"),
            ArpeggiatorMode::Random => owned_text("random"),
        }
    }
}

/// A `ArpeggiatorMode` written then read back is unchanged.
pub proof fn lemma_arpeggiator_mode_round_trip(value: ArpeggiatorMode)
    ensures
        ArpeggiatorMode::spec_from_text(value.spec_to_text()) == Ok::<ArpeggiatorMode, ErrorView>(value),
{
    reveal_strlit("off");
    reveal_strlit("up");
    reveal_strlit("down");
    reveal_strlit("both");
    reveal_strlit("random");
    assert("off"@.len() != "up"@.len());
    assert("off"@.len() != "down"@.len());
    assert("off"@.len() != "both"@.len());
    assert("off"@.len() != "random"@.len());
    assert("up"@.len() != "down"@.len());
    assert("up"@.len() != "both"@.len());
    assert("up"@.len() != "random"@.len());
    assert("down"@[0] != "both"@[0]);
    assert("down"@.len() != "random"@.len());
    assert("both"@.len() != "random"@.len());
}

/// The kind of modulation effect.
#[derive(Clone, Copy, Debug, PartialEq, Eq, Structural)]
pub enum ModulationFxType {
    Off,
    Flanger,
    Chorus,
    Phaser,
}
impl ModulationFxType {
    /// The name of the value in the files.
    pub open spec fn spec_name(self) -> Seq<char> {
        match self {
            ModulationFxType::Off => "none"@,
            ModulationFxType::Flanger => "flanger"@,
            ModulationFxType::Chorus => "chorus"@,
            ModulationFxType::Phaser => "phaser"@,
        }
    }

    /// The value a name designates.
    pub open spec fn spec_named(text: Seq<char>) -> Option<Self> {
        if text == "none"@ {
            Some(ModulationFxType::Off)
        } else if text == "flanger"@ {
            Some(ModulationFxType::Flanger)
        } else if text == "chorus"@ {
            Some(ModulationFxType::Chorus)
        } else if text == "phaser"@ {
            Some(ModulationFxType::Phaser)
        } else {
            None
        }
    }
}

impl XmlValue for ModulationFxType {
    open spec fn spec_from_text(text: Seq<char>) -> Result<ModulationFxType, ErrorView> {
        match ModulationFxType::spec_named(text) {
            Some(v) => Ok(v),
            None => Err(ErrorView::InvalidValue(text)),
        }
    }

    open spec fn spec_to_text(self) -> Seq<char> {
        self.spec_name()
    }

    open spec fn spec_well_formed(self) -> bool {
        true
    }

    proof fn lemma_round_trip(self) {
        lemma_modulation_fx_type_round_trip(self);
    }

    proof fn lemma_read_well_formed(text: Seq<char>) {
    }

    fn from_text(text: &str) -> (r: Result<ModulationFxType, SerializationError>) {
        if str_eq(text, "none") {
            Ok(ModulationFxType::Off)
        } else if str_eq(text, "flanger") {
            Ok(ModulationFxType::Flanger)
        } else if str_eq(text, "chorus") {
            Ok(ModulationFxType::Chorus)
        } else if str_eq(text, "phaser") {
            Ok(ModulationFxType::Phaser)
        } else {
            Err(SerializationError::InvalidValue(owned_text(text)))
        }
    }

    fn to_text(&self) -> (r: String) {
        match self {
            ModulationFxType::Off => owned_text("none"),
            ModulationFxType::Flanger => owned_text("flanger"),
            ModulationFxType::Chorus => owned_text("chorus"),
            ModulationFxType::Phaser => owned_text("phaser"),
        }
    }
}

/// A `ModulationFxType` written then read back is unchanged.
pub proof fn lemma_modulation_fx_type_round_trip(value: ModulationFxType)
    ensures
        ModulationFxType::spec_from_text(value.spec_to_text()) == Ok::<ModulationFxType, ErrorView>(value),
{
    reveal_strlit("none");
    reveal_strlit("flanger");
    reveal_strlit("chorus");
    reveal_strlit("phaser");
    assert("none"@.len() != "flanger"@.len());
    assert("none"@.len() != "chorus"@.len());
    assert("none"@.len() != "phaser"@.len());
    assert("flanger"@.len() != "chorus"@.len());
    assert("flanger"@.len() != "phaser"@.len());
    assert("chorus"@[0] != "phaser"@[0]);
}

/// The filter that the gold knobs control in a kit.
#[derive(Clone, Copy, Debug, PartialEq, Eq, Structural)]
pub enum FilterType {
    Lpf,
    Hpf,
    Equalizer,
}
impl FilterType {
    /// The name of the value in the files.
    pub open spec fn spec_name(self) -> Seq<char> {
        match self {
            FilterType::Lpf => "lpf"@,
            FilterType::Hpf => "hpf"@,
            FilterType::Equalizer => "eq"@,
        }
    }

    /// The value a name designates.
    pub open spec fn spec_named(text: Seq<char>) -> Option<Self> {
        if text == "lpf"@ {
            Some(FilterType::Lpf)
        } else if text == "hpf"@ {
            Some(FilterType::Hpf)
        } else if text == "eq"@ {
            Some(FilterType::Equalizer)
        } else {
            None
        }
    }
}

impl XmlValue for FilterType {
    open spec fn spec_from_text(text: Seq<char>) -> Result<FilterType, ErrorView> {
        match FilterType::spec_named(text) {
            Some(v) => Ok(v),
            None => Err(ErrorView::InvalidValue(text)),
        }
    }

    open spec fn spec_to_text(self) -> Seq<char> {
        self.spec_name()
    }

    open spec fn spec_well_formed(self) -> bool {
        true
    }

    proof fn lemma_round_trip(self) {
        lemma_filter_type_round_trip(self);
    }

    proof fn lemma_read_well_formed(text: Seq<char>) {
    }

    fn from_text(text: &str) -> (r: Result<FilterType, SerializationError>) {
        if str_eq(text, "lpf") {
            Ok(FilterType::Lpf)
        } else if str_eq(text, "hpf") {
            Ok(FilterType::Hpf)
        } else if str_eq(text, "eq") {
            Ok(FilterType::Equalizer)
        } else {
            Err(SerializationError::InvalidValue(owned_text(text)))
        }
    }

    fn to_text(&self) -> (r: String) {
        match self {
            FilterType::Lpf => owned_text("lpf"),
            FilterType::Hpf => owned_text("hpf"),
            FilterType::Equalizer => owned_text("eq"),
        }
    }
}

/// A `FilterType` written then read back is unchanged.
pub proof fn lemma_filter_type_round_trip(value: FilterType)
    ensures
        FilterType::spec_from_text(value.spec_to_text()) == Ok::<FilterType, ErrorView>(value),
{
    reveal_strlit("lpf");
    reveal_strlit("hpf");
    reveal_strlit("eq");
    assert("lpf"@[0] != "hpf"@[0]);
    assert("lpf"@.len() != "eq"@.len());
    assert("hpf"@.len() != "eq"@.len());
}

/// How a sample is played.
#[derive(Clone, Copy, Debug, PartialEq, Eq, Structural)]
pub enum SamplePlayMode {
    Cut,
    Once,
    Loop,
    Stretch,
}
impl SamplePlayMode {
    /// The number of the value in the files.
    pub open spec fn spec_number(self) -> nat {
        match self {
            SamplePlayMode::Cut => 0,
            SamplePlayMode::Once => 1,
            SamplePlayMode::Loop => 2,
            SamplePlayMode::Stretch => 3,
        }
    }

    /// The value a number designates.
    pub open spec fn spec_numbered(n: nat) -> Option<Self> {
        if n == 0 {
            Some(SamplePlayMode::Cut)
        } else if n == 1 {
            Some(SamplePlayMode::Once)
        } else if n == 2 {
            Some(SamplePlayMode::Loop)
        } else if n == 3 {
            Some(SamplePlayMode::Stretch)
        } else {
            None
        }
    }
}

impl XmlValue for SamplePlayMode {
    open spec fn spec_from_text(text: Seq<char>) -> Result<SamplePlayMode, ErrorView> {
        match spec_parse_unsigned(text, 10, 255) {
            Err(k) => Err(ErrorView::ParseIntError(k)),
            Ok(n) => match SamplePlayMode::spec_numbered(n) {
                Some(v) => Ok(v),
                None => Err(ErrorView::InvalidValue(text)),
            },
        }
    }

    open spec fn spec_to_text(self) -> Seq<char> {
        dec_text(self.spec_number())
    }

    open spec fn spec_well_formed(self) -> bool {
        true
    }

    proof fn lemma_round_trip(self) {
        lemma_sample_play_mode_round_trip(self);
    }

    proof fn lemma_read_well_formed(text: Seq<char>) {
    }

    fn from_text(text: &str) -> (r: Result<SamplePlayMode, SerializationError>) {
        match parse_unsigned(text, 10, 255) {
            Err(k) => Err(SerializationError::ParseIntError(k)),
            Ok(n) => {
                if n == 0 {
                    Ok(SamplePlayMode::Cut)
                } else if n == 1 {
                    Ok(SamplePlayMode::Once)
                } else if n == 2 {
                    Ok(SamplePlayMode::Loop)
                } else if n == 3 {
                    Ok(SamplePlayMode::Stretch)
                } else {
                    Err(SerializationError::InvalidValue(owned_text(text)))
                }
            },
        }
    }

    fn to_text(&self) -> (r: String) {
        match self {
            SamplePlayMode::Cut => u64_text(0),
            SamplePlayMode::Once => u64_text(1),
            SamplePlayMode::Loop => u64_text(2),
            SamplePlayMode::Stretch => u64_text(3),
        }
    }
}

/// A `SamplePlayMode` written then read back is unchanged.
pub proof fn lemma_sample_play_mode_round_trip(value: SamplePlayMode)
    ensures
        SamplePlayMode::spec_from_text(value.spec_to_text()) == Ok::<SamplePlayMode, ErrorView>(value),
{
    lemma_parse_unsigned_dec_text(value.spec_number(), 255);
}

/// Whether pitch and speed of a sample are linked.
#[derive(Clone, Copy, Debug, PartialEq, Eq, Structural)]
pub enum PitchSpeed {
    Linked,
    Independent,
}
impl PitchSpeed {
    /// The number of the value in the files.
    pub open spec fn spec_number(self) -> nat {
        match self {
            PitchSpeed::Linked => 1,
            PitchSpeed::Independent => 0,
        }
    }

    /// The value a number designates.
    pub open spec fn spec_numbered(n: nat) -> Option<Self> {
        if n == 1 {
            Some(PitchSpeed::Linked)
        } else if n == 0 {
            Some(PitchSpeed::Independent)
        } else {
            None
        }
    }
}

impl XmlValue for PitchSpeed {
    open spec fn spec_from_text(text: Seq<char>) -> Result<PitchSpeed, ErrorView> {
        match spec_parse_unsigned(text, 10, 255) {
            Err(k) => Err(ErrorView::ParseIntError(k)),
            Ok(n) => match PitchSpeed::spec_numbered(n) {
                Some(v) => Ok(v),
                None => Err(ErrorView::InvalidValue(text)),
            },
        }
    }

    open spec fn spec_to_text(self) -> Seq<char> {
        dec_text(self.spec_number())
    }

    open spec fn spec_well_formed(self) -> bool {
        true
    }

    proof fn lemma_round_trip(self) {
        lemma_pitch_speed_round_trip(self);
    }

    proof fn lemma_read_well_formed(text: Seq<char>) {
    }

    fn from_text(text: &str) -> (r: Result<PitchSpeed, SerializationError>) {
        match parse_unsigned(text, 10, 255) {
            Err(k) => Err(SerializationError::ParseIntError(k)),
            Ok(n) => {
                if n == 1 {
                    Ok(PitchSpeed::Linked)
                } else if n == 0 {
                    Ok(PitchSpeed::Independent)
                } else {
                    Err(SerializationError::InvalidValue(owned_text(text)))
                }
            },
        }
    }

    fn to_text(&self) -> (r: String) {
        match self {
            PitchSpeed::Linked => u64_text(1),
            PitchSpeed::Independent => u64_text(0),
        }
    }
}

/// A `PitchSpeed` written then read back is unchanged.
pub proof fn lemma_pitch_speed_round_trip(value: PitchSpeed)
    ensures
        PitchSpeed::spec_from_text(value.spec_to_text()) == Ok::<PitchSpeed, ErrorView>(value),
{
    lemma_parse_unsigned_dec_text(value.spec_number(), 255);
}

/// A tempo division, from off to 128th notes.
#[derive(Clone, Copy, Debug, PartialEq, Eq, Structural)]
pub enum SyncLevel {
    Off,
    FourBars,
    TwoBars,
    OneBar,
    Second,
    Fourth,
    Eighth,
    Sixteenth,
    ThirtySecond,
    SixtyFourth,
    HundredTwentyEighth,
}
impl SyncLevel {
    /// The number of the value in the files.
    pub open spec fn spec_number(self) -> nat {
        match self {
            SyncLevel::Off => 0,
            SyncLevel::FourBars => 1,
            SyncLevel::TwoBars => 2,
            SyncLevel::OneBar => 3,
            SyncLevel::Second => 4,
            SyncLevel::Fourth => 5,
            SyncLevel::Eighth => 6,
            SyncLevel::Sixteenth => 7,
            SyncLevel::ThirtySecond => 8,
            SyncLevel::SixtyFourth => 9,
            SyncLevel::HundredTwentyEighth => 10,
        }
    }

    /// The value a number designates.
    pub open spec fn spec_numbered(n: nat) -> Option<Self> {
        if n == 0 {
            Some(SyncLevel::Off)
        } else if n == 1 {
            Some(SyncLevel::FourBars)
        } else if n == 2 {
            Some(SyncLevel::TwoBars)
        } else if n == 3 {
            Some(SyncLevel::OneBar)
        } else if n == 4 {
            Some(SyncLevel::Second)
        } else if n == 5 {
            Some(SyncLevel::Fourth)
        } else if n == 6 {
            Some(SyncLevel::Eighth)
        } else if n == 7 {
            Some(SyncLevel::Sixteenth)
        } else if n == 8 {
            Some(SyncLevel::ThirtySecond)
        } else if n == 9 {
            Some(SyncLevel::SixtyFourth)
        } else if n == 10 {
            Some(SyncLevel::HundredTwentyEighth)
        } else {
            None
        }
    }
}

impl XmlValue for SyncLevel {
    open spec fn spec_from_text(text: Seq<char>) -> Result<SyncLevel, ErrorView> {
        match spec_parse_unsigned(text, 10, 255) {
            Err(k) => Err(ErrorView::ParseIntError(k)),
            Ok(n) => match SyncLevel::spec_numbered(n) {
                Some(v) => Ok(v),
                None => Err(ErrorView::InvalidValue(text)),
            },
        }
    }

    open spec fn spec_to_text(self) -> Seq<char> {
        dec_text(self.spec_number())
    }

    open spec fn spec_well_formed(self) -> bool {
        true
    }

    proof fn lemma_round_trip(self) {
        lemma_sync_level_round_trip(self);
    }

    proof fn lemma_read_well_formed(text: Seq<char>) {
    }

    fn from_text(text: &str) -> (r: Result<SyncLevel, SerializationError>) {
        match parse_unsigned(text, 10, 255) {
            Err(k) => Err(SerializationError::ParseIntError(k)),
            Ok(n) => {
                if n == 0 {
                    Ok(SyncLevel::Off)
                } else if n == 1 {
                    Ok(SyncLevel::FourBars)
                } else if n == 2 {
                    Ok(SyncLevel::TwoBars)
                } else if n == 3 {
                    Ok(SyncLevel::OneBar)
                } else if n == 4 {
                    Ok(SyncLevel::Second)
                } else if n == 5 {
                    Ok(SyncLevel::Fourth)
                } else if n == 6 {
                    Ok(SyncLevel::Eighth)
                } else if n == 7 {
                    Ok(SyncLevel::Sixteenth)
                } else if n == 8 {
                    Ok(SyncLevel::ThirtySecond)
                } else if n == 9 {
                    Ok(SyncLevel::SixtyFourth)
                } else if n == 10 {
                    Ok(SyncLevel::HundredTwentyEighth)
                } else {
                    Err(SerializationError::InvalidValue(owned_text(text)))
                }
            },
        }
    }

    fn to_text(&self) -> (r: String) {
        match self {
            SyncLevel::Off => u64_text(0),
            SyncLevel::FourBars => u64_text(1),
            SyncLevel::TwoBars => u64_text(2),
            SyncLevel::OneBar => u64_text(3),
            SyncLevel::Second => u64_text(4),
            SyncLevel::Fourth => u64_text(5),
            SyncLevel::Eighth => u64_text(6),
            SyncLevel::Sixteenth => u64_text(7),
            SyncLevel::ThirtySecond => u64_text(8),
            SyncLevel::SixtyFourth => u64_text(9),
            SyncLevel::HundredTwentyEighth => u64_text(10),
        }
    }
}

/// A `SyncLevel` written then read back is unchanged.
pub proof fn lemma_sync_level_round_trip(value: SyncLevel)
    ensures
        SyncLevel::spec_from_text(value.spec_to_text()) == Ok::<SyncLevel, ErrorView>(value),
{
    lemma_parse_unsigned_dec_text(value.spec_number(), 255);
}

/// The priority of a sound's voices.
#[derive(Clone, Copy, Debug, PartialEq, Eq, Structural)]
pub enum VoicePriority {
    Low,
    Medium,
    High,
}
impl VoicePriority {
    /// The number of the value in the files.
    pub open spec fn spec_number(self) -> nat {
        match self {
            VoicePriority::Low => 0,
            VoicePriority::Medium => 1,
            VoicePriority::High => 2,
        }
    }

    /// The value a number designates.
    pub open spec fn spec_numbered(n: nat) -> Option<Self> {
        if n == 0 {
            Some(VoicePriority::Low)
        } else if n == 1 {
            Some(VoicePriority::Medium)
        } else if n == 2 {
            Some(VoicePriority::High)
        } else {
            None
        }
    }
}

impl XmlValue for VoicePriority {
    open spec fn spec_from_text(text: Seq<char>) -> Result<VoicePriority, ErrorView> {
        match spec_parse_unsigned(text, 10, 255) {
            Err(k) => Err(ErrorView::ParseIntError(k)),
            Ok(n) => match VoicePriority::spec_numbered(n) {
                Some(v) => Ok(v),
                None => Err(ErrorView::InvalidValue(text)),
            },
        }
    }

    open spec fn spec_to_text(self) -> Seq<char> {
        dec_text(self.spec_number())
    }

    open spec fn spec_well_formed(self) -> bool {
        true
    }

    proof fn lemma_round_trip(self) {
        lemma_voice_priority_round_trip(self);
    }

    proof fn lemma_read_well_formed(text: Seq<char>) {
    }

    fn from_text(text: &str) -> (r: Result<VoicePriority, SerializationError>) {
        match parse_unsigned(text, 10, 255) {
            Err(k) => Err(SerializationError::ParseIntError(k)),
            Ok(n) => {
                if n == 0 {
                    Ok(VoicePriority::Low)
                } else if n == 1 {
                    Ok(VoicePriority::Medium)
                } else if n == 2 {
                    Ok(VoicePriority::High)
                } else {
                    Err(SerializationError::InvalidValue(owned_text(text)))
                }
            },
        }
    }

    fn to_text(&self) -> (r: String) {
        match self {
            VoicePriority::Low => u64_text(0),
            VoicePriority::Medium => u64_text(1),
            VoicePriority::High => u64_text(2),
        }
    }
}

/// A `VoicePriority` written then read back is unchanged.
pub proof fn lemma_voice_priority_round_trip(value: VoicePriority)
    ensures
        VoicePriority::spec_from_text(value.spec_to_text()) == Ok::<VoicePriority, ErrorView>(value),
{
    lemma_parse_unsigned_dec_text(value.spec_number(), 255);
}

/// How the voices of a sound are allocated.
///
/// A few patches write it as a number: 0 is auto, 1 is poly and 2 is choke.
#[derive(Clone, Copy, Debug, PartialEq, Eq, Structural)]
pub enum Polyphony {
    Poly,
    Mono,
    Auto,
    Legato,
    Choke,
}
impl Polyphony {
    /// The name of the value in the files.
    pub open spec fn spec_name(self) -> Seq<char> {
        match self {
            Polyphony::Poly => "poly"@,
            Polyphony::Mono => "mono"@,
            Polyphony::Auto => "auto"@,
            Polyphony::Legato => "legato"@,
            Polyphony::Choke => "choke"@,
        }
    }

    /// The value a name designates.
    pub open spec fn spec_named(text: Seq<char>) -> Option<Self> {
        if text == "poly"@ {
            Some(Polyphony::Poly)
        } else if text == "mono"@ {
            Some(Polyphony::Mono)
        } else if text == "auto"@ {
            Some(Polyphony::Auto)
        } else if text == "legato"@ {
            Some(Polyphony::Legato)
        } else if text == "choke"@ {
            Some(Polyphony::Choke)
        } else {
            None
        }
    }
}

/// The polyphony a number designates in older patches.
pub open spec fn spec_polyphony_v1(text: Seq<char>) -> Option<Polyphony> {
    match spec_parse_unsigned(text, 10, 255) {
        Ok(n) => if n == 0 {
            Some(Polyphony::Auto)
        } else if n == 1 {
            Some(Polyphony::Poly)
        } else if n == 2 {
            Some(Polyphony::Choke)
        } else {
            None
        },
        Err(_) => None,
    }
}

/// Reads the numeric form of a polyphony.
pub fn get_polyphony_v1(text: &str) -> (r: Option<Polyphony>)
    ensures
        r == spec_polyphony_v1(text@),
{
    match parse_unsigned(text, 10, 255) {
        Ok(0) => Some(Polyphony::Auto),
        Ok(1) => Some(Polyphony::Poly),
        Ok(2) => Some(Polyphony::Choke),
        _ => None,
    }
}

impl XmlValue for Polyphony {
    open spec fn spec_from_text(text: Seq<char>) -> Result<Polyphony, ErrorView> {
        match Polyphony::spec_named(text) {
            Some(v) => Ok(v),
            None => match spec_polyphony_v1(text) {
                Some(v) => Ok(v),
                None => Err(ErrorView::InvalidValue(text)),
            },
        }
    }

    open spec fn spec_to_text(self) -> Seq<char> {
        self.spec_name()
    }

    open spec fn spec_well_formed(self) -> bool {
        true
    }

    proof fn lemma_round_trip(self) {
        lemma_polyphony_round_trip(self);
    }

    proof fn lemma_read_well_formed(text: Seq<char>) {
    }

    fn from_text(text: &str) -> (r: Result<Polyphony, SerializationError>) {
        if str_eq(text, "poly") {
            Ok(Polyphony::Poly)
        } else if str_eq(text, "mono") {
            Ok(Polyphony::Mono)
        } else if str_eq(text, "auto") {
            Ok(Polyphony::Auto)
        } else if str_eq(text, "legato") {
            Ok(Polyphony::Legato)
        } else if str_eq(text, "choke") {
            Ok(Polyphony::Choke)
        } else {
            match get_polyphony_v1(text) {
                Some(v) => Ok(v),
                None => Err(SerializationError::InvalidValue(owned_text(text))),
            }
        }
    }

    fn to_text(&self) -> (r: String) {
        match self {
            Polyphony::Poly => owned_text("poly"),
            Polyphony::Mono => owned_text("mono"),
            Polyphony::Auto => owned_text("auto"),
            Polyphony::Legato => owned_text("legato"),
            Polyphony::Choke => owned_text("choke"),
        }
    }
}

/// A `Polyphony` written then read back is unchanged.
pub proof fn lemma_polyphony_round_trip(value: Polyphony)
    ensures
        Polyphony::spec_from_text(value.spec_to_text()) == Ok::<Polyphony, ErrorView>(value),
{
    reveal_strlit("poly");
    reveal_strlit("mono");
    reveal_strlit("auto");
    reveal_strlit("legato");
    reveal_strlit("choke");
    assert("poly"@[0] != "mono"@[0]);
    assert("poly"@[0] != "auto"@[0]);
    assert("poly"@.len() != "legato"@.len());
    assert("poly"@.len() != "choke"@.len());
    assert("mono"@[0] != "auto"@[0]);
    assert("mono"@.len() != "legato"@.len());
    assert("mono"@.len() != "choke"@.len());
    assert("auto"@.len() != "legato"@.len());
    assert("auto"@.len() != "choke"@.len());
    assert("legato"@.len() != "choke"@.len());
}

} // verus!
