//! The rows of a kit: a sound, a MIDI output or a CV/gate output.
use vstd::prelude::*;
use crate::sound::{Sound, SoundView};
use crate::text::owned_text;
use crate::values::{CvGateChannel, MidiChannel};

verus! {

/// A row of a kit.
#[derive(Clone, Debug, PartialEq, Eq)]
pub enum RowKit {
    /// A row that plays a sound.
    Sound(SoundRow),
    /// A MIDI row.
    Midi(MidiRow),
    /// A CV/gate row.
    CvGate(CvGateRow),
}

/// A row with its texts seen as character sequences.
pub enum RowKitView {
    Sound(SoundRowView),
    Midi(MidiRow),
    CvGate(CvGateRow),
}

impl View for RowKit {
    type V = RowKitView;

    open spec fn view(&self) -> RowKitView {
        match self {
            RowKit::Sound(r) => RowKitView::Sound(r@),
            RowKit::Midi(m) => RowKitView::Midi(*m),
            RowKit::CvGate(g) => RowKitView::CvGate(*g),
        }
    }
}

impl RowKit {
    /// A row that plays a sound.
    pub fn new_sound(sound: Sound, name: &str) -> (r: Self)
        ensures
            r@ == RowKitView::Sound(SoundRowView { sound: sound@, name: name@ }),
    {
        RowKit::Sound(SoundRow::new(sound, name))
    }

    /// A MIDI row.
    pub fn new_midi(channel: MidiChannel, note: u8) -> (r: Self)
        ensures
            r@ == RowKitView::Midi(MidiRow { channel, note }),
    {
        RowKit::Midi(MidiRow { channel, note })
    }

    /// A CV/gate row.
    pub fn new_cv_gate(channel: CvGateChannel) -> (r: Self)
        ensures
            r@ == RowKitView::CvGate(CvGateRow { channel }),
    {
        RowKit::CvGate(CvGateRow { channel })
    }
}

/// A row that plays a sound, with its displayed name.
#[derive(Clone, Debug, PartialEq, Eq)]
pub struct SoundRow {
    /// The sound, kept on the heap.
    pub sound: Box<Sound>,
    /// The displayed name.
    pub name: String,
}

/// A sound row with its texts seen as character sequences.
pub struct SoundRowView {
    pub sound: SoundView,
    pub name: Seq<char>,
}

impl View for SoundRow {
    type V = SoundRowView;

    open spec fn view(&self) -> SoundRowView {
        SoundRowView { sound: (*self.sound)@, name: self.name@ }
    }
}

impl SoundRow {
    /// Creates a new sound row.
    pub fn new(sound: Sound, name: &str) -> (r: Self)
        ensures
            r@ == (SoundRowView { sound: sound@, name: name@ }),
    {
        Self { sound: Box::new(sound), name: owned_text(name) }
    }
}

/// A MIDI output: a channel and a note.
#[derive(Copy, Clone, Debug, PartialEq, Eq)]
pub struct MidiRow {
    /// The MIDI channel.
    pub channel: MidiChannel,
    /// The note of this row.
    pub note: u8,
}

/// A CV/gate output.
#[derive(Copy, Clone, Debug, PartialEq, Eq)]
pub struct CvGateRow {
    /// The CV/gate channel.
    pub channel: CvGateChannel,
}

impl CvGateRow {
    /// Creates a new CV/gate row.
    pub fn new(channel: CvGateChannel) -> (r: Self)
        ensures
            r == (CvGateRow { channel }),
    {
        Self { channel }
    }
}

/// A row that plays a sound, under the name the kit module also gives it.
pub type AudioOutput = SoundRow;

/// A MIDI row, under the name the kit module also gives it.
pub type MidiOutput = MidiRow;

/// A CV/gate row, under the name the kit module also gives it.
pub type CvGateOutput = CvGateRow;

} // verus!
