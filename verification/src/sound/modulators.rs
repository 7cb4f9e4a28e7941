//! Envelopes, low frequency oscillators, patch cables and mod knobs.
use vstd::prelude::*;
use crate::text::owned_text;
use crate::values::hexu50::HexU50;
use crate::values::simple_enums::{LfoShape, SyncLevel};

verus! {

/// An ADSR envelope.
#[derive(Clone, Copy, Debug, PartialEq, Eq, Structural)]
pub struct Envelope {
    pub attack: HexU50,
    pub decay: HexU50,
    pub sustain: HexU50,
    pub release: HexU50,
}

/// The first low frequency oscillator, which can follow the tempo.
#[derive(Clone, Copy, Debug, PartialEq, Eq, Structural)]
pub struct Lfo1 {
    pub shape: LfoShape,
    pub sync_level: SyncLevel,
    pub rate: HexU50,
}

impl Default for Lfo1 {
    fn default() -> (r: Self)
        ensures
            r == (Lfo1 { shape: LfoShape::Triangle, sync_level: SyncLevel::Off, rate: HexU50(30) }),
    {
        Self { shape: LfoShape::Triangle, sync_level: SyncLevel::Off, rate: HexU50::new(30) }
    }
}

/// The second low frequency oscillator.
#[derive(Clone, Copy, Debug, PartialEq, Eq, Structural)]
pub struct Lfo2 {
    pub shape: LfoShape,
    pub rate: HexU50,
}

impl Default for Lfo2 {
    fn default() -> (r: Self)
        ensures
            r == (Lfo2 { shape: LfoShape::Triangle, rate: HexU50(25) }),
    {
        Self { shape: LfoShape::Triangle, rate: HexU50::new(25) }
    }
}

/// A modulation from a source to a destination parameter.
#[derive(Clone, Debug, PartialEq, Eq)]
pub struct PatchCable {
    pub source: String,
    pub destination: String,
    pub amount: HexU50,
}

/// A patch cable with its texts seen as character sequences.
pub struct PatchCableView {
    pub source: Seq<char>,
    pub destination: Seq<char>,
    pub amount: HexU50,
}

impl View for PatchCable {
    type V = PatchCableView;

    open spec fn view(&self) -> PatchCableView {
        PatchCableView { source: self.source@, destination: self.destination@, amount: self.amount }
    }
}

impl PatchCable {
    /// A cable from a source to a destination.
    pub fn new(source: &str, destination: &str, amount: HexU50) -> (r: Self)
        ensures
            r@ == (PatchCableView { source: source@, destination: destination@, amount }),
    {
        Self { source: owned_text(source), destination: owned_text(destination), amount }
    }
}

/// The parameter that a mod knob controls.
#[derive(Clone, Debug, PartialEq, Eq)]
pub struct ModKnob {
    pub control_param: String,
    pub patch_amount_from_source: Option<String>,
}

/// A mod knob with its texts seen as character sequences.
pub struct ModKnobView {
    pub control_param: Seq<char>,
    pub patch_amount_from_source: Option<Seq<char>>,
}

impl View for ModKnob {
    type V = ModKnobView;

    open spec fn view(&self) -> ModKnobView {
        ModKnobView {
            control_param: self.control_param@,
            patch_amount_from_source: match self.patch_amount_from_source {
                Some(s) => Some(s@),
                None => None,
            },
        }
    }
}

impl ModKnob {
    /// A knob that controls a parameter.
    pub fn new(control_param: &str) -> (r: Self)
        ensures
            r@ == (ModKnobView { control_param: control_param@, patch_amount_from_source: None }),
    {
        Self { control_param: owned_text(control_param), patch_amount_from_source: None }
    }

    /// A knob that controls the amount of a patch cable from a source.
    pub fn new_with_patch_amount(control_param: &str, patch_amount_from_source: &str) -> (r: Self)
        ensures
            r@ == (ModKnobView {
                control_param: control_param@,
                patch_amount_from_source: Some(patch_amount_from_source@),
            }),
    {
        Self {
            control_param: owned_text(control_param),
            patch_amount_from_source: Some(owned_text(patch_amount_from_source)),
        }
    }
}

} // verus!
