//! Synth patches.
use vstd::prelude::*;
use crate::sound::subtractive::spec_default_subtractive;
use crate::sound::{has_default_settings, Sound, SoundView, SynthEngineView};

verus! {

/// A synth patch: one sound.
#[derive(Clone, Debug, PartialEq, Eq)]
pub struct Synth {
    pub sound: Sound,
}

impl View for Synth {
    type V = SoundView;

    open spec fn view(&self) -> SoundView {
        self.sound@
    }
}

impl Default for Synth {
    /// The synth the Deluge creates for a new patch.
    fn default() -> (r: Self)
        ensures
            has_default_settings(r@),
            r@.generator == SynthEngineView::Subtractive(spec_default_subtractive()),
    {
        Synth { sound: Sound::default() }
    }
}

} // verus!
