//! Ring modulation synthesis: two waveform oscillators.
use vstd::prelude::*;
use crate::sound::{spec_default_waveform_oscillator, WaveformOscillator};
use crate::values::hexu50::HexU50;
use crate::values::on_off::OnOff;

verus! {

/// Ring modulation engine.
#[derive(Clone, Copy, Debug, PartialEq, Eq)]
pub struct RingModSynth {
    pub osc1: WaveformOscillator,
    pub osc2: WaveformOscillator,
    pub osc2_sync: OnOff,
    pub noise: HexU50,
}

/// The ring modulation engine of a new patch.
pub open spec fn spec_default_ring_mod() -> RingModSynth {
    RingModSynth {
        osc1: spec_default_waveform_oscillator(),
        osc2: spec_default_waveform_oscillator(),
        osc2_sync: OnOff::Off,
        noise: HexU50(0),
    }
}

impl RingModSynth {
    /// A ring modulation engine with two oscillators.
    pub fn new(osc1: WaveformOscillator, osc2: WaveformOscillator) -> (r: Self)
        ensures
            r == (RingModSynth { osc1, osc2, ..spec_default_ring_mod() }),
    {
        Self { osc1, osc2, osc2_sync: OnOff::Off, noise: HexU50::new(0) }
    }
}

impl Default for RingModSynth {
    fn default() -> (r: Self)
        ensures
            r == spec_default_ring_mod(),
    {
        Self::new(WaveformOscillator::new_square(), WaveformOscillator::new_square())
    }
}

} // verus!
