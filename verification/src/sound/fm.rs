//! FM synthesis: two carriers and two modulators.
use vstd::prelude::*;
use crate::values::hexu50::HexU50;
use crate::values::on_off::OnOff;
use crate::values::retrig_phase::RetrigPhase;
use crate::values::{FineTranspose, Transpose};

verus! {

/// FM synthesis engine.
#[derive(Clone, Copy, Debug, PartialEq, Eq)]
pub struct FmSynth {
    pub osc1: FmCarrier,
    pub osc2: FmCarrier,
    pub modulator1: FmModulator,
    pub modulator2: FmModulator,
    pub osc1_volume: HexU50,
    pub osc2_volume: HexU50,
    /// The "destination" parameter: when on, modulator 2 modulates modulator 1,
    /// otherwise it modulates carrier 2.
    pub modulator2_to_modulator1: OnOff,
}

impl FmSynth {
    /// An FM engine with two carriers and default modulators.
    pub fn new(osc1: FmCarrier, osc2: FmCarrier) -> (r: Self)
        ensures
            r.osc1 == osc1,
            r.osc2 == osc2,
            r.modulator1 == spec_default_fm_modulator(),
            r.modulator2 == spec_default_fm_modulator(),
            r.modulator2_to_modulator1 == OnOff::Off,
            r.osc1_volume == HexU50(50),
            r.osc2_volume == HexU50(39),
    {
        Self {
            osc1,
            osc2,
            modulator1: FmModulator::default(),
            modulator2: FmModulator::default(),
            modulator2_to_modulator1: OnOff::Off,
            osc1_volume: HexU50::new(50),
            osc2_volume: HexU50::new(39),
        }
    }
}

/// A carrier.
#[derive(Clone, Copy, Debug, PartialEq, Eq)]
pub struct FmCarrier {
    pub transpose: Transpose,
    pub fine_transpose: FineTranspose,
    pub retrig_phase: RetrigPhase,
    pub feedback: HexU50,
}

impl Default for FmCarrier {
    fn default() -> (r: Self)
        ensures
            r.transpose.value() == 0,
            r.fine_transpose.value() == 0,
            r.retrig_phase == RetrigPhase::Off,
            r.feedback == HexU50(0),
    {
        Self {
            transpose: Transpose::default(),
            fine_transpose: FineTranspose::default(),
            retrig_phase: RetrigPhase::default(),
            feedback: HexU50::new(0),
        }
    }
}

/// A modulator.
#[derive(Clone, Copy, Debug, PartialEq, Eq)]
pub struct FmModulator {
    pub transpose: Transpose,
    pub fine_transpose: FineTranspose,
    pub retrig_phase: RetrigPhase,
    pub amount: HexU50,
    pub feedback: HexU50,
}

/// The modulator of a new patch.
pub open spec fn spec_default_fm_modulator() -> FmModulator {
    FmModulator {
        transpose: Transpose::spec_new(0),
        fine_transpose: FineTranspose::spec_new(0),
        retrig_phase: RetrigPhase::Off,
        amount: HexU50(0),
        feedback: HexU50(0),
    }
}

impl Default for FmModulator {
    fn default() -> (r: Self)
        ensures
            r == spec_default_fm_modulator(),
    {
        let r = Self {
            transpose: Transpose::new(0),
            fine_transpose: FineTranspose::new(0),
            retrig_phase: RetrigPhase::Off,
            amount: HexU50::new(0),
            feedback: HexU50::new(0),
        };
        proof {
            Transpose::lemma_spec_new_of_value(r.transpose);
            FineTranspose::lemma_spec_new_of_value(r.fine_transpose);
        }
        r
    }
}

} // verus!
