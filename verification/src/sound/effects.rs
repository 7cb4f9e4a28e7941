//! Delay, distortion, equalizer, modulation effects and sidechain.
use vstd::prelude::*;
use crate::values::hexu50::HexU50;
use crate::values::on_off::OnOff;
use crate::values::sidechain_values::{AttackSidechain, ReleaseSidechain, TableIndex};
use crate::values::simple_enums::SyncLevel;
use crate::values::ClippingAmount;

verus! {

/// A delay.
#[derive(Clone, Copy, Debug, PartialEq, Eq, Structural)]
pub struct Delay {
    pub ping_pong: OnOff,
    pub analog: OnOff,
    pub amount: HexU50,
    pub rate: HexU50,
    pub sync_level: SyncLevel,
}

impl Default for Delay {
    fn default() -> (r: Self)
        ensures
            r == (Delay {
                ping_pong: OnOff::On,
                analog: OnOff::Off,
                amount: HexU50(0),
                rate: HexU50(25),
                sync_level: SyncLevel::Sixteenth,
            }),
    {
        Self {
            ping_pong: OnOff::On,
            analog: OnOff::Off,
            amount: HexU50::new(0),
            rate: HexU50::new(25),
            sync_level: SyncLevel::Sixteenth,
        }
    }
}

/// Bit crushing, saturation and sample rate reduction.
#[derive(Clone, Copy, Debug, PartialEq, Eq)]
pub struct Distorsion {
    pub bit_crush: HexU50,
    pub saturation: ClippingAmount,
    pub decimation: HexU50,
}

impl Default for Distorsion {
    fn default() -> (r: Self)
        ensures
            r.bit_crush == HexU50(0),
            r.saturation.value() == 0,
            r.decimation == HexU50(0),
    {
        Self { bit_crush: HexU50::new(0), saturation: ClippingAmount::new(0), decimation: HexU50::new(0) }
    }
}

/// A two band equalizer; 25 leaves a band unchanged.
#[derive(Clone, Copy, Debug, PartialEq, Eq, Structural)]
pub struct Equalizer {
    pub bass_level: HexU50,
    pub bass_frequency: HexU50,
    pub treble_level: HexU50,
    pub treble_frequency: HexU50,
}

impl Default for Equalizer {
    fn default() -> (r: Self)
        ensures
            r == (Equalizer {
                bass_level: HexU50(25),
                bass_frequency: HexU50(25),
                treble_level: HexU50(25),
                treble_frequency: HexU50(25),
            }),
    {
        Self {
            bass_level: HexU50::new(25),
            bass_frequency: HexU50::new(25),
            treble_level: HexU50::new(25),
            treble_frequency: HexU50::new(25),
        }
    }
}

/// A modulation effect.
#[derive(Clone, Copy, Debug, PartialEq, Eq, Structural)]
pub enum ModulationFx {
    Off,
    Flanger(Flanger),
    Chorus(Chorus),
    Phaser(Phaser),
}

/// A flanger.
#[derive(Clone, Copy, Debug, PartialEq, Eq, Structural)]
pub struct Flanger {
    pub rate: HexU50,
    pub feedback: HexU50,
}

impl Default for Flanger {
    fn default() -> (r: Self)
        ensures
            r == (Flanger { rate: HexU50(25), feedback: HexU50(0) }),
    {
        Self { rate: HexU50::new(25), feedback: HexU50::new(0) }
    }
}

/// A chorus.
#[derive(Clone, Copy, Debug, PartialEq, Eq, Structural)]
pub struct Chorus {
    pub rate: HexU50,
    pub depth: HexU50,
    pub offset: HexU50,
}

/// A phaser.
#[derive(Clone, Copy, Debug, PartialEq, Eq, Structural)]
pub struct Phaser {
    pub rate: HexU50,
    pub depth: HexU50,
    pub feedback: HexU50,
}

/// A sidechain.
///
/// The "compressor" (the sidechain affecting the volume) is written as a patch cable.
#[derive(Clone, Copy, Debug, PartialEq, Eq)]
pub struct Sidechain {
    pub attack: AttackSidechain,
    pub release: ReleaseSidechain,
    pub shape: HexU50,
    pub sync: SyncLevel,
}

/// The sidechain of a new patch.
pub open spec fn spec_default_sidechain() -> Sidechain {
    Sidechain {
        attack: AttackSidechain::spec_at(7),
        release: ReleaseSidechain::spec_at(28),
        shape: HexU50(18),
        sync: SyncLevel::Sixteenth,
    }
}

impl Default for Sidechain {
    fn default() -> (r: Self)
        ensures
            r == spec_default_sidechain(),
            r.attack.index() == 7,
            r.release.index() == 28,
    {
        let r = Self {
            attack: AttackSidechain::new(TableIndex::new(7)),
            release: ReleaseSidechain::new(TableIndex::new(28)),
            shape: HexU50::new(18),
            sync: SyncLevel::Sixteenth,
        };
        proof {
            AttackSidechain::lemma_spec_at_index(r.attack);
            ReleaseSidechain::lemma_spec_at_index(r.release);
        }
        r
    }
}

} // verus!
