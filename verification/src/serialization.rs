//! Reading and writing patches as XML, in every format version of the Deluge.
use vstd::prelude::*;
use crate::serialization::format_version::FormatVersion;
use crate::xml::ValueStyle;

pub mod format_version;
pub mod loading;
pub mod version_info;
pub mod writing;
pub mod documents;
pub mod round_trip;
pub mod loaded;
pub mod laws;
pub mod hex_range;
pub mod field_keys;

verus! {

/// The firmware version written in the patches this library saves.
pub const LATEST_SUPPORTED_FIRMWARE_VERSION: &'static str = "3.1.5";

/// The sample rate of the Deluge, in frames per second.
pub const DELUGE_SAMPLE_FREQUENCY_RATE: u64 = 44100;

/// The largest position in milliseconds whose count of frames fits in a `u64`.
pub const MAX_MILLISECONDS: u64 = 418293516410647;

/// A position given in milliseconds, in frames at the Deluge's rate of 44100 per second.
pub open spec fn spec_milliseconds_to_samples(milliseconds: u64) -> int {
    milliseconds * 44100 / 1000
}

/// Converts a position given in milliseconds to frames: 1000 milliseconds are 44100 frames.
pub fn convert_milliseconds_to_samples(milliseconds: u64) -> (r: u64)
    requires
        milliseconds <= MAX_MILLISECONDS,
    ensures
        r == spec_milliseconds_to_samples(milliseconds),
{
    assert(milliseconds * 44100 <= u64::MAX) by (nonlinear_arith)
        requires
            milliseconds <= 418293516410647u64,
    ;
    milliseconds * DELUGE_SAMPLE_FREQUENCY_RATE / 1000u64
}

/// Selects one of two twin parameters, such as the volumes of oscillators A and B.
#[derive(Clone, Copy, Debug, PartialEq, Eq, Structural)]
pub enum TwinSelector {
    A,
    B,
}

/// The key of the selected twin.
pub open spec fn spec_twin_key(selector: TwinSelector, key_a: Seq<char>, key_b: Seq<char>) -> Seq<char> {
    match selector {
        TwinSelector::A => key_a,
        TwinSelector::B => key_b,
    }
}

impl TwinSelector {
    /// The key of the selected twin.
    pub fn get_key<'l>(&self, key_a: &'l str, key_b: &'l str) -> (r: &'l str)
        ensures
            r@ == spec_twin_key(*self, key_a@, key_b@),
    {
        match self {
            TwinSelector::A => key_a,
            TwinSelector::B => key_b,
        }
    }
}

/// Where a format writes its values.
pub open spec fn style_of(version: FormatVersion) -> ValueStyle {
    if version == FormatVersion::Version3 {
        ValueStyle::Attribute
    } else {
        ValueStyle::Child
    }
}

/// Where a format writes its values: attributes from the third format on, child
/// elements before.
pub fn value_style(version: FormatVersion) -> (r: ValueStyle)
    ensures
        r == style_of(version),
{
    if version == FormatVersion::Version3 {
        ValueStyle::Attribute
    } else {
        ValueStyle::Child
    }
}

} // verus!
