//! A position in a sample, counted in frames.
use vstd::prelude::*;
use crate::error::{result_view, ErrorView, SerializationError};
use crate::text::{dec_text, lemma_parse_unsigned_dec_text, parse_unsigned, spec_parse_unsigned, u64_text};
use crate::values::XmlValue;

verus! {

/// A position in a sample.
#[derive(Clone, Copy, Debug, PartialEq, Eq, Structural)]
pub struct SamplePosition(pub u64);

impl SamplePosition {
    /// Wraps a position.
    pub fn new(value: u64) -> (r: Self)
        ensures
            r.0 == value,
    {
        Self(value)
    }

    /// The position.
    pub fn as_u64(&self) -> (r: u64)
        ensures
            r == self.0,
    {
        self.0
    }
}

impl From<u32> for SamplePosition {
    fn from(position: u32) -> (r: Self) {
        Self::new(position as u64)
    }
}

impl vstd::std_specs::convert::FromSpecImpl<u32> for SamplePosition {
    open spec fn obeys_from_spec() -> bool {
        true
    }

    open spec fn from_spec(position: u32) -> Self {
        SamplePosition(position as u64)
    }
}

impl From<u64> for SamplePosition {
    fn from(position: u64) -> (r: Self) {
        Self::new(position)
    }
}

impl vstd::std_specs::convert::FromSpecImpl<u64> for SamplePosition {
    open spec fn obeys_from_spec() -> bool {
        true
    }

    open spec fn from_spec(position: u64) -> Self {
        SamplePosition(position)
    }
}

/// What reading a `u64` gives, as `u64::from_str` does.
pub open spec fn spec_read_u64(text: Seq<char>) -> Result<u64, ErrorView> {
    match spec_parse_unsigned(text, 10, 0xFFFF_FFFF_FFFF_FFFF) {
        Ok(v) => Ok(v as u64),
        Err(k) => Err(ErrorView::ParseIntError(k)),
    }
}

/// Reads a decimal `u64`.
pub fn read_u64(text: &str) -> (r: Result<u64, SerializationError>)
    ensures
        result_view(r) == spec_read_u64(text@),
{
    match parse_unsigned(text, 10, 0xFFFF_FFFF_FFFF_FFFF) {
        Ok(v) => Ok(v),
        Err(k) => Err(SerializationError::ParseIntError(k)),
    }
}

impl XmlValue for SamplePosition {
    open spec fn spec_from_text(text: Seq<char>) -> Result<SamplePosition, ErrorView> {
        match spec_read_u64(text) {
            Ok(v) => Ok(SamplePosition(v)),
            Err(e) => Err(e),
        }
    }

    open spec fn spec_to_text(self) -> Seq<char> {
        dec_text(self.0 as nat)
    }

    open spec fn spec_well_formed(self) -> bool {
        true
    }

    proof fn lemma_round_trip(self) {
        lemma_sample_position_round_trip(self);
    }

    proof fn lemma_read_well_formed(text: Seq<char>) {
    }

    fn from_text(text: &str) -> (r: Result<SamplePosition, SerializationError>) {
        match read_u64(text) {
            Ok(v) => Ok(SamplePosition(v)),
            Err(e) => Err(e),
        }
    }

    fn to_text(&self) -> (r: String) {
        u64_text(self.0)
    }
}

/// A position written then read back is unchanged.
pub proof fn lemma_sample_position_round_trip(p: SamplePosition)
    ensures
        SamplePosition::spec_from_text(p.spec_to_text()) == Ok::<SamplePosition, ErrorView>(p),
{
    lemma_parse_unsigned_dec_text(p.0 as nat, 0xFFFF_FFFF_FFFF_FFFF);
}

} // verus!
