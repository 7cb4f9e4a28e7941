//! An unsigned integer in [0; 50], written as a decimal `i32`.
use vstd::prelude::*;
use crate::error::{result_view, ErrorView, SerializationError};
use crate::text::{i64_text, lemma_parse_signed_dec_text, signed_dec_text};
use crate::values::{
    lemma_map_50_round_trip, map_50_i32, map_i32_50, read_i32, spec_map_50_i32, spec_map_i32_50, spec_read_i32,
    XmlValue,
};

verus! {

/// An integer in [0; 50] as the Deluge shows it, stored as a decimal `i32`.
#[derive(Copy, Clone, PartialEq, Eq, PartialOrd, Ord, Hash, Debug, Structural)]
pub struct DecU50(pub u8);

impl DecU50 {
    /// Wraps a value.
    pub fn new(value: u8) -> (r: Self)
        ensures
            r.0 == value,
    {
        Self(value)
    }

    /// Reads a value from its decimal text.
    pub fn parse(text: &str) -> (r: Result<Self, SerializationError>)
        ensures
            result_view(r) == spec_read_decu50(text@),
    {
        read_decu50(text)
    }

    /// The value.
    pub fn as_u8(&self) -> (r: u8)
        ensures
            r == self.0,
    {
        self.0
    }
}

/// What reading a `DecU50` gives: the decimal `i32` mapped onto [0; 50].
pub open spec fn spec_read_decu50(text: Seq<char>) -> Result<DecU50, ErrorView> {
    match spec_read_i32(text) {
        Ok(v) => Ok(DecU50(spec_map_i32_50(v))),
        Err(e) => Err(e),
    }
}

/// The text of a `DecU50`: its `i32` image in decimal.
pub closed spec fn spec_write_decu50(value: DecU50) -> Seq<char> {
    signed_dec_text(spec_map_50_i32(value.0) as int)
}

/// The text of a value is its `i32` image written in decimal.
pub proof fn lemma_write_decu50_text(value: DecU50)
    ensures
        spec_write_decu50(value) == signed_dec_text(spec_map_50_i32(value.0) as int),
{
}

/// Maps an `i32` onto a `DecU50`.
pub fn map_i32_decu50(value: i32) -> (r: DecU50)
    ensures
        r == DecU50(spec_map_i32_50(value)),
{
    DecU50(map_i32_50(value))
}

/// Maps a `DecU50` onto an `i32`.
pub fn map_decu50_i32(value: DecU50) -> (r: i32)
    ensures
        r == spec_map_50_i32(value.0),
{
    map_50_i32(value.0)
}

/// Reads a value in [0; 50] written as a decimal `i32`.
pub fn read_decu50(text: &str) -> (r: Result<DecU50, SerializationError>)
    ensures
        result_view(r) == spec_read_decu50(text@),
{
    match read_i32(text) {
        Ok(v) => Ok(map_i32_decu50(v)),
        Err(e) => Err(e),
    }
}

impl XmlValue for DecU50 {
    open spec fn spec_from_text(text: Seq<char>) -> Result<DecU50, ErrorView> {
        spec_read_decu50(text)
    }

    open spec fn spec_to_text(self) -> Seq<char> {
        spec_write_decu50(self)
    }

    open spec fn spec_well_formed(self) -> bool {
        self.0 <= 50
    }

    proof fn lemma_round_trip(self) {
        lemma_decu50_round_trip(self);
    }

    proof fn lemma_read_well_formed(text: Seq<char>) {
        match spec_read_i32(text) {
            Ok(v) => crate::values::lemma_map_i32_50_bound(v),
            Err(_) => {},
        }
    }

    fn from_text(text: &str) -> (r: Result<DecU50, SerializationError>) {
        read_decu50(text)
    }

    fn to_text(&self) -> (r: String) {
        i64_text(map_decu50_i32(*self) as i64)
    }
}

/// A value of [0; 50] written then read back is unchanged.
pub proof fn lemma_decu50_round_trip(value: DecU50)
    requires
        value.0 <= 50,
    ensures
        spec_read_decu50(spec_write_decu50(value)) == Ok::<DecU50, ErrorView>(value),
{
    let i = spec_map_50_i32(value.0);
    lemma_parse_signed_dec_text(i as int, 0x7FFF_FFFF, 0x8000_0000);
    lemma_map_50_round_trip(value.0);
}

} // verus!
