//! An unsigned integer in [0; 50], written as a 32-bit unsigned hexadecimal integer.
use vstd::prelude::*;
use crate::error::{result_view, ErrorView, SerializationError};
use crate::values::{
    i32_as_u32, lemma_map_50_round_trip, bits_i32_to_u32, bits_u32_to_i32, map_50_i32, map_i32_50, read_hexadecimal_u32,
    spec_hexadecimal_u32_text, spec_map_50_i32, spec_map_i32_50, spec_read_hexadecimal_u32, u32_as_i32,
    write_hexadecimal_u32, XmlValue,
};
use crate::text::{dec_text, lemma_digits_of_hex8_text, u64_text};

verus! {

/// An integer in [0; 50] as the Deluge shows it, stored as a hexadecimal `u32`.
#[derive(Copy, Clone, PartialEq, Eq, PartialOrd, Ord, Hash, Debug, Structural)]
pub struct HexU50(pub u8);

impl HexU50 {
    /// Wraps a value.
    pub fn new(value: u8) -> (r: Self)
        ensures
            r.0 == value,
    {
        Self(value)
    }

    /// Reads a value from its hexadecimal text.
    pub fn parse(text: &str) -> (r: Result<Self, SerializationError>)
        ensures
            result_view(r) == spec_read_hexu50(text@),
    {
        read_hexu50(text)
    }

    /// The value.
    pub fn as_u8(&self) -> (r: u8)
        ensures
            r == self.0,
    {
        self.0
    }
}

impl From<u8> for HexU50 {
    fn from(value: u8) -> (r: Self) {
        HexU50::new(value)
    }
}

impl vstd::std_specs::convert::FromSpecImpl<u8> for HexU50 {
    open spec fn obeys_from_spec() -> bool {
        true
    }

    open spec fn from_spec(value: u8) -> Self {
        HexU50(value)
    }
}

/// What reading a `HexU50` gives: the hexadecimal `u32`, seen as an `i32`, mapped onto [0; 50].
pub open spec fn spec_read_hexu50(text: Seq<char>) -> Result<HexU50, ErrorView> {
    match spec_read_hexadecimal_u32(text) {
        Ok(v) => Ok(HexU50(spec_map_i32_50(u32_as_i32(v)))),
        Err(e) => Err(e),
    }
}

/// The text of a `HexU50`: its `i32` image written as a hexadecimal `u32`.
pub closed spec fn spec_write_hexu50(value: HexU50) -> Seq<char> {
    spec_hexadecimal_u32_text(i32_as_u32(spec_map_50_i32(value.0)))
}

/// The text of a value is its `i32` image written as a hexadecimal `u32`.
pub proof fn lemma_write_hexu50_text(value: HexU50)
    ensures
        spec_write_hexu50(value) == spec_hexadecimal_u32_text(i32_as_u32(spec_map_50_i32(value.0))),
{
}

/// Maps an `i32` onto a `HexU50`.
pub fn map_i32_hexu50(value: i32) -> (r: HexU50)
    ensures
        r == HexU50(spec_map_i32_50(value)),
{
    HexU50(map_i32_50(value))
}

/// Maps a `HexU50` onto an `i32`.
pub fn map_hexu50_i32(value: HexU50) -> (r: i32)
    ensures
        r == spec_map_50_i32(value.0),
{
    map_50_i32(value.0)
}

/// Reads a value in [0; 50] written as a hexadecimal `u32`.
pub fn read_hexu50(text: &str) -> (r: Result<HexU50, SerializationError>)
    ensures
        result_view(r) == spec_read_hexu50(text@),
{
    match read_hexadecimal_u32(text) {
        Ok(v) => {
            Ok(map_i32_hexu50(bits_u32_to_i32(v)))
        },
        Err(e) => Err(e),
    }
}

/// Writes a value in [0; 50] as a hexadecimal `u32` with the `0x` prefix; a value above
/// 50 is refused as an overflow (a `u8` is never below 0).
pub fn write_hexu50(value: HexU50) -> (r: Result<String, SerializationError>)
    ensures
        value.0 <= 50 ==> (r matches Ok(s) && s@ == spec_write_hexu50(value)),
        value.0 > 50 ==> (r matches Err(e) && e@ == ErrorView::Overflow(dec_text(value.0 as nat), dec_text(50))),
{
    if value.0 > 50 {
        return Err(SerializationError::Overflow(u64_text(value.0 as u64), u64_text(50)));
    }
    Ok(write_hexadecimal_u32(bits_i32_to_u32(map_hexu50_i32(value))))
}

impl XmlValue for HexU50 {
    open spec fn spec_from_text(text: Seq<char>) -> Result<HexU50, ErrorView> {
        spec_read_hexu50(text)
    }

    open spec fn spec_to_text(self) -> Seq<char> {
        spec_write_hexu50(self)
    }

    open spec fn spec_well_formed(self) -> bool {
        self.0 <= 50
    }

    proof fn lemma_round_trip(self) {
        lemma_hexu50_round_trip(self);
    }

    proof fn lemma_read_well_formed(text: Seq<char>) {
        match spec_read_hexadecimal_u32(text) {
            Ok(v) => crate::values::lemma_map_i32_50_bound(u32_as_i32(v)),
            Err(_) => {},
        }
    }

    fn from_text(text: &str) -> (r: Result<HexU50, SerializationError>) {
        read_hexu50(text)
    }

    fn to_text(&self) -> (r: String) {
        write_hexadecimal_u32(bits_i32_to_u32(map_hexu50_i32(*self)))
    }
}

/// Reading the hexadecimal text of a `u32` gives it back.
pub proof fn lemma_read_hexadecimal_u32_text(v: u32)
    ensures
        spec_read_hexadecimal_u32(spec_hexadecimal_u32_text(v)) == Ok::<u32, ErrorView>(v),
{
    let t = spec_hexadecimal_u32_text(v);
    assert(crate::values::strip_hex_prefix(t) =~= crate::text::hex8_text(v));
    lemma_digits_of_hex8_text(v);
}

/// A value of [0; 50] written then read back is unchanged.
pub proof fn lemma_hexu50_round_trip(value: HexU50)
    requires
        value.0 <= 50,
    ensures
        spec_read_hexu50(spec_write_hexu50(value)) == Ok::<HexU50, ErrorView>(value),
{
    let i = spec_map_50_i32(value.0);
    lemma_read_hexadecimal_u32_text(i32_as_u32(i));
    lemma_map_50_round_trip(value.0);
}

} // verus!
