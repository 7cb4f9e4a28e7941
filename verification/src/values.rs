//! Deluge values.
//!
//! These types are the indivisible data of a patch. Most of them are integers with a
//! constrained range, the others are mostly simple enumerations. Each type says how it
//! is written in the XML files: for example `HexU50` is an integer in [0; 50] stored as
//! a 32-bit hexadecimal number.
use vstd::prelude::*;
use crate::error::{result_view, ErrorView, SerializationError};
use crate::text::{
    dec_text, hex8_text, owned_text, parse_i32, parse_unsigned, push_char, push_hex8, signed_dec_text,
    spec_parse_signed, spec_parse_unsigned, starts_with, IntError,
};
use vstd::string::StrSliceExecFns;

pub mod decu50;
pub mod hexu50;
pub mod int8;
pub mod on_off;
pub mod path_order;
pub mod pan;
pub mod retrig_phase;
pub mod sample_path;
pub mod sample_position;
pub mod sidechain_values;
pub mod simple_enums;
pub mod uint8;

verus! {

/// A value that is read from and written to the text of an XML attribute or element.
pub trait XmlValue: Sized {
    /// What reading a text gives.
    spec fn spec_from_text(text: Seq<char>) -> Result<Self, ErrorView>;

    /// The text that writing a value gives.
    spec fn spec_to_text(self) -> Seq<char>;

    /// Whether the value is one of those its type stands for, which reading its text
    /// gives back.
    spec fn spec_well_formed(self) -> bool;

    /// A well-formed value written then read back is unchanged.
    proof fn lemma_round_trip(self)
        requires
            self.spec_well_formed(),
        ensures
            Self::spec_from_text(self.spec_to_text()) == Ok::<Self, ErrorView>(self),
    ;

    /// Every value that reading gives is well-formed.
    proof fn lemma_read_well_formed(text: Seq<char>)
        ensures
            Self::spec_from_text(text) is Ok ==> Self::spec_from_text(text)->Ok_0.spec_well_formed(),
    ;

    /// Reads a value from its text.
    fn from_text(text: &str) -> (r: Result<Self, SerializationError>)
        ensures
            result_view(r) == Self::spec_from_text(text@),
    ;

    /// Writes a value as text.
    fn to_text(&self) -> (r: String)
        ensures
            r@ == self.spec_to_text(),
    ;
}

/// The `i32` with the same 32 bits as a `u32`.
pub open spec fn u32_as_i32(v: u32) -> i32 {
    if v < 0x8000_0000 {
        v as i32
    } else {
        (v - 0x1_0000_0000) as i32
    }
}

/// The `u32` with the same 32 bits as an `i32`.
pub open spec fn i32_as_u32(v: i32) -> u32 {
    if v >= 0 {
        v as u32
    } else {
        (v + 0x1_0000_0000) as u32
    }
}

/// Reinterprets the bits of a `u32` as an `i32`.
pub fn bits_u32_to_i32(value: u32) -> (r: i32)
    ensures
        r == u32_as_i32(value),
{
    if value < 0x8000_0000 {
        value as i32
    } else {
        ((value - 0x8000_0000) as i32) + i32::MIN
    }
}

/// Reinterprets the bits of an `i32` as a `u32`.
pub fn bits_i32_to_u32(value: i32) -> (r: u32)
    ensures
        r == i32_as_u32(value),
{
    if value >= 0 {
        value as u32
    } else {
        ((value - i32::MIN) as u32) + 0x8000_0000
    }
}

/// Reinterprets the bits of a `u32` as an `i32`; this never fails.
pub fn map_u32_i32(value: u32) -> (r: Result<i32, SerializationError>)
    ensures
        r == Ok::<i32, SerializationError>(u32_as_i32(value)),
{
    Ok(bits_u32_to_i32(value))
}

/// Reinterprets the bits of an `i32` as a `u32`; this never fails.
pub fn map_i32_u32(value: i32) -> (r: Result<u32, SerializationError>)
    ensures
        r == Ok::<u32, SerializationError>(i32_as_u32(value)),
{
    Ok(bits_i32_to_u32(value))
}

/// `0x` then eight upper case hexadecimal digits.
pub open spec fn spec_hexadecimal_u32_text(value: u32) -> Seq<char> {
    seq!['0', 'x'] + hex8_text(value)
}

/// Writes a `u32` as `0x` followed by eight upper case hexadecimal digits.
pub fn write_hexadecimal_u32(value: u32) -> (r: String)
    ensures
        r@ == spec_hexadecimal_u32_text(value),
{
    let mut s = String::new();
    push_char(&mut s, '0');
    push_char(&mut s, 'x');
    push_hex8(&mut s, value);
    assert(s@ =~= spec_hexadecimal_u32_text(value));
    s
}

/// The text without its `0x` prefix, if it has one.
pub open spec fn strip_hex_prefix(text: Seq<char>) -> Seq<char> {
    if text.len() >= 2 && text[0] == '0' && text[1] == 'x' {
        text.subrange(2, text.len() as int)
    } else {
        text
    }
}

/// What reading a hexadecimal `u32` gives: an optional `0x` prefix, then what
/// `u32::from_str_radix(_, 16)` accepts.
pub open spec fn spec_read_hexadecimal_u32(text: Seq<char>) -> Result<u32, ErrorView> {
    let digits = strip_hex_prefix(text);
    match spec_parse_unsigned(digits, 16, 0xFFFF_FFFF) {
        Ok(v) => Ok(v as u32),
        Err(k) => Err(ErrorView::ParseHexdecimalU32Error(digits, k)),
    }
}

/// Reads a `u32` written in hexadecimal, with or without the `0x` prefix.
pub fn read_hexadecimal_u32(text: &str) -> (r: Result<u32, SerializationError>)
    ensures
        result_view(r) == spec_read_hexadecimal_u32(text@),
{
    proof {
        reveal_strlit("0x");
    }
    let prefixed = starts_with(text, "0x");
    let len = text.unicode_len();
    let digits: &str = if prefixed {
        text.substring_char(2, len)
    } else {
        text
    };
    proof {
        assert("0x"@ =~= seq!['0', 'x']);
        if text@.len() >= 2 && text@[0] == '0' && text@[1] == 'x' {
            assert(text@.subrange(0, 2) =~= seq!['0', 'x']);
        }
        if prefixed {
            assert(text@.subrange(0, 2)[0] == '0');
            assert(text@.subrange(0, 2)[1] == 'x');
        }
    }
    assert(digits@ == strip_hex_prefix(text@));
    match parse_unsigned(digits, 16, 0xFFFF_FFFF) {
        Ok(v) => Ok(v as u32),
        Err(k) => Err(SerializationError::ParseHexdecimalU32Error(owned_text(digits), k)),
    }
}

/// What reading a decimal `i32` gives, as `i32::from_str` does.
pub open spec fn spec_read_i32(text: Seq<char>) -> Result<i32, ErrorView> {
    match spec_parse_signed(text, 0x7FFF_FFFF, 0x8000_0000) {
        Ok(v) => Ok(v as i32),
        Err(k) => Err(ErrorView::ParseI32Error(text, k)),
    }
}

/// Reads a decimal `i32`.
pub fn read_i32(text: &str) -> (r: Result<i32, SerializationError>)
    ensures
        result_view(r) == spec_read_i32(text@),
{
    match parse_i32(text) {
        Ok(v) => Ok(v),
        Err(k) => Err(SerializationError::ParseI32Error(owned_text(text), k)),
    }
}

/// Maps the whole `i32` range onto [0; 50]: the value `50 * (v - i32::MIN) / u32::MAX`
/// rounded to the nearest integer. No value lies half-way between two integers, so the
/// rounding mode does not matter.
pub open spec fn spec_map_i32_50(value: i32) -> u8 {
    ((100 * (value + 0x8000_0000) + 0xFFFF_FFFF) / (2 * 0xFFFF_FFFFint)) as u8
}

/// Maps [0; 50] onto the `i32` range: 25 is 0, 50 is `i32::MAX`, any other `v` is
/// `i32::MIN + v * (u32::MAX / 50)`, wrapped into 32 bits when it is too large.
pub open spec fn spec_map_50_i32(value: u8) -> i32 {
    if value == 50 {
        0x7FFF_FFFF
    } else if value == 25 {
        0
    } else {
        (((85899345 * value) % 0x1_0000_0000) - 0x8000_0000) as i32
    }
}

/// Maps an `i32` onto [0; 50], as `spec_map_i32_50` says.
pub fn map_i32_50(value: i32) -> (r: u8)
    ensures
        r == spec_map_i32_50(value),
        r <= 50,
{
    let shifted: u64 = ((value as i64) + 0x8000_0000i64) as u64;
    assert(shifted <= 0xFFFF_FFFF);
    let r = (100 * shifted + 0xFFFF_FFFFu64) / (2 * 0xFFFF_FFFFu64);
    assert(r <= 50) by (nonlinear_arith)
        requires
            r == (100 * shifted + 0xFFFF_FFFFu64) / (2 * 0xFFFF_FFFFu64),
            shifted <= 0xFFFF_FFFF,
    ;
    r as u8
}

/// Maps a value of [0; 50] onto the `i32` range, as `spec_map_50_i32` says.
pub fn map_50_i32(value: u8) -> (r: i32)
    ensures
        r == spec_map_50_i32(value),
{
    if value == 50 {
        i32::MAX
    } else if value == 25 {
        0
    } else {
        let product: u64 = 85899345u64 * (value as u64);
        let wrapped: u64 = product % 0x1_0000_0000u64;
        ((wrapped as i64) - 0x8000_0000i64) as i32
    }
}

/// Mapping an `i32` onto [0; 50] gives at most 50.
pub proof fn lemma_map_i32_50_bound(value: i32)
    ensures
        spec_map_i32_50(value) <= 50,
{
    let shifted: int = value + 0x8000_0000;
    let q: int = (100 * shifted + 0xFFFF_FFFF) / (2 * 0xFFFF_FFFFint);
    assert(0 <= q <= 50) by (nonlinear_arith)
        requires
            0 <= shifted <= 0xFFFF_FFFF,
            q == (100 * shifted + 0xFFFF_FFFF) / (2 * 0xFFFF_FFFFint),
    ;
}

/// Every value of [0; 50] mapped onto the `i32` range maps back to itself.
pub proof fn lemma_map_50_round_trip(value: u8)
    requires
        value <= 50,
    ensures
        spec_map_i32_50(spec_map_50_i32(value)) == value,
{
    if value != 50 && value != 25 {
        assert((85899345 * value) % 0x1_0000_0000 == 85899345 * value);
    }
}

} // verus!

verus! {

/// Saturation amount.
pub type ClippingAmount = uint8::Uint8<0, 16, 0>;
/// Fine transposition, in cents.
pub type FineTranspose = int8::Int8<100, 100, 0>;
/// Time stretch amount.
pub type TimeStretchAmount = int8::Int8<48, 48, 0>;
/// Transposition, in semitones.
pub type Transpose = int8::Int8<96, 96, 0>;
/// Unison detune.
pub type UnisonDetune = uint8::Uint8<0, 50, 0>;
/// Number of unison voices.
pub type UnisonVoiceCount = uint8::Uint8<1, 8, 1>;
/// Number of octaves of the arpeggiator.
pub type OctavesCount = uint8::Uint8<1, 8, 1>;
/// A MIDI channel, counted from 0.
pub type MidiChannel = uint8::Uint8<0, 15, 0>;
/// A CV/gate output, counted from 0.
pub type CvGateChannel = uint8::Uint8<0, 3, 0>;

impl XmlValue for u8 {
    open spec fn spec_from_text(text: Seq<char>) -> Result<u8, ErrorView> {
        match spec_parse_unsigned(text, 10, 255) {
            Ok(v) => Ok(v as u8),
            Err(k) => Err(ErrorView::ParseIntError(k)),
        }
    }

    open spec fn spec_to_text(self) -> Seq<char> {
        dec_text(self as nat)
    }

    open spec fn spec_well_formed(self) -> bool {
        true
    }

    proof fn lemma_round_trip(self) {
        crate::text::lemma_parse_unsigned_dec_text(self as nat, 255);
    }

    proof fn lemma_read_well_formed(text: Seq<char>) {
    }

    fn from_text(text: &str) -> (r: Result<u8, SerializationError>) {
        match parse_unsigned(text, 10, 255) {
            Ok(v) => Ok(v as u8),
            Err(k) => Err(SerializationError::ParseIntError(k)),
        }
    }

    fn to_text(&self) -> (r: String) {
        crate::text::u64_text(*self as u64)
    }
}

impl XmlValue for u32 {
    open spec fn spec_from_text(text: Seq<char>) -> Result<u32, ErrorView> {
        match spec_parse_unsigned(text, 10, 0xFFFF_FFFF) {
            Ok(v) => Ok(v as u32),
            Err(k) => Err(ErrorView::ParseIntError(k)),
        }
    }

    open spec fn spec_to_text(self) -> Seq<char> {
        dec_text(self as nat)
    }

    open spec fn spec_well_formed(self) -> bool {
        true
    }

    proof fn lemma_round_trip(self) {
        crate::text::lemma_parse_unsigned_dec_text(self as nat, 0xFFFF_FFFF);
    }

    proof fn lemma_read_well_formed(text: Seq<char>) {
    }

    fn from_text(text: &str) -> (r: Result<u32, SerializationError>) {
        match parse_unsigned(text, 10, 0xFFFF_FFFF) {
            Ok(v) => Ok(v as u32),
            Err(k) => Err(SerializationError::ParseIntError(k)),
        }
    }

    fn to_text(&self) -> (r: String) {
        crate::text::u64_text(*self as u64)
    }
}

} // verus!
