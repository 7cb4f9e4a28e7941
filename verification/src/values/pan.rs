//! A stereo position in [-32 (left); 32 (right)], written as a 32-bit unsigned hexadecimal integer.
use vstd::prelude::*;
use crate::error::{result_view, ErrorView, SerializationError};
use crate::text::{i64_text, owned_text, signed_dec_text};
use crate::values::hexu50::lemma_read_hexadecimal_u32_text;
use crate::values::{
    bits_i32_to_u32, bits_u32_to_i32, i32_as_u32, read_hexadecimal_u32, spec_hexadecimal_u32_text,
    spec_read_hexadecimal_u32, u32_as_i32, write_hexadecimal_u32, XmlValue,
};

verus! {

/// A stereo position: negative is left, positive is right.
#[derive(Clone, Copy, PartialEq, Eq, PartialOrd, Ord, Debug, Structural)]
pub struct Pan(i8);

impl Pan {
    /// Every position lies in [-32; 32].
    #[verifier::type_invariant]
    spec fn in_range(self) -> bool {
        -32 <= self.0 <= 32
    }

    /// The position.
    pub closed spec fn value(self) -> i8 {
        self.0
    }

    /// The centre.
    pub closed spec fn spec_center() -> Pan {
        Pan(0)
    }

    /// The centre is at 0.
    pub proof fn lemma_center_value()
        ensures
            Pan::spec_center().value() == 0,
    {
    }

    /// A position in [-32; 32]; other values are refused.
    pub fn new(value: i8) -> (r: Result<Self, SerializationError>)
        ensures
            match spec_pan_new(value) {
                Ok(v) => r matches Ok(p) && p.value() == v,
                Err(e) => r matches Err(f) && f@ == e,
            },
    {
        if value > 32 {
            return Err(SerializationError::Overflow(i64_text(value as i64), owned_text("32")));
        }
        if value < -32 {
            return Err(SerializationError::Underflow(i64_text(value as i64), owned_text("-32")));
        }
        Ok(Self(value))
    }

    /// Reads a position from its hexadecimal text.
    pub fn parse(text: &str) -> (r: Result<Self, SerializationError>)
        ensures
            match spec_read_pan(text@) {
                Ok(v) => r matches Ok(p) && p.value() == v,
                Err(e) => r matches Err(f) && f@ == e,
            },
    {
        read_pan(text)
    }

    /// The position as an integer.
    pub fn as_i8(&self) -> (r: i8)
        ensures
            r == self.value(),
            -32 <= r <= 32,
    {
        proof {
            use_type_invariant(self);
        }
        self.0
    }
}

impl Default for Pan {
    /// The centre.
    fn default() -> (r: Self)
        ensures
            r.value() == 0,
            r == Pan::spec_center(),
    {
        Pan(0)
    }
}

/// What `Pan::new` gives: the position, or why it is out of range.
pub open spec fn spec_pan_new(value: i8) -> Result<i8, ErrorView> {
    if value > 32 {
        Err(ErrorView::Overflow(signed_dec_text(value as int), "32"@))
    } else if value < -32 {
        Err(ErrorView::Underflow(signed_dec_text(value as int), "-32"@))
    } else {
        Ok(value)
    }
}

/// The `i32` image of a position: `value * 2^26`, where 32 saturates to `i32::MAX`.
pub open spec fn spec_pan_i32(value: i8) -> i32 {
    if value >= 32 {
        0x7FFF_FFFF
    } else {
        (value * 0x400_0000) as i32
    }
}

/// An `i32` divided by `2^26`, rounded half away from zero.
pub open spec fn spec_round_pan(n: i32) -> i8 {
    if n >= 0 {
        ((n + 0x200_0000) / 0x400_0000) as i8
    } else {
        (-((-n + 0x200_0000) / 0x400_0000)) as i8
    }
}

/// Rounding any `i32` gives a position of [-32; 32].
proof fn lemma_round_pan_bound(n: i32)
    ensures
        -32 <= spec_round_pan(n) <= 32,
{
    if n >= 0 {
        let q: int = (n + 0x200_0000) / 0x400_0000;
        assert(0 <= q <= 32);
    } else {
        let q: int = (-n + 0x200_0000) / 0x400_0000;
        assert(0 <= q <= 32);
    }
}

/// What reading a position gives: the hexadecimal `u32`, seen as an `i32`, divided by `2^26`.
pub open spec fn spec_read_pan(text: Seq<char>) -> Result<i8, ErrorView> {
    match spec_read_hexadecimal_u32(text) {
        Ok(v) => Ok(spec_round_pan(u32_as_i32(v))),
        Err(e) => Err(e),
    }
}

/// The text of a position.
pub closed spec fn spec_write_pan(value: i8) -> Seq<char> {
    spec_hexadecimal_u32_text(i32_as_u32(spec_pan_i32(value)))
}

/// The text of a position is its `i32` image written as a hexadecimal `u32`.
pub proof fn lemma_write_pan_text(value: i8)
    ensures
        spec_write_pan(value) == spec_hexadecimal_u32_text(i32_as_u32(spec_pan_i32(value))),
{
}

/// Writes a position as a hexadecimal `u32`.
pub fn write_pan(pan: Pan) -> (r: Result<String, SerializationError>)
    ensures
        r matches Ok(s) && s@ == spec_write_pan(pan.value()),
{
    proof {
        use_type_invariant(&pan);
    }
    let v: i32 = if pan.0 >= 32 { i32::MAX } else { (pan.0 as i32) * 0x400_0000 };
    Ok(write_hexadecimal_u32(bits_i32_to_u32(v)))
}

/// Divides by `2^26`, rounding half away from zero.
fn round_pan(n: i32) -> (r: i8)
    ensures
        r == spec_round_pan(n),
        -32 <= r <= 32,
{
    if n >= 0 {
        (((n as i64) + 0x200_0000) / 0x400_0000) as i8
    } else {
        (-((-(n as i64) + 0x200_0000) / 0x400_0000)) as i8
    }
}

/// Reads a position written as a hexadecimal `u32`.
pub fn read_pan(text: &str) -> (r: Result<Pan, SerializationError>)
    ensures
        match spec_read_pan(text@) {
            Ok(v) => r matches Ok(p) && p.value() == v,
            Err(e) => r matches Err(f) && f@ == e,
        },
{
    match read_hexadecimal_u32(text) {
        Ok(v) => Pan::new(round_pan(bits_u32_to_i32(v))),
        Err(e) => Err(e),
    }
}

impl XmlValue for Pan {
    closed spec fn spec_from_text(text: Seq<char>) -> Result<Pan, ErrorView> {
        match spec_read_pan(text) {
            Ok(v) => Ok(Pan(v)),
            Err(e) => Err(e),
        }
    }

    open spec fn spec_to_text(self) -> Seq<char> {
        spec_write_pan(self.value())
    }

    open spec fn spec_well_formed(self) -> bool {
        -32 <= self.value() <= 32
    }

    proof fn lemma_round_trip(self) {
        lemma_pan_round_trip(self.value());
    }

    proof fn lemma_read_well_formed(text: Seq<char>) {
        match spec_read_hexadecimal_u32(text) {
            Ok(v) => lemma_round_pan_bound(u32_as_i32(v)),
            Err(_) => {},
        }
    }

    fn from_text(text: &str) -> (r: Result<Pan, SerializationError>) {
        read_pan(text)
    }

    fn to_text(&self) -> (r: String) {
        proof {
            use_type_invariant(self);
        }
        let v: i32 = if self.0 >= 32 { i32::MAX } else { (self.0 as i32) * 0x400_0000 };
        write_hexadecimal_u32(bits_i32_to_u32(v))
    }
}

/// Reading a position as an XML value is reading its hexadecimal text.
pub proof fn lemma_pan_from_text(text: Seq<char>)
    ensures
        match spec_read_pan(text) {
            Ok(v) => Pan::spec_from_text(text) matches Ok(p) && p.value() == v,
            Err(e) => Pan::spec_from_text(text) == Err::<Pan, ErrorView>(e),
        },
{
}

/// A position of [-32; 32] written then read back is unchanged.
pub proof fn lemma_pan_round_trip(value: i8)
    requires
        -32 <= value <= 32,
    ensures
        spec_read_pan(spec_write_pan(value)) == Ok::<i8, ErrorView>(value),
{
    let i = spec_pan_i32(value);
    lemma_read_hexadecimal_u32_text(i32_as_u32(i));
    assert(u32_as_i32(i32_as_u32(i)) == i);
}

} // verus!
