//! An 8-bit unsigned integer constrained to a range fixed at compile time.
use vstd::prelude::*;
use crate::error::{result_view, ErrorView, SerializationError};
use crate::text::{dec_text, lemma_parse_unsigned_dec_text, parse_unsigned, spec_parse_unsigned, u64_text};
use crate::values::XmlValue;

verus! {

/// An integer in [MIN; MAX]. `DEFAULT` is the value the Deluge starts with.
#[derive(PartialEq, Eq, Copy, Clone, Debug)]
pub struct Uint8<const MIN: u8, const MAX: u8, const DEFAULT: u8> {
    val: u8,
}

impl<const MIN: u8, const MAX: u8, const DEFAULT: u8> Uint8<MIN, MAX, DEFAULT> {
    /// The value.
    pub closed spec fn value(self) -> u8 {
        self.val
    }

    /// The value `v`, seen as a value of this type.
    pub closed spec fn spec_new(v: u8) -> Self {
        Uint8 { val: v }
    }

    /// A value is the one `spec_new` builds from its value.
    pub proof fn lemma_spec_new_of_value(x: Self)
        ensures
            Self::spec_new(x.value()) == x,
    {
    }

    /// `spec_new` keeps its value.
    pub proof fn lemma_value_of_spec_new(v: u8)
        ensures
            Self::spec_new(v).value() == v,
    {
    }

    fn check(val: u8) -> (r: Self)
        requires
            MIN <= val <= MAX,
        ensures
            r.value() == val,
    {
        Self { val }
    }

    /// Wraps a value of [MIN; MAX].
    pub fn new(val: u8) -> (r: Self)
        requires
            MIN <= val <= MAX,
        ensures
            r.value() == val,
    {
        Self::check(val)
    }

    /// The value.
    pub fn to_value(self) -> (r: u8)
        ensures
            r == self.value(),
    {
        self.val
    }

    /// The value.
    pub fn as_u8(&self) -> (r: u8)
        ensures
            r == self.value(),
    {
        self.val
    }
}

impl<const MIN: u8, const MAX: u8, const DEFAULT: u8> Default for Uint8<MIN, MAX, DEFAULT> {
    /// The lower bound of the range.
    fn default() -> (r: Self)
        ensures
            r.value() == MIN,
    {
        Self { val: MIN }
    }
}

/// What reading a bounded integer gives: a `u8`, then refused above `max` or below `min`.
pub open spec fn spec_read_bounded_u8(text: Seq<char>, min: u8, max: u8) -> Result<u8, ErrorView> {
    match spec_parse_unsigned(text, 10, 255) {
        Err(k) => Err(ErrorView::ParseIntError(k)),
        Ok(v) => if v > max {
            Err(ErrorView::Overflow(dec_text(v), dec_text(max as nat)))
        } else if v < min {
            Err(ErrorView::Underflow(dec_text(v), dec_text(min as nat)))
        } else {
            Ok(v as u8)
        },
    }
}

/// Reads a `u8` of [min; max].
pub fn read_bounded_u8(text: &str, min: u8, max: u8) -> (r: Result<u8, SerializationError>)
    ensures
        result_view(r) == spec_read_bounded_u8(text@, min, max),
{
    match parse_unsigned(text, 10, 255) {
        Err(k) => Err(SerializationError::ParseIntError(k)),
        Ok(v) => {
            if v > max as u64 {
                Err(SerializationError::Overflow(u64_text(v), u64_text(max as u64)))
            } else if v < min as u64 {
                Err(SerializationError::Underflow(u64_text(v), u64_text(min as u64)))
            } else {
                Ok(v as u8)
            }
        },
    }
}

impl<const MIN: u8, const MAX: u8, const DEFAULT: u8> XmlValue for Uint8<MIN, MAX, DEFAULT> {
    open spec fn spec_from_text(text: Seq<char>) -> Result<Self, ErrorView> {
        match spec_read_bounded_u8(text, MIN, MAX) {
            Ok(v) => Ok(Self::spec_new(v)),
            Err(e) => Err(e),
        }
    }

    open spec fn spec_to_text(self) -> Seq<char> {
        dec_text(self.value() as nat)
    }

    open spec fn spec_well_formed(self) -> bool {
        MIN <= self.value() <= MAX
    }

    proof fn lemma_round_trip(self) {
        lemma_bounded_u8_round_trip(self.value(), MIN, MAX);
    }

    proof fn lemma_read_well_formed(text: Seq<char>) {
        match spec_read_bounded_u8(text, MIN, MAX) {
            Ok(v) => Self::lemma_value_of_spec_new(v),
            Err(_) => {},
        }
    }

    fn from_text(text: &str) -> (r: Result<Self, SerializationError>) {
        match read_bounded_u8(text, MIN, MAX) {
            Ok(v) => Ok(Self { val: v }),
            Err(e) => Err(e),
        }
    }

    fn to_text(&self) -> (r: String) {
        u64_text(self.val as u64)
    }
}

/// A value of [min; max] written then read back is unchanged.
pub proof fn lemma_bounded_u8_round_trip(v: u8, min: u8, max: u8)
    requires
        min <= v <= max,
    ensures
        spec_read_bounded_u8(dec_text(v as nat), min, max) == Ok::<u8, ErrorView>(v),
{
    lemma_parse_unsigned_dec_text(v as nat, 255);
}

} // verus!
