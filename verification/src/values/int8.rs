//! An 8-bit signed integer constrained to a range fixed at compile time.
use vstd::prelude::*;
use crate::error::{result_view, ErrorView, SerializationError};
use crate::text::{i64_text, lemma_parse_signed_dec_text, parse_i8, signed_dec_text, spec_parse_signed};
use crate::values::XmlValue;

verus! {

/// An integer in [-MIN_MAGNITUDE; MAX]. `DEFAULT` is the value the Deluge starts with.
///
/// The lower bound is given by its magnitude because the bounds of a type are unsigned here.
#[derive(PartialEq, Eq, Copy, Clone, Debug)]
pub struct Int8<const MIN_MAGNITUDE: u8, const MAX: u8, const DEFAULT: u8> {
    val: i8,
}

impl<const MIN_MAGNITUDE: u8, const MAX: u8, const DEFAULT: u8> Int8<MIN_MAGNITUDE, MAX, DEFAULT> {
    /// The value.
    pub closed spec fn value(self) -> i8 {
        self.val
    }

    /// The value `v`, seen as a value of this type.
    pub closed spec fn spec_new(v: i8) -> Self {
        Int8 { val: v }
    }

    /// A value is the one `spec_new` builds from its value.
    pub proof fn lemma_spec_new_of_value(x: Self)
        ensures
            Self::spec_new(x.value()) == x,
    {
    }

    /// `spec_new` keeps its value.
    pub proof fn lemma_value_of_spec_new(v: i8)
        ensures
            Self::spec_new(v).value() == v,
    {
    }

    fn check(val: i8) -> (r: Self)
        requires
            val + MIN_MAGNITUDE >= 0,
            val <= MAX,
        ensures
            r.value() == val,
    {
        Self { val }
    }

    /// Wraps a value of [-MIN_MAGNITUDE; MAX].
    pub fn new(val: i8) -> (r: Self)
        requires
            val + MIN_MAGNITUDE >= 0,
            val <= MAX,
        ensures
            r.value() == val,
    {
        Self::check(val)
    }

    /// The value.
    pub fn as_i8(&self) -> (r: i8)
        ensures
            r == self.value(),
    {
        self.val
    }
}

impl<const MIN_MAGNITUDE: u8, const MAX: u8, const DEFAULT: u8> Default for Int8<MIN_MAGNITUDE, MAX, DEFAULT> {
    /// The value `DEFAULT`.
    fn default() -> (r: Self)
        ensures
            r.value() == DEFAULT as i8,
    {
        Self { val: DEFAULT as i8 }
    }
}

/// What reading a bounded integer gives: an `i8`, then refused above `max` or below `-min_magnitude`.
pub open spec fn spec_read_bounded_i8(text: Seq<char>, min_magnitude: u8, max: u8) -> Result<i8, ErrorView> {
    match spec_parse_signed(text, 127, 128) {
        Err(k) => Err(ErrorView::ParseIntError(k)),
        Ok(v) => if v > max {
            Err(ErrorView::Overflow(signed_dec_text(v), signed_dec_text(max as int)))
        } else if v < -(min_magnitude as int) {
            Err(ErrorView::Underflow(signed_dec_text(v), signed_dec_text(-(min_magnitude as int))))
        } else {
            Ok(v as i8)
        },
    }
}

/// Reads an `i8` of [-min_magnitude; max].
pub fn read_bounded_i8(text: &str, min_magnitude: u8, max: u8) -> (r: Result<i8, SerializationError>)
    ensures
        result_view(r) == spec_read_bounded_i8(text@, min_magnitude, max),
{
    match parse_i8(text) {
        Err(k) => Err(SerializationError::ParseIntError(k)),
        Ok(v) => {
            if v as i64 > max as i64 {
                Err(SerializationError::Overflow(i64_text(v as i64), i64_text(max as i64)))
            } else if (v as i64) < -(min_magnitude as i64) {
                Err(SerializationError::Underflow(i64_text(v as i64), i64_text(-(min_magnitude as i64))))
            } else {
                Ok(v)
            }
        },
    }
}

impl<const MIN_MAGNITUDE: u8, const MAX: u8, const DEFAULT: u8> XmlValue for Int8<MIN_MAGNITUDE, MAX, DEFAULT> {
    open spec fn spec_from_text(text: Seq<char>) -> Result<Self, ErrorView> {
        match spec_read_bounded_i8(text, MIN_MAGNITUDE, MAX) {
            Ok(v) => Ok(Self::spec_new(v)),
            Err(e) => Err(e),
        }
    }

    open spec fn spec_to_text(self) -> Seq<char> {
        signed_dec_text(self.value() as int)
    }

    open spec fn spec_well_formed(self) -> bool {
        -(MIN_MAGNITUDE as int) <= self.value() <= MAX
    }

    proof fn lemma_round_trip(self) {
        lemma_bounded_i8_round_trip(self.value(), MIN_MAGNITUDE, MAX);
    }

    proof fn lemma_read_well_formed(text: Seq<char>) {
        match spec_read_bounded_i8(text, MIN_MAGNITUDE, MAX) {
            Ok(v) => Self::lemma_value_of_spec_new(v),
            Err(_) => {},
        }
    }

    fn from_text(text: &str) -> (r: Result<Self, SerializationError>) {
        match read_bounded_i8(text, MIN_MAGNITUDE, MAX) {
            Ok(v) => Ok(Self { val: v }),
            Err(e) => Err(e),
        }
    }

    fn to_text(&self) -> (r: String) {
        i64_text(self.val as i64)
    }
}

/// A value of [-min_magnitude; max] written then read back is unchanged.
pub proof fn lemma_bounded_i8_round_trip(v: i8, min_magnitude: u8, max: u8)
    requires
        -(min_magnitude as int) <= v <= max,
    ensures
        spec_read_bounded_i8(signed_dec_text(v as int), min_magnitude, max) == Ok::<i8, ErrorView>(v),
{
    lemma_parse_signed_dec_text(v as int, 127, 128);
}

} // verus!
