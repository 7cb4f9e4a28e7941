//! An on/off switch, written as an integer where 0 means off and anything else means on.
use vstd::prelude::*;
use crate::error::{result_view, ErrorView, SerializationError};
use crate::text::{lemma_parse_signed_dec_text, owned_text, parse_i8, spec_parse_signed};
use crate::values::XmlValue;

verus! {

/// On or off.
#[derive(Clone, Copy, PartialEq, Eq, PartialOrd, Ord, Debug, Structural)]
pub enum OnOff {
    On,
    Off,
}

impl Default for OnOff {
    fn default() -> (r: Self)
        ensures
            r == OnOff::Off,
    {
        OnOff::Off
    }
}

/// What reading a switch gives: an `i8`, where 0 is off and any other value on.
pub open spec fn spec_read_on_off(text: Seq<char>) -> Result<OnOff, ErrorView> {
    match spec_parse_signed(text, 127, 128) {
        Ok(v) => Ok(if v == 0 { OnOff::Off } else { OnOff::On }),
        Err(k) => Err(ErrorView::ParseIntError(k)),
    }
}

/// The text of a switch: `1` for on, `0` for off.
pub open spec fn spec_write_on_off(value: OnOff) -> Seq<char> {
    match value {
        OnOff::On => "1"@,
        OnOff::Off => "0"@,
    }
}

impl XmlValue for OnOff {
    open spec fn spec_from_text(text: Seq<char>) -> Result<OnOff, ErrorView> {
        spec_read_on_off(text)
    }

    open spec fn spec_to_text(self) -> Seq<char> {
        spec_write_on_off(self)
    }

    open spec fn spec_well_formed(self) -> bool {
        true
    }

    proof fn lemma_round_trip(self) {
        lemma_on_off_round_trip(self);
    }

    proof fn lemma_read_well_formed(text: Seq<char>) {
    }

    fn from_text(text: &str) -> (r: Result<OnOff, SerializationError>) {
        match parse_i8(text) {
            Ok(v) => Ok(if v == 0 { OnOff::Off } else { OnOff::On }),
            Err(k) => Err(SerializationError::ParseIntError(k)),
        }
    }

    fn to_text(&self) -> (r: String) {
        match self {
            OnOff::On => owned_text("1"),
            OnOff::Off => owned_text("0"),
        }
    }
}

/// A switch written then read back is unchanged.
pub proof fn lemma_on_off_round_trip(value: OnOff)
    ensures
        spec_read_on_off(spec_write_on_off(value)) == Ok::<OnOff, ErrorView>(value),
{
    reveal_strlit("1");
    reveal_strlit("0");
    match value {
        OnOff::On => {
            assert("1"@ =~= crate::text::signed_dec_text(1));
            lemma_parse_signed_dec_text(1, 127, 128);
        },
        OnOff::Off => {
            assert("0"@ =~= crate::text::signed_dec_text(0));
            lemma_parse_signed_dec_text(0, 127, 128);
        },
    }
}

} // verus!
