//! The phase, in degrees, at which an oscillator restarts on a new note.
//! Notice `Degrees(0)` differs from `Off`.
use vstd::prelude::*;
use crate::error::{result_view, ErrorView, SerializationError};
use crate::text::{i64_text, lemma_parse_signed_dec_text, owned_text, signed_dec_text};
use crate::values::{bits_i32_to_u32, bits_u32_to_i32, i32_as_u32, read_i32, spec_read_i32, u32_as_i32, XmlValue};

verus! {

/// Retrigger phase of an oscillator.
#[derive(Clone, Copy, PartialEq, Eq, PartialOrd, Ord, Debug, Structural)]
pub enum RetrigPhase {
    /// The phase is never reset.
    Off,
    /// The phase, in degrees, set on note-on.
    Degrees(u16),
}

/// The phase brought into [0; 360]: above 360 degrees, the remainder of a division by 360.
pub open spec fn spec_normalise(phase: RetrigPhase) -> RetrigPhase {
    match phase {
        RetrigPhase::Degrees(v) => RetrigPhase::Degrees(if v > 360 { (v % 360) as u16 } else { v }),
        RetrigPhase::Off => RetrigPhase::Off,
    }
}

impl RetrigPhase {
    /// A phase in degrees, brought into [0; 360].
    pub fn new(degrees: u16) -> (r: Self)
        ensures
            r == spec_normalise(RetrigPhase::Degrees(degrees)),
    {
        Self::Degrees(degrees).normalise()
    }

    /// The same phase brought into [0; 360].
    pub fn normalise(self) -> (r: Self)
        ensures
            r == spec_normalise(self),
    {
        match self {
            Self::Degrees(value) => {
                let mut value = value;
                if value > 360 {
                    value = value % 360;
                }
                Self::Degrees(value)
            },
            Self::Off => Self::Off,
        }
    }
}

impl Default for RetrigPhase {
    /// A phase set to `Off`.
    fn default() -> (r: Self)
        ensures
            r == RetrigPhase::Off,
    {
        Self::Off
    }
}

/// The step between two degrees once written: 2^32 / 360, rounded down.
pub open spec fn phase_factor() -> int {
    11930464
}

/// The `i32` written for a phase in degrees: `degrees * 11930464` wrapped into 32 bits.
pub open spec fn spec_phase_i32(degrees: u16) -> i32 {
    u32_as_i32(((degrees * phase_factor()) % 0x1_0000_0000) as u32)
}

/// The text of a phase: `-1` when off, else its `i32` image in decimal.
pub closed spec fn spec_write_phase(phase: RetrigPhase) -> Seq<char> {
    match phase {
        RetrigPhase::Off => "-1"@,
        RetrigPhase::Degrees(v) => signed_dec_text(spec_phase_i32(v) as int),
    }
}

/// The text of a phase: `-1` when off, else its `i32` image in decimal.
pub proof fn lemma_write_phase_text(phase: RetrigPhase)
    ensures
        spec_write_phase(phase) == match phase {
            RetrigPhase::Off => "-1"@,
            RetrigPhase::Degrees(v) => signed_dec_text(spec_phase_i32(v) as int),
        },
{
}

/// What reading a phase gives: `-1` is off, any other `i32` seen as a `u32` and divided by 11930464.
pub open spec fn spec_read_phase(text: Seq<char>) -> Result<RetrigPhase, ErrorView> {
    match spec_read_i32(text) {
        Ok(n) => Ok(
            if n == -1 {
                RetrigPhase::Off
            } else {
                RetrigPhase::Degrees((i32_as_u32(n) / 11930464) as u16)
            },
        ),
        Err(e) => Err(e),
    }
}

/// Writes a phase.
pub fn write_phase(phase: RetrigPhase) -> (r: Result<String, SerializationError>)
    ensures
        r matches Ok(s) && s@ == spec_write_phase(phase),
{
    Ok(phase_text(phase))
}

fn phase_text(phase: RetrigPhase) -> (r: String)
    ensures
        r@ == spec_write_phase(phase),
{
    match phase {
        RetrigPhase::Off => owned_text("-1"),
        RetrigPhase::Degrees(value) => {
            let product: u64 = (value as u64) * 11930464u64;
            let wrapped: u32 = (product % 0x1_0000_0000u64) as u32;
            i64_text(bits_u32_to_i32(wrapped) as i64)
        },
    }
}

/// Reads a phase.
pub fn read_phase(text: &str) -> (r: Result<RetrigPhase, SerializationError>)
    ensures
        result_view(r) == spec_read_phase(text@),
{
    match read_i32(text) {
        Ok(n) => {
            if n == -1 {
                Ok(RetrigPhase::Off)
            } else {
                let u = bits_i32_to_u32(n);
                Ok(RetrigPhase::Degrees((u / 11930464) as u16))
            }
        },
        Err(e) => Err(e),
    }
}

impl XmlValue for RetrigPhase {
    open spec fn spec_from_text(text: Seq<char>) -> Result<RetrigPhase, ErrorView> {
        spec_read_phase(text)
    }

    open spec fn spec_to_text(self) -> Seq<char> {
        spec_write_phase(spec_normalise(self))
    }

    open spec fn spec_well_formed(self) -> bool {
        spec_normalise(self) == self
    }

    proof fn lemma_round_trip(self) {
        lemma_phase_round_trip(self);
    }

    proof fn lemma_read_well_formed(text: Seq<char>) {
        match spec_read_i32(text) {
            Ok(n) => {
                let q: int = (i32_as_u32(n) as int) / 11930464;
                assert(0 <= q <= 360);
            },
            Err(_) => {},
        }
    }

    fn from_text(text: &str) -> (r: Result<RetrigPhase, SerializationError>) {
        read_phase(text)
    }

    /// The phase is brought into [0; 360] before it is written.
    fn to_text(&self) -> (r: String) {
        phase_text(self.normalise())
    }
}

/// A phase written then read back is the phase brought into [0; 360].
pub proof fn lemma_phase_round_trip(phase: RetrigPhase)
    ensures
        spec_read_phase(spec_write_phase(spec_normalise(phase))) == Ok::<RetrigPhase, ErrorView>(spec_normalise(phase)),
{
    reveal_strlit("-1");
    match spec_normalise(phase) {
        RetrigPhase::Off => {
            assert("-1"@ == signed_dec_text(-1));
            lemma_parse_signed_dec_text(-1, 0x7FFF_FFFF, 0x8000_0000);
        },
        RetrigPhase::Degrees(d) => {
            assert(d <= 360);
            let p = d * 11930464;
            assert(p <= 4294967040);
            assert(p % 0x1_0000_0000 == p);
            let i = spec_phase_i32(d);
            lemma_parse_signed_dec_text(i as int, 0x7FFF_FFFF, 0x8000_0000);
            assert(i32_as_u32(i) == p);
            assert(i != -1);
            assert(p / 11930464 == d) by (nonlinear_arith)
                requires p == d * 11930464;
        },
    }
}

} // verus!
