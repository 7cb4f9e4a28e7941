//! The format versions of the Deluge's patch files.
use vstd::prelude::*;
use crate::text::str_eq;

verus! {

/// Deluge format version.
#[derive(Clone, Copy, PartialEq, Eq, Debug, Structural)]
pub enum FormatVersion {
    /// No version could be read.
    Unknown,
    /// A version has been read but it is not supported.
    Unsupported,
    /// The initial version of the Deluge format: no version was written.
    Version1,
    /// This version writes the firmware version as content of the root node.
    Version2,
    /// This version uses attributes rather than children.
    Version3,
}

/// The first part of a version text as the `version-compare` crate splits it: `None`
/// when it reads no version, `Some(None)` when the version has no part.
pub uninterp spec fn version_first_part(text: Seq<char>) -> Option<Option<Seq<char>>>;

/// Whether a version text begins with a one-digit major version followed by a dot, as
/// in `3.1.5`.
pub open spec fn has_digit_major(text: Seq<char>) -> bool {
    text.len() >= 2 && '0' <= text[0] && text[0] <= '9' && text[1] == '.'
}

/// Calls `version_compare::Version::from` on the text, then `parts().first()` on the
/// version, each part written with its `Display`. The text is split at the characters
/// that are not alphanumeric and a part that reads as an `i32` is a number, so a text that
/// begins with a digit and a dot has that digit as its first part.
#[verifier::external_body]
fn read_version_first_part(text: &str) -> (r: Option<Option<String>>)
    ensures
        r.deep_view() == version_first_part(text@),
        has_digit_major(text@) ==> r.deep_view() == Some(Some(seq![text@[0]])),
{
    match version_compare::Version::from(text) {
        None => None,
        Some(version) => match version.parts().first() {
            Some(part) => Some(Some(part.to_string())),
            None => Some(None),
        },
    }
}

/// The format a leading version part designates.
pub open spec fn spec_format_of_first_part(part: Option<Option<Seq<char>>>) -> FormatVersion {
    match part {
        Some(Some(major)) => if major == "1"@ {
            FormatVersion::Version1
        } else if major == "2"@ {
            FormatVersion::Version2
        } else if major == "3"@ {
            FormatVersion::Version3
        } else {
            FormatVersion::Unsupported
        },
        _ => FormatVersion::Unknown,
    }
}

/// The format a leading version part designates: major versions 1, 2 and 3 are
/// supported, any other is not, and no part at all is no version.
pub fn format_of_first_part(part: &Option<Option<String>>) -> (r: FormatVersion)
    ensures
        r == spec_format_of_first_part(part.deep_view()),
{
    match part {
        Some(Some(major)) => {
            let m = major.as_str();
            if str_eq(m, "1") {
                FormatVersion::Version1
            } else if str_eq(m, "2") {
                FormatVersion::Version2
            } else if str_eq(m, "3") {
                FormatVersion::Version3
            } else {
                FormatVersion::Unsupported
            }
        },
        _ => FormatVersion::Unknown,
    }
}

/// The format a one-digit major version designates.
pub open spec fn spec_format_of_digit(d: char) -> FormatVersion {
    if d == '1' {
        FormatVersion::Version1
    } else if d == '2' {
        FormatVersion::Version2
    } else if d == '3' {
        FormatVersion::Version3
    } else {
        FormatVersion::Unsupported
    }
}

/// The format a version text designates, by its major version: for a text such as
/// `2.1.0`, the format of its first digit.
pub fn parse_version(version_string: String) -> (r: FormatVersion)
    ensures
        r == spec_format_of_first_part(version_first_part(version_string@)),
        has_digit_major(version_string@) ==> r == spec_format_of_digit(version_string@[0]),
{
    let part = read_version_first_part(version_string.as_str());
    proof {
        reveal_strlit("1");
        reveal_strlit("2");
        reveal_strlit("3");
        if has_digit_major(version_string@) {
            let d = version_string@[0];
            assert("1"@ =~= seq!['1']);
            assert("2"@ =~= seq!['2']);
            assert("3"@ =~= seq!['3']);
            assert(seq![d][0] == d);
            if d == '1' {
                assert(seq![d] =~= "1"@);
            } else if d == '2' {
                assert(seq![d] =~= "2"@);
            } else if d == '3' {
                assert(seq![d] =~= "3"@);
            }
        }
    }
    format_of_first_part(&part)
}

/// The format of a patch: that of its earliest compatible firmware, or the first one
/// when it names none.
pub open spec fn spec_format_of_version(version: Option<Seq<char>>) -> FormatVersion {
    match version {
        Some(v) => spec_format_of_first_part(version_first_part(v)),
        None => FormatVersion::Version1,
    }
}

/// The format of a patch: that of its earliest compatible firmware, or the first one
/// when it names none.
pub fn format_of_version(version: Option<String>) -> (r: FormatVersion)
    ensures
        r == spec_format_of_version(version.deep_view()),
        version matches Some(v) ==> (has_digit_major(v@) ==> r == spec_format_of_digit(v@[0])),
{
    match version {
        Some(version_string) => parse_version(version_string),
        None => FormatVersion::Version1,
    }
}

impl From<Option<String>> for FormatVersion {
    fn from(version: Option<String>) -> (r: Self) {
        format_of_version(version)
    }
}

impl vstd::std_specs::convert::FromSpecImpl<Option<String>> for FormatVersion {
    open spec fn obeys_from_spec() -> bool {
        true
    }

    open spec fn from_spec(version: Option<String>) -> Self {
        spec_format_of_version(version.deep_view())
    }
}

} // verus!
