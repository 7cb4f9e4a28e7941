//! Patch names, standard ("KIT000", "SYNT012A") or custom ("MY BASS 2").
use vstd::prelude::*;
use crate::card::patch_type::PatchType;
use crate::error::{CardError, CardErrorView};
use crate::text::{
    dec_text, digit_value, digits_value, lemma_digits_of_dec_text, owned_text, parse_unsigned, push_char, push_dec,
    spec_parse_unsigned, starts_with, IntError,
};
use vstd::string::StrSliceExecFns;

verus! {

/// A parsed patch name.
///
/// A standard name is the base name of its type (`KIT` or `SYNT`), a number of three
/// digits and an optional upper case letter: "KIT000", "KIT001", "KIT001A". Any other
/// name is custom: any characters, optionally ended by a space and a number, as in
/// "HELLO WORLD" or "HELLO WORLD 12".
#[derive(Debug, PartialEq, Eq)]
pub enum PatchName {
    Standard { patch_type: PatchType, number: u16, suffix: Option<char> },
    Custom { name: String, number: Option<u16> },
}

/// A patch name with its texts seen as character sequences.
pub enum PatchNameView {
    Standard { patch_type: PatchType, number: u16, suffix: Option<char> },
    Custom { name: Seq<char>, number: Option<u16> },
}

impl View for PatchName {
    type V = PatchNameView;

    open spec fn view(&self) -> PatchNameView {
        match self {
            PatchName::Standard { patch_type, number, suffix } => PatchNameView::Standard {
                patch_type: *patch_type,
                number: *number,
                suffix: *suffix,
            },
            PatchName::Custom { name, number } => PatchNameView::Custom { name: name@, number: *number },
        }
    }
}

/// Whether a character is an ASCII digit.
pub open spec fn is_ascii_digit(c: char) -> bool {
    '0' <= c && c <= '9'
}

/// The number of ASCII digits that follow one another from `start`.
pub open spec fn digit_run(s: Seq<char>, start: int) -> nat
    decreases s.len() - start,
{
    if start < 0 || start >= s.len() || !is_ascii_digit(s[start]) {
        0
    } else {
        1 + digit_run(s, start + 1)
    }
}

/// The type whose base name begins the text, `KIT` being tried first.
pub open spec fn spec_standard_base(s: Seq<char>) -> Option<PatchType> {
    if s.len() >= 3 && s.subrange(0, 3) == PatchType::Kit.spec_base_name() {
        Some(PatchType::Kit)
    } else if s.len() >= 4 && s.subrange(0, 4) == PatchType::Synth.spec_base_name() {
        Some(PatchType::Synth)
    } else {
        None
    }
}

/// A standard name at the beginning of the text: the base name, one to three digits,
/// then an upper case letter if one follows. What comes after is not read.
pub open spec fn spec_parse_standard(s: Seq<char>) -> Option<PatchNameView> {
    match spec_standard_base(s) {
        None => None,
        Some(patch_type) => {
            let b = patch_type.spec_base_name().len() as int;
            let n = digit_run(s, b) as int;
            if n == 0 || n > 3 {
                None
            } else {
                let end = b + n;
                match digits_value(s.subrange(b, end), 10, 0xFFFF) {
                    Ok(number) => Some(
                        PatchNameView::Standard {
                            patch_type,
                            number: number as u16,
                            suffix: if end < s.len() && 'A' <= s[end] && s[end] <= 'Z' {
                                Some(s[end])
                            } else {
                                None
                            },
                        },
                    ),
                    Err(_) => None,
                }
            }
        },
    }
}

/// The position of the last space of a text.
pub open spec fn last_space(s: Seq<char>) -> Option<int>
    decreases s.len(),
{
    if s.len() == 0 {
        None
    } else if s.last() == ' ' {
        Some(s.len() - 1)
    } else {
        last_space(s.drop_last())
    }
}

/// A custom name: when the text after its last space is a `u16`, that is its number.
pub open spec fn spec_parse_custom(s: Seq<char>) -> PatchNameView {
    match last_space(s) {
        Some(i) => match spec_parse_unsigned(s.subrange(i + 1, s.len() as int), 10, 0xFFFF) {
            Ok(n) => PatchNameView::Custom { name: s.subrange(0, i), number: Some(n as u16) },
            Err(_) => PatchNameView::Custom { name: s, number: None },
        },
        None => PatchNameView::Custom { name: s, number: None },
    }
}

/// The patch name a text designates: standard if it begins as one, else custom.
pub open spec fn spec_parse_patch_name(s: Seq<char>) -> PatchNameView {
    match spec_parse_standard(s) {
        Some(p) => p,
        None => spec_parse_custom(s),
    }
}

/// A decimal text padded with zeros to three digits.
pub open spec fn pad3(t: Seq<char>) -> Seq<char> {
    if t.len() >= 3 {
        t
    } else if t.len() == 2 {
        seq!['0'] + t
    } else {
        seq!['0', '0'] + t
    }
}

/// The optional suffix as text.
pub open spec fn suffix_text(suffix: Option<char>) -> Seq<char> {
    match suffix {
        Some(c) => seq![c],
        None => Seq::empty(),
    }
}

/// The text of a standard name.
pub open spec fn spec_standard_text(patch_type: PatchType, number: u16, suffix: Option<char>) -> Seq<char> {
    patch_type.spec_base_name() + pad3(dec_text(number as nat)) + suffix_text(suffix)
}

/// The text of a custom name.
pub open spec fn spec_custom_text(name: Seq<char>, number: Option<u16>) -> Seq<char> {
    match number {
        Some(n) => name + seq![' '] + dec_text(n as nat),
        None => name,
    }
}

/// The text of a patch name.
pub open spec fn spec_patch_name_text(p: PatchNameView) -> Seq<char> {
    match p {
        PatchNameView::Standard { patch_type, number, suffix } => spec_standard_text(patch_type, number, suffix),
        PatchNameView::Custom { name, number } => spec_custom_text(name, number),
    }
}

proof fn lemma_digit_run_end(s: Seq<char>, start: int, end: int)
    requires
        0 <= start <= end <= s.len(),
        forall|k: int| start <= k < end ==> is_ascii_digit(#[trigger] s[k]),
        end == s.len() || !is_ascii_digit(s[end]),
    ensures
        digit_run(s, start) == end - start,
    decreases end - start,
{
    if start < end {
        lemma_digit_run_end(s, start + 1, end);
    }
}

fn parse_standard(input: &str) -> (r: Option<PatchName>)
    ensures
        match spec_parse_standard(input@) {
            Some(p) => r matches Some(q) && q@ == p,
            None => r is None,
        },
{
    proof {
        reveal_strlit("KIT");
        reveal_strlit("SYNT");
        assert("KIT"@ =~= seq!['K', 'I', 'T']);
        assert("SYNT"@ =~= seq!['S', 'Y', 'N', 'T']);
    }
    let len = input.unicode_len();
    let (patch_type, b): (PatchType, usize) = if starts_with(input, "KIT") {
        (PatchType::Kit, 3)
    } else if starts_with(input, "SYNT") {
        (PatchType::Synth, 4)
    } else {
        return None;
    };
    assert(spec_standard_base(input@) == Some(patch_type));
    let mut j: usize = b;
    while j < len && is_digit_char(input.get_char(j))
        invariant
            b <= j <= len,
            len == input@.len(),
            forall|k: int| b <= k < j ==> is_ascii_digit(#[trigger] input@[k]),
        decreases len - j,
    {
        j = j + 1;
    }
    proof {
        lemma_digit_run_end(input@, b as int, j as int);
    }
    let n = j - b;
    if n == 0 || n > 3 {
        return None;
    }
    let digits = input.substring_char(b, j);
    proof {
        assert(digit_value(digits@[0], 10) is Some);
    }
    let number = match parse_unsigned(digits, 10, 0xFFFF) {
        Ok(v) => v as u16,
        Err(_) => {
            return None;
        },
    };
    let suffix = if j < len {
        let c = input.get_char(j);
        if 'A' <= c && c <= 'Z' {
            Some(c)
        } else {
            None
        }
    } else {
        None
    };
    Some(PatchName::Standard { patch_type, number, suffix })
}

fn is_digit_char(c: char) -> (r: bool)
    ensures
        r == is_ascii_digit(c),
{
    '0' <= c && c <= '9'
}

fn find_last_space(input: &str) -> (r: Option<usize>)
    ensures
        match last_space(input@) {
            Some(i) => r == Some(i as usize),
            None => r is None,
        },
{
    let len = input.unicode_len();
    let mut i: usize = len;
    assert(input@.subrange(0, len as int) =~= input@);
    while i > 0
        invariant
            i <= len,
            len == input@.len(),
            last_space(input@) == last_space(input@.subrange(0, i as int)),
        decreases i,
    {
        let c = input.get_char(i - 1);
        assert(input@.subrange(0, i as int).drop_last() =~= input@.subrange(0, i - 1));
        if c == ' ' {
            return Some(i - 1);
        }
        i = i - 1;
    }
    None
}

/// The last space is a space, and none follows it.
pub proof fn lemma_last_space(s: Seq<char>)
    ensures
        last_space(s) matches Some(i) ==> 0 <= i < s.len() && s[i] == ' ' && forall|k: int|
            i < k < s.len() ==> s[k] != ' ',
        last_space(s) is None ==> forall|k: int| 0 <= k < s.len() ==> s[k] != ' ',
    decreases s.len(),
{
    if s.len() > 0 && s.last() != ' ' {
        lemma_last_space(s.drop_last());
        assert forall|k: int| 0 <= k < s.len() - 1 implies s[k] == s.drop_last()[k] by {}
    }
}

/// Reads a text as a custom patch name, which never fails: the text before its last
/// space, numbered by the decimal `u16` after that space when there is one (a `+` sign
/// is taken, as `str::parse` takes it); the whole text, without number, otherwise.
pub fn parse_custom_patch_name(input: &str) -> (r: PatchName)
    ensures
        r@ == spec_parse_custom(input@),
{
    proof {
        assert(input@.subrange(0, input@.len() as int) =~= input@);
        lemma_last_space(input@);
    }
    match find_last_space(input) {
        Some(i) => {
            let len = input.unicode_len();
            let tail = input.substring_char(i + 1, len);
            match parse_unsigned(tail, 10, 0xFFFF) {
                Ok(n) => PatchName::Custom { name: owned_text(input.substring_char(0, i)), number: Some(n as u16) },
                Err(_) => PatchName::Custom { name: owned_text(input), number: None },
            }
        },
        None => PatchName::Custom { name: owned_text(input), number: None },
    }
}

/// Reads a patch name from a text with `str::parse`; every text is one, so it never fails.
impl std::str::FromStr for PatchName {
    type Err = std::convert::Infallible;

    fn from_str(input: &str) -> Result<PatchName, std::convert::Infallible> {
        Ok(PatchName::parse(input))
    }
}

impl PatchName {
    /// Parses any patch name; every text is one.
    pub fn parse(input: &str) -> (r: PatchName)
        ensures
            r@ == spec_parse_patch_name(input@),
    {
        match parse_standard(input) {
            Some(p) => p,
            None => parse_custom_patch_name(input),
        }
    }

    /// The text of a standard name.
    pub fn standard_to_string(patch_type: PatchType, number: u16, suffix: Option<char>) -> (r: String)
        ensures
            r@ == spec_standard_text(patch_type, number, suffix),
    {
        let mut buffer = owned_text(patch_type.get_standard_base_name());
        if number < 10 {
            push_char(&mut buffer, '0');
            push_char(&mut buffer, '0');
        } else if number < 100 {
            push_char(&mut buffer, '0');
        }
        proof {
            lemma_dec_text_len(number as nat);
        }
        push_dec(&mut buffer, number as u64);
        match suffix {
            Some(c) => push_char(&mut buffer, c),
            None => {},
        }
        assert(buffer@ =~= spec_standard_text(patch_type, number, suffix));
        buffer
    }

    /// The text of a custom name.
    pub fn custom_to_string(name: &str, number: Option<u16>) -> (r: String)
        ensures
            r@ == spec_custom_text(name@, number),
    {
        let mut buffer = owned_text(name);
        match number {
            Some(n) => {
                push_char(&mut buffer, ' ');
                push_dec(&mut buffer, n as u64);
            },
            None => {},
        }
        assert(buffer@ =~= spec_custom_text(name@, number));
        buffer
    }

    /// The text of the name.
    pub fn to_string(&self) -> (r: String)
        ensures
            r@ == spec_patch_name_text(self@),
    {
        match self {
            PatchName::Standard { patch_type, number, suffix } => Self::standard_to_string(*patch_type, *number, *suffix),
            PatchName::Custom { name, number } => Self::custom_to_string(name.as_str(), *number),
        }
    }
}

/// The number of decimal digits of small numbers.
pub proof fn lemma_dec_text_len(n: nat)
    ensures
        n < 10 ==> dec_text(n).len() == 1,
        10 <= n < 100 ==> dec_text(n).len() == 2,
        100 <= n < 1000 ==> dec_text(n).len() == 3,
        n >= 100 ==> dec_text(n).len() >= 3,
        forall|k: int| 0 <= k < dec_text(n).len() ==> is_ascii_digit(#[trigger] dec_text(n)[k]),
    decreases n,
{
    if n >= 10 {
        lemma_dec_text_len(n / 10);
        let t = dec_text(n);
        assert forall|k: int| 0 <= k < t.len() implies is_ascii_digit(#[trigger] t[k]) by {
            if k < t.len() - 1 {
                assert(t[k] == dec_text(n / 10)[k]);
            }
        }
    }
}

/// Leading zeros do not change the value of digits.
pub proof fn lemma_digits_value_leading_zero(t: Seq<char>, radix: nat, bound: nat)
    requires
        radix > 0,
    ensures
        digits_value(seq!['0'] + t, radix, bound) == digits_value(t, radix, bound),
    decreases t.len(),
{
    let z = seq!['0'] + t;
    if t.len() == 0 {
        assert(z.drop_last() =~= Seq::<char>::empty());
        assert(digits_value(Seq::<char>::empty(), radix, bound) == Ok::<nat, IntError>(0));
        assert(z.last() == '0');
        assert(digit_value('0', radix) == Some(0nat));
        assert(0 * radix == 0) by (nonlinear_arith);
    } else {
        lemma_digits_value_leading_zero(t.drop_last(), radix, bound);
        assert(z.drop_last() =~= seq!['0'] + t.drop_last());
        assert(z.last() == t.last());
        assert(digits_value(z.drop_last(), radix, bound) == digits_value(t.drop_last(), radix, bound));
    }
}

proof fn lemma_pad3(n: nat)
    requires
        n <= 999,
    ensures
        pad3(dec_text(n)).len() == 3,
        forall|k: int| 0 <= k < 3 ==> is_ascii_digit(#[trigger] pad3(dec_text(n))[k]),
        digits_value(pad3(dec_text(n)), 10, 0xFFFF) == Ok::<nat, IntError>(n),
{
    lemma_dec_text_len(n);
    lemma_digits_of_dec_text(n, 0xFFFF);
    let d = dec_text(n);
    if n < 10 {
        lemma_digits_value_leading_zero(d, 10, 0xFFFF);
        lemma_digits_value_leading_zero(seq!['0'] + d, 10, 0xFFFF);
        assert(seq!['0', '0'] + d =~= seq!['0'] + (seq!['0'] + d));
    } else if n < 100 {
        lemma_digits_value_leading_zero(d, 10, 0xFFFF);
    }
    let p = pad3(d);
    assert forall|k: int| 0 <= k < 3 implies is_ascii_digit(#[trigger] p[k]) by {
        if n < 10 {
            if k >= 2 {
                assert(p[k] == d[k - 2]);
            }
        } else if n < 100 {
            if k >= 1 {
                assert(p[k] == d[k - 1]);
            }
        }
    }
}

/// Standard names read back: the text of a standard name of at most 999, with no
/// suffix or an upper case one, designates that name.
pub proof fn lemma_standard_name_round_trip(patch_type: PatchType, number: u16, suffix: Option<char>)
    requires
        number <= 999,
        suffix matches Some(c) ==> 'A' <= c && c <= 'Z',
    ensures
        spec_parse_patch_name(spec_standard_text(patch_type, number, suffix)) == (PatchNameView::Standard {
            patch_type,
            number,
            suffix,
        }),
{
    let base = patch_type.spec_base_name();
    let p = pad3(dec_text(number as nat));
    let t = spec_standard_text(patch_type, number, suffix);
    lemma_pad3(number as nat);
    let b = base.len() as int;
    assert(t.subrange(0, b) =~= base);
    match patch_type {
        PatchType::Kit => {},
        PatchType::Synth => {
            assert(t[0] == 'S');
            assert(t.subrange(0, 3)[0] != PatchType::Kit.spec_base_name()[0]);
        },
    }
    assert(spec_standard_base(t) == Some(patch_type));
    assert forall|k: int| b <= k < b + 3 implies is_ascii_digit(#[trigger] t[k]) by {
        assert(t[k] == p[k - b]);
    }
    match suffix {
        Some(c) => {
            assert(t[b + 3] == c);
        },
        None => {
            assert(t.len() == b + 3);
        },
    }
    lemma_digit_run_end(t, b, b + 3);
    assert(t.subrange(b, b + 3) =~= p);
}

proof fn lemma_last_space_no_space_tail(u: Seq<char>, d: Seq<char>)
    requires
        forall|k: int| 0 <= k < d.len() ==> d[k] != ' ',
    ensures
        last_space(u + d) == last_space(u),
    decreases d.len(),
{
    if d.len() > 0 {
        lemma_last_space_no_space_tail(u, d.drop_last());
        assert((u + d).drop_last() =~= u + d.drop_last());
        assert((u + d).last() == d.last());
    } else {
        assert(u + d =~= u);
    }
}

/// Custom names read back: the text of a custom name designates that name, unless it
/// begins as a standard name, or, having no number, ends with a space and a number.
pub proof fn lemma_custom_name_round_trip(name: Seq<char>, number: Option<u16>)
    requires
        spec_parse_standard(spec_custom_text(name, number)) is None,
        number is None ==> (last_space(name) matches Some(i) ==> spec_parse_unsigned(
            name.subrange(i + 1, name.len() as int),
            10,
            0xFFFF,
        ) is Err),
    ensures
        spec_parse_patch_name(spec_custom_text(name, number)) == (PatchNameView::Custom { name, number }),
{
    match number {
        Some(k) => {
            let d = dec_text(k as nat);
            let u = name + seq![' '];
            let t = spec_custom_text(name, number);
            assert(t =~= u + d);
            lemma_dec_text_len(k as nat);
            lemma_last_space_no_space_tail(u, d);
            assert(u.drop_last() =~= name);
            assert(last_space(u) == Some(name.len() as int));
            assert(t.subrange(name.len() as int + 1, t.len() as int) =~= d);
            assert(t.subrange(0, name.len() as int) =~= name);
            crate::text::lemma_parse_unsigned_dec_text(k as nat, 0xFFFF);
        },
        None => {},
    }
}

} // verus!
