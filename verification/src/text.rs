//! Decimal and hexadecimal integers as text, with the semantics of Rust's
//! `from_str` / `from_str_radix` and of the usual formatting.
use vstd::prelude::*;
use vstd::string::StrSliceExecFns;

verus! {

/// Why a text is not an integer, mirroring `std::num::IntErrorKind`.
#[derive(Clone, Copy, Debug, PartialEq, Eq, Structural)]
pub enum IntError {
    /// The text is empty.
    Empty,
    /// The text holds a character that is not a digit of the radix.
    InvalidDigit,
    /// The number is too large for the target type.
    PosOverflow,
    /// The number is too small for the target type.
    NegOverflow,
}

/// The value of a digit character in the given radix (10 or 16), if it is one.
pub open spec fn digit_value(c: char, radix: nat) -> Option<nat> {
    if '0' <= c && c <= '9' && (c as nat) - ('0' as nat) < radix {
        Some(((c as nat) - ('0' as nat)) as nat)
    } else if radix == 16 && 'a' <= c && c <= 'f' {
        Some(((c as nat) - ('a' as nat) + 10) as nat)
    } else if radix == 16 && 'A' <= c && c <= 'F' {
        Some(((c as nat) - ('A' as nat) + 10) as nat)
    } else {
        None
    }
}

/// Digits read from left to right, as Rust's integer parser does: the first
/// character that is not a digit gives `InvalidDigit`, and the first prefix
/// whose value exceeds `bound` gives `PosOverflow`.
pub open spec fn digits_value(ds: Seq<char>, radix: nat, bound: nat) -> Result<nat, IntError>
    decreases ds.len(),
{
    if ds.len() == 0 {
        Ok(0)
    } else {
        match digits_value(ds.drop_last(), radix, bound) {
            Err(e) => Err(e),
            Ok(v) => match digit_value(ds.last(), radix) {
                None => Err(IntError::InvalidDigit),
                Some(d) => if v * radix + d > bound {
                    Err(IntError::PosOverflow)
                } else {
                    Ok(v * radix + d)
                },
            },
        }
    }
}

/// Unsigned integer text: an optional `+` then digits, at most `max`.
pub open spec fn spec_parse_unsigned(s: Seq<char>, radix: nat, max: nat) -> Result<nat, IntError> {
    if s.len() == 0 {
        Err(IntError::Empty)
    } else if s.len() == 1 && (s[0] == '+' || s[0] == '-') {
        Err(IntError::InvalidDigit)
    } else if s[0] == '+' {
        digits_value(s.drop_first(), radix, max)
    } else {
        digits_value(s, radix, max)
    }
}

/// Signed integer text: an optional sign then decimal digits, in `[-neg_max, pos_max]`.
pub open spec fn spec_parse_signed(s: Seq<char>, pos_max: nat, neg_max: nat) -> Result<int, IntError> {
    if s.len() == 0 {
        Err(IntError::Empty)
    } else if s.len() == 1 && (s[0] == '+' || s[0] == '-') {
        Err(IntError::InvalidDigit)
    } else if s[0] == '-' {
        match digits_value(s.drop_first(), 10, neg_max) {
            Ok(v) => Ok(-v),
            Err(IntError::PosOverflow) => Err(IntError::NegOverflow),
            Err(e) => Err(e),
        }
    } else {
        let ds = if s[0] == '+' { s.drop_first() } else { s };
        match digits_value(ds, 10, pos_max) {
            Ok(v) => Ok(v as int),
            Err(e) => Err(e),
        }
    }
}

/// The character of a digit value below 16 (upper case letters).
pub open spec fn digit_char(d: nat) -> char {
    if d < 10 {
        (('0' as nat) + d) as char
    } else {
        (('A' as nat) + d - 10) as char
    }
}

/// The shortest decimal text of a natural number.
pub open spec fn dec_text(n: nat) -> Seq<char>
    decreases n,
{
    if n < 10 {
        seq![digit_char(n)]
    } else {
        dec_text(n / 10).push(digit_char(n % 10))
    }
}

/// The decimal text of an integer, with `-` before a negative one.
pub open spec fn signed_dec_text(n: int) -> Seq<char> {
    if n < 0 {
        seq!['-'] + dec_text((-n) as nat)
    } else {
        dec_text(n as nat)
    }
}

/// Eight upper case hexadecimal digits of a 32-bit value, most significant first.
pub open spec fn hex8_text(v: u32) -> Seq<char> {
    seq![
        digit_char(((v / 0x10000000) % 16) as nat),
        digit_char(((v / 0x1000000) % 16) as nat),
        digit_char(((v / 0x100000) % 16) as nat),
        digit_char(((v / 0x10000) % 16) as nat),
        digit_char(((v / 0x1000) % 16) as nat),
        digit_char(((v / 0x100) % 16) as nat),
        digit_char(((v / 0x10) % 16) as nat),
        digit_char((v % 16) as nat),
    ]
}

/// Appends a character to a string.
///
/// Calls `String::push`, which appends the character at the end.
#[verifier::external_body]
pub fn push_char(s: &mut String, c: char)
    ensures
        final(s)@ == old(s)@.push(c),
{
    s.push(c);
}

/// The value of a digit character, as `digit_value` says.
pub fn char_digit_value(c: char, radix: u32) -> (r: Option<u32>)
    requires
        radix == 10 || radix == 16,
    ensures
        match r {
            Some(d) => digit_value(c, radix as nat) == Some(d as nat) && d < radix,
            None => digit_value(c, radix as nat) is None,
        },
{
    if '0' <= c && c <= '9' {
        Some((c as u32) - ('0' as u32))
    } else if radix == 16 && 'a' <= c && c <= 'f' {
        Some((c as u32) - ('a' as u32) + 10)
    } else if radix == 16 && 'A' <= c && c <= 'F' {
        Some((c as u32) - ('A' as u32) + 10)
    } else {
        None
    }
}

proof fn lemma_digits_value_prefix(ds: Seq<char>, i: int, radix: nat, bound: nat)
    requires
        0 < i <= ds.len(),
    ensures
        ds.subrange(0, i).drop_last() == ds.subrange(0, i - 1),
        ds.subrange(0, i).last() == ds[i - 1],
{
    assert(ds.subrange(0, i).drop_last() =~= ds.subrange(0, i - 1));
}

proof fn lemma_digits_err_extends(ds: Seq<char>, k: int, radix: nat, bound: nat)
    requires
        0 <= k <= ds.len(),
        digits_value(ds.subrange(0, k), radix, bound) is Err,
    ensures
        digits_value(ds, radix, bound) == digits_value(ds.subrange(0, k), radix, bound),
    decreases ds.len() - k,
{
    if k == ds.len() {
        assert(ds.subrange(0, k) =~= ds);
    } else {
        lemma_digits_value_prefix(ds, k + 1, radix, bound);
        lemma_digits_err_extends(ds, k + 1, radix, bound);
    }
}

/// Reads the characters of `s` from `start` as digits, as `digits_value` does.
fn parse_digits(s: &str, start: usize, radix: u32, bound: u64) -> (r: Result<u64, IntError>)
    requires
        start <= s@.len(),
        radix == 10 || radix == 16,
    ensures
        match r {
            Ok(v) => digits_value(s@.subrange(start as int, s@.len() as int), radix as nat, bound as nat) == Ok::<nat, IntError>(v as nat),
            Err(e) => digits_value(s@.subrange(start as int, s@.len() as int), radix as nat, bound as nat) == Err::<nat, IntError>(e),
        },
{
    let len = s.unicode_len();
    let ghost ds = s@.subrange(start as int, s@.len() as int);
    let mut acc: u64 = 0;
    let mut i: usize = start;
    assert(ds.subrange(0, 0) =~= Seq::<char>::empty());
    while i < len
        invariant
            start <= i <= len,
            len == s@.len(),
            ds == s@.subrange(start as int, s@.len() as int),
            radix == 10 || radix == 16,
            acc <= bound,
            digits_value(ds.subrange(0, i - start), radix as nat, bound as nat) == Ok::<nat, IntError>(acc as nat),
        decreases len - i,
    {
        let c = s.get_char(i);
        proof {
            lemma_digits_value_prefix(ds, (i - start + 1) as int, radix as nat, bound as nat);
            assert(ds[i - start] == s@[i as int]);
        }
        match char_digit_value(c, radix) {
            None => {
                proof {
                    lemma_digits_err_extends(ds, (i - start + 1) as int, radix as nat, bound as nat);
                }
                return Err(IntError::InvalidDigit);
            },
            Some(d) => {
                if d as u64 > bound || acc > (bound - d as u64) / (radix as u64) {
                    proof {
                        if d <= bound {
                        let a = acc as nat;
                        let q = ((bound - d) / (radix as int)) as nat;
                        assert(a >= q + 1);
                        assert(a * radix >= (q + 1) * radix) by (nonlinear_arith)
                            requires a >= q + 1;
                        assert((q + 1) * (radix as nat) > bound - d) by (nonlinear_arith)
                            requires q == (bound - d) / (radix as int), radix > 0, bound - d >= 0;
                        }
                        lemma_digits_err_extends(ds, (i - start + 1) as int, radix as nat, bound as nat);
                    }
                    return Err(IntError::PosOverflow);
                }
                proof {
                    let a = acc as nat;
                    let q = ((bound - d) / (radix as int)) as nat;
                    assert(a * radix <= q * radix) by (nonlinear_arith)
                        requires a <= q;
                    assert(q * (radix as nat) <= bound - d) by (nonlinear_arith)
                        requires q == (bound - d) / (radix as int), radix > 0, bound - d >= 0;
                }
                acc = acc * (radix as u64) + d as u64;
            },
        }
        i = i + 1;
    }
    assert(ds.subrange(0, i - start) =~= ds);
    Ok(acc)
}


/// Parses an unsigned integer as `u64::from_str_radix` does, refusing values above `max`.
pub fn parse_unsigned(s: &str, radix: u32, max: u64) -> (r: Result<u64, IntError>)
    requires
        radix == 10 || radix == 16,
    ensures
        match r {
            Ok(v) => spec_parse_unsigned(s@, radix as nat, max as nat) == Ok::<nat, IntError>(v as nat),
            Err(e) => spec_parse_unsigned(s@, radix as nat, max as nat) == Err::<nat, IntError>(e),
        },
{
    let len = s.unicode_len();
    if len == 0 {
        return Err(IntError::Empty);
    }
    let first = s.get_char(0);
    if len == 1 && (first == '+' || first == '-') {
        return Err(IntError::InvalidDigit);
    }
    if first == '+' {
        assert(s@.subrange(1, s@.len() as int) =~= s@.drop_first());
        parse_digits(s, 1, radix, max)
    } else {
        assert(s@.subrange(0, s@.len() as int) =~= s@);
        parse_digits(s, 0, radix, max)
    }
}

/// Parses a signed decimal integer in `[-neg_max, pos_max]`, as Rust's `from_str` does.
fn parse_signed(s: &str, pos_max: u64, neg_max: u64) -> (r: Result<(bool, u64), IntError>)
    ensures
        match r {
            Ok((neg, v)) => spec_parse_signed(s@, pos_max as nat, neg_max as nat) == Ok::<int, IntError>(
                if neg { -(v as int) } else { v as int },
            ) && (neg ==> v <= neg_max) && (!neg ==> v <= pos_max),
            Err(e) => spec_parse_signed(s@, pos_max as nat, neg_max as nat) == Err::<int, IntError>(e),
        },
{
    let len = s.unicode_len();
    if len == 0 {
        return Err(IntError::Empty);
    }
    let first = s.get_char(0);
    if len == 1 && (first == '+' || first == '-') {
        return Err(IntError::InvalidDigit);
    }
    if first == '-' {
        assert(s@.subrange(1, s@.len() as int) =~= s@.drop_first());
        match parse_digits(s, 1, 10, neg_max) {
            Ok(v) => {
                proof { lemma_digits_value_bound(s@.drop_first(), 10, neg_max as nat); }
                Ok((true, v))
            },
            Err(IntError::PosOverflow) => Err(IntError::NegOverflow),
            Err(e) => Err(e),
        }
    } else {
        let start: usize = if first == '+' { 1 } else { 0 };
        assert(s@.subrange(1, s@.len() as int) =~= s@.drop_first());
        assert(s@.subrange(0, s@.len() as int) =~= s@);
        match parse_digits(s, start, 10, pos_max) {
            Ok(v) => {
                proof { lemma_digits_value_bound(s@.subrange(start as int, s@.len() as int), 10, pos_max as nat); }
                Ok((false, v))
            },
            Err(e) => Err(e),
        }
    }
}

/// A value read by `digits_value` is within its bound.
pub proof fn lemma_digits_value_bound(ds: Seq<char>, radix: nat, bound: nat)
    ensures
        digits_value(ds, radix, bound) matches Ok(v) ==> v <= bound,
    decreases ds.len(),
{
    if ds.len() > 0 {
        lemma_digits_value_bound(ds.drop_last(), radix, bound);
    }
}

/// Parses an `i32` as `i32::from_str` does.
pub fn parse_i32(s: &str) -> (r: Result<i32, IntError>)
    ensures
        match r {
            Ok(v) => spec_parse_signed(s@, 0x7FFF_FFFF, 0x8000_0000) == Ok::<int, IntError>(v as int),
            Err(e) => spec_parse_signed(s@, 0x7FFF_FFFF, 0x8000_0000) == Err::<int, IntError>(e),
        },
{
    match parse_signed(s, 0x7FFF_FFFF, 0x8000_0000) {
        Ok((neg, v)) => if neg {
            if v == 0x8000_0000 {
                Ok(i32::MIN)
            } else {
                Ok(-(v as i32))
            }
        } else {
            Ok(v as i32)
        },
        Err(e) => Err(e),
    }
}

/// Parses an `i8` as `i8::from_str` does.
pub fn parse_i8(s: &str) -> (r: Result<i8, IntError>)
    ensures
        match r {
            Ok(v) => spec_parse_signed(s@, 127, 128) == Ok::<int, IntError>(v as int),
            Err(e) => spec_parse_signed(s@, 127, 128) == Err::<int, IntError>(e),
        },
{
    match parse_signed(s, 127, 128) {
        Ok((neg, v)) => if neg {
            if v == 128 {
                Ok(i8::MIN)
            } else {
                Ok(-(v as i8))
            }
        } else {
            Ok(v as i8)
        },
        Err(e) => Err(e),
    }
}

/// Appends the decimal text of `n`.
pub fn push_dec(s: &mut String, n: u64)
    ensures
        final(s)@ == old(s)@ + dec_text(n as nat),
    decreases n,
{
    if n >= 10 {
        push_dec(s, n / 10);
    }
    let d = (n % 10) as u32;
    let c = char_of_digit(d);
    push_char(s, c);
    assert(s@ =~= old(s)@ + dec_text(n as nat));
}

/// The character of a digit value, as `digit_char` says.
pub fn char_of_digit(d: u32) -> (c: char)
    requires
        d < 16,
    ensures
        c == digit_char(d as nat),
{
    if d < 10 {
        ((('0' as u32) + d) as u8) as char
    } else {
        ((('A' as u32) + d - 10) as u8) as char
    }
}

/// The decimal text of an unsigned integer, as `to_string` gives it.
pub fn u64_text(n: u64) -> (s: String)
    ensures
        s@ == dec_text(n as nat),
{
    let mut s = String::new();
    push_dec(&mut s, n);
    assert(s@ =~= dec_text(n as nat));
    s
}

/// The decimal text of a signed integer, as `to_string` gives it.
pub fn i64_text(n: i64) -> (s: String)
    ensures
        s@ == signed_dec_text(n as int),
{
    let mut s = String::new();
    if n < 0 {
        push_char(&mut s, '-');
        let m: u64 = if n == i64::MIN { 0x8000_0000_0000_0000u64 } else { (-n) as u64 };
        push_dec(&mut s, m);
    } else {
        push_dec(&mut s, n as u64);
    }
    assert(s@ =~= signed_dec_text(n as int));
    s
}

/// The digits of `dec_text` read back give the number.
pub proof fn lemma_digits_of_dec_text(n: nat, bound: nat)
    requires
        n <= bound,
    ensures
        digits_value(dec_text(n), 10, bound) == Ok::<nat, IntError>(n),
        dec_text(n).len() >= 1,
        digit_value(dec_text(n)[0], 10) is Some,
    decreases n,
{
    let t = dec_text(n);
    if n < 10 {
        assert(t.drop_last() =~= Seq::<char>::empty());
        assert(digits_value(t.drop_last(), 10, bound) == Ok::<nat, IntError>(0));
        assert(digit_value(t.last(), 10) == Some(n));
    } else {
        lemma_digits_of_dec_text(n / 10, bound);
        assert(t.drop_last() =~= dec_text(n / 10));
        assert(t.last() == digit_char(n % 10));
        assert(digit_value(t.last(), 10) == Some(n % 10));
        assert((n / 10) * 10 + n % 10 == n);
    }
}

/// Decimal text read back: `parse(to_string(n)) == n` for every unsigned `n <= max`.
pub proof fn lemma_parse_unsigned_dec_text(n: nat, max: nat)
    requires
        n <= max,
    ensures
        spec_parse_unsigned(dec_text(n), 10, max) == Ok::<nat, IntError>(n),
{
    lemma_digits_of_dec_text(n, max);
}

/// Signed decimal text read back: `parse(to_string(n)) == n` for every `n` in range.
pub proof fn lemma_parse_signed_dec_text(n: int, pos_max: nat, neg_max: nat)
    requires
        -neg_max <= n <= pos_max,
    ensures
        spec_parse_signed(signed_dec_text(n), pos_max, neg_max) == Ok::<int, IntError>(n),
{
    if n < 0 {
        let m = (-n) as nat;
        lemma_digits_of_dec_text(m, neg_max);
        assert((seq!['-'] + dec_text(m)).drop_first() =~= dec_text(m));
    } else {
        lemma_digits_of_dec_text(n as nat, pos_max);
    }
}


/// Appends the eight upper case hexadecimal digits of `v`.
pub fn push_hex8(s: &mut String, v: u32)
    ensures
        final(s)@ == old(s)@ + hex8_text(v),
{
    push_char(s, char_of_digit((v / 0x10000000) % 16));
    push_char(s, char_of_digit((v / 0x1000000) % 16));
    push_char(s, char_of_digit((v / 0x100000) % 16));
    push_char(s, char_of_digit((v / 0x10000) % 16));
    push_char(s, char_of_digit((v / 0x1000) % 16));
    push_char(s, char_of_digit((v / 0x100) % 16));
    push_char(s, char_of_digit((v / 0x10) % 16));
    push_char(s, char_of_digit(v % 16));
    assert(s@ =~= old(s)@ + hex8_text(v));
}

proof fn lemma_digit_char_value(d: nat)
    requires
        d < 16,
    ensures
        digit_value(digit_char(d), 16) == Some(d),
{
}

proof fn lemma_digits_step(t: Seq<char>, k: int, radix: nat, bound: nat, prev: nat, d: nat)
    requires
        0 <= k < t.len(),
        digits_value(t.subrange(0, k), radix, bound) == Ok::<nat, IntError>(prev),
        digit_value(t[k], radix) == Some(d),
        prev * radix + d <= bound,
    ensures
        digits_value(t.subrange(0, k + 1), radix, bound) == Ok::<nat, IntError>(prev * radix + d),
{
    assert(t.subrange(0, k + 1).drop_last() =~= t.subrange(0, k));
    assert(t.subrange(0, k + 1).last() == t[k]);
}

/// The digits of `hex8_text` read back give the value.
pub proof fn lemma_digits_of_hex8_text(v: u32)
    ensures
        digits_value(hex8_text(v), 16, 0xFFFF_FFFF) == Ok::<nat, IntError>(v as nat),
{
    let t = hex8_text(v);
    let b: nat = 0xFFFF_FFFF;
    assert((v / 0x10000000) % 16 == v / 0x10000000) by (bit_vector);
    assert(v / 0x1000000 == (v / 0x10000000) * 16 + (v / 0x1000000) % 16) by (bit_vector);
    assert(v / 0x100000 == (v / 0x1000000) * 16 + (v / 0x100000) % 16) by (bit_vector);
    assert(v / 0x10000 == (v / 0x100000) * 16 + (v / 0x10000) % 16) by (bit_vector);
    assert(v / 0x1000 == (v / 0x10000) * 16 + (v / 0x1000) % 16) by (bit_vector);
    assert(v / 0x100 == (v / 0x1000) * 16 + (v / 0x100) % 16) by (bit_vector);
    assert(v / 0x10 == (v / 0x100) * 16 + (v / 0x10) % 16) by (bit_vector);
    assert(v == (v / 0x10) * 16 + v % 16) by (bit_vector);
    lemma_digit_char_value(((v / 0x10000000) % 16) as nat);
    lemma_digit_char_value(((v / 0x1000000) % 16) as nat);
    lemma_digit_char_value(((v / 0x100000) % 16) as nat);
    lemma_digit_char_value(((v / 0x10000) % 16) as nat);
    lemma_digit_char_value(((v / 0x1000) % 16) as nat);
    lemma_digit_char_value(((v / 0x100) % 16) as nat);
    lemma_digit_char_value(((v / 0x10) % 16) as nat);
    lemma_digit_char_value((v % 16) as nat);
    assert(t.subrange(0, 0) =~= Seq::<char>::empty());
    lemma_digits_step(t, 0, 16, b, 0, ((v / 0x10000000) % 16) as nat);
    lemma_digits_step(t, 1, 16, b, (v / 0x10000000) as nat, ((v / 0x1000000) % 16) as nat);
    lemma_digits_step(t, 2, 16, b, (v / 0x1000000) as nat, ((v / 0x100000) % 16) as nat);
    lemma_digits_step(t, 3, 16, b, (v / 0x100000) as nat, ((v / 0x10000) % 16) as nat);
    lemma_digits_step(t, 4, 16, b, (v / 0x10000) as nat, ((v / 0x1000) % 16) as nat);
    lemma_digits_step(t, 5, 16, b, (v / 0x1000) as nat, ((v / 0x100) % 16) as nat);
    lemma_digits_step(t, 6, 16, b, (v / 0x100) as nat, ((v / 0x10) % 16) as nat);
    lemma_digits_step(t, 7, 16, b, (v / 0x10) as nat, (v % 16) as nat);
    assert(t.subrange(0, 8) =~= t);
}

/// Whether two texts are the same sequence of characters.
pub fn str_eq(a: &str, b: &str) -> (r: bool)
    ensures
        r == (a@ == b@),
{
    let la = a.unicode_len();
    let lb = b.unicode_len();
    if la != lb {
        return false;
    }
    let mut i: usize = 0;
    while i < la
        invariant
            i <= la,
            la == a@.len(),
            lb == b@.len(),
            la == lb,
            forall|j: int| 0 <= j < i ==> a@[j] == b@[j],
        decreases la - i,
    {
        if a.get_char(i) != b.get_char(i) {
            return false;
        }
        i = i + 1;
    }
    assert(a@ =~= b@);
    true
}

/// An owned copy of a text.
pub fn owned_text(s: &str) -> (r: String)
    ensures
        r@ == s@,
{
    <String as vstd::string::StringExecFns>::from_str(s)
}

/// Whether `s` begins with `prefix`.
pub fn starts_with(s: &str, prefix: &str) -> (r: bool)
    ensures
        r == (prefix@.len() <= s@.len() && s@.subrange(0, prefix@.len() as int) == prefix@),
{
    let lp = prefix.unicode_len();
    let ls = s.unicode_len();
    if lp > ls {
        return false;
    }
    let head = s.substring_char(0, lp);
    str_eq(head, prefix)
}

} // verus!
