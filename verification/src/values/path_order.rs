//! The order in which `std::path::Path` compares paths: component by component; a leading
//! `.` component comes first, then `..` components, then the others, compared character
//! by character; a path whose components begin those of another comes first.
//!
//! Each path is given a key, a sequence of integers whose lexicographic order is that
//! order: every component starts with its rank (1 for a leading `.`, 2 for `..`, 3 for any
//! other), each `/` is 0 and each character is its code point plus 4.
use vstd::prelude::*;
use vstd::string::StrSliceExecFns;

verus! {

/// The rank of the component a path begins with: a leading `.` first, `..` next, then
/// any other component.
pub open spec fn component_rank(p: Seq<char>, first: bool) -> int {
    if first && (p == seq!['.'] || (p.len() >= 2 && p[0] == '.' && p[1] == '/')) {
        1
    } else if p == seq!['.', '.'] || (p.len() >= 3 && p[0] == '.' && p[1] == '.' && p[2] == '/') {
        2
    } else {
        3
    }
}

/// The key of the rest of a path, read from a component's start or from within one.
pub open spec fn key_from(p: Seq<char>, at_start: bool, first: bool) -> Seq<int>
    decreases p.len(), if at_start { 1int } else { 0int },
{
    if p.len() == 0 {
        Seq::empty()
    } else if at_start {
        seq![component_rank(p, first)] + key_from(p, false, first)
    } else if p[0] == '/' {
        seq![0int] + key_from(p.drop_first(), true, false)
    } else {
        seq![(p[0] as u32) as int + 4] + key_from(p.drop_first(), false, first)
    }
}

/// The key of a path.
pub open spec fn path_key(p: Seq<char>) -> Seq<int> {
    key_from(p, true, true)
}

/// Whether a sequence of integers comes before another, lexicographically; a proper
/// prefix comes first.
pub open spec fn lex_before(x: Seq<int>, y: Seq<int>) -> bool
    decreases x.len(),
{
    if y.len() == 0 {
        false
    } else if x.len() == 0 {
        true
    } else if x[0] != y[0] {
        x[0] < y[0]
    } else {
        lex_before(x.drop_first(), y.drop_first())
    }
}

/// Whether a path comes before another in the order of `std::path::Path`.
pub open spec fn path_before(a: Seq<char>, b: Seq<char>) -> bool {
    lex_before(path_key(a), path_key(b))
}

proof fn lemma_lex_irreflexive(x: Seq<int>)
    ensures
        !lex_before(x, x),
    decreases x.len(),
{
    if x.len() > 0 {
        lemma_lex_irreflexive(x.drop_first());
    }
}

proof fn lemma_lex_transitive(x: Seq<int>, y: Seq<int>, z: Seq<int>)
    requires
        lex_before(x, y),
        lex_before(y, z),
    ensures
        lex_before(x, z),
    decreases x.len(),
{
    if x.len() > 0 && x[0] == y[0] && y[0] == z[0] {
        lemma_lex_transitive(x.drop_first(), y.drop_first(), z.drop_first());
    }
}

proof fn lemma_lex_total(x: Seq<int>, y: Seq<int>)
    requires
        x != y,
    ensures
        lex_before(x, y) || lex_before(y, x),
    decreases x.len(),
{
    if x.len() == 0 {
        assert(y.len() > 0) by {
            if y.len() == 0 {
                assert(x =~= y);
            }
        }
    } else if y.len() > 0 && x[0] == y[0] {
        assert(x.drop_first() != y.drop_first()) by {
            if x.drop_first() == y.drop_first() {
                assert(x =~= seq![x[0]] + x.drop_first());
                assert(y =~= seq![y[0]] + y.drop_first());
            }
        }
        lemma_lex_total(x.drop_first(), y.drop_first());
    }
}

proof fn lemma_key_nonempty(p: Seq<char>, at_start: bool, first: bool)
    ensures
        key_from(p, at_start, first).len() == 0 <==> p.len() == 0,
{
}

/// Different paths have different keys.
proof fn lemma_key_injective(a: Seq<char>, b: Seq<char>, at_start: bool, first: bool)
    requires
        key_from(a, at_start, first) == key_from(b, at_start, first),
    ensures
        a == b,
    decreases a.len(), if at_start { 1int } else { 0int },
{
    lemma_key_nonempty(a, at_start, first);
    lemma_key_nonempty(b, at_start, first);
    if a.len() > 0 && b.len() > 0 {
        let ka = key_from(a, at_start, first);
        let kb = key_from(b, at_start, first);
        if at_start {
            let ra = key_from(a, false, first);
            let rb = key_from(b, false, first);
            assert(ka.drop_first() =~= ra);
            assert(kb.drop_first() =~= rb);
            lemma_key_injective(a, b, false, first);
        } else {
            assert(ka[0] == kb[0]);
            assert(ka[0] == if a[0] == '/' { 0int } else { (a[0] as u32) as int + 4 });
            assert(kb[0] == if b[0] == '/' { 0int } else { (b[0] as u32) as int + 4 });
            let sa = a[0] == '/';
            assert(sa == (b[0] == '/'));
            if sa {
                let ra = key_from(a.drop_first(), true, false);
                let rb = key_from(b.drop_first(), true, false);
                assert(ka.drop_first() =~= ra);
                assert(kb.drop_first() =~= rb);
                lemma_key_injective(a.drop_first(), b.drop_first(), true, false);
            } else {
                assert(a[0] as u32 == b[0] as u32);
                vstd::utf8::char_u32_cast(a[0], a[0] as u32);
                vstd::utf8::char_u32_cast(b[0], b[0] as u32);
                let ra = key_from(a.drop_first(), false, first);
                let rb = key_from(b.drop_first(), false, first);
                assert(ka.drop_first() =~= ra);
                assert(kb.drop_first() =~= rb);
                lemma_key_injective(a.drop_first(), b.drop_first(), false, first);
            }
            assert(a =~= seq![a[0]] + a.drop_first());
            assert(b =~= seq![b[0]] + b.drop_first());
        }
    }
}

/// No path comes before itself.
pub proof fn lemma_path_before_irreflexive(a: Seq<char>)
    ensures
        !path_before(a, a),
{
    lemma_lex_irreflexive(path_key(a));
}

/// The order of paths is transitive.
pub proof fn lemma_path_before_transitive(a: Seq<char>, b: Seq<char>, c: Seq<char>)
    requires
        path_before(a, b),
        path_before(b, c),
    ensures
        path_before(a, c),
{
    lemma_lex_transitive(path_key(a), path_key(b), path_key(c));
}

/// Of two different paths, one comes before the other.
pub proof fn lemma_path_before_total(a: Seq<char>, b: Seq<char>)
    requires
        a != b,
    ensures
        path_before(a, b) || path_before(b, a),
{
    if path_key(a) == path_key(b) {
        lemma_key_injective(a, b, true, true);
    }
    lemma_lex_total(path_key(a), path_key(b));
}

/// The integers a sequence of `u64` holds.
pub open spec fn ints(v: Seq<u64>) -> Seq<int> {
    v.map_values(|x: u64| x as int)
}

/// The key of a path.
fn key_of(text: &str) -> (r: Vec<u64>)
    ensures
        ints(r@) == path_key(text@),
{
    let len = text.unicode_len();
    let mut chars: Vec<char> = Vec::new();
    let mut j: usize = 0;
    while j < len
        invariant
            j <= len,
            len == text@.len(),
            chars@ == text@.subrange(0, j as int),
        decreases len - j,
    {
        chars.push(text.get_char(j));
        assert(text@.subrange(0, j + 1) =~= text@.subrange(0, j as int).push(text@[j as int]));
        j = j + 1;
    }
    assert(text@.subrange(0, len as int) =~= text@);
    let p = Ghost(text@);
    let mut out: Vec<u64> = Vec::new();
    let mut i: usize = 0;
    let mut at_start = true;
    let mut first = true;
    assert(p@.subrange(0, len as int) =~= p@);
    assert(ints(out@) =~= Seq::<int>::empty());
    while i < len
        invariant
            i <= len,
            len == p@.len(),
            chars@ == p@,
            path_key(p@) == ints(out@) + key_from(p@.subrange(i as int, len as int), at_start, first),
        decreases len - i, if at_start { 1int } else { 0int },
    {
        let rest = Ghost(p@.subrange(i as int, len as int));
        assert(rest@.len() > 0 && rest@[0] == chars@[i as int]);
        if at_start {
            let c0 = chars[i];
            let rank: u64 = if first && c0 == '.' && (i + 1 == len || chars[i + 1] == '/') {
                assert(rest@ == seq!['.'] || (rest@.len() >= 2 && rest@[0] == '.' && rest@[1] == '/')) by {
                    if i + 1 == len {
                        assert(rest@ =~= seq!['.']);
                    } else {
                        assert(rest@[1] == chars@[i + 1]);
                    }
                }
                1
            } else if c0 == '.' && i + 1 < len && chars[i + 1] == '.' && (i + 2 == len || chars[i + 2] == '/') {
                assert(rest@[1] == chars@[i + 1]);
                assert(!(first && (rest@ == seq!['.'] || (rest@.len() >= 2 && rest@[0] == '.' && rest@[1] == '/'))))
                    by {
                    if rest@ == seq!['.'] {
                        assert(rest@.len() == 1);
                    }
                }
                assert(rest@ == seq!['.', '.'] || (rest@.len() >= 3 && rest@[0] == '.' && rest@[1] == '.' && rest@[2]
                    == '/')) by {
                    if i + 2 == len {
                        assert(rest@ =~= seq!['.', '.']);
                    } else {
                        assert(rest@[2] == chars@[i + 2]);
                    }
                }
                2
            } else {
                assert(component_rank(rest@, first) == 3) by {
                    if first && (rest@ == seq!['.'] || (rest@.len() >= 2 && rest@[0] == '.' && rest@[1] == '/')) {
                        if rest@ == seq!['.'] {
                            assert(rest@.len() == 1);
                        } else {
                            assert(rest@[1] == chars@[i + 1]);
                        }
                    }
                    if rest@ == seq!['.', '.'] || (rest@.len() >= 3 && rest@[0] == '.' && rest@[1] == '.' && rest@[2]
                        == '/') {
                        assert(rest@[1] == chars@[i + 1]);
                        if rest@ == seq!['.', '.'] {
                            assert(rest@.len() == 2);
                        } else {
                            assert(rest@[2] == chars@[i + 2]);
                        }
                    }
                }
                3
            };
            let ghost before = out@;
            out.push(rank);
            assert(ints(out@) =~= ints(before).push(rank as int));
            assert(ints(before) + key_from(rest@, true, first) =~= ints(out@) + key_from(rest@, false, first));
            at_start = false;
        } else {
            let c = chars[i];
            let ghost before = out@;
            assert(rest@.drop_first() =~= p@.subrange(i + 1, len as int));
            if c == '/' {
                out.push(0);
                assert(ints(out@) =~= ints(before).push(0));
                assert(ints(before) + key_from(rest@, false, first) =~= ints(out@) + key_from(
                    rest@.drop_first(),
                    true,
                    false,
                ));
                at_start = true;
                first = false;
            } else {
                let code: u32 = c as u32;
                out.push(code as u64 + 4);
                assert(ints(out@) =~= ints(before).push((c as u32) as int + 4));
                assert(ints(before) + key_from(rest@, false, first) =~= ints(out@) + key_from(
                    rest@.drop_first(),
                    false,
                    first,
                ));
            }
            i = i + 1;
        }
    }
    assert(p@.subrange(len as int, len as int) =~= Seq::<char>::empty());
    assert(ints(out@) + Seq::<int>::empty() =~= ints(out@));
    out
}

/// Whether one key comes before another.
fn key_before(x: &Vec<u64>, y: &Vec<u64>) -> (r: bool)
    ensures
        r == lex_before(ints(x@), ints(y@)),
{
    let mut i: usize = 0;
    assert(ints(x@).subrange(0, x.len() as int) =~= ints(x@));
    assert(ints(y@).subrange(0, y.len() as int) =~= ints(y@));
    while i < x.len() && i < y.len()
        invariant
            i <= x.len(),
            i <= y.len(),
            lex_before(ints(x@), ints(y@)) == lex_before(ints(x@).subrange(i as int, x.len() as int), ints(y@).subrange(i as int, y.len() as int)),
        decreases x.len() - i,
    {
        let xs = Ghost(ints(x@).subrange(i as int, x.len() as int));
        let ys = Ghost(ints(y@).subrange(i as int, y.len() as int));
        if x[i] != y[i] {
            assert(xs@[0] == x@[i as int] as int && ys@[0] == y@[i as int] as int);
            return x[i] < y[i];
        }
        assert(xs@.drop_first() =~= ints(x@).subrange(i + 1, x.len() as int));
        assert(ys@.drop_first() =~= ints(y@).subrange(i + 1, y.len() as int));
        i = i + 1;
    }
    i < y.len()
}

/// Whether a path comes before another in the order of `std::path::Path`.
pub fn path_precedes(a: &str, b: &str) -> (r: bool)
    ensures
        r == path_before(a@, b@),
{
    let ka = key_of(a);
    let kb = key_of(b);
    key_before(&ka, &kb)
}

} // verus!
