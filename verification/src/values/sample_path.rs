//! A path relative to the root of a card.
use vstd::prelude::*;
use crate::error::{CardError, CardErrorView, ErrorView, SerializationError};
use crate::text::{owned_text, push_char};
use vstd::string::StrSliceExecFns;

verus! {

/// A path relative to the root of a card, kept as its components joined by `/`:
/// empty components and `.` components (but a leading one) are left out, as
/// `std::path::Path::components` does on Unix.
#[derive(PartialEq, Eq, Debug, PartialOrd, Ord)]
pub struct SamplePath(String);

/// Appends a component to a joined path.
pub open spec fn join_component(out: Seq<char>, component: Seq<char>) -> Seq<char> {
    if out.len() == 0 {
        component
    } else {
        out.push('/') + component
    }
}

/// The joined path once the component at position `index` is complete.
pub open spec fn flush_component(out: Seq<char>, component: Seq<char>, index: nat) -> Seq<char> {
    if component.len() == 0 || (component == seq!['.'] && index > 0) {
        out
    } else {
        join_component(out, component)
    }
}

/// The state after reading a path from left to right: the joined components, the
/// component being read and its position.
pub open spec fn scan_path(s: Seq<char>) -> (Seq<char>, Seq<char>, nat)
    decreases s.len(),
{
    if s.len() == 0 {
        (Seq::empty(), Seq::empty(), 0)
    } else {
        let (out, component, index) = scan_path(s.drop_last());
        if s.last() == '/' {
            (flush_component(out, component, index), Seq::empty(), index + 1)
        } else {
            (out, component.push(s.last()), index)
        }
    }
}

/// The components of a path joined by `/`.
pub open spec fn normalized_path(s: Seq<char>) -> Seq<char> {
    let (out, component, index) = scan_path(s);
    flush_component(out, component, index)
}

/// Whether a path is relative: it does not begin at the root.
pub open spec fn is_relative_path(s: Seq<char>) -> bool {
    s.len() == 0 || s[0] != '/'
}

/// Whether a text holds no `/`.
pub open spec fn no_separator(c: Seq<char>) -> bool {
    forall|i: int| 0 <= i < c.len() ==> c[i] != '/'
}

/// Reading text without `/` adds it to the component being read.
proof fn lemma_scan_component(s: Seq<char>, c: Seq<char>)
    requires
        no_separator(c),
    ensures
        scan_path(s + c) == (scan_path(s).0, scan_path(s).1 + c, scan_path(s).2),
    decreases c.len(),
{
    if c.len() == 0 {
        assert(s + c =~= s);
        assert(scan_path(s).1 + c =~= scan_path(s).1);
    } else {
        let d = c.drop_last();
        lemma_scan_component(s, d);
        assert((s + c).drop_last() =~= s + d);
        assert((s + c).last() == c.last());
        assert(scan_path(s).1 + d.push(c.last()) =~= scan_path(s).1 + c);
        assert(d.push(c.last()) =~= c);
    }
}

/// A normalised path followed by one more component that is kept is normalised.
proof fn lemma_join_normalized(o: Seq<char>, c: Seq<char>)
    requires
        normalized_path(o) == o,
        c.len() > 0,
        no_separator(c),
        o.len() > 0 ==> c != seq!['.'],
    ensures
        normalized_path(join_component(o, c)) == join_component(o, c),
{
    if o.len() == 0 {
        lemma_scan_component(Seq::empty(), c);
        assert(Seq::<char>::empty() + c =~= c);
        assert(Seq::<char>::empty() + c =~= c);
    } else {
        let slash = o.push('/');
        assert(slash.drop_last() =~= o);
        lemma_scan_component(slash, c);
        assert(Seq::<char>::empty() + c =~= c);
    }
}

/// Normalising a path gives a relative path that normalising leaves as it is.
pub proof fn lemma_normalized_path_stable(t: Seq<char>)
    ensures
        is_relative_path(normalized_path(t)),
        normalized_path(normalized_path(t)) == normalized_path(t),
    decreases t.len(),
{
    lemma_scan_invariant(t);
    let (out, component, index) = scan_path(t);
    if component.len() == 0 || (component == seq!['.'] && index > 0) {
    } else {
        lemma_join_normalized(out, component);
        if out.len() == 0 {
            assert(component[0] != '/');
        } else {
            assert(join_component(out, component)[0] == out[0]);
        }
    }
}

/// What reading any prefix of a path keeps: the joined components are normalised and do
/// not begin with `/`, the component being read holds no `/`, and a non-empty join was
/// made at a separator.
proof fn lemma_scan_invariant(s: Seq<char>)
    ensures
        normalized_path(scan_path(s).0) == scan_path(s).0,
        no_separator(scan_path(s).1),
        scan_path(s).0.len() > 0 ==> scan_path(s).2 > 0,
        scan_path(s).0.len() > 0 ==> scan_path(s).0[0] != '/',
    decreases s.len(),
{
    if s.len() == 0 {
        assert(normalized_path(Seq::<char>::empty()) =~= Seq::<char>::empty());
    } else {
        lemma_scan_invariant(s.drop_last());
        let (out, component, index) = scan_path(s.drop_last());
        if s.last() == '/' {
            if component.len() == 0 || (component == seq!['.'] && index > 0) {
            } else {
                lemma_join_normalized(out, component);
                if out.len() == 0 {
                    assert(component[0] != '/');
                } else {
                    assert(join_component(out, component)[0] == out[0]);
                }
            }
        } else {
            assert forall|i: int| 0 <= i < component.push(s.last()).len() implies component.push(s.last())[i] != '/' by {
                if i < component.len() {
                    assert(component.push(s.last())[i] == component[i]);
                }
            }
        }
    }
}

impl View for SamplePath {
    type V = Seq<char>;

    closed spec fn view(&self) -> Seq<char> {
        self.0@
    }
}

impl Clone for SamplePath {
    fn clone(&self) -> (r: Self)
        ensures
            r == *self,
    {
        SamplePath(self.0.clone())
    }
}

impl Default for SamplePath {
    /// The empty path.
    fn default() -> (r: Self)
        ensures
            r@ == Seq::<char>::empty(),
    {
        SamplePath(String::new())
    }
}

fn append_text(out: &mut String, s: &str)
    ensures
        final(out)@ == old(out)@ + s@,
{
    let len = s.unicode_len();
    let mut i: usize = 0;
    while i < len
        invariant
            i <= len,
            len == s@.len(),
            out@ == old(out)@ + s@.subrange(0, i as int),
        decreases len - i,
    {
        let c = s.get_char(i);
        push_char(out, c);
        assert(s@.subrange(0, i + 1) =~= s@.subrange(0, i as int).push(c));
        i = i + 1;
    }
    assert(s@.subrange(0, len as int) =~= s@);
}

fn flush(out: &mut String, component: &String, index: usize)
    ensures
        final(out)@ == flush_component(old(out)@, component@, index as nat),
{
    let c = component.as_str();
    let len = c.unicode_len();
    if len == 0 {
        return;
    }
    if len == 1 && index > 0 && c.get_char(0) == '.' {
        assert(component@ =~= seq!['.']);
        return;
    }
    assert(!(component@ == seq!['.'] && index > 0)) by {
        if component@ == seq!['.'] {
            assert(component@[0] == '.');
        }
    }
    if out.as_str().unicode_len() > 0 {
        push_char(out, '/');
    }
    append_text(out, c);
}

impl SamplePath {
    /// Creates a sample path; a path that is not relative is refused.
    pub fn new(path: &str) -> (r: Result<Self, CardError>)
        ensures
            is_relative_path(path@) ==> (r matches Ok(p) && p@ == normalized_path(path@)),
            !is_relative_path(path@) ==> (r matches Err(e) && e@ == CardErrorView::PathNotRelative(path@)),
    {
        let len = path.unicode_len();
        if len > 0 && path.get_char(0) == '/' {
            return Err(CardError::PathNotRelative(owned_text(path)));
        }
        let mut out = String::new();
        let mut component = String::new();
        let mut index: usize = 0;
        let mut i: usize = 0;
        assert(path@.subrange(0, 0) =~= Seq::<char>::empty());
        while i < len
            invariant
                i <= len,
                len == path@.len(),
                index <= i,
                (out@, component@, index as nat) == scan_path(path@.subrange(0, i as int)),
            decreases len - i,
        {
            let c = path.get_char(i);
            assert(path@.subrange(0, i + 1).drop_last() =~= path@.subrange(0, i as int));
            if c == '/' {
                flush(&mut out, &component, index);
                component = String::new();
                index = index + 1;
            } else {
                push_char(&mut component, c);
            }
            i = i + 1;
        }
        assert(path@.subrange(0, len as int) =~= path@);
        flush(&mut out, &component, index);
        Ok(SamplePath(out))
    }

    /// The path as text, its components joined by `/`.
    pub fn to_string_lossy(&self) -> (r: String)
        ensures
            r@ == self@,
    {
        self.0.clone()
    }

    /// The path as text.
    pub fn as_str(&self) -> (r: &str)
        ensures
            r@ == self@,
    {
        self.0.as_str()
    }
}

/// What reading a sample path gives.
pub open spec fn spec_read_sample_path(text: Seq<char>) -> Result<Seq<char>, ErrorView> {
    if is_relative_path(text) {
        Ok(normalized_path(text))
    } else {
        Err(ErrorView::InvalidValue(text))
    }
}

/// Reads a sample path; a path that is not relative is refused.
pub fn read_sample_path(text: &str) -> (r: Result<SamplePath, SerializationError>)
    ensures
        match spec_read_sample_path(text@) {
            Ok(p) => r matches Ok(q) && q@ == p,
            Err(e) => r matches Err(f) && f@ == e,
        },
{
    match SamplePath::new(text) {
        Ok(p) => Ok(p),
        Err(_) => Err(SerializationError::InvalidValue(owned_text(text))),
    }
}

} // verus!
