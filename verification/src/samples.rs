//! The sample paths of a patch, read from the text of its `fileName` elements, and
//! their replacement.
//!
//! The XML events come from `quick_xml`; what is done with each is decided here.
use vstd::prelude::*;
use crate::values::sample_path::{is_relative_path, normalized_path, SamplePath};

verus! {

#[verifier::external_type_specification]
#[verifier::external_body]
#[verifier::reject_recursive_types(R)]
pub struct ExReader<R>(quick_xml::Reader<R>);

#[verifier::external_type_specification]
#[verifier::external_body]
#[verifier::reject_recursive_types(W)]
pub struct ExWriter<W>(quick_xml::Writer<W>);

#[verifier::external_type_specification]
#[verifier::external_body]
pub struct ExEvent<'a>(quick_xml::events::Event<'a>);

/// What is read of an XML event: the name of a start or end tag, the bytes of a text, the
/// end of the document, or anything else.
#[derive(Clone, Debug, PartialEq, Eq)]
pub enum EventKind {
    Start(Vec<u8>),
    End(Vec<u8>),
    Text(Vec<u8>),
    Eof,
    Other,
}

/// An event with its bytes seen as sequences.
pub enum EventKindView {
    Start(Seq<u8>),
    End(Seq<u8>),
    Text(Seq<u8>),
    Eof,
    Other,
}

impl View for EventKind {
    type V = EventKindView;

    open spec fn view(&self) -> EventKindView {
        match self {
            EventKind::Start(n) => EventKindView::Start(n@),
            EventKind::End(n) => EventKindView::End(n@),
            EventKind::Text(t) => EventKindView::Text(t@),
            EventKind::Eof => EventKindView::Eof,
            EventKind::Other => EventKindView::Other,
        }
    }
}

/// The text that bytes encode, when they are valid UTF-8.
pub open spec fn utf8_text(bytes: Seq<u8>) -> Option<Seq<char>> {
    if vstd::utf8::valid_utf8(bytes) {
        Some(vstd::utf8::decode_utf8(bytes))
    } else {
        None
    }
}

/// Calls `String::from_utf8` on a copy of the bytes, which succeeds exactly when they are
/// valid UTF-8 and then holds the characters they encode; `None` on its error.
#[verifier::external_body]
fn decode_utf8(bytes: &Vec<u8>) -> (r: Option<String>)
    ensures
        match r {
            Some(s) => utf8_text(bytes@) == Some(s@),
            None => utf8_text(bytes@) is None,
        },
{
    String::from_utf8(bytes.clone()).ok()
}

/// A step of reading a document with `quick_xml`: an event, with the bytes that a
/// `quick_xml::Writer` writes for it, or `None` where the input cannot be read.
pub type ReadStep = Option<(EventKindView, Seq<u8>)>;

/// The steps of reading bytes with a `quick_xml::Reader`, its texts trimmed or not: every
/// event up to the end of the document, or up to the first error, which is the last step.
pub uninterp spec fn xml_steps(bytes: Seq<u8>, trim: bool) -> Seq<Option<(EventKindView, Seq<u8>)>>;

/// The steps a `quick_xml::Reader` over bytes has yet to give.
pub uninterp spec fn pending_steps(reader: quick_xml::Reader<&[u8]>) -> Seq<Option<(EventKindView, Seq<u8>)>>;

/// The bytes that a `quick_xml::Writer` writes for an event.
pub uninterp spec fn event_form(event: quick_xml::events::Event) -> Seq<u8>;

/// The bytes a `quick_xml::Writer` over a buffer has written.
pub uninterp spec fn writer_bytes(writer: quick_xml::Writer<Vec<u8>>) -> Seq<u8>;

/// The bytes a `quick_xml::Writer` writes for a text event made by
/// `quick_xml::events::BytesText::new` from a text, which escapes it.
pub uninterp spec fn escaped_text(text: Seq<char>) -> Seq<u8>;

/// Whether a step ends the reading: the end of the document, or an error.
pub open spec fn is_last_step(step: ReadStep) -> bool {
    match step {
        Some((kind, _)) => kind is Eof,
        None => true,
    }
}

/// Whether steps are a whole reading: the last one, and only it, ends the reading.
pub open spec fn whole_reading(steps: Seq<ReadStep>) -> bool {
    &&& steps.len() > 0
    &&& is_last_step(steps.last())
    &&& forall|i: int| 0 <= i < steps.len() - 1 ==> !is_last_step(#[trigger] steps[i])
}

/// Calls `quick_xml::Reader::from_reader` on the bytes, then `trim_text`. Reading the bytes
/// gives their steps; each event but the end takes at least one byte of input, so the
/// reading comes to the end of the document or to an error.
#[verifier::external_body]
fn reader_from_bytes<'a>(bytes: &'a [u8], trim: bool) -> (r: quick_xml::Reader<&'a [u8]>)
    ensures
        pending_steps(r) == xml_steps(bytes@, trim),
        whole_reading(pending_steps(r)),
{
    let mut reader = quick_xml::Reader::from_reader(bytes);
    reader.trim_text(trim);
    reader
}

/// Calls `quick_xml::Reader::read_event`: the next event, with what is read of it (the name
/// of a tag as `BytesStart::name` or `BytesEnd::name` gives it, the bytes of a text as they
/// stand in the input), or the error's message.
#[verifier::external_body]
fn next_event<'a>(reader: &mut quick_xml::Reader<&'a [u8]>) -> (r: Result<(quick_xml::events::Event<'a>, EventKind), String>)
    requires
        pending_steps(*old(reader)).len() > 0,
    ensures
        pending_steps(*final(reader)) == pending_steps(*old(reader)).drop_first(),
        match pending_steps(*old(reader))[0] {
            Some((kind, form)) => r matches Ok((e, k)) && k@ == kind && event_form(e) == form,
            None => r is Err,
        },
{
    match reader.read_event() {
        Ok(event) => {
            let kind = match &event {
                quick_xml::events::Event::Start(tag) => EventKind::Start(tag.name().as_ref().to_vec()),
                quick_xml::events::Event::End(tag) => EventKind::End(tag.name().as_ref().to_vec()),
                quick_xml::events::Event::Text(text) => EventKind::Text(text.to_vec()),
                quick_xml::events::Event::Eof => EventKind::Eof,
                _ => EventKind::Other,
            };
            Ok((event, kind))
        },
        Err(e) => Err(e.to_string()),
    }
}

/// Calls `quick_xml::Writer::new` on an empty buffer.
#[verifier::external_body]
fn new_writer() -> (r: quick_xml::Writer<Vec<u8>>)
    ensures
        writer_bytes(r) == Seq::<u8>::empty(),
{
    quick_xml::Writer::new(Vec::new())
}

/// Calls `quick_xml::Writer::write_event`, which writes the event's bytes after those
/// already written. The writer has no indentation and writes into a `Vec<u8>`, whose
/// `write_all` does not fail, so the call succeeds.
#[verifier::external_body]
fn write_event<'a>(writer: &mut quick_xml::Writer<Vec<u8>>, event: quick_xml::events::Event<'a>) -> (r: Result<
    (),
    String,
>)
    ensures
        r is Ok,
        writer_bytes(*final(writer)) == writer_bytes(*old(writer)) + event_form(event),
{
    writer.write_event(event).map_err(|e| e.to_string())
}

/// A text event holding the text, escaped by `quick_xml::events::BytesText::new`.
#[verifier::external_body]
fn text_event(text: &str) -> (r: quick_xml::events::Event<'static>)
    ensures
        event_form(r) == escaped_text(text@),
{
    quick_xml::events::Event::Text(quick_xml::events::BytesText::new(text).into_owned())
}

/// Calls `quick_xml::Writer::into_inner`: the bytes written.
#[verifier::external_body]
fn written_bytes(writer: quick_xml::Writer<Vec<u8>>) -> (r: Vec<u8>)
    ensures
        r@ == writer_bytes(writer),
{
    writer.into_inner()
}

/// The name of the elements that hold a sample path: `fileName`.
pub open spec fn file_name_tag() -> Seq<u8> {
    seq![102u8, 105u8, 108u8, 101u8, 78u8, 97u8, 109u8, 101u8]
}

/// Whether a tag name is `fileName`.
pub fn is_file_name_tag(name: &Vec<u8>) -> (r: bool)
    ensures
        r == (name@ == file_name_tag()),
{
    let r = name.len() == 8 && name[0] == 102u8 && name[1] == 105u8 && name[2] == 108u8 && name[3] == 101u8
        && name[4] == 78u8 && name[5] == 97u8 && name[6] == 109u8 && name[7] == 101u8;
    proof {
        if r {
            assert(name@ =~= file_name_tag());
        } else if name@ == file_name_tag() {
            assert(name@[0] == 102u8);
        }
    }
    r
}

/// Where reading the sample paths of events stands: inside a `fileName` element or not,
/// stopped or not, and the paths read so far.
pub struct ScanState {
    pub in_file_name: bool,
    pub stopped: bool,
    pub paths: Seq<Seq<char>>,
}

/// What one event does to the reading of sample paths: a `fileName` tag opens or
/// closes the element; a text inside it that is UTF-8 gives a path, or stops the reading
/// when that path is not relative; the end of the document stops it.
pub open spec fn scan_step(state: ScanState, event: EventKindView) -> ScanState {
    if state.stopped {
        state
    } else {
        match event {
            EventKindView::Start(name) => if name == file_name_tag() {
                ScanState { in_file_name: true, ..state }
            } else {
                state
            },
            EventKindView::End(name) => if name == file_name_tag() {
                ScanState { in_file_name: false, ..state }
            } else {
                state
            },
            EventKindView::Text(bytes) => if state.in_file_name {
                match utf8_text(bytes) {
                    Some(text) => if is_relative_path(text) {
                        ScanState { paths: state.paths.push(normalized_path(text)), ..state }
                    } else {
                        ScanState { stopped: true, ..state }
                    },
                    None => state,
                }
            } else {
                state
            },
            EventKindView::Eof => ScanState { stopped: true, ..state },
            EventKindView::Other => state,
        }
    }
}

/// The reading of sample paths after events, from outside any element.
pub open spec fn scan_events(events: Seq<EventKindView>) -> ScanState
    decreases events.len(),
{
    if events.len() == 0 {
        ScanState { in_file_name: false, stopped: false, paths: Seq::empty() }
    } else {
        scan_step(scan_events(events.drop_last()), events.last())
    }
}

/// The views of events.
pub open spec fn events_view(events: Seq<EventKind>) -> Seq<EventKindView> {
    events.map_values(|e: EventKind| e@)
}

/// The sample paths that events give, in order.
pub fn scan_sample_paths(events: &Vec<EventKind>) -> (r: Vec<SamplePath>)
    ensures
        r@.map_values(|p: SamplePath| p@) == scan_events(events_view(events@)).paths,
{
    let ghost views = events_view(events@);
    let mut paths: Vec<SamplePath> = Vec::new();
    let mut in_file_name = false;
    let mut stopped = false;
    let mut i: usize = 0;
    assert(views.subrange(0, 0) =~= Seq::<EventKindView>::empty());
    assert(paths@.map_values(|p: SamplePath| p@) =~= Seq::<Seq<char>>::empty());
    while i < events.len()
        invariant
            i <= events@.len(),
            views == events_view(events@),
            scan_events(views.subrange(0, i as int)) == (ScanState {
                in_file_name,
                stopped,
                paths: paths@.map_values(|p: SamplePath| p@),
            }),
        decreases events.len() - i,
    {
        assert(views.subrange(0, i + 1).drop_last() =~= views.subrange(0, i as int));
        assert(views.subrange(0, i + 1).last() == events@[i as int]@);
        if !stopped {
            match &events[i] {
                EventKind::Start(name) => {
                    if is_file_name_tag(name) {
                        in_file_name = true;
                    }
                },
                EventKind::End(name) => {
                    if is_file_name_tag(name) {
                        in_file_name = false;
                    }
                },
                EventKind::Text(bytes) => {
                    if in_file_name {
                        match decode_utf8(bytes) {
                            Some(text) => match SamplePath::new(text.as_str()) {
                                Ok(path) => {
                                    let ghost before = paths@;
                                    paths.push(path);
                                    assert(paths@.map_values(|p: SamplePath| p@) =~= before.map_values(
                                        |p: SamplePath| p@,
                                    ).push(path@));
                                },
                                Err(_) => {
                                    stopped = true;
                                },
                            },
                            None => {},
                        }
                    }
                },
                EventKind::Eof => {
                    stopped = true;
                },
                EventKind::Other => {},
            }
        }
        i = i + 1;
    }
    assert(views.subrange(0, i as int) =~= views);
    paths
}

/// The events of steps, up to the end of the document or to the first error.
pub open spec fn step_events(steps: Seq<ReadStep>) -> Seq<EventKindView>
    decreases steps.len(),
{
    if steps.len() == 0 {
        Seq::empty()
    } else {
        match steps[0] {
            Some((kind, _)) => seq![kind] + step_events(steps.drop_first()),
            None => Seq::empty(),
        }
    }
}

/// Reads the events of a document with `quick_xml`, texts trimmed: every event up to the
/// end of the document, or up to the first that cannot be read.
pub fn read_xml_events(bytes: &[u8]) -> (r: Vec<EventKind>)
    ensures
        events_view(r@) == step_events(xml_steps(bytes@, true)),
{
    let mut reader = reader_from_bytes(bytes, true);
    let ghost all = pending_steps(reader);
    let ghost mut j: int = 0;
    let mut events: Vec<EventKind> = Vec::new();
    assert(all.subrange(0, all.len() as int) =~= all);
    assert(events_view(events@) + step_events(all) =~= step_events(all));
    loop
        invariant
            all == xml_steps(bytes@, true),
            whole_reading(all),
            0 <= j < all.len(),
            pending_steps(reader) == all.subrange(j, all.len() as int),
            events_view(events@) + step_events(pending_steps(reader)) == step_events(all),
        decreases all.len() - j,
    {
        let ghost before = pending_steps(reader);
        match next_event(&mut reader) {
            Err(_) => {
                proof {
                    assert(before[0] is None);
                    assert(events_view(events@) + step_events(before) =~= events_view(events@));
                }
                return events;
            },
            Ok((_event, kind)) => {
                let is_end = matches!(kind, EventKind::Eof);
                let ghost k = kind@;
                let ghost old_events = events_view(events@);
                events.push(kind);
                proof {
                    assert(before[0] == all[j]);
                    assert(step_events(before) == seq![k] + step_events(before.drop_first()));
                    assert(events_view(events@) =~= old_events.push(k));
                    assert(old_events + (seq![k] + step_events(before.drop_first())) =~= old_events.push(k) + step_events(
                        before.drop_first(),
                    ));
                    assert(all.subrange(j + 1, all.len() as int) =~= before.drop_first());
                    j = j + 1;
                }
                if is_end {
                    proof {
                        assert(is_last_step(all[j - 1]));
                        assert(j == all.len());
                        assert(events_view(events@) + Seq::<EventKindView>::empty() =~= events_view(events@));
                    }
                    return events;
                }
                proof {
                    assert(!is_last_step(all[j - 1]));
                }
            },
        }
    }
}

/// Gets the sample paths found in a patch, in the order of their `fileName` elements.
/// The XML is not checked to be a Deluge patch. Reading stops at the first path that is
/// not relative, or where the XML cannot be read further.
pub fn read_sample_paths(bytes: &[u8]) -> (r: Vec<SamplePath>)
    ensures
        r@.map_values(|p: SamplePath| p@) == scan_events(step_events(xml_steps(bytes@, true))).paths,
{
    let events = read_xml_events(bytes);
    scan_sample_paths(&events)
}

/// Replacements of sample paths; a later replacement of a path overrides an earlier one.
pub struct SamplePathReplacer {
    replacements: Vec<(SamplePath, SamplePath)>,
}

/// The replacements that pairs set, the later ones overriding the earlier ones.
pub open spec fn replacement_map(pairs: Seq<(SamplePath, SamplePath)>) -> Map<Seq<char>, Seq<char>>
    decreases pairs.len(),
{
    if pairs.len() == 0 {
        Map::empty()
    } else {
        replacement_map(pairs.drop_last()).insert(pairs.last().0@, pairs.last().1@)
    }
}

/// The path a rewrite writes in place of an event, if any: the replacement of the path that
/// a UTF-8 text inside a `fileName` element holds, if it is relative and has one.
pub open spec fn rewrite_target(
    replacements: Map<Seq<char>, Seq<char>>,
    in_file_name: bool,
    event: EventKindView,
) -> Option<Seq<char>> {
    match event {
        EventKindView::Text(bytes) => if in_file_name {
            match utf8_text(bytes) {
                Some(text) => if is_relative_path(text) && replacements.contains_key(normalized_path(text)) {
                    Some(replacements[normalized_path(text)])
                } else {
                    None
                },
                None => None,
            }
        } else {
            None
        },
        _ => None,
    }
}

/// Whether a rewrite is inside a `fileName` element after an event.
pub open spec fn rewrite_state(in_file_name: bool, event: EventKindView) -> bool {
    match event {
        EventKindView::Start(name) => in_file_name || name == file_name_tag(),
        EventKindView::End(name) => in_file_name && name != file_name_tag(),
        _ => in_file_name,
    }
}

/// Once a replacement of a path is set, a text inside a `fileName` element that names
/// that path, once normalised, is rewritten as the replacement, whatever was set before.
pub proof fn lemma_set_replacement_rewrites(
    replacements: Map<Seq<char>, Seq<char>>,
    original: Seq<char>,
    replacement: Seq<char>,
    bytes: Seq<u8>,
)
    requires
        utf8_text(bytes) matches Some(text) && is_relative_path(text) && normalized_path(text) == original,
    ensures
        rewrite_target(replacements.insert(original, replacement), true, EventKindView::Text(bytes)) == Some(
            replacement,
        ),
{
}

/// Without replacements, a rewrite replaces no event.
pub proof fn lemma_no_replacement_rewrites_nothing(in_file_name: bool, event: EventKindView)
    ensures
        rewrite_target(Map::empty(), in_file_name, event) is None,
{
}

/// Whether reading steps comes to the end of the document rather than to an error.
pub open spec fn reads_to_end(steps: Seq<ReadStep>) -> bool {
    steps.len() > 0 && steps.last() is Some
}

/// The bytes a rewrite writes for steps: each event before the end of the document as
/// it was read, but a text that `rewrite_target` picks, written as its replacement.
pub open spec fn rewritten_bytes(
    replacements: Map<Seq<char>, Seq<char>>,
    in_file_name: bool,
    steps: Seq<ReadStep>,
) -> Seq<u8>
    decreases steps.len(),
{
    if steps.len() == 0 {
        Seq::empty()
    } else {
        match steps[0] {
            Some((kind, form)) => if kind is Eof {
                Seq::empty()
            } else {
                (match rewrite_target(replacements, in_file_name, kind) {
                    Some(p) => escaped_text(p),
                    None => form,
                }) + rewritten_bytes(replacements, rewrite_state(in_file_name, kind), steps.drop_first())
            },
            None => Seq::empty(),
        }
    }
}

impl SamplePathReplacer {
    /// The replacements, from original path to replacement.
    pub closed spec fn spec_map(self) -> Map<Seq<char>, Seq<char>> {
        replacement_map(self.replacements@)
    }

    /// No replacement.
    pub fn new() -> (r: Self)
        ensures
            r.spec_map() == Map::<Seq<char>, Seq<char>>::empty(),
    {
        SamplePathReplacer { replacements: Vec::new() }
    }

    /// Sets or resets the replacement of a path.
    pub fn set_replacement(&mut self, original: SamplePath, replacement: SamplePath)
        ensures
            final(self).spec_map() == old(self).spec_map().insert(original@, replacement@),
    {
        let ghost before = self.replacements@;
        self.replacements.push((original, replacement));
        assert(self.replacements@.drop_last() =~= before);
    }

    /// The replacement of a path, if any.
    pub fn get_replacement(&self, original: &SamplePath) -> (r: Option<&SamplePath>)
        ensures
            match r {
                Some(p) => self.spec_map().contains_key(original@) && self.spec_map()[original@] == p@,
                None => !self.spec_map().contains_key(original@),
            },
    {
        let ghost pairs = self.replacements@;
        let mut i: usize = self.replacements.len();
        assert(pairs.subrange(0, i as int) =~= pairs);
        while i > 0
            invariant
                i <= pairs.len(),
                pairs == self.replacements@,
                replacement_map(pairs).contains_key(original@) == replacement_map(pairs.subrange(0, i as int)).contains_key(
                    original@,
                ),
                replacement_map(pairs).contains_key(original@) ==> replacement_map(pairs)[original@]
                    == replacement_map(pairs.subrange(0, i as int))[original@],
            decreases i,
        {
            assert(pairs.subrange(0, i as int).drop_last() =~= pairs.subrange(0, i - 1));
            if crate::text::str_eq(self.replacements[i - 1].0.as_str(), original.as_str()) {
                return Some(&self.replacements[i - 1].1);
            }
            i = i - 1;
        }
        assert(pairs.subrange(0, 0) =~= Seq::<(SamplePath, SamplePath)>::empty());
        None
    }

    /// What one event does to a rewrite: the new state, and the replacement to write in
    /// place of the event, if any.
    pub fn rewrite_step(&self, in_file_name: bool, event: &EventKind) -> (r: (bool, Option<SamplePath>))
        ensures
            r.0 == rewrite_state(in_file_name, event@),
            match r.1 {
                Some(p) => rewrite_target(self.spec_map(), in_file_name, event@) == Some(p@),
                None => rewrite_target(self.spec_map(), in_file_name, event@) is None,
            },
    {
        match event {
            EventKind::Start(name) => (in_file_name || is_file_name_tag(name), None),
            EventKind::End(name) => (in_file_name && !is_file_name_tag(name), None),
            EventKind::Text(bytes) => {
                if !in_file_name {
                    return (in_file_name, None);
                }
                match decode_utf8(bytes) {
                    Some(text) => match SamplePath::new(text.as_str()) {
                        Ok(path) => match self.get_replacement(&path) {
                            Some(replacement) => (in_file_name, Some(replacement.clone())),
                            None => (in_file_name, None),
                        },
                        Err(_) => (in_file_name, None),
                    },
                    None => (in_file_name, None),
                }
            },
            _ => (in_file_name, None),
        }
    }

    /// Rewrites an XML document, its `fileName` texts replaced as set: the events of the
    /// document are read and written again by `quick_xml`, each text that `rewrite_target`
    /// picks written as its replacement. A document that cannot be read to its end is an
    /// error, with the reader's message; any other document is rewritten.
    pub fn rewrite(&self, input: &[u8]) -> (r: Result<Vec<u8>, String>)
        ensures
            r is Ok <==> reads_to_end(xml_steps(input@, false)),
            r matches Ok(out) ==> out@ == rewritten_bytes(
                self.spec_map(),
                false,
                xml_steps(input@, false),
            ),
    {
        let mut reader = reader_from_bytes(input, false);
        let ghost all = pending_steps(reader);
        let ghost replacements = self.spec_map();
        let ghost mut j: int = 0;
        let mut writer = new_writer();
        let mut in_file_name = false;
        assert(all.subrange(0, all.len() as int) =~= all);
        assert(writer_bytes(writer) + rewritten_bytes(replacements, false, all) =~= rewritten_bytes(
            replacements,
            false,
            all,
        ));
        loop
            invariant
                all == xml_steps(input@, false),
                replacements == self.spec_map(),
                whole_reading(all),
                0 <= j < all.len(),
                pending_steps(reader) == all.subrange(j, all.len() as int),
                writer_bytes(writer) + rewritten_bytes(replacements, in_file_name, pending_steps(reader))
                    == rewritten_bytes(replacements, false, all),
            decreases all.len() - j,
        {
            let ghost before = pending_steps(reader);
            let ghost written = writer_bytes(writer);
            let (event, kind) = match next_event(&mut reader) {
                Ok(x) => x,
                Err(message) => {
                    proof {
                        assert(before[0] == all[j]);
                        assert(all[j] is None);
                        assert(j == all.len() - 1);
                    }
                    return Err(message);
                },
            };
            proof {
                assert(before[0] == all[j]);
                assert(all.subrange(j + 1, all.len() as int) =~= before.drop_first());
                j = j + 1;
            }
            if matches!(kind, EventKind::Eof) {
                proof {
                    assert(is_last_step(all[j - 1]));
                    assert(j == all.len());
                    assert(written + Seq::<u8>::empty() =~= written);
                }
                return Ok(written_bytes(writer));
            }
            proof {
                assert(!is_last_step(all[j - 1]));
            }
            let (next, replacement) = self.rewrite_step(in_file_name, &kind);
            let ghost form = event_form(event);
            let written_ok = match replacement {
                Some(path) => write_event(&mut writer, text_event(path.as_str())),
                None => write_event(&mut writer, event),
            };
            match written_ok {
                Ok(()) => {},
                Err(message) => {
                    return Err(message);
                },
            }
            proof {
                let piece = match rewrite_target(replacements, in_file_name, kind@) {
                    Some(p) => escaped_text(p),
                    None => form,
                };
                assert(writer_bytes(writer) == written + piece);
                assert(rewritten_bytes(replacements, in_file_name, before) == piece + rewritten_bytes(
                    replacements,
                    next,
                    before.drop_first(),
                ));
                assert(written + (piece + rewritten_bytes(replacements, next, before.drop_first())) =~= (written + piece)
                    + rewritten_bytes(replacements, next, before.drop_first()));
            }
            in_file_name = next;
        }
    }
}

impl Default for SamplePathReplacer {
    fn default() -> (r: Self)
        ensures
            r.spec_map() == Map::<Seq<char>, Seq<char>>::empty(),
    {
        SamplePathReplacer::new()
    }
}

} // verus!
