//! Patch documents: reading a synth or a kit in any format, writing them in the latest.
use vstd::prelude::*;
use crate::card::patch_type::PatchType;
use crate::error::{ErrorView, SerializationError};
use crate::kit::{Kit, KitView};
use crate::serialization::format_version::FormatVersion;
use crate::serialization::loading::{load_kit_nodes, load_synth_nodes, roots_view, spec_load_kit_nodes, spec_load_synth_nodes};
use crate::serialization::version_info::{is_version_info_of, load_version_info, spec_document_format, VersionInfo};
use crate::serialization::writing::{spec_kit_element, spec_synth_element, write_kit, write_synth};
use crate::sound::SoundView;
use crate::synth::Synth;
use crate::xml::{element_view, XmlElement, XmlElementView};
use crate::xml_tree::{load_xml, spec_parsed_roots, write_xml, written_as};
use crate::serialization::hex_range::{kit_hex_ok, kit_hex_overflow, sound_hex_ok, sound_hex_overflow};
use crate::text::{dec_text, u64_text};
use crate::serialization::laws::{lemma_loaded_kit_round_trip, lemma_loaded_synth_round_trip};

verus! {

/// Whether a format is one this library reads.
pub open spec fn is_supported_format(format: FormatVersion) -> bool {
    format == FormatVersion::Version1 || format == FormatVersion::Version2 || format == FormatVersion::Version3
}

/// What reading a kit document gives, from its root elements: the kit in the format of
/// the document, which must be a supported one.
pub open spec fn spec_load_kit_document(roots: Seq<XmlElementView>) -> Result<KitView, ErrorView> {
    let format = spec_document_format(roots, PatchType::Kit);
    if is_supported_format(format) {
        spec_load_kit_nodes(roots, format)
    } else {
        Err(ErrorView::InvalidVersionFormat)
    }
}

/// What reading a synth document gives, from its root elements.
pub open spec fn spec_load_synth_document(roots: Seq<XmlElementView>) -> Result<SoundView, ErrorView> {
    let format = spec_document_format(roots, PatchType::Synth);
    if is_supported_format(format) {
        spec_load_synth_nodes(roots, format)
    } else {
        Err(ErrorView::InvalidVersionFormat)
    }
}

/// Reads a kit and the versions its document names from the root elements of the
/// document.
pub fn load_kit_document(roots: &Vec<XmlElement>) -> (r: Result<(Kit, VersionInfo), SerializationError>)
    ensures
        match spec_load_kit_document(roots_view(roots@)) {
            Ok(v) => r matches Ok((k, info)) && k@ == v && is_version_info_of(info, roots_view(roots@), PatchType::Kit),
            Err(e) => r matches Err(f) && f@ == e,
        },
{
    let info = load_version_info(roots, PatchType::Kit);
    let format = info.format_version;
    if format == FormatVersion::Version1 || format == FormatVersion::Version2 || format == FormatVersion::Version3 {
        match load_kit_nodes(roots, format) {
            Ok(kit) => Ok((kit, info)),
            Err(e) => Err(e),
        }
    } else {
        Err(SerializationError::InvalidVersionFormat)
    }
}

/// Reads a synth and the versions its document names from the root elements of the
/// document.
pub fn load_synth_document(roots: &Vec<XmlElement>) -> (r: Result<(Synth, VersionInfo), SerializationError>)
    ensures
        match spec_load_synth_document(roots_view(roots@)) {
            Ok(v) => r matches Ok((s, info)) && s@ == v && is_version_info_of(
                info,
                roots_view(roots@),
                PatchType::Synth,
            ),
            Err(e) => r matches Err(f) && f@ == e,
        },
{
    let info = load_version_info(roots, PatchType::Synth);
    let format = info.format_version;
    if format == FormatVersion::Version1 || format == FormatVersion::Version2 || format == FormatVersion::Version3 {
        match load_synth_nodes(roots, format) {
            Ok(synth) => Ok((synth, info)),
            Err(e) => Err(e),
        }
    } else {
        Err(SerializationError::InvalidVersionFormat)
    }
}

/// What deserializing a kit gives: the text's root elements, as `xmltree` parses them,
/// read as a kit document; a text that is not well-formed XML is a parsing error.
pub open spec fn spec_deserialize_kit(xml: Seq<char>) -> Option<Result<KitView, ErrorView>> {
    match spec_parsed_roots(xml) {
        Some(roots) => Some(spec_load_kit_document(roots)),
        None => None,
    }
}

/// Deserializes a kit patch from XML, with the versions its document names. The text is
/// parsed by `xmltree`; the kit is what `load_kit_document` reads from the root elements,
/// and the element that saving it writes reads back, in the latest format, as it.
pub fn deserialize_kit_with_version(xml: &str) -> (r: Result<(Kit, VersionInfo), SerializationError>)
    ensures
        match spec_parsed_roots(xml@) {
            None => r matches Err(e) && e is XmlParsingFailed,
            Some(roots) => match spec_load_kit_document(roots) {
                Ok(v) => r matches Ok((k, info)) && k@ == v && is_version_info_of(info, roots, PatchType::Kit)
                    && spec_load_kit_nodes(seq![spec_kit_element(v)], FormatVersion::Version3) == Ok::<
                    KitView,
                    ErrorView,
                >(v),
                Err(e) => r matches Err(f) && f@ == e,
            },
        },
{
    let roots = match load_xml(xml) {
        Ok(v) => v,
        Err(e) => return Err(e),
    };
    let r = load_kit_document(&roots);
    proof {
        let views = roots_view(roots@);
        if r is Ok {
            lemma_loaded_kit_round_trip(views, spec_document_format(views, PatchType::Kit));
        }
    }
    r
}

/// Deserializes a kit patch from XML, as `deserialize_kit_with_version` does.
pub fn deserialize_kit(xml: &str) -> (r: Result<Kit, SerializationError>)
    ensures
        match spec_deserialize_kit(xml@) {
            None => r matches Err(e) && e is XmlParsingFailed,
            Some(Ok(v)) => r matches Ok(k) && k@ == v && spec_load_kit_nodes(
                seq![spec_kit_element(v)],
                FormatVersion::Version3,
            ) == Ok::<KitView, ErrorView>(v),
            Some(Err(e)) => r matches Err(f) && f@ == e,
        },
{
    match deserialize_kit_with_version(xml) {
        Ok((kit, _)) => Ok(kit),
        Err(e) => Err(e),
    }
}

/// What deserializing a synth gives: the text's root elements, as `xmltree` parses them,
/// read as a synth document; a text that is not well-formed XML is a parsing error.
pub open spec fn spec_deserialize_synth(xml: Seq<char>) -> Option<Result<SoundView, ErrorView>> {
    match spec_parsed_roots(xml) {
        Some(roots) => Some(spec_load_synth_document(roots)),
        None => None,
    }
}

/// Deserializes a synth patch from XML, with the versions its document names. The text is
/// parsed by `xmltree`; the synth is what `load_synth_document` reads from the root
/// elements, and the element that saving it writes reads back, in the latest format, as it.
pub fn deserialize_synth_with_version(xml: &str) -> (r: Result<(Synth, VersionInfo), SerializationError>)
    ensures
        match spec_parsed_roots(xml@) {
            None => r matches Err(e) && e is XmlParsingFailed,
            Some(roots) => match spec_load_synth_document(roots) {
                Ok(v) => r matches Ok((s, info)) && s@ == v && is_version_info_of(info, roots, PatchType::Synth)
                    && spec_load_synth_nodes(seq![spec_synth_element(v)], FormatVersion::Version3) == Ok::<
                    SoundView,
                    ErrorView,
                >(v),
                Err(e) => r matches Err(f) && f@ == e,
            },
        },
{
    let roots = match load_xml(xml) {
        Ok(v) => v,
        Err(e) => return Err(e),
    };
    let r = load_synth_document(&roots);
    proof {
        let views = roots_view(roots@);
        if r is Ok {
            lemma_loaded_synth_round_trip(views, spec_document_format(views, PatchType::Synth));
        }
    }
    r
}

/// Deserializes a synth patch from XML, as `deserialize_synth_with_version` does.
pub fn deserialize_synth(xml: &str) -> (r: Result<Synth, SerializationError>)
    ensures
        match spec_deserialize_synth(xml@) {
            None => r matches Err(e) && e is XmlParsingFailed,
            Some(Ok(v)) => r matches Ok(s) && s@ == v && spec_load_synth_nodes(
                seq![spec_synth_element(v)],
                FormatVersion::Version3,
            ) == Ok::<SoundView, ErrorView>(v),
            Some(Err(e)) => r matches Err(f) && f@ == e,
        },
{
    match deserialize_synth_with_version(xml) {
        Ok((synth, _)) => Ok(synth),
        Err(e) => Err(e),
    }
}

/// The root elements of a synth document: its element alone.
pub fn synth_document(synth: &Synth) -> (r: Vec<XmlElement>)
    ensures
        roots_view(r@) == seq![spec_synth_element(synth@)],
{
    let mut roots: Vec<XmlElement> = Vec::new();
    roots.push(write_synth(synth));
    assert(roots_view(roots@) =~= seq![spec_synth_element(synth@)]);
    roots
}

/// The root elements of a kit document: its element alone.
pub fn kit_document(kit: &Kit) -> (r: Vec<XmlElement>)
    ensures
        roots_view(r@) == seq![spec_kit_element(kit@)],
{
    let mut roots: Vec<XmlElement> = Vec::new();
    roots.push(write_kit(kit));
    assert(roots_view(roots@) =~= seq![spec_kit_element(kit@)]);
    roots
}

/// The error of a patch holding a `HexU50` above 50: writing that value overflows.
pub open spec fn is_hex_overflow(e: ErrorView) -> bool {
    exists|v: u8| v > 50 && e == ErrorView::Overflow(#[trigger] dec_text(v as nat), dec_text(50))
}

fn hex_overflow_error(v: u8) -> (r: SerializationError)
    requires
        v > 50,
    ensures
        is_hex_overflow(r@),
{
    let r = SerializationError::Overflow(u64_text(v as u64), u64_text(50));
    assert(r@ == ErrorView::Overflow(dec_text(v as nat), dec_text(50)));
    r
}

/// Serializes a synth patch as XML, in the latest format: the elements of
/// `synth_document`, written by `xmltree`. A patch holding a `HexU50` above 50 is refused,
/// as writing that value overflows.
pub fn serialize_synth(synth: &Synth) -> (r: Result<String, SerializationError>)
    ensures
        sound_hex_ok(synth@) ==> (r matches Ok(s) && written_as(s@, seq![spec_synth_element(synth@)])),
        !sound_hex_ok(synth@) ==> (r matches Err(e) && is_hex_overflow(e@)),
{
    match sound_hex_overflow(&synth.sound) {
        Some(v) => Err(hex_overflow_error(v)),
        None => {
            let roots = synth_document(synth);
            Ok(write_xml(&roots))
        },
    }
}

/// Serializes a kit patch as XML, in the latest format: the elements of `kit_document`,
/// written by `xmltree`. A kit holding a `HexU50` above 50, in itself or in the sound of
/// one of its rows, is refused, as writing that value overflows.
pub fn serialize_kit(kit: &Kit) -> (r: Result<String, SerializationError>)
    ensures
        kit_hex_ok(kit@) ==> (r matches Ok(s) && written_as(s@, seq![spec_kit_element(kit@)])),
        !kit_hex_ok(kit@) ==> (r matches Err(e) && is_hex_overflow(e@)),
{
    match kit_hex_overflow(kit) {
        Some(v) => Err(hex_overflow_error(v)),
        None => {
            let roots = kit_document(kit);
            Ok(write_xml(&roots))
        },
    }
}

} // verus!
