//! The versions a patch document names: the firmware that wrote it, the earliest
//! firmware that reads it, and the format they imply.
use vstd::prelude::*;
use crate::card::patch_type::PatchType;
use crate::serialization::format_version::{format_of_version, spec_format_of_version, FormatVersion};
use crate::serialization::loading::{get_opt_element, root_element, roots_view};
use crate::xml::{all_text, attr_value, get_opt_attribute, get_text, XmlElement, XmlElementView};

verus! {

/// The versions read from a patch document.
#[derive(Clone, Debug, PartialEq, Eq)]
pub struct VersionInfo {
    pub firmware_version: Option<String>,
    pub earliest_compatible_firmware: Option<String>,
    pub format_version: FormatVersion,
}

/// A version named by a document: the text of a root element of that name (empty when
/// it has none), else the attribute of that name on the patch element.
pub open spec fn spec_load_version(roots: Seq<XmlElementView>, patch_type: PatchType, key: Seq<char>) -> Option<
    Seq<char>,
> {
    match root_element(roots, key) {
        Some(e) => Some(
            match all_text(e.children) {
                Some(t) => t,
                None => Seq::empty(),
            },
        ),
        None => match root_element(roots, patch_type.spec_key()) {
            Some(n) => attr_value(n.attributes, key),
            None => None,
        },
    }
}

/// The format of a document: that of the earliest firmware it names.
pub open spec fn spec_document_format(roots: Seq<XmlElementView>, patch_type: PatchType) -> FormatVersion {
    spec_format_of_version(spec_load_version(roots, patch_type, "earliestCompatibleFirmware"@))
}

/// Whether version information is what a document names.
pub open spec fn is_version_info_of(info: VersionInfo, roots: Seq<XmlElementView>, patch_type: PatchType) -> bool {
    &&& info.firmware_version.deep_view() == spec_load_version(roots, patch_type, "firmwareVersion"@)
    &&& info.earliest_compatible_firmware.deep_view() == spec_load_version(
        roots,
        patch_type,
        "earliestCompatibleFirmware"@,
    )
    &&& info.format_version == spec_document_format(roots, patch_type)
}

fn load_version(roots: &Vec<XmlElement>, patch_type: PatchType, key: &str) -> (r: Option<String>)
    ensures
        r.deep_view() == spec_load_version(roots_view(roots@), patch_type, key@),
{
    match get_opt_element(roots, key) {
        Some(e) => {
            return match get_text(e) {
                Some(t) => Some(t),
                None => Some(String::new()),
            };
        },
        None => {},
    }
    match get_opt_element(roots, patch_type.get_key()) {
        Some(node) => match get_opt_attribute(node, key) {
            Some(v) => Some(v.clone()),
            None => None,
        },
        None => None,
    }
}

/// Reads the versions a patch document names.
pub fn load_version_info(roots: &Vec<XmlElement>, patch_type: PatchType) -> (r: VersionInfo)
    ensures
        is_version_info_of(r, roots_view(roots@), patch_type),
{
    let earliest_compatible_firmware = load_version(roots, patch_type, "earliestCompatibleFirmware");
    let firmware_version = load_version(roots, patch_type, "firmwareVersion");
    let format_version = format_of_version(earliest_compatible_firmware.clone());
    VersionInfo { firmware_version, earliest_compatible_firmware, format_version }
}

} // verus!
