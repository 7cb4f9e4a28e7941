//! The layout of a Deluge card: its standard folders and the names of its patches.
//!
//! A card holds three folders at its root: `KITS`, `SAMPLES` and `SYNTHS`.
use vstd::prelude::*;
use crate::card::card_folder::CardFolder;
use crate::card::patch_name::{
    lemma_standard_name_round_trip, spec_parse_patch_name, spec_standard_text, PatchName, PatchNameView,
};
use crate::card::patch_type::PatchType;
use crate::error::{CardError, CardErrorView};
use crate::text::{owned_text, str_eq};

pub mod card_folder;
pub mod patch_name;
pub mod patch_type;

verus! {

/// The largest standard patch number there is.
pub const MAX_STANDARD_PATCH_NUMBER: u16 = 999;

/// The texts of a list of strings.
pub open spec fn texts(names: Seq<String>) -> Seq<Seq<char>> {
    names.map_values(|s: String| s@)
}

/// Whether a name is among the names.
pub open spec fn has_name(names: Seq<Seq<char>>, name: Seq<char>) -> bool {
    exists|i: int| 0 <= i < names.len() && names[i] == name
}

/// The first standard folder missing from the names of the entries of a directory.
pub open spec fn first_missing_folder(names: Seq<Seq<char>>) -> Option<CardFolder> {
    if !has_name(names, CardFolder::Kits.spec_directory_name()) {
        Some(CardFolder::Kits)
    } else if !has_name(names, CardFolder::Samples.spec_directory_name()) {
        Some(CardFolder::Samples)
    } else if !has_name(names, CardFolder::Synths.spec_directory_name()) {
        Some(CardFolder::Synths)
    } else {
        None
    }
}

/// The entries of a card's root pass the check exactly when each standard folder, `KITS`,
/// `SAMPLES` and `SYNTHS`, is among them; a folder named as missing is one of the
/// standard folders that is not among them, and every folder before it in that order is.
pub proof fn lemma_required_folders(names: Seq<Seq<char>>)
    ensures
        first_missing_folder(names) is None <==> forall|f: CardFolder| has_name(names, #[trigger] f.spec_directory_name()),
        first_missing_folder(names) matches Some(f) ==> !has_name(names, f.spec_directory_name()),
        first_missing_folder(names) == Some(CardFolder::Samples) ==> has_name(names, CardFolder::Kits.spec_directory_name()),
        first_missing_folder(names) == Some(CardFolder::Synths) ==> has_name(names, CardFolder::Kits.spec_directory_name())
            && has_name(names, CardFolder::Samples.spec_directory_name()),
{
    if forall|f: CardFolder| has_name(names, #[trigger] f.spec_directory_name()) {
        assert(has_name(names, CardFolder::Kits.spec_directory_name()));
        assert(has_name(names, CardFolder::Samples.spec_directory_name()));
        assert(has_name(names, CardFolder::Synths.spec_directory_name()));
    }
    if first_missing_folder(names) is None {
        assert forall|f: CardFolder| has_name(names, #[trigger] f.spec_directory_name()) by {
            match f {
                CardFolder::Kits => {},
                CardFolder::Samples => {},
                CardFolder::Synths => {},
            }
        }
    }
}

fn contains_name(names: &Vec<String>, name: &str) -> (r: bool)
    ensures
        r == has_name(texts(names@), name@),
{
    let mut i: usize = 0;
    while i < names.len()
        invariant
            i <= names.len(),
            forall|j: int| 0 <= j < i ==> names@[j]@ != name@,
        decreases names.len() - i,
    {
        if str_eq(names[i].as_str(), name) {
            assert(texts(names@)[i as int] == name@);
            return true;
        }
        i = i + 1;
    }
    assert forall|j: int| 0 <= j < texts(names@).len() implies texts(names@)[j] != name@ by {
        assert(texts(names@)[j] == names@[j]@);
    }
    false
}

/// Checks that the names of the entries of a directory hold the three standard folders;
/// the first one missing, in the order `KITS`, `SAMPLES`, `SYNTHS`, is reported.
pub fn check_required_directories(names: &Vec<String>) -> (r: Result<(), CardError>)
    ensures
        match first_missing_folder(texts(names@)) {
            Some(f) => r matches Err(e) && e@ == CardErrorView::MissingRootDirectory(f.spec_directory_name()),
            None => r is Ok,
        },
        r is Ok <==> forall|f: CardFolder| has_name(texts(names@), #[trigger] f.spec_directory_name()),
{
    proof {
        lemma_required_folders(texts(names@));
    }
    let folders = CardFolder::all();
    let mut i: usize = 0;
    while i < folders.len()
        invariant
            folders@ == seq![CardFolder::Kits, CardFolder::Samples, CardFolder::Synths],
            i <= 3,
            forall|j: int| 0 <= j < i ==> has_name(texts(names@), #[trigger] folders@[j].spec_directory_name()),
        decreases 3 - i,
    {
        let folder = folders[i];
        let name = folder.directory_name();
        if !contains_name(names, name) {
            return Err(CardError::MissingRootDirectory(owned_text(name)));
        }
        i = i + 1;
    }
    assert(has_name(texts(names@), folders@[0].spec_directory_name()));
    assert(has_name(texts(names@), folders@[1].spec_directory_name()));
    assert(has_name(texts(names@), folders@[2].spec_directory_name()));
    Ok(())
}

/// The number of a standard patch name.
pub open spec fn standard_number(name: Seq<char>) -> Option<u16> {
    match spec_parse_patch_name(name) {
        PatchNameView::Standard { number, .. } => Some(number),
        PatchNameView::Custom { .. } => None,
    }
}

/// The largest number of the standard names among file names.
pub open spec fn max_standard_number(names: Seq<Seq<char>>) -> Option<u16>
    decreases names.len(),
{
    if names.len() == 0 {
        None
    } else {
        let rest = max_standard_number(names.drop_last());
        match standard_number(names.last()) {
            None => rest,
            Some(n) => Some(
                match rest {
                    Some(m) => if m > n { m } else { n },
                    None => n,
                },
            ),
        }
    }
}

/// The next standard name of a patch type among the names of the files of its folder:
/// one past the largest standard number, or 0 when there is none; past 999 there is none.
pub open spec fn spec_next_standard_patch_name(patch_type: PatchType, names: Seq<Seq<char>>) -> Result<
    Seq<char>,
    CardErrorView,
> {
    match max_standard_number(names) {
        Some(m) => if m >= 999 {
            Err(CardErrorView::NoMoreStandardName)
        } else {
            Ok(spec_standard_text(patch_type, (m + 1) as u16, None))
        },
        None => Ok(spec_standard_text(patch_type, 0, None)),
    }
}

/// The largest standard number bounds the number of every standard name.
proof fn lemma_max_standard_number(names: Seq<Seq<char>>)
    ensures
        forall|i: int|
            0 <= i < names.len() ==> (standard_number(#[trigger] names[i]) matches Some(n) ==> (max_standard_number(
                names,
            ) matches Some(m) && n <= m)),
    decreases names.len(),
{
    if names.len() > 0 {
        let rest = names.drop_last();
        lemma_max_standard_number(rest);
        assert forall|i: int| 0 <= i < names.len() implies (standard_number(#[trigger] names[i]) matches Some(n) ==> (
        max_standard_number(names) matches Some(m) && n <= m)) by {
            if i < rest.len() {
                assert(names[i] == rest[i]);
            }
        }
    }
}

/// The next standard name of a patch type is none of the file names it was chosen among.
pub proof fn lemma_next_standard_name_is_new(patch_type: PatchType, names: Seq<Seq<char>>)
    requires
        spec_next_standard_patch_name(patch_type, names) is Ok,
    ensures
        forall|i: int|
            0 <= i < names.len() ==> #[trigger] names[i] != spec_next_standard_patch_name(patch_type, names)->Ok_0,
{
    lemma_max_standard_number(names);
    let t = spec_next_standard_patch_name(patch_type, names)->Ok_0;
    let n: u16 = match max_standard_number(names) {
        Some(m) => (m + 1) as u16,
        None => 0,
    };
    lemma_standard_name_round_trip(patch_type, n, None);
    assert(t == spec_standard_text(patch_type, n, None));
    assert(standard_number(t) == Some(n));
    assert forall|i: int| 0 <= i < names.len() implies #[trigger] names[i] != t by {
        if names[i] == t {
            assert(standard_number(names[i]) == Some(n));
        }
    }
}

/// Gets the next standard patch name, given the names of the files of the folder of the
/// patch type.
///
/// When the Deluge creates a patch it gives it a default name: the first kit is "KIT000",
/// the next one "KIT001". Variations of a patch add a letter, as in "KIT001A". Synth
/// patches use "SYNT" instead of "KIT". Every standard name counts, whatever its type.
pub fn next_standard_patch_name(patch_type: PatchType, file_names: &Vec<String>) -> (r: Result<String, CardError>)
    ensures
        match spec_next_standard_patch_name(patch_type, texts(file_names@)) {
            Ok(t) => r matches Ok(s) && s@ == t,
            Err(e) => r matches Err(f) && f@ == e,
        },
{
    let mut max_number: Option<u16> = None;
    let mut i: usize = 0;
    while i < file_names.len()
        invariant
            i <= file_names.len(),
            max_number == max_standard_number(texts(file_names@).subrange(0, i as int)),
        decreases file_names.len() - i,
    {
        let parsed = PatchName::parse(file_names[i].as_str());
        proof {
            assert(texts(file_names@).subrange(0, i + 1).drop_last() =~= texts(file_names@).subrange(0, i as int));
            assert(texts(file_names@).subrange(0, i + 1).last() == file_names@[i as int]@);
        }
        match parsed {
            PatchName::Standard { number, .. } => {
                max_number = Some(
                    match max_number {
                        Some(m) => if m > number { m } else { number },
                        None => number,
                    },
                );
            },
            PatchName::Custom { .. } => {},
        }
        i = i + 1;
    }
    assert(texts(file_names@).subrange(0, file_names.len() as int) =~= texts(file_names@));
    match max_number {
        Some(m) => {
            if m >= MAX_STANDARD_PATCH_NUMBER {
                return Err(CardError::NoMoreStandardName);
            }
            Ok(PatchName::standard_to_string(patch_type, m + 1, None))
        },
        None => Ok(PatchName::standard_to_string(patch_type, 0, None)),
    }
}

} // verus!
