//! The two kinds of patch.
use vstd::prelude::*;
use crate::card::card_folder::CardFolder;
use crate::text::str_eq;

verus! {

/// The type of a patch.
#[derive(Copy, Clone, Debug, PartialEq, Eq, Structural)]
pub enum PatchType {
    /// Synth patch type.
    Synth,
    /// Kit patch type.
    Kit,
}

impl PatchType {
    /// The XML element that holds a patch of this type.
    pub open spec fn spec_key(self) -> Seq<char> {
        match self {
            PatchType::Kit => "kit"@,
            PatchType::Synth => "sound"@,
        }
    }

    /// The base of the standard names of this type.
    pub open spec fn spec_base_name(self) -> Seq<char> {
        match self {
            PatchType::Kit => seq!['K', 'I', 'T'],
            PatchType::Synth => seq!['S', 'Y', 'N', 'T'],
        }
    }

    /// The folder of this type.
    pub open spec fn spec_card_folder(self) -> CardFolder {
        match self {
            PatchType::Kit => CardFolder::Kits,
            PatchType::Synth => CardFolder::Synths,
        }
    }

    /// Gets the XML key specifying a patch type.
    pub fn get_key(self) -> (r: &'static str)
        ensures
            r@ == self.spec_key(),
    {
        match self {
            PatchType::Kit => "kit",
            PatchType::Synth => "sound",
        }
    }

    /// Gets the standard base name.
    pub fn get_standard_base_name(self) -> (r: &'static str)
        ensures
            r@ == self.spec_base_name(),
    {
        proof {
            reveal_strlit("KIT");
            reveal_strlit("SYNT");
            assert("KIT"@ =~= seq!['K', 'I', 'T']);
            assert("SYNT"@ =~= seq!['S', 'Y', 'N', 'T']);
        }
        match self {
            PatchType::Kit => "KIT",
            PatchType::Synth => "SYNT",
        }
    }

    /// Gets the patch folder.
    pub fn get_card_folder(self) -> (r: CardFolder)
        ensures
            r == self.spec_card_folder(),
    {
        match self {
            PatchType::Kit => CardFolder::Kits,
            PatchType::Synth => CardFolder::Synths,
        }
    }

    /// The type whose standard base name is the text.
    pub fn from_base_name(text: &str) -> (r: Option<PatchType>)
        ensures
            r == (if text@ == PatchType::Kit.spec_base_name() {
                Some(PatchType::Kit)
            } else if text@ == PatchType::Synth.spec_base_name() {
                Some(PatchType::Synth)
            } else {
                None
            }),
    {
        proof {
            reveal_strlit("KIT");
            reveal_strlit("SYNT");
            assert("KIT"@ =~= seq!['K', 'I', 'T']);
            assert("SYNT"@ =~= seq!['S', 'Y', 'N', 'T']);
        }
        if str_eq(text, "KIT") {
            Some(PatchType::Kit)
        } else if str_eq(text, "SYNT") {
            Some(PatchType::Synth)
        } else {
            None
        }
    }
}

impl std::str::FromStr for PatchType {
    type Err = ();

    fn from_str(input: &str) -> (r: Result<Self, Self::Err>)
        ensures
            r == (if input@ == PatchType::Kit.spec_base_name() {
                Ok(PatchType::Kit)
            } else if input@ == PatchType::Synth.spec_base_name() {
                Ok(PatchType::Synth)
            } else {
                Err(())
            }),
    {
        match PatchType::from_base_name(input) {
            Some(t) => Ok(t),
            None => Err(()),
        }
    }
}

} // verus!
