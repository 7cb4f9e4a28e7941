//! The standard folders of a Deluge card.
use vstd::prelude::*;

verus! {

/// The standard folders in a Deluge card.
#[derive(Clone, Copy, Debug, PartialEq, Eq, Structural)]
pub enum CardFolder {
    /// The `KITS` folder.
    Kits,
    /// The `SAMPLES` folder.
    Samples,
    /// The `SYNTHS` folder.
    Synths,
}

impl CardFolder {
    /// The name of the folder.
    pub open spec fn spec_directory_name(self) -> Seq<char> {
        match self {
            CardFolder::Kits => "KITS"@,
            CardFolder::Samples => "SAMPLES"@,
            CardFolder::Synths => "SYNTHS"@,
        }
    }

    /// Gets the name of the directory.
    pub fn directory_name(&self) -> (r: &'static str)
        ensures
            r@ == self.spec_directory_name(),
    {
        match self {
            CardFolder::Kits => "KITS",
            CardFolder::Samples => "SAMPLES",
            CardFolder::Synths => "SYNTHS",
        }
    }

    /// Every folder, in the order in which a card is checked.
    pub fn all() -> (r: Vec<CardFolder>)
        ensures
            r@ == seq![CardFolder::Kits, CardFolder::Samples, CardFolder::Synths],
    {
        vec![CardFolder::Kits, CardFolder::Samples, CardFolder::Synths]
    }
}

} // verus!
