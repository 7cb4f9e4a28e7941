//! Reading, writing and modelling Synthstrom Deluge patches.
pub mod text;
pub mod error;
pub mod values;
pub mod card;
pub mod serialization;
pub mod sound;
pub mod synth;
pub mod kit;
pub mod xml;
pub mod xml_tree;
pub mod samples;
