//! The errors of the library and their mathematical views.
use vstd::prelude::*;
use crate::text::IntError;

verus! {

/// Why a patch could not be read or written.
#[derive(Clone, Debug, PartialEq, Eq)]
pub enum SerializationError {
    /// The text is not well-formed XML; the parser's message.
    XmlParsingFailed(String),
    /// The XML could not be written; the writer's message.
    XmlWritingFailed(String),
    /// An integer could not be read.
    ParseIntError(IntError),
    /// A text names no value of the expected enumeration.
    InvalidValue(String),
    /// Missing XML attribute: the parent's name, then the attribute's name.
    MissingAttribute(String, String),
    /// Missing XML element.
    MissingElement(String),
    /// Missing XML child: the parent's name, then the child's name.
    MissingChild(String, String),
    /// Unsupported sound source.
    UnsupportedSoundSource(String),
    /// Unsupported sound type.
    UnsupportedSoundType,
    /// Invalid version format.
    InvalidVersionFormat,
    /// Numeric overflow: the value, then the maximum.
    Overflow(String, String),
    /// Numeric underflow: the value, then the minimum.
    Underflow(String, String),
    /// Invalid hexadecimal u32: the text, then why.
    ParseHexdecimalU32Error(String, IntError),
    /// Invalid decimal i32: the text, then why.
    ParseI32Error(String, IntError),
    /// Unsupported modulation FX.
    UnsupportedModulationFx(String),
    /// Value not found in table.
    ValueNotFoundInTable(u32),
}

/// `SerializationError` with its texts seen as character sequences.
pub enum ErrorView {
    XmlParsingFailed(Seq<char>),
    XmlWritingFailed(Seq<char>),
    ParseIntError(IntError),
    InvalidValue(Seq<char>),
    MissingAttribute(Seq<char>, Seq<char>),
    MissingElement(Seq<char>),
    MissingChild(Seq<char>, Seq<char>),
    UnsupportedSoundSource(Seq<char>),
    UnsupportedSoundType,
    InvalidVersionFormat,
    Overflow(Seq<char>, Seq<char>),
    Underflow(Seq<char>, Seq<char>),
    ParseHexdecimalU32Error(Seq<char>, IntError),
    ParseI32Error(Seq<char>, IntError),
    UnsupportedModulationFx(Seq<char>),
    ValueNotFoundInTable(u32),
}

impl View for SerializationError {
    type V = ErrorView;

    open spec fn view(&self) -> ErrorView {
        match self {
            SerializationError::XmlParsingFailed(m) => ErrorView::XmlParsingFailed(m@),
            SerializationError::XmlWritingFailed(m) => ErrorView::XmlWritingFailed(m@),
            SerializationError::ParseIntError(k) => ErrorView::ParseIntError(*k),
            SerializationError::InvalidValue(t) => ErrorView::InvalidValue(t@),
            SerializationError::MissingAttribute(p, n) => ErrorView::MissingAttribute(p@, n@),
            SerializationError::MissingElement(n) => ErrorView::MissingElement(n@),
            SerializationError::MissingChild(p, n) => ErrorView::MissingChild(p@, n@),
            SerializationError::UnsupportedSoundSource(n) => ErrorView::UnsupportedSoundSource(n@),
            SerializationError::UnsupportedSoundType => ErrorView::UnsupportedSoundType,
            SerializationError::InvalidVersionFormat => ErrorView::InvalidVersionFormat,
            SerializationError::Overflow(v, m) => ErrorView::Overflow(v@, m@),
            SerializationError::Underflow(v, m) => ErrorView::Underflow(v@, m@),
            SerializationError::ParseHexdecimalU32Error(t, k) => ErrorView::ParseHexdecimalU32Error(t@, *k),
            SerializationError::ParseI32Error(t, k) => ErrorView::ParseI32Error(t@, *k),
            SerializationError::UnsupportedModulationFx(t) => ErrorView::UnsupportedModulationFx(t@),
            SerializationError::ValueNotFoundInTable(v) => ErrorView::ValueNotFoundInTable(*v),
        }
    }
}

/// A result whose error is seen through its view.
pub open spec fn result_view<T>(r: Result<T, SerializationError>) -> Result<T, ErrorView> {
    match r {
        Ok(v) => Ok(v),
        Err(e) => Err(e@),
    }
}

/// An error related to a Deluge card.
#[derive(Clone, Debug, PartialEq, Eq)]
pub enum CardError {
    /// A directory does not exist.
    DirectoryDoesNotExists(String),
    /// A directory already exists.
    DirectoryAlreadyExists(String),
    /// One of the root directories is missing.
    MissingRootDirectory(String),
    /// I/O error, kept as its message.
    IoError(String),
    /// The path designates a file not located on the card.
    FileNotInCard(String),
    /// The path is not relative.
    PathNotRelative(String),
    /// There is no more standard name available.
    NoMoreStandardName,
    /// There is no more postfix letter available.
    NoMorePostfixLetter,
}

/// `CardError` with its texts seen as character sequences.
pub enum CardErrorView {
    DirectoryDoesNotExists(Seq<char>),
    DirectoryAlreadyExists(Seq<char>),
    MissingRootDirectory(Seq<char>),
    IoError(Seq<char>),
    FileNotInCard(Seq<char>),
    PathNotRelative(Seq<char>),
    NoMoreStandardName,
    NoMorePostfixLetter,
}

impl View for CardError {
    type V = CardErrorView;

    open spec fn view(&self) -> CardErrorView {
        match self {
            CardError::DirectoryDoesNotExists(p) => CardErrorView::DirectoryDoesNotExists(p@),
            CardError::DirectoryAlreadyExists(p) => CardErrorView::DirectoryAlreadyExists(p@),
            CardError::MissingRootDirectory(n) => CardErrorView::MissingRootDirectory(n@),
            CardError::IoError(m) => CardErrorView::IoError(m@),
            CardError::FileNotInCard(p) => CardErrorView::FileNotInCard(p@),
            CardError::PathNotRelative(p) => CardErrorView::PathNotRelative(p@),
            CardError::NoMoreStandardName => CardErrorView::NoMoreStandardName,
            CardError::NoMorePostfixLetter => CardErrorView::NoMorePostfixLetter,
        }
    }
}

} // verus!
