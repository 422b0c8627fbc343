//! The failures that extraction can report.

use vstd::prelude::*;

verus! {

/// Every way in which reading a DICOM file can fail. The kinds are flat; each
/// carries the context a caller needs to act on it.
#[derive(Debug, Clone, PartialEq, Eq)]
pub enum DicomError {
    /// The four bytes after the 128-byte preamble are not `DICM`.
    InvalidMagicBytes,
    /// The data set uses a transfer syntax that cannot be decoded.
    UnsupportedTransferSyntax(String),
    /// A tag could not be interpreted.
    InvalidTag(String),
    /// A value representation code is not recognised.
    InvalidVR(String),
    /// A length field disagrees with the bytes that are there.
    InvalidLength { expected: usize, found: usize },
    /// The pixel data is damaged or incomplete.
    CorruptedPixelData,
    /// An element that the record needs is absent; the payload names its tag.
    MissingRequiredTag(String),
    /// The source ended early or could not be read; the payload is the cause.
    Io(String),
    /// The data set, or one of its values, could not be decoded.
    ParseError(String),
    /// The resolved record breaks a structural rule.
    ValidationError(String),
    /// A defect of the library itself.
    Internal(String),
}

/// A failure as a mathematical value: the same kinds, with each message as a
/// sequence of characters.
pub enum ErrorView {
    InvalidMagicBytes,
    UnsupportedTransferSyntax(Seq<char>),
    InvalidTag(Seq<char>),
    InvalidVR(Seq<char>),
    InvalidLength { expected: usize, found: usize },
    CorruptedPixelData,
    MissingRequiredTag(Seq<char>),
    Io(Seq<char>),
    ParseError(Seq<char>),
    ValidationError(Seq<char>),
    Internal(Seq<char>),
}

impl View for DicomError {
    type V = ErrorView;

    open spec fn view(&self) -> ErrorView {
        match *self {
            DicomError::InvalidMagicBytes => ErrorView::InvalidMagicBytes,
            DicomError::UnsupportedTransferSyntax(uid) => ErrorView::UnsupportedTransferSyntax(
                uid@,
            ),
            DicomError::InvalidTag(what) => ErrorView::InvalidTag(what@),
            DicomError::InvalidVR(what) => ErrorView::InvalidVR(what@),
            DicomError::InvalidLength { expected, found } => ErrorView::InvalidLength {
                expected,
                found,
            },
            DicomError::CorruptedPixelData => ErrorView::CorruptedPixelData,
            DicomError::MissingRequiredTag(tag) => ErrorView::MissingRequiredTag(tag@),
            DicomError::Io(cause) => ErrorView::Io(cause@),
            DicomError::ParseError(msg) => ErrorView::ParseError(msg@),
            DicomError::ValidationError(msg) => ErrorView::ValidationError(msg@),
            DicomError::Internal(msg) => ErrorView::Internal(msg@),
        }
    }
}

impl DicomError {
    /// A decoding failure with the given message.
    pub fn parse(msg: String) -> (err: Self)
        ensures
            err == DicomError::ParseError(msg),
    {
        DicomError::ParseError(msg)
    }

    /// A validation failure with the given message.
    pub fn validation(msg: String) -> (err: Self)
        ensures
            err == DicomError::ValidationError(msg),
    {
        DicomError::ValidationError(msg)
    }

    /// An internal failure with the given message.
    pub fn internal(msg: String) -> (err: Self)
        ensures
            err == DicomError::Internal(msg),
    {
        DicomError::Internal(msg)
    }
}

} // verus!
