//! What can go wrong while decoding.

use vstd::prelude::*;

verus! {

/// The failure of decoding a compression code.
#[derive(Debug, PartialEq, Eq, Structural, Clone, Copy)]
pub enum Error {
    InvalidCompression(u8),
}

/// Everything that can go wrong while decoding a file. Each variant that is
/// caused by one offending value carries that value.
#[derive(Debug, PartialEq, Eq, Clone)]
pub enum FormatError {
    /// The first 32 bytes are not the magic number.
    BadMagic,
    /// The file marker field does not read `SAS FILE`.
    NotASasFile,
    /// The dataset name field is blank.
    EmptyDatasetName,
    /// The file kind field names neither a data file nor a catalog; holds the field's text.
    UnknownFileKind(String),
    /// The endianness byte is neither 0 nor 1; holds the byte.
    UnknownEndianness(u8),
    /// The encoding byte is not in the encoding table; holds the byte.
    UnknownEncoding(u8),
    /// The header ends before a field that must be read.
    TruncatedHeader,
    /// A page is shorter than the declared page size, or too short for its own tables.
    TruncatedPage,
    /// The data region ends in the middle of a row.
    TruncatedRow,
    /// A subheader pointer reaches past the end of the page's data region.
    SubheaderOutOfBounds,
    /// An uncompressed row does not have the dataset's row length.
    RowLengthMismatch,
    /// A compressed row expands past the dataset's row length.
    RleOverflow,
    /// A compressed row ends before it has filled the dataset's row length.
    RleUnderflow,
}

/// The mathematical value of a [`FormatError`]: the same variants, with text held as a
/// sequence of characters.
pub ghost enum FormatErrorView {
    BadMagic,
    NotASasFile,
    EmptyDatasetName,
    UnknownFileKind(Seq<char>),
    UnknownEndianness(u8),
    UnknownEncoding(u8),
    TruncatedHeader,
    TruncatedPage,
    TruncatedRow,
    SubheaderOutOfBounds,
    RowLengthMismatch,
    RleOverflow,
    RleUnderflow,
}

impl View for FormatError {
    type V = FormatErrorView;

    open spec fn view(&self) -> FormatErrorView {
        match self {
            FormatError::BadMagic => FormatErrorView::BadMagic,
            FormatError::NotASasFile => FormatErrorView::NotASasFile,
            FormatError::EmptyDatasetName => FormatErrorView::EmptyDatasetName,
            FormatError::UnknownFileKind(text) => FormatErrorView::UnknownFileKind(text@),
            FormatError::UnknownEndianness(byte) => FormatErrorView::UnknownEndianness(*byte),
            FormatError::UnknownEncoding(byte) => FormatErrorView::UnknownEncoding(*byte),
            FormatError::TruncatedHeader => FormatErrorView::TruncatedHeader,
            FormatError::TruncatedPage => FormatErrorView::TruncatedPage,
            FormatError::TruncatedRow => FormatErrorView::TruncatedRow,
            FormatError::SubheaderOutOfBounds => FormatErrorView::SubheaderOutOfBounds,
            FormatError::RowLengthMismatch => FormatErrorView::RowLengthMismatch,
            FormatError::RleOverflow => FormatErrorView::RleOverflow,
            FormatError::RleUnderflow => FormatErrorView::RleUnderflow,
        }
    }
}

} // verus!
