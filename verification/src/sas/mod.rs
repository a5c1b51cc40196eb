//! The binary layout decoder.

pub mod alignment;
pub mod compression;
pub mod constants;
pub mod data_row_iterator;
pub mod endianness;
pub mod errors;
pub mod header;
pub mod metadata;
pub mod numbers;
pub mod page;
pub mod page_binary;
pub mod page_iterator;
pub mod page_type;
pub mod subheader;
pub mod text;

pub use alignment::Alignment;
pub use compression::Compression;
pub use constants::SasConstants;
pub use data_row_iterator::SasDataRowIterator;
pub use endianness::Endianness;
pub use errors::{Error, FormatError};
pub use header::{
    Encoding, FileHeader, FileType, LayoutFlags, OsMaker, OsType, SasHeader, SasHeaderBinary,
    SasHeaderUnknowns,
};
pub use page::SasPage;
pub use page_binary::PageBinary;
pub use page_iterator::{PageStream, SasPageIterator};
pub use subheader::{SasSubheader, SubheaderParser};
pub use page_type::PageType;
