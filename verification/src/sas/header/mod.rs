//! The file header: its flag bytes, its fields and their decoders.

pub mod binary;
pub mod encoding;
pub mod file_header;
pub mod file_type;
pub mod layout;
pub mod os_maker;
pub mod os_type;
pub mod sas_header;
pub mod unknowns;

pub use binary::SasHeaderBinary;
pub use encoding::Encoding;
pub use file_header::FileHeader;
pub use file_type::FileType;
pub use layout::LayoutFlags;
pub use os_maker::OsMaker;
pub use os_type::OsType;
pub use sas_header::SasHeader;
pub use unknowns::SasHeaderUnknowns;
