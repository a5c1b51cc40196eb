//! Decoder for the `sas7bdat` dataset container.
//!
//! A file is a header followed by pages of one size. Two flag bytes of the
//! header widen the integers of the file and shift the fields of the header,
//! and a third names the byte order, so no offset after the flags is fixed.
//! [`sas::LayoutFlags`] is derived once from the header and handed to every
//! decoder that needs it.
//!
//! - [`sas::FileHeader::decode`] decodes a header in one step, and
//!   [`sas::SasHeaderBinary`] reads it field by field.
//! - [`sas::PageBinary::decode`] cuts a page into prologue, pointer table and
//!   data region; [`sas::SasPage`] interprets it.
//! - [`sas::subheader::SasSubheader::parse_subheader_pointers`] walks a
//!   pointer table.
//! - [`sas::compression::decompress`] restores a row from its stored form.
//! - [`sas::SasPageIterator`] and [`sas::SasDataRowIterator`] hand out pages
//!   and rows one after the other; [`sas::PageStream`] does so for a caller
//!   that reads the pages itself.
//!
//! Every function states in its contract what it returns, over the
//! mathematical value of its arguments, and is proved with Verus to do so
//! without ever panicking. What the decoders have in common is stated as
//! lemmas beside them.

pub mod sas;
pub mod sas_reader;
pub mod util;
