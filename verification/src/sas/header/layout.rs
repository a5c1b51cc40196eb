//! The flags that decide the layout of a file.

use vstd::prelude::*;
use crate::sas::alignment::{alignment_value, Alignment, ALIGNMENT_MARKER};
use crate::sas::endianness::{endianness_for_code, Endianness};
use crate::sas::errors::{FormatError, FormatErrorView};
use crate::sas::header::encoding::{encoding_for_code, Encoding};

verus! {

/// Where the flag that widens offsets, lengths and counts stands in a header.
pub const WIDE_FLAG_OFFSET: usize = 32;

/// Where the flag that pads the header before its timestamps stands.
pub const PADDING_FLAG_OFFSET: usize = 35;

/// Where the endianness byte stands in a header.
pub const ENDIANNESS_OFFSET: usize = 37;

/// Where the OS-type byte stands in a header.
pub const OS_TYPE_OFFSET: usize = 39;

/// Where the encoding byte stands in a header.
pub const ENCODING_OFFSET: usize = 70;

/// What four bytes of the header say about the layout of everything that
/// follows them. It is derived once and handed to every later decoder.
#[derive(Debug, PartialEq, Eq, Structural, Clone, Copy)]
pub struct LayoutFlags {
    /// Offsets, lengths and counts take eight bytes when set, four otherwise.
    pub wide_offsets: bool,
    /// The bytes inserted before the timestamps: 0 or 4.
    pub header_padding: u8,
    /// The byte order of every multi-byte number.
    pub endianness: Endianness,
    /// The character encoding of the file's text.
    pub encoding: Encoding,
}

/// The flags that the bytes of a header stand for, or why they stand for none.
pub open spec fn derive_spec(bytes: Seq<u8>) -> Result<LayoutFlags, FormatErrorView> {
    if bytes.len() <= ENDIANNESS_OFFSET {
        Err(FormatErrorView::TruncatedHeader)
    } else {
        match endianness_for_code(bytes[ENDIANNESS_OFFSET as int]) {
            None => Err(FormatErrorView::UnknownEndianness(bytes[ENDIANNESS_OFFSET as int])),
            Some(endianness) => if bytes.len() <= ENCODING_OFFSET {
                Err(FormatErrorView::TruncatedHeader)
            } else {
                match encoding_for_code(bytes[ENCODING_OFFSET as int]) {
                    None => Err(FormatErrorView::UnknownEncoding(bytes[ENCODING_OFFSET as int])),
                    Some(encoding) => Ok(
                        LayoutFlags {
                            wide_offsets: bytes[WIDE_FLAG_OFFSET as int] == ALIGNMENT_MARKER,
                            header_padding: alignment_value(bytes[PADDING_FLAG_OFFSET as int]),
                            endianness,
                            encoding,
                        },
                    ),
                }
            },
        }
    }
}

impl LayoutFlags {
    /// The shift of the fields that follow the page count: 4 with wide
    /// offsets, 0 without.
    pub open spec fn wide_delta(self) -> int {
        if self.wide_offsets {
            4
        } else {
            0
        }
    }

    /// The width of one offset, length or count: 8 with wide offsets, 4 without.
    pub open spec fn field_width(self) -> int {
        if self.wide_offsets {
            8
        } else {
            4
        }
    }

    /// Derives the flags from the bytes of a header.
    ///
    /// Fewer than 38 bytes are a truncated header. Then the endianness byte
    /// is resolved, and a byte other than 0 and 1 is reported. A header that
    /// ends before its encoding byte is truncated too, and an encoding byte
    /// that the encoding table does not hold is reported.
    pub fn derive(header_bytes: &[u8]) -> (r: Result<LayoutFlags, FormatError>)
        ensures
            match r {
                Ok(flags) => derive_spec(header_bytes@) == Ok::<LayoutFlags, FormatErrorView>(
                    flags,
                ),
                Err(e) => derive_spec(header_bytes@) == Err::<LayoutFlags, FormatErrorView>(e@),
            },
            r is Ok ==> (r->Ok_0.wide_offsets <==> header_bytes@[WIDE_FLAG_OFFSET as int]
                == ALIGNMENT_MARKER),
            r is Ok ==> (r->Ok_0.header_padding == 0 || r->Ok_0.header_padding == 4),
            r is Ok ==> (r->Ok_0.header_padding == 4 <==> header_bytes@[PADDING_FLAG_OFFSET as int]
                == ALIGNMENT_MARKER),
    {
        if header_bytes.len() <= ENDIANNESS_OFFSET {
            return Err(FormatError::TruncatedHeader);
        }
        let endianness_byte = header_bytes[ENDIANNESS_OFFSET];
        let endianness = match Endianness::from_u8(endianness_byte) {
            Ok(endianness) => endianness,
            Err(_) => {
                return Err(FormatError::UnknownEndianness(endianness_byte));
            },
        };
        if header_bytes.len() <= ENCODING_OFFSET {
            return Err(FormatError::TruncatedHeader);
        }
        let encoding_byte = header_bytes[ENCODING_OFFSET];
        let encoding = match Encoding::from_u8(encoding_byte) {
            Ok(encoding) => encoding,
            Err(_) => {
                return Err(FormatError::UnknownEncoding(encoding_byte));
            },
        };
        let wide = Alignment::from_u8(header_bytes[WIDE_FLAG_OFFSET]);
        let padding = Alignment::from_u8(header_bytes[PADDING_FLAG_OFFSET]);
        Ok(
            LayoutFlags {
                wide_offsets: wide.value == 4,
                header_padding: padding.value,
                endianness,
                encoding,
            },
        )
    }
}

/// Every set of flags that a header yields follows its two flag bytes: offsets
/// are wide exactly when the byte at offset 32 is the marker, and the padding
/// is 0 or 4, and 4 exactly when the byte at offset 35 is the marker.
pub proof fn lemma_flags_follow_flag_bytes(bytes: Seq<u8>)
    requires
        derive_spec(bytes) is Ok,
    ensures
        derive_spec(bytes)->Ok_0.wide_offsets <==> bytes[WIDE_FLAG_OFFSET as int]
            == ALIGNMENT_MARKER,
        derive_spec(bytes)->Ok_0.header_padding == 0 || derive_spec(bytes)->Ok_0.header_padding
            == 4,
        derive_spec(bytes)->Ok_0.header_padding == 4 <==> bytes[PADDING_FLAG_OFFSET as int]
            == ALIGNMENT_MARKER,
{
}

} // verus!
