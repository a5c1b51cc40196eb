//! A header that is read part by part.

use vstd::prelude::*;
use vstd::slice::*;
use crate::sas::alignment::{alignment_value, Alignment};
use crate::sas::endianness::{endianness_for_code, Endianness};
use crate::sas::errors::FormatError;
use crate::sas::header::binary::{
    a1_of,
    a2_of,
    field_bytes,
    validation_fault,
    SasHeaderBinary,
    KIND_OFFSET,
    MAGIC_END,
    MARKER_OFFSET,
    NAME_OFFSET,
};
use crate::sas::header::encoding::{encoding_for_code, Encoding};
use crate::sas::header::layout::{
    ENCODING_OFFSET,
    ENDIANNESS_OFFSET,
    PADDING_FLAG_OFFSET,
    WIDE_FLAG_OFFSET,
};
use crate::sas::header::unknowns::{
    records_in,
    unknown_ranges,
    with_ranges,
    SasHeaderUnknowns,
};
use crate::sas::text::{is_text_of, strip_nul_and_blank};

verus! {

/// The bytes of a header and what has been read from them so far. Each
/// `read_` method reads one part and keeps it; a part that was not read yet
/// is absent.
#[derive(Debug, PartialEq, Eq, Clone)]
pub struct SasHeader {
    pub binary: SasHeaderBinary,
    pub magic_number: Option<[u8; 32]>,
    pub unknowns: Option<SasHeaderUnknowns>,
    /// The padding flag first, the widening flag second.
    pub alignment: Option<(Alignment, Alignment)>,
    pub endianness: Option<Endianness>,
    pub encoding: Option<Encoding>,
    pub sas_filename: Option<String>,
}

/// The two alignment flags that the bytes of a header declare: the padding
/// first, the widening second.
pub open spec fn alignment_of(bytes: Seq<u8>) -> (Alignment, Alignment) {
    (
        Alignment { value: alignment_value(bytes[PADDING_FLAG_OFFSET as int]) },
        Alignment { value: alignment_value(bytes[WIDE_FLAG_OFFSET as int]) },
    )
}

impl SasHeader {
    /// A header of which nothing has been read yet.
    pub fn new(bytes: &[u8]) -> (r: Self)
        ensures
            r.binary.bytes@ == bytes@,
            r.magic_number is None,
            r.unknowns is None,
            r.alignment is None,
            r.endianness is None,
            r.encoding is None,
            r.sas_filename is None,
    {
        SasHeader {
            binary: SasHeaderBinary::new(bytes),
            magic_number: None,
            unknowns: None,
            alignment: None,
            endianness: None,
            encoding: None,
            sas_filename: None,
        }
    }

    /// The bytes of the header.
    pub fn bytes(&self) -> (r: &[u8])
        ensures
            r@ == self.binary.bytes@,
    {
        self.binary.bytes.as_slice()
    }

    /// The first 32 bytes.
    pub fn get_magic_number_from_header(&self) -> (r: &[u8])
        requires
            self.binary.bytes@.len() >= MAGIC_END,
        ensures
            r@ == self.binary.bytes@.subrange(0, MAGIC_END as int),
    {
        self.binary.get_magic_number_from_header()
    }

    /// The eight bytes of the file marker.
    pub fn get_sas_file_string_from_header(&self) -> (r: &[u8])
        requires
            self.binary.bytes@.len() >= NAME_OFFSET,
        ensures
            r@ == self.binary.bytes@.subrange(MARKER_OFFSET as int, NAME_OFFSET as int),
    {
        self.binary.get_sas_file_string_from_header()
    }

    /// The file marker as text, without its NUL padding.
    pub fn get_sas_file_from_header_as_str(&self) -> (r: String)
        requires
            self.binary.bytes@.len() >= NAME_OFFSET,
        ensures
            is_text_of(r@, field_bytes(self.binary.bytes@, MARKER_OFFSET as int, 8)),
    {
        self.binary.get_sas_file_from_header_as_str()
    }

    /// The dataset name as text, without its NUL padding and then without the
    /// white space that ends it.
    pub fn get_sas_filename_from_header(&self) -> (r: String)
        requires
            self.binary.bytes@.len() >= KIND_OFFSET,
        ensures
            is_text_of(
                r@,
                strip_nul_and_blank(
                    self.binary.bytes@.subrange(NAME_OFFSET as int, KIND_OFFSET as int),
                ),
            ),
    {
        self.binary.get_sas_filename_from_header()
    }

    /// Checks the magic number, the file marker and the dataset name, in this
    /// order, and names the first that is wrong. Nothing after the magic
    /// number is read where the magic number is wrong.
    pub fn validate_sas_file(&self) -> (r: Result<(), String>)
        ensures
            match validation_fault(self.binary.bytes@) {
                None => r is Ok,
                Some(message) => r is Err && r->Err_0@ == message,
            },
    {
        self.binary.validate_sas_file()
    }

    /// Reads the magic number.
    pub fn read_magic_number(&mut self)
        requires
            old(self).binary.bytes@.len() >= MAGIC_END,
        ensures
            final(self).magic_number is Some,
            final(self).magic_number->Some_0@ == old(self).binary.bytes@.subrange(
                0,
                MAGIC_END as int,
            ),
            *final(self) == (SasHeader { magic_number: final(self).magic_number, ..*old(self) }),
    {
        let magic_number = self.binary.get_magic_number_from_header();
        let mut copy = [0u8; 32];
        let mut i: usize = 0;
        while i < 32
            invariant
                i <= 32,
                magic_number@.len() == 32,
                forall|j: int| 0 <= j < i ==> copy@[j] == magic_number@[j],
            decreases 32 - i,
        {
            copy[i] = magic_number[i];
            i += 1;
        }
        assert(copy@ =~= magic_number@);
        self.magic_number = Some(copy);
    }

    /// Reads the two alignment flags.
    pub fn read_alignment(&mut self)
        requires
            old(self).binary.bytes@.len() > PADDING_FLAG_OFFSET,
        ensures
            *final(self) == (SasHeader {
                alignment: Some(alignment_of(old(self).binary.bytes@)),
                ..*old(self)
            }),
    {
        let alignment1: Alignment = Alignment { value: self.binary.get_alignment_from_header2() };
        let alignment2: Alignment = Alignment { value: self.binary.get_alignment_from_header1() };
        self.alignment = Some((alignment1, alignment2));
    }

    /// Whether offsets, lengths and counts take eight bytes. The alignment
    /// flags are read first where they were not read yet.
    pub fn is_u64_file_format(&mut self) -> (r: bool)
        requires
            old(self).alignment is None ==> old(self).binary.bytes@.len() > PADDING_FLAG_OFFSET,
        ensures
            final(self).alignment is Some,
            r == (final(self).alignment->Some_0.1.value == 4),
            old(self).alignment is Some ==> *final(self) == *old(self),
            old(self).alignment is None ==> *final(self) == (SasHeader {
                alignment: Some(alignment_of(old(self).binary.bytes@)),
                ..*old(self)
            }),
    {
        if self.alignment.is_none() {
            self.read_alignment();
        }
        let alignment = self.alignment.unwrap();
        alignment.1.value == 4
    }

    /// The number of bytes inserted before the timestamps. The alignment
    /// flags are read first where they were not read yet.
    pub fn byte_controling_offset_before_timestamps(&mut self) -> (r: u8)
        requires
            old(self).alignment is None ==> old(self).binary.bytes@.len() > PADDING_FLAG_OFFSET,
        ensures
            final(self).alignment is Some,
            r == final(self).alignment->Some_0.0.value,
            old(self).alignment is Some ==> *final(self) == *old(self),
            old(self).alignment is None ==> *final(self) == (SasHeader {
                alignment: Some(alignment_of(old(self).binary.bytes@)),
                ..*old(self)
            }),
    {
        if self.alignment.is_none() {
            self.read_alignment();
        }
        let alignment = self.alignment.unwrap();
        alignment.0.value
    }

    /// Reads the byte order. A header that ends before its endianness byte,
    /// or whose endianness byte names no byte order, is reported and
    /// nothing is kept.
    pub fn read_endianness(&mut self) -> (r: Result<(), FormatError>)
        ensures
            old(self).binary.bytes@.len() <= ENDIANNESS_OFFSET ==> r == Err::<(), FormatError>(
                FormatError::TruncatedHeader,
            ) && *final(self) == *old(self),
            old(self).binary.bytes@.len() > ENDIANNESS_OFFSET ==> match endianness_for_code(
                old(self).binary.bytes@[ENDIANNESS_OFFSET as int],
            ) {
                Some(endianness) => r is Ok && *final(self) == (SasHeader {
                    endianness: Some(endianness),
                    ..*old(self)
                }),
                None => r == Err::<(), FormatError>(
                    FormatError::UnknownEndianness(
                        old(self).binary.bytes@[ENDIANNESS_OFFSET as int],
                    ),
                ) && *final(self) == *old(self),
            },
    {
        if self.binary.bytes.len() <= ENDIANNESS_OFFSET {
            return Err(FormatError::TruncatedHeader);
        }
        let endianness = self.binary.get_endianness_from_header();
        match endianness {
            Ok(endianness) => {
                self.endianness = Some(endianness);
                Ok(())
            },
            Err(_) => Err(FormatError::UnknownEndianness(self.binary.bytes[ENDIANNESS_OFFSET])),
        }
    }

    /// Records every byte of the header whose meaning is not known.
    pub fn read_unknowns(&mut self)
        requires
            old(self).binary.bytes@.len() >= 328 + a1_of(old(self).binary.bytes@) + a2_of(
                old(self).binary.bytes@,
            ),
        ensures
            final(self).unknowns is Some,
            final(self).unknowns->Some_0.bytes@ == old(self).binary.bytes@,
            final(self).unknowns->Some_0.unknowns is Some,
            records_in(final(self).unknowns->Some_0.unknowns) == with_ranges(
                Map::empty(),
                old(self).binary.bytes@,
                unknown_ranges(old(self).binary.bytes@),
                10,
            ),
            *final(self) == (SasHeader { unknowns: final(self).unknowns, ..*old(self) }),
    {
        let mut header_unknowns = SasHeaderUnknowns::new(self.bytes());
        header_unknowns.read();
        self.unknowns = Some(header_unknowns);
    }

    /// Reads the character encoding. A header that ends before its encoding
    /// byte, or whose encoding byte is not in the encoding table, is reported
    /// and nothing is kept.
    pub fn read_character_encoding(&mut self) -> (r: Result<(), FormatError>)
        ensures
            old(self).binary.bytes@.len() <= ENCODING_OFFSET ==> r == Err::<(), FormatError>(
                FormatError::TruncatedHeader,
            ) && *final(self) == *old(self),
            old(self).binary.bytes@.len() > ENCODING_OFFSET ==> match encoding_for_code(
                old(self).binary.bytes@[ENCODING_OFFSET as int],
            ) {
                Some(encoding) => r is Ok && *final(self) == (SasHeader {
                    encoding: Some(encoding),
                    ..*old(self)
                }),
                None => r == Err::<(), FormatError>(
                    FormatError::UnknownEncoding(old(self).binary.bytes@[ENCODING_OFFSET as int]),
                ) && *final(self) == *old(self),
            },
    {
        if self.binary.bytes.len() <= ENCODING_OFFSET {
            return Err(FormatError::TruncatedHeader);
        }
        let encoding = self.binary.get_character_encoding_from_header();
        match encoding {
            Ok(encoding) => {
                self.encoding = Some(encoding);
                Ok(())
            },
            Err(_) => Err(FormatError::UnknownEncoding(self.binary.bytes[ENCODING_OFFSET])),
        }
    }
}

} // verus!
