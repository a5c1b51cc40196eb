//! The bytes of a header, field by field.

use vstd::prelude::*;
use vstd::slice::*;
use vstd::string::*;
use crate::sas::alignment::{alignment_value, Alignment};
use crate::sas::constants::{magic_number, SasConstants};
use crate::sas::endianness::{endianness_for_code, unknown_endianness_message, Endianness};
use crate::sas::errors::{FormatError, FormatErrorView};
use crate::sas::header::encoding::{encoding_for_code, Encoding};
use crate::sas::header::file_type::{file_type_for_text, unknown_file_type_message, FileType};
use crate::sas::header::layout::{
    ENCODING_OFFSET,
    ENDIANNESS_OFFSET,
    OS_TYPE_OFFSET,
    PADDING_FLAG_OFFSET,
    WIDE_FLAG_OFFSET,
};
use crate::sas::header::os_maker::{os_maker_for_text, OsMaker};
use crate::sas::header::os_type::{os_type_for_char, unknown_os_type_message, OsType};
use crate::sas::numbers::{lemma_uint_value_fits, read_uint, uint_at};
use crate::sas::text::{
    bytes_eq,
    decode_text,
    is_text_of,
    strip_nul,
    strip_nul_and_blank,
    strip_trailing_blank,
    strip_trailing_nul,
    utf8_lossy,
};

verus! {

/// Where the magic number ends.
pub const MAGIC_END: usize = 32;

/// Where the copy of the eight bytes from offset 32 begins.
pub const FLAGS_COPY_OFFSET: usize = 56;

/// Where the file marker begins; it ends where the dataset name begins.
pub const MARKER_OFFSET: usize = 84;

/// Where the dataset name begins; it ends where the file kind begins.
pub const NAME_OFFSET: usize = 92;

/// Where the file kind begins.
pub const KIND_OFFSET: usize = 156;

/// Where the file kind ends, and the part of the header that the padding
/// flag shifts begins.
pub const KIND_END: usize = 164;

/// Where the creation timestamp begins in a header without padding.
pub const CREATED_BASE: usize = 164;

/// Where the modification timestamp begins in a header without padding.
pub const MODIFIED_BASE: usize = 172;

/// Where the header length begins in a header without padding.
pub const HEADER_LENGTH_BASE: usize = 196;

/// Where the page size begins in a header without padding.
pub const PAGE_SIZE_BASE: usize = 200;

/// Where the page count begins in a header without padding.
pub const PAGE_COUNT_BASE: usize = 204;

/// Where the release text begins in a narrow header without padding.
pub const RELEASE_BASE: usize = 216;

/// Where the host text begins in a narrow header without padding.
pub const HOST_BASE: usize = 224;

/// Where the OS version text begins in a narrow header without padding.
pub const OS_VERSION_BASE: usize = 240;

/// Where the OS maker text begins in a narrow header without padding.
pub const OS_MAKER_BASE: usize = 256;

/// The bytes of the file marker, `SAS FILE`.
pub open spec fn file_marker() -> Seq<u8> {
    seq![0x53u8, 0x41u8, 0x53u8, 0x20u8, 0x46u8, 0x49u8, 0x4cu8, 0x45u8]
}

/// The padding that the header's bytes declare: 4 where the byte at offset
/// 35 is the marker, else 0.
pub open spec fn a1_of(bytes: Seq<u8>) -> int {
    alignment_value(bytes[PADDING_FLAG_OFFSET as int]) as int
}

/// The widening that the header's bytes declare: 4 where the byte at offset
/// 32 is the marker, else 0.
pub open spec fn a2_of(bytes: Seq<u8>) -> int {
    alignment_value(bytes[WIDE_FLAG_OFFSET as int]) as int
}

/// The bytes of the field of `width` bytes at `start`, without its NUL padding.
pub open spec fn field_bytes(bytes: Seq<u8>, start: int, width: int) -> Seq<u8> {
    strip_nul(bytes.subrange(start, start + width))
}

/// The text of the field of `width` bytes at `start`, without its NUL padding.
pub open spec fn field_text(bytes: Seq<u8>, start: int, width: int) -> Seq<char> {
    utf8_lossy(field_bytes(bytes, start, width))
}

/// The number that the header stores in the field of `width` bytes whose
/// place in a header without padding is `base`, or why it cannot be read:
/// the header ends at or before its endianness byte, the endianness byte
/// names no byte order, or the header ends before the end of the field.
pub open spec fn numeric_field(bytes: Seq<u8>, base: int, width: int) -> Result<
    nat,
    FormatErrorView,
> {
    if bytes.len() <= ENDIANNESS_OFFSET {
        Err(FormatErrorView::TruncatedHeader)
    } else {
        match endianness_for_code(bytes[ENDIANNESS_OFFSET as int]) {
            None => Err(FormatErrorView::UnknownEndianness(bytes[ENDIANNESS_OFFSET as int])),
            Some(endianness) => if bytes.len() < base + a1_of(bytes) + width {
                Err(FormatErrorView::TruncatedHeader)
            } else {
                Ok(uint_at(endianness, bytes, base + a1_of(bytes), width))
            },
        }
    }
}

/// Why a header is not that of a valid file, if it is not: the first of a
/// wrong magic number, a wrong file marker and a blank dataset name. A header
/// that ends before one of the three fails the check of that one.
pub open spec fn validation_fault(bytes: Seq<u8>) -> Option<Seq<char>> {
    if bytes.len() < MAGIC_END || bytes.subrange(0, MAGIC_END as int) != magic_number() {
        Some("Invalid magic number"@)
    } else if bytes.len() < NAME_OFFSET || strip_nul(
        bytes.subrange(MARKER_OFFSET as int, NAME_OFFSET as int),
    ) != file_marker() {
        Some("Invalid SAS file"@)
    } else if bytes.len() < KIND_OFFSET || strip_nul_and_blank(
        bytes.subrange(NAME_OFFSET as int, KIND_OFFSET as int),
    ).len() == 0 {
        Some("Invalid SAS filename"@)
    } else {
        None
    }
}

/// A wrong magic number is the fault of a header whatever follows it, and
/// however short the header is.
pub proof fn lemma_wrong_magic_is_the_fault(bytes: Seq<u8>)
    requires
        bytes.len() < MAGIC_END || bytes.subrange(0, MAGIC_END as int) != magic_number(),
    ensures
        validation_fault(bytes) == Some("Invalid magic number"@),
{
}

/// The bytes of a header, with one reader for each of its fields.
///
/// The readers that return a plain value ask for a header that is long
/// enough for the field they read. The readers of numbers return an error
/// for a header that is not.
#[derive(Debug, PartialEq, Eq, Clone)]
pub struct SasHeaderBinary {
    pub bytes: Vec<u8>,
}

impl SasHeaderBinary {
    pub fn new(bytes: &[u8]) -> (r: Self)
        ensures
            r.bytes@ == bytes@,
    {
        SasHeaderBinary { bytes: slice_to_vec(bytes) }
    }

    /// The first 32 bytes.
    pub fn get_magic_number_from_header(&self) -> (r: &[u8])
        requires
            self.bytes@.len() >= MAGIC_END,
        ensures
            r@ == self.bytes@.subrange(0, MAGIC_END as int),
    {
        slice_subrange(self.bytes.as_slice(), 0, MAGIC_END)
    }

    /// The flag at offset 32, resolved: 4 for the marker byte, else 0.
    pub fn get_alignment_from_header1(&self) -> (r: u8)
        requires
            self.bytes@.len() > WIDE_FLAG_OFFSET,
        ensures
            r == a2_of(self.bytes@),
            r == 0 || r == 4,
    {
        Alignment::from_u8(self.bytes[WIDE_FLAG_OFFSET]).value
    }

    /// The flag at offset 35, resolved: 4 for the marker byte, else 0.
    pub fn get_alignment_from_header2(&self) -> (r: u8)
        requires
            self.bytes@.len() > PADDING_FLAG_OFFSET,
        ensures
            r == a1_of(self.bytes@),
            r == 0 || r == 4,
    {
        Alignment::from_u8(self.bytes[PADDING_FLAG_OFFSET]).value
    }

    /// The padding before the timestamps: the flag at offset 35.
    pub fn get_a1(&self) -> (r: u8)
        requires
            self.bytes@.len() > PADDING_FLAG_OFFSET,
        ensures
            r == a1_of(self.bytes@),
            r == 0 || r == 4,
    {
        self.get_alignment_from_header2()
    }

    /// The widening of offsets, lengths and counts: the flag at offset 32.
    pub fn get_a2(&self) -> (r: u8)
        requires
            self.bytes@.len() > WIDE_FLAG_OFFSET,
        ensures
            r == a2_of(self.bytes@),
            r == 0 || r == 4,
    {
        self.get_alignment_from_header1()
    }

    /// The byte order that the byte at offset 37 names.
    pub fn get_endianness_from_header(&self) -> (r: Result<Endianness, String>)
        requires
            self.bytes@.len() > ENDIANNESS_OFFSET,
        ensures
            match endianness_for_code(self.bytes@[ENDIANNESS_OFFSET as int]) {
                Some(e) => r == Ok::<Endianness, String>(e),
                None => r is Err && r->Err_0@ == unknown_endianness_message(
                    self.bytes@[ENDIANNESS_OFFSET as int],
                ),
            },
    {
        Endianness::from_u8(self.bytes[ENDIANNESS_OFFSET])
    }

    /// The OS family that the byte at offset 39 names.
    pub fn get_os_type_from_header(&self) -> (r: Result<OsType, String>)
        requires
            self.bytes@.len() > OS_TYPE_OFFSET,
        ensures
            match os_type_for_char(self.bytes@[OS_TYPE_OFFSET as int] as char) {
                Some(os) => r == Ok::<OsType, String>(os),
                None => r is Err && r->Err_0@ == unknown_os_type_message(
                    self.bytes@[OS_TYPE_OFFSET as int] as char,
                ),
            },
    {
        OsType::from_u8(self.bytes[OS_TYPE_OFFSET])
    }

    /// The encoding that the byte at offset 70 names.
    pub fn get_character_encoding_from_header(&self) -> (r: Result<Encoding, String>)
        requires
            self.bytes@.len() > ENCODING_OFFSET,
        ensures
            match encoding_for_code(self.bytes@[ENCODING_OFFSET as int]) {
                Some(e) => r == Ok::<Encoding, String>(e),
                None => r is Err && r->Err_0@ == "Invalid encoding code"@,
            },
    {
        let encoding_byte = self.bytes[ENCODING_OFFSET];
        Encoding::from_u8(encoding_byte)
    }

    /// The eight bytes of the file marker.
    pub fn get_sas_file_string_from_header(&self) -> (r: &[u8])
        requires
            self.bytes@.len() >= NAME_OFFSET,
        ensures
            r@ == self.bytes@.subrange(MARKER_OFFSET as int, NAME_OFFSET as int),
    {
        slice_subrange(self.bytes.as_slice(), MARKER_OFFSET, NAME_OFFSET)
    }

    /// The file marker as text, without its NUL padding.
    pub fn get_sas_file_from_header_as_str(&self) -> (r: String)
        requires
            self.bytes@.len() >= NAME_OFFSET,
        ensures
            is_text_of(r@, field_bytes(self.bytes@, MARKER_OFFSET as int, 8)),
    {
        decode_text(strip_trailing_nul(self.get_sas_file_string_from_header()))
    }

    /// The dataset name as text, without its NUL padding and then without the
    /// white space that ends it.
    pub fn get_sas_filename_from_header(&self) -> (r: String)
        requires
            self.bytes@.len() >= KIND_OFFSET,
        ensures
            is_text_of(
                r@,
                strip_nul_and_blank(self.bytes@.subrange(NAME_OFFSET as int, KIND_OFFSET as int)),
            ),
    {
        let field = slice_subrange(self.bytes.as_slice(), NAME_OFFSET, KIND_OFFSET);
        decode_text(strip_trailing_blank(strip_trailing_nul(field)))
    }

    /// Whether the eight bytes at offset 56 repeat the eight bytes at offset 32.
    pub fn is_56_to_64_valid(&self) -> (r: bool)
        requires
            self.bytes@.len() >= FLAGS_COPY_OFFSET + 8,
        ensures
            r == (self.bytes@.subrange(WIDE_FLAG_OFFSET as int, WIDE_FLAG_OFFSET + 8)
                == self.bytes@.subrange(FLAGS_COPY_OFFSET as int, FLAGS_COPY_OFFSET + 8)),
    {
        let positions_32_to_40 = slice_subrange(
            self.bytes.as_slice(),
            WIDE_FLAG_OFFSET,
            WIDE_FLAG_OFFSET + 8,
        );
        let positions_56_to_64 = slice_subrange(
            self.bytes.as_slice(),
            FLAGS_COPY_OFFSET,
            FLAGS_COPY_OFFSET + 8,
        );
        bytes_eq(positions_32_to_40, positions_56_to_64)
    }

    /// Checks the magic number, the file marker and the dataset name, in this
    /// order, and names the first that is wrong. Nothing after the magic
    /// number is read where the magic number is wrong.
    pub fn validate_sas_file(&self) -> (r: Result<(), String>)
        ensures
            match validation_fault(self.bytes@) {
                None => r is Ok,
                Some(message) => r is Err && r->Err_0@ == message,
            },
    {
        let bytes = self.bytes.as_slice();
        let constants = SasConstants::new();
        if bytes.len() < MAGIC_END || !bytes_eq(
            slice_subrange(bytes, 0, MAGIC_END),
            constants.magic_number.as_slice(),
        ) {
            return Err("Invalid magic number".to_string());
        }
        let marker: [u8; 8] = [0x53, 0x41, 0x53, 0x20, 0x46, 0x49, 0x4c, 0x45];
        assert(marker@ =~= file_marker());
        if bytes.len() < NAME_OFFSET || !bytes_eq(
            strip_trailing_nul(slice_subrange(bytes, MARKER_OFFSET, NAME_OFFSET)),
            marker.as_slice(),
        ) {
            return Err("Invalid SAS file".to_string());
        }
        if bytes.len() < KIND_OFFSET || strip_trailing_blank(
            strip_trailing_nul(slice_subrange(bytes, NAME_OFFSET, KIND_OFFSET)),
        ).len() == 0 {
            return Err("Invalid SAS filename".to_string());
        }
        Ok(())
    }

    /// The file kind as text, without its NUL padding; a field that is all
    /// padding is an error.
    pub fn get_raw_ascii_file_type_from_header(&self) -> (r: Result<String, String>)
        requires
            self.bytes@.len() >= KIND_END,
        ensures
            strip_nul(self.bytes@.subrange(KIND_OFFSET as int, KIND_END as int)).len() == 0 ==> r
                is Err && r->Err_0@ == "Invalid ASCII file type"@,
            strip_nul(self.bytes@.subrange(KIND_OFFSET as int, KIND_END as int)).len() != 0 ==> r
                is Ok && is_text_of(r->Ok_0@, field_bytes(self.bytes@, KIND_OFFSET as int, 8)),
    {
        let positions_156_to_164 = slice_subrange(self.bytes.as_slice(), KIND_OFFSET, KIND_END);
        let stripped = strip_trailing_nul(positions_156_to_164);
        if stripped.len() == 0 {
            return Err("Invalid ASCII file type".to_string());
        }
        Ok(decode_text(stripped))
    }

    /// The file kind: the text of the field, read by [`FileType::from_str`].
    pub fn get_ascii_file_type_from_header(&self) -> (r: Result<FileType, String>)
        requires
            self.bytes@.len() >= KIND_END,
        ensures
            strip_nul(self.bytes@.subrange(KIND_OFFSET as int, KIND_END as int)).len() == 0 ==> r
                is Err && r->Err_0@ == "Invalid ASCII file type"@,
            strip_nul(self.bytes@.subrange(KIND_OFFSET as int, KIND_END as int)).len() != 0
                ==> match file_type_for_text(field_text(self.bytes@, KIND_OFFSET as int, 8)) {
                Some(kind) => r == Ok::<FileType, String>(kind),
                None => r is Err && r->Err_0@ == unknown_file_type_message(
                    field_text(self.bytes@, KIND_OFFSET as int, 8),
                ),
            },
            field_bytes(self.bytes@, KIND_OFFSET as int, 8).len() != 0 ==> is_text_of(
                field_text(self.bytes@, KIND_OFFSET as int, 8),
                field_bytes(self.bytes@, KIND_OFFSET as int, 8),
            ),
    {
        let raw_file_type = match self.get_raw_ascii_file_type_from_header() {
            Ok(raw_file_type) => raw_file_type,
            Err(e) => {
                return Err(e);
            },
        };
        FileType::from_str(raw_file_type.as_str())
    }

    /// Where the creation timestamp begins.
    pub fn get_creation_ts_offset(&self) -> (r: usize)
        requires
            self.bytes@.len() > PADDING_FLAG_OFFSET,
        ensures
            r == CREATED_BASE + a1_of(self.bytes@),
    {
        CREATED_BASE + self.get_a1() as usize
    }

    /// The eight bytes of the creation timestamp as one number in the
    /// header's byte order: the bits of a floating-point count of seconds
    /// since the first instant of 1960.
    pub fn get_creation_timestamp_bits_from_header(&self) -> (r: Result<u64, FormatError>)
        ensures
            match r {
                Ok(bits) => numeric_field(self.bytes@, CREATED_BASE as int, 8) == Ok::<
                    nat,
                    FormatErrorView,
                >(bits as nat),
                Err(e) => numeric_field(self.bytes@, CREATED_BASE as int, 8) == Err::<
                    nat,
                    FormatErrorView,
                >(e@),
            },
    {
        self.read_number(CREATED_BASE, false, true)
    }

    /// Where the modification timestamp begins.
    pub fn get_modification_ts_offset(&self) -> (r: usize)
        requires
            self.bytes@.len() > PADDING_FLAG_OFFSET,
        ensures
            r == MODIFIED_BASE + a1_of(self.bytes@),
    {
        MODIFIED_BASE + self.get_a1() as usize
    }

    /// The eight bytes of the modification timestamp as one number in the
    /// header's byte order.
    pub fn get_modification_timestamp_bits_from_header(&self) -> (r: Result<u64, FormatError>)
        ensures
            match r {
                Ok(bits) => numeric_field(self.bytes@, MODIFIED_BASE as int, 8) == Ok::<
                    nat,
                    FormatErrorView,
                >(bits as nat),
                Err(e) => numeric_field(self.bytes@, MODIFIED_BASE as int, 8) == Err::<
                    nat,
                    FormatErrorView,
                >(e@),
            },
    {
        self.read_number(MODIFIED_BASE, false, true)
    }

    /// Where the header length begins.
    pub fn get_header_len_offset(&self) -> (r: usize)
        requires
            self.bytes@.len() > PADDING_FLAG_OFFSET,
        ensures
            r == HEADER_LENGTH_BASE + a1_of(self.bytes@),
    {
        HEADER_LENGTH_BASE + self.get_a1() as usize
    }

    /// The length of the header: the four-byte number at offset 196, shifted
    /// by the padding, in the header's byte order.
    pub fn get_header_length_from_header(&self) -> (r: Result<usize, FormatError>)
        ensures
            match r {
                Ok(length) => numeric_field(self.bytes@, HEADER_LENGTH_BASE as int, 4) == Ok::<
                    nat,
                    FormatErrorView,
                >(length as nat),
                Err(e) => numeric_field(self.bytes@, HEADER_LENGTH_BASE as int, 4) == Err::<
                    nat,
                    FormatErrorView,
                >(e@),
            },
    {
        match self.read_number(HEADER_LENGTH_BASE, false, false) {
            Ok(length) => {
                proof {
                    let start = HEADER_LENGTH_BASE + a1_of(self.bytes@);
                    lemma_uint_value_fits(
                        endianness_for_code(self.bytes@[ENDIANNESS_OFFSET as int])->Some_0,
                        self.bytes@.subrange(start, start + 4),
                    );
                }
                Ok(length as usize)
            },
            Err(e) => Err(e),
        }
    }

    /// Where the page size begins.
    pub fn get_page_size_len_offset(&self) -> (r: usize)
        requires
            self.bytes@.len() > PADDING_FLAG_OFFSET,
        ensures
            r == PAGE_SIZE_BASE + a1_of(self.bytes@),
    {
        PAGE_SIZE_BASE + self.get_a1() as usize
    }

    /// Where the page size begins and where it ends.
    pub fn get_page_size_len_slice_range(&self) -> (r: std::ops::Range<usize>)
        requires
            self.bytes@.len() > PADDING_FLAG_OFFSET,
        ensures
            r.start == PAGE_SIZE_BASE + a1_of(self.bytes@),
            r.end == r.start + 4,
    {
        let page_size_offset = self.get_page_size_len_offset();
        let page_size_max_offset = page_size_offset + 4;
        page_size_offset..page_size_max_offset
    }

    /// The size of every page: the four-byte number at offset 200, shifted by
    /// the padding, in the header's byte order.
    pub fn get_page_size_from_header(&self) -> (r: Result<usize, FormatError>)
        ensures
            match r {
                Ok(size) => numeric_field(self.bytes@, PAGE_SIZE_BASE as int, 4) == Ok::<
                    nat,
                    FormatErrorView,
                >(size as nat),
                Err(e) => numeric_field(self.bytes@, PAGE_SIZE_BASE as int, 4) == Err::<
                    nat,
                    FormatErrorView,
                >(e@),
            },
    {
        match self.read_number(PAGE_SIZE_BASE, false, false) {
            Ok(size) => {
                proof {
                    let start = PAGE_SIZE_BASE + a1_of(self.bytes@);
                    lemma_uint_value_fits(
                        endianness_for_code(self.bytes@[ENDIANNESS_OFFSET as int])->Some_0,
                        self.bytes@.subrange(start, start + 4),
                    );
                }
                Ok(size as usize)
            },
            Err(e) => Err(e),
        }
    }

    /// Where the page count begins.
    pub fn get_page_count_len_min_offset(&self) -> (r: usize)
        requires
            self.bytes@.len() > PADDING_FLAG_OFFSET,
        ensures
            r == PAGE_COUNT_BASE + a1_of(self.bytes@),
    {
        PAGE_COUNT_BASE + self.get_a1() as usize
    }

    /// The width of the page count: 8 bytes with wide offsets, 4 without.
    pub fn get_page_count_len(&self) -> (r: usize)
        requires
            self.bytes@.len() > WIDE_FLAG_OFFSET,
        ensures
            r == 4 + a2_of(self.bytes@),
            r == 4 || r == 8,
    {
        match self.get_a2() {
            0 => 4,
            _ => 8,
        }
    }

    /// The number of pages: the number at offset 204, shifted by the padding,
    /// four bytes wide, or eight with wide offsets, in the header's byte order.
    pub fn get_page_count_from_header(&self) -> (r: Result<u64, FormatError>)
        ensures
            match r {
                Ok(count) => numeric_field(
                    self.bytes@,
                    PAGE_COUNT_BASE as int,
                    4 + a2_of(self.bytes@),
                ) == Ok::<nat, FormatErrorView>(count as nat),
                Err(e) => numeric_field(self.bytes@, PAGE_COUNT_BASE as int, 4 + a2_of(self.bytes@))
                    == Err::<nat, FormatErrorView>(e@),
            },
    {
        self.read_number(PAGE_COUNT_BASE, true, false)
    }

    /// Reads the number whose place in a header without padding is `base`.
    /// It is eight bytes wide where `long` is set, or where `counted` is set
    /// and the header has wide offsets; else four.
    fn read_number(&self, base: usize, counted: bool, long: bool) -> (r: Result<u64, FormatError>)
        requires
            base <= OS_MAKER_BASE,
        ensures
            match r {
                Ok(n) => numeric_field(
                    self.bytes@,
                    base as int,
                    if long || (counted && a2_of(self.bytes@) == 4) {
                        8
                    } else {
                        4
                    },
                ) == Ok::<nat, FormatErrorView>(n as nat),
                Err(e) => numeric_field(
                    self.bytes@,
                    base as int,
                    if long || (counted && a2_of(self.bytes@) == 4) {
                        8
                    } else {
                        4
                    },
                ) == Err::<nat, FormatErrorView>(e@),
            },
    {
        let len = self.bytes.len();
        if len <= ENDIANNESS_OFFSET {
            return Err(FormatError::TruncatedHeader);
        }
        let endianness_byte = self.bytes[ENDIANNESS_OFFSET];
        let endianness = match Endianness::from_u8(endianness_byte) {
            Ok(endianness) => endianness,
            Err(_) => {
                return Err(FormatError::UnknownEndianness(endianness_byte));
            },
        };
        let wide = long || (counted && self.get_a2() == 4);
        let width: usize = if wide {
            8
        } else {
            4
        };
        let offset = base + self.get_a1() as usize;
        if len < offset + width {
            return Err(FormatError::TruncatedHeader);
        }
        Ok(read_uint(self.bytes.as_slice(), offset, wide, endianness))
    }

    /// The text of the field of `width` bytes whose place in a narrow header
    /// without padding is `base`.
    fn read_text(&self, base: usize, width: usize) -> (r: String)
        requires
            base <= OS_MAKER_BASE,
            width <= 16,
            self.bytes@.len() >= base + a1_of(self.bytes@) + a2_of(self.bytes@) + width,
            self.bytes@.len() > PADDING_FLAG_OFFSET,
        ensures
            is_text_of(
                r@,
                field_bytes(
                    self.bytes@,
                    base + a1_of(self.bytes@) + a2_of(self.bytes@),
                    width as int,
                ),
            ),
    {
        let a1 = self.get_a1() as usize;
        let a2 = self.get_a2() as usize;
        let start = base + a1 + a2;
        let field = slice_subrange(self.bytes.as_slice(), start, start + width);
        decode_text(strip_trailing_nul(field))
    }

    /// The release of the software that wrote the file: the text of the eight
    /// bytes at offset 216, shifted by the padding and the widening.
    pub fn get_sas_release_from_header(&self) -> (r: String)
        requires
            self.bytes@.len() > PADDING_FLAG_OFFSET,
            self.bytes@.len() >= RELEASE_BASE + a1_of(self.bytes@) + a2_of(self.bytes@) + 8,
        ensures
            is_text_of(
                r@,
                field_bytes(
                    self.bytes@,
                    RELEASE_BASE + a1_of(self.bytes@) + a2_of(self.bytes@),
                    8,
                ),
            ),
    {
        self.read_text(RELEASE_BASE, 8)
    }

    /// The host that wrote the file: the text of the 16 bytes at offset 224,
    /// shifted by the padding and the widening.
    pub fn get_host_sas_server_type_from_header(&self) -> (r: String)
        requires
            self.bytes@.len() > PADDING_FLAG_OFFSET,
            self.bytes@.len() >= HOST_BASE + a1_of(self.bytes@) + a2_of(self.bytes@) + 16,
        ensures
            is_text_of(
                r@,
                field_bytes(
                    self.bytes@,
                    HOST_BASE + a1_of(self.bytes@) + a2_of(self.bytes@),
                    16,
                ),
            ),
    {
        self.read_text(HOST_BASE, 16)
    }

    /// The version of the operating system, which only a header written on
    /// Unix records: the text of the 16 bytes at offset 240, shifted by the
    /// padding and the widening.
    pub fn get_os_version_number_from_header(&self) -> (r: Option<String>)
        requires
            self.bytes@.len() > OS_TYPE_OFFSET,
            self.bytes@.len() >= OS_VERSION_BASE + a1_of(self.bytes@) + a2_of(self.bytes@) + 16,
        ensures
            r is Some <==> os_type_for_char(self.bytes@[OS_TYPE_OFFSET as int] as char) == Some(
                OsType::Unix,
            ),
            r is Some ==> is_text_of(
                r->Some_0@,
                field_bytes(
                    self.bytes@,
                    OS_VERSION_BASE + a1_of(self.bytes@) + a2_of(self.bytes@),
                    16,
                ),
            ),
    {
        let os_version_number = self.read_text(OS_VERSION_BASE, 16);
        match self.get_os_type_from_header() {
            Ok(OsType::Unix) => Some(os_version_number),
            _ => None,
        }
    }

    /// The maker of the operating system, which only a header written on
    /// Unix records: the maker that the text of the 16 bytes at offset 256
    /// names, shifted by the padding and the widening.
    pub fn get_os_maker_or_version_from_header(&self) -> (r: Option<OsMaker>)
        requires
            self.bytes@.len() > OS_TYPE_OFFSET,
            self.bytes@.len() >= OS_MAKER_BASE + a1_of(self.bytes@) + a2_of(self.bytes@) + 16,
        ensures
            r == if os_type_for_char(self.bytes@[OS_TYPE_OFFSET as int] as char) == Some(
                OsType::Unix,
            ) {
                os_maker_for_text(
                    field_text(
                        self.bytes@,
                        OS_MAKER_BASE + a1_of(self.bytes@) + a2_of(self.bytes@),
                        16,
                    ),
                )
            } else {
                None
            },
            is_text_of(
                field_text(
                    self.bytes@,
                    OS_MAKER_BASE + a1_of(self.bytes@) + a2_of(self.bytes@),
                    16,
                ),
                field_bytes(
                    self.bytes@,
                    OS_MAKER_BASE + a1_of(self.bytes@) + a2_of(self.bytes@),
                    16,
                ),
            ),
    {
        let os_version_str = self.read_text(OS_MAKER_BASE, 16);
        let os_version = OsMaker::from_ascii(os_version_str);
        match self.get_os_type_from_header() {
            Ok(OsType::Unix) => match os_version {
                Ok(os_version) => Some(os_version),
                Err(_) => None,
            },
            _ => None,
        }
    }
}

} // verus!
