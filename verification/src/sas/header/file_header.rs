//! The header of a file, decoded in one step.

use vstd::prelude::*;
use vstd::slice::*;
use vstd::string::*;
use crate::sas::constants::{magic_number, SasConstants};
use crate::sas::endianness::Endianness;
use crate::sas::errors::{FormatError, FormatErrorView};
use crate::sas::header::binary::{
    field_bytes,
    field_text,
    file_marker,
    CREATED_BASE,
    HEADER_LENGTH_BASE,
    HOST_BASE,
    KIND_END,
    KIND_OFFSET,
    MAGIC_END,
    MARKER_OFFSET,
    MODIFIED_BASE,
    NAME_OFFSET,
    OS_MAKER_BASE,
    OS_VERSION_BASE,
    PAGE_COUNT_BASE,
    PAGE_SIZE_BASE,
    RELEASE_BASE,
};
use crate::sas::header::file_type::{file_type_for_bytes, FileType};
use crate::sas::alignment::ALIGNMENT_MARKER;
use crate::sas::header::layout::{
    derive_spec,
    lemma_flags_follow_flag_bytes,
    LayoutFlags,
    PADDING_FLAG_OFFSET,
    WIDE_FLAG_OFFSET,
};
use crate::sas::numbers::{
    radix_pow,
    read_u32,
    read_u64,
    read_uint,
    uint_at,
    uint_value,
};
use crate::sas::text::{
    all_ascii,
    bytes_eq,
    decode_text,
    is_text_of,
    strip_nul,
    strip_nul_and_blank,
    strip_trailing_blank,
    strip_trailing_nul,
    utf8_lossy,
};

verus! {

/// What the header of a file says, decoded once and not changed afterwards.
#[derive(Debug, PartialEq, Eq, Clone)]
pub struct FileHeader {
    /// The magic number that the header begins with.
    pub magic_number: [u8; 32],
    /// The layout of everything after the flag bytes.
    pub flags: LayoutFlags,
    /// The name of the dataset.
    pub dataset_name: String,
    /// Whether the file holds data or a catalog.
    pub file_kind: FileType,
    /// The bits of the creation timestamp, a floating-point count of seconds
    /// since the first instant of 1960.
    pub creation_timestamp_bits: u64,
    /// The bits of the modification timestamp.
    pub modification_timestamp_bits: u64,
    /// The length of the header; the first page begins after it.
    pub header_length: u32,
    /// The length of every page.
    pub page_size: u32,
    /// The number of pages.
    pub page_count: u64,
    /// The release of the software that wrote the file.
    pub release: String,
    /// The host that wrote the file.
    pub host: String,
    /// The version of the operating system that wrote the file.
    pub os_version: String,
    /// The maker of the operating system that wrote the file.
    pub os_maker: String,
}

/// The mathematical value of a [`FileHeader`].
pub ghost struct FileHeaderView {
    pub magic_number: Seq<u8>,
    pub flags: LayoutFlags,
    pub dataset_name: Seq<char>,
    pub file_kind: FileType,
    pub creation_timestamp_bits: nat,
    pub modification_timestamp_bits: nat,
    pub header_length: nat,
    pub page_size: nat,
    pub page_count: nat,
    pub release: Seq<char>,
    pub host: Seq<char>,
    pub os_version: Seq<char>,
    pub os_maker: Seq<char>,
}

impl View for FileHeader {
    type V = FileHeaderView;

    open spec fn view(&self) -> FileHeaderView {
        FileHeaderView {
            magic_number: self.magic_number@,
            flags: self.flags,
            dataset_name: self.dataset_name@,
            file_kind: self.file_kind,
            creation_timestamp_bits: self.creation_timestamp_bits as nat,
            modification_timestamp_bits: self.modification_timestamp_bits as nat,
            header_length: self.header_length as nat,
            page_size: self.page_size as nat,
            page_count: self.page_count as nat,
            release: self.release@,
            host: self.host@,
            os_version: self.os_version@,
            os_maker: self.os_maker@,
        }
    }
}

/// The shift that the flags give to every field from offset 164 on.
pub open spec fn padding_of(flags: LayoutFlags) -> int {
    flags.header_padding as int
}

/// The length that a header with these flags must have: its last field, the
/// OS maker, ends there.
pub open spec fn header_min_len(flags: LayoutFlags) -> int {
    OS_MAKER_BASE + 16 + padding_of(flags) + flags.wide_delta()
}

/// What the bytes of a header decode to.
///
/// The checks are made in this order, and the first that fails decides the
/// error: the magic number, the flags, the length that the flags ask for, the
/// file marker, the dataset name, the file kind. The file kind is read from
/// ASCII text, whatever its case and the white space around it.
pub open spec fn decode_header_spec(bytes: Seq<u8>) -> Result<FileHeaderView, FormatErrorView> {
    if bytes.len() < MAGIC_END {
        Err(FormatErrorView::TruncatedHeader)
    } else if bytes.subrange(0, MAGIC_END as int) != magic_number() {
        Err(FormatErrorView::BadMagic)
    } else {
        match derive_spec(bytes) {
            Err(e) => Err(e),
            Ok(flags) => {
                let p = padding_of(flags);
                let w = flags.wide_delta();
                let kind_text = field_text(bytes, KIND_OFFSET as int, 8);
                if bytes.len() < header_min_len(flags) {
                    Err(FormatErrorView::TruncatedHeader)
                } else if strip_nul(bytes.subrange(MARKER_OFFSET as int, NAME_OFFSET as int))
                    != file_marker() {
                    Err(FormatErrorView::NotASasFile)
                } else if strip_nul_and_blank(
                    bytes.subrange(NAME_OFFSET as int, KIND_OFFSET as int),
                ).len() == 0 {
                    Err(FormatErrorView::EmptyDatasetName)
                } else {
                    match file_type_for_bytes(field_bytes(bytes, KIND_OFFSET as int, 8)) {
                        None => Err(FormatErrorView::UnknownFileKind(kind_text)),
                        Some(file_kind) => Ok(
                            FileHeaderView {
                                magic_number: magic_number(),
                                flags,
                                dataset_name: utf8_lossy(
                                    strip_nul_and_blank(
                                        bytes.subrange(NAME_OFFSET as int, KIND_OFFSET as int),
                                    ),
                                ),
                                file_kind,
                                creation_timestamp_bits: uint_at(
                                    flags.endianness,
                                    bytes,
                                    CREATED_BASE + p,
                                    8,
                                ),
                                modification_timestamp_bits: uint_at(
                                    flags.endianness,
                                    bytes,
                                    MODIFIED_BASE + p,
                                    8,
                                ),
                                header_length: uint_at(
                                    flags.endianness,
                                    bytes,
                                    HEADER_LENGTH_BASE + p,
                                    4,
                                ),
                                page_size: uint_at(flags.endianness, bytes, PAGE_SIZE_BASE + p, 4),
                                page_count: uint_at(
                                    flags.endianness,
                                    bytes,
                                    PAGE_COUNT_BASE + p,
                                    flags.field_width(),
                                ),
                                release: field_text(bytes, RELEASE_BASE + p + w, 8),
                                host: field_text(bytes, HOST_BASE + p + w, 16),
                                os_version: field_text(bytes, OS_VERSION_BASE + p + w, 16),
                                os_maker: field_text(bytes, OS_MAKER_BASE + p + w, 16),
                            },
                        ),
                    }
                }
            },
        }
    }
}

/// Whether each text of a decoded header is what its field decodes to; for a
/// field of ASCII bytes that is the bytes themselves, each as one character.
pub open spec fn texts_decoded(header: FileHeaderView, bytes: Seq<u8>) -> bool {
    let p = padding_of(header.flags);
    let w = header.flags.wide_delta();
    &&& is_text_of(
        header.dataset_name,
        strip_nul_and_blank(bytes.subrange(NAME_OFFSET as int, KIND_OFFSET as int)),
    )
    &&& is_text_of(header.release, field_bytes(bytes, RELEASE_BASE + p + w, 8))
    &&& is_text_of(header.host, field_bytes(bytes, HOST_BASE + p + w, 16))
    &&& is_text_of(header.os_version, field_bytes(bytes, OS_VERSION_BASE + p + w, 16))
    &&& is_text_of(header.os_maker, field_bytes(bytes, OS_MAKER_BASE + p + w, 16))
}

fn text_at(bytes: &[u8], start: usize, width: usize) -> (r: String)
    requires
        start + width <= bytes.len(),
    ensures
        is_text_of(r@, field_bytes(bytes@, start as int, width as int)),
{
    decode_text(strip_trailing_nul(slice_subrange(bytes, start, start + width)))
}

impl FileHeader {
    /// Decodes the header of a file from its first bytes.
    ///
    /// The bytes must begin with the magic number. The flags are derived from
    /// them, and every later field is read at the offset and in the width and
    /// byte order that the flags give. The file marker must read `SAS FILE`,
    /// the dataset name must not be blank, and the file kind must be one of
    /// the two known kinds.
    pub fn decode(bytes: &[u8]) -> (r: Result<FileHeader, FormatError>)
        ensures
            match r {
                Ok(header) => decode_header_spec(bytes@) == Ok::<FileHeaderView, FormatErrorView>(
                    header@,
                ),
                Err(e) => decode_header_spec(bytes@) == Err::<FileHeaderView, FormatErrorView>(e@),
            },
            r is Ok ==> texts_decoded(r->Ok_0@, bytes@),
            r matches Err(FormatError::UnknownFileKind(text)) ==> is_text_of(
                text@,
                field_bytes(bytes@, KIND_OFFSET as int, 8),
            ),
    {
        if bytes.len() < MAGIC_END {
            return Err(FormatError::TruncatedHeader);
        }
        let constants = SasConstants::new();
        if !bytes_eq(slice_subrange(bytes, 0, MAGIC_END), constants.magic_number.as_slice()) {
            return Err(FormatError::BadMagic);
        }
        let flags = match LayoutFlags::derive(bytes) {
            Ok(flags) => flags,
            Err(e) => {
                return Err(e);
            },
        };
        let p = flags.header_padding as usize;
        let w: usize = if flags.wide_offsets {
            4
        } else {
            0
        };
        if bytes.len() < OS_MAKER_BASE + 16 + p + w {
            return Err(FormatError::TruncatedHeader);
        }
        let marker: [u8; 8] = [0x53, 0x41, 0x53, 0x20, 0x46, 0x49, 0x4c, 0x45];
        assert(marker@ =~= file_marker());
        let marker_field = strip_trailing_nul(slice_subrange(bytes, MARKER_OFFSET, NAME_OFFSET));
        if !bytes_eq(marker_field, marker.as_slice()) {
            return Err(FormatError::NotASasFile);
        }
        let name_field = strip_trailing_blank(
            strip_trailing_nul(slice_subrange(bytes, NAME_OFFSET, KIND_OFFSET)),
        );
        if name_field.len() == 0 {
            return Err(FormatError::EmptyDatasetName);
        }
        let dataset_name = decode_text(name_field);
        let kind_field = strip_trailing_nul(slice_subrange(bytes, KIND_OFFSET, KIND_END));
        let kind_text = decode_text(kind_field);
        if !all_ascii(kind_field) {
            return Err(FormatError::UnknownFileKind(kind_text));
        }
        let file_kind = match FileType::from_str(kind_text.as_str()) {
            Ok(file_kind) => file_kind,
            Err(_) => {
                return Err(FormatError::UnknownFileKind(kind_text));
            },
        };
        let creation_timestamp_bits = read_u64(bytes, CREATED_BASE + p, flags.endianness);
        let modification_timestamp_bits = read_u64(bytes, MODIFIED_BASE + p, flags.endianness);
        let header_length = read_u32(bytes, HEADER_LENGTH_BASE + p, flags.endianness);
        let page_size = read_u32(bytes, PAGE_SIZE_BASE + p, flags.endianness);
        let page_count = read_uint(bytes, PAGE_COUNT_BASE + p, flags.wide_offsets, flags.endianness);
        let release = text_at(bytes, RELEASE_BASE + p + w, 8);
        let host = text_at(bytes, HOST_BASE + p + w, 16);
        let os_version = text_at(bytes, OS_VERSION_BASE + p + w, 16);
        let os_maker = text_at(bytes, OS_MAKER_BASE + p + w, 16);
        Ok(
            FileHeader {
                magic_number: constants.magic_number,
                flags,
                dataset_name,
                file_kind,
                creation_timestamp_bits,
                modification_timestamp_bits,
                header_length,
                page_size,
                page_count,
                release,
                host,
                os_version,
                os_maker,
            },
        )
    }
}

/// A header of at least 32 bytes with a wrong magic number is refused for its
/// magic number, whatever follows it.
pub proof fn lemma_wrong_magic_is_bad_magic(bytes: Seq<u8>)
    requires
        bytes.len() >= MAGIC_END,
        bytes.subrange(0, MAGIC_END as int) != magic_number(),
    ensures
        decode_header_spec(bytes) == Err::<FileHeaderView, FormatErrorView>(
            FormatErrorView::BadMagic,
        ),
{
}

/// The flags of every header that decodes follow its two flag bytes: offsets
/// are wide exactly when the byte at offset 32 is the marker, and the padding
/// is 0 or 4, and 4 exactly when the byte at offset 35 is the marker.
pub proof fn lemma_decoded_flags_follow_flag_bytes(bytes: Seq<u8>)
    requires
        decode_header_spec(bytes) is Ok,
    ensures
        ({
            let flags = decode_header_spec(bytes)->Ok_0.flags;
            &&& flags.wide_offsets <==> bytes[WIDE_FLAG_OFFSET as int] == ALIGNMENT_MARKER
            &&& flags.header_padding == 0 || flags.header_padding == 4
            &&& flags.header_padding == 4 <==> bytes[PADDING_FLAG_OFFSET as int]
                == ALIGNMENT_MARKER
        }),
{
    lemma_flags_follow_flag_bytes(bytes);
}

/// The bytes that write `value` in `width` bytes, the first byte the least
/// significant.
pub open spec fn le_bytes(value: nat, width: nat) -> Seq<u8>
    decreases width,
{
    if width == 0 {
        Seq::empty()
    } else {
        seq![(value % 256) as u8] + le_bytes(value / 256, (width - 1) as nat)
    }
}

/// The bytes that write `value` in `width` bytes, the first byte the most
/// significant.
pub open spec fn be_bytes(value: nat, width: nat) -> Seq<u8>
    decreases width,
{
    if width == 0 {
        Seq::empty()
    } else {
        be_bytes(value / 256, (width - 1) as nat).push((value % 256) as u8)
    }
}

/// The bytes that write `value` in `width` bytes in the given byte order.
pub open spec fn uint_bytes(endianness: Endianness, value: nat, width: nat) -> Seq<u8> {
    match endianness {
        Endianness::Big => be_bytes(value, width),
        Endianness::Little => le_bytes(value, width),
    }
}

/// Writing a number in bytes and reading the bytes gives the number back,
/// where the bytes are wide enough for it.
pub proof fn lemma_uint_round_trip(endianness: Endianness, value: nat, width: nat)
    requires
        value < radix_pow(width),
    ensures
        uint_bytes(endianness, value, width).len() == width,
        uint_value(endianness, uint_bytes(endianness, value, width)) == value,
    decreases width,
{
    if width > 0 {
        assert(value / 256 < radix_pow((width - 1) as nat)) by (nonlinear_arith)
            requires
                value < 256 * radix_pow((width - 1) as nat),
        ;
        lemma_uint_round_trip(endianness, value / 256, (width - 1) as nat);
        match endianness {
            Endianness::Big => {
                let rest = be_bytes(value / 256, (width - 1) as nat);
                assert(rest.push((value % 256) as u8).drop_last() =~= rest);
            },
            Endianness::Little => {
                let rest = le_bytes(value / 256, (width - 1) as nat);
                assert((seq![(value % 256) as u8] + rest).drop_first() =~= rest);
            },
        }
    }
}

/// Where the page count of a decoded header comes from: from the four bytes
/// at offset 204 in a narrow header without padding, and from the eight
/// bytes at offset 208 in a wide header with padding.
pub proof fn lemma_page_count_placement(bytes: Seq<u8>)
    requires
        decode_header_spec(bytes) is Ok,
    ensures
        ({
            let header = decode_header_spec(bytes)->Ok_0;
            let flags = header.flags;
            &&& !flags.wide_offsets && flags.header_padding == 0 ==> header.page_count == uint_at(
                flags.endianness,
                bytes,
                204,
                4,
            )
            &&& flags.wide_offsets && flags.header_padding == 4 ==> header.page_count == uint_at(
                flags.endianness,
                bytes,
                208,
                8,
            )
            &&& flags.wide_offsets && flags.header_padding == 0 ==> header.page_count == uint_at(
                flags.endianness,
                bytes,
                204,
                8,
            )
            &&& !flags.wide_offsets && flags.header_padding == 4 ==> header.page_count == uint_at(
                flags.endianness,
                bytes,
                208,
                4,
            )
        }),
{
}

/// A page count that was written into a header is the page count that the
/// header decodes to: as four bytes at offset 204 plus the padding in a
/// narrow header, as eight bytes there in a wide one, in the header's byte
/// order.
pub proof fn lemma_page_count_round_trip(bytes: Seq<u8>, page_count: nat)
    requires
        decode_header_spec(bytes) is Ok,
        ({
            let flags = decode_header_spec(bytes)->Ok_0.flags;
            let width = flags.field_width();
            let start = PAGE_COUNT_BASE + padding_of(flags);
            &&& page_count < radix_pow(width as nat)
            &&& bytes.subrange(start, start + width) == uint_bytes(
                flags.endianness,
                page_count,
                width as nat,
            )
        }),
    ensures
        decode_header_spec(bytes)->Ok_0.page_count == page_count,
{
    let flags = decode_header_spec(bytes)->Ok_0.flags;
    lemma_uint_round_trip(flags.endianness, page_count, flags.field_width() as nat);
}

} // verus!
