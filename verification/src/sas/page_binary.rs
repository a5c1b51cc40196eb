//! One page, cut into its parts.

use vstd::prelude::*;
use vstd::slice::*;
use crate::sas::errors::{FormatError, FormatErrorView};
use crate::sas::header::layout::LayoutFlags;
use crate::sas::numbers::{lemma_uint_value_fits, read_u16, uint_at};

verus! {

/// The length of the prologue that every page begins with.
pub const PAGE_PROLOGUE_LEN: usize = 24;

/// Where the page-type code stands in a page.
pub const PAGE_TYPE_OFFSET: usize = 16;

/// Where the block count stands in a page.
pub const BLOCK_COUNT_OFFSET: usize = 18;

/// Where the subheader count stands in a page.
pub const SUBHEADER_COUNT_OFFSET: usize = 20;

/// One page of a file, cut into its parts but not interpreted.
#[derive(Debug, PartialEq, Eq, Clone)]
pub struct PageBinary {
    /// The page-type code, as stored.
    pub page_type: u16,
    /// The number of blocks the page holds.
    pub block_count: u16,
    /// The number of entries in the pointer table.
    pub subheader_count: u16,
    /// The pointer table.
    pub subheader_pointers: Vec<u8>,
    /// The data region: everything after the pointer table.
    pub data: Vec<u8>,
}

/// The mathematical value of a [`PageBinary`].
pub ghost struct PageView {
    pub page_type: u16,
    pub block_count: u16,
    pub subheader_count: u16,
    pub subheader_pointers: Seq<u8>,
    pub data: Seq<u8>,
}

impl View for PageBinary {
    type V = PageView;

    open spec fn view(&self) -> PageView {
        PageView {
            page_type: self.page_type,
            block_count: self.block_count,
            subheader_count: self.subheader_count,
            subheader_pointers: self.subheader_pointers@,
            data: self.data@,
        }
    }
}

/// The length of a pointer table of `count` entries.
pub open spec fn pointer_table_len(count: nat, wide: bool) -> int {
    if wide {
        (count * 24) as int
    } else {
        (count * 12) as int
    }
}

/// The subheader count that the bytes of a page store.
pub open spec fn stored_subheader_count(bytes: Seq<u8>, flags: LayoutFlags) -> nat {
    uint_at(flags.endianness, bytes, SUBHEADER_COUNT_OFFSET as int, 2)
}

/// Where the data region of a page begins: after the prologue and the
/// pointer table.
pub open spec fn data_region_start(bytes: Seq<u8>, flags: LayoutFlags) -> int {
    PAGE_PROLOGUE_LEN + pointer_table_len(stored_subheader_count(bytes, flags), flags.wide_offsets)
}

/// Whether the bytes are no whole page: they are not as many as the page
/// size, or too few for the prologue and the pointer table.
pub open spec fn page_truncated(bytes: Seq<u8>, page_size: nat, flags: LayoutFlags) -> bool {
    bytes.len() != page_size || page_size < PAGE_PROLOGUE_LEN || data_region_start(bytes, flags)
        > page_size
}

/// What the bytes of a page decode to.
pub open spec fn decode_page_spec(bytes: Seq<u8>, page_size: nat, flags: LayoutFlags) -> Result<
    PageView,
    FormatErrorView,
> {
    if page_truncated(bytes, page_size, flags) {
        Err(FormatErrorView::TruncatedPage)
    } else {
        Ok(
            PageView {
                page_type: uint_at(flags.endianness, bytes, PAGE_TYPE_OFFSET as int, 2) as u16,
                block_count: uint_at(flags.endianness, bytes, BLOCK_COUNT_OFFSET as int, 2) as u16,
                subheader_count: stored_subheader_count(bytes, flags) as u16,
                subheader_pointers: bytes.subrange(
                    PAGE_PROLOGUE_LEN as int,
                    data_region_start(bytes, flags),
                ),
                data: bytes.subrange(data_region_start(bytes, flags), bytes.len() as int),
            },
        )
    }
}

impl PageBinary {
    /// Cuts the bytes of one page into prologue fields, pointer table and
    /// data region.
    ///
    /// `page_size` is the page size that the header declares. Bytes that are
    /// not exactly that many, or that cannot hold the prologue and the pointer
    /// table that the prologue announces, are a truncated page. The three
    /// prologue fields are two-byte numbers in the byte order of `flags`; the
    /// pointer table follows the prologue with 12 bytes to the entry, or 24
    /// with wide offsets, and the data region is all that follows the table.
    pub fn decode(page_bytes: &[u8], page_size: usize, flags: &LayoutFlags) -> (r: Result<
        PageBinary,
        FormatError,
    >)
        ensures
            match r {
                Ok(page) => decode_page_spec(page_bytes@, page_size as nat, *flags) == Ok::<
                    PageView,
                    FormatErrorView,
                >(page@),
                Err(e) => decode_page_spec(page_bytes@, page_size as nat, *flags) == Err::<
                    PageView,
                    FormatErrorView,
                >(e@),
            },
            r is Ok && r->Ok_0.subheader_count == 0 ==> r->Ok_0.subheader_pointers@.len() == 0
                && r->Ok_0.data@ == page_bytes@.subrange(
                PAGE_PROLOGUE_LEN as int,
                page_bytes@.len() as int,
            ),
    {
        if page_bytes.len() != page_size || page_size < PAGE_PROLOGUE_LEN {
            return Err(FormatError::TruncatedPage);
        }
        let page_type = read_u16(page_bytes, PAGE_TYPE_OFFSET, flags.endianness);
        let block_count = read_u16(page_bytes, BLOCK_COUNT_OFFSET, flags.endianness);
        let subheader_count = read_u16(page_bytes, SUBHEADER_COUNT_OFFSET, flags.endianness);
        let width: usize = if flags.wide_offsets {
            24
        } else {
            12
        };
        let room = page_size - PAGE_PROLOGUE_LEN;
        if (subheader_count as usize) > room / width {
            return Err(FormatError::TruncatedPage);
        }
        let table_end = PAGE_PROLOGUE_LEN + (subheader_count as usize) * width;
        let subheader_pointers = slice_to_vec(
            slice_subrange(page_bytes, PAGE_PROLOGUE_LEN, table_end),
        );
        let data = slice_to_vec(slice_subrange(page_bytes, table_end, page_size));
        Ok(PageBinary { page_type, block_count, subheader_count, subheader_pointers, data })
    }

    /// Whether the page's type says that it holds rows.
    pub fn has_data_rows(&self) -> (r: bool)
        ensures
            r == (self.page_type == 256 || self.page_type == 512),
    {
        self.page_type == 256 || self.page_type == 512
    }
}

/// In every page without subheaders the pointer table is empty and the data
/// region begins right after the prologue, at offset 24.
pub proof fn lemma_page_without_subheaders(bytes: Seq<u8>, page_size: nat, flags: LayoutFlags)
    requires
        decode_page_spec(bytes, page_size, flags) is Ok,
        decode_page_spec(bytes, page_size, flags)->Ok_0.subheader_count == 0,
    ensures
        decode_page_spec(bytes, page_size, flags)->Ok_0.subheader_pointers.len() == 0,
        data_region_start(bytes, flags) == PAGE_PROLOGUE_LEN,
        decode_page_spec(bytes, page_size, flags)->Ok_0.data == bytes.subrange(
            PAGE_PROLOGUE_LEN as int,
            bytes.len() as int,
        ),
{
    lemma_uint_value_fits(
        flags.endianness,
        bytes.subrange(SUBHEADER_COUNT_OFFSET as int, SUBHEADER_COUNT_OFFSET + 2),
    );
    assert(bytes.subrange(PAGE_PROLOGUE_LEN as int, PAGE_PROLOGUE_LEN as int).len() == 0);
}

} // verus!
