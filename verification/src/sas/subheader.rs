//! The pointer table of a page and the subheaders it locates.

use vstd::prelude::*;
use vstd::slice::*;
use crate::sas::alignment::Alignment;
use crate::sas::endianness::Endianness;
use crate::sas::errors::{FormatError, FormatErrorView};
use crate::sas::numbers::{read_uint, uint_at};

verus! {

/// A decoder for the content of one kind of subheader. The pointer table only
/// delivers each subheader's bytes; what they mean is for implementations of
/// this trait to say.
pub trait SubheaderParser {
    fn parse(&self, data: &[u8], endianness: Endianness) -> Result<(), FormatError>;
}

/// One subheader of a page: the entry of the pointer table that locates it,
/// and the bytes it locates.
#[derive(Debug, PartialEq, Eq, Clone)]
pub struct SasSubheader {
    /// Where the subheader begins in the page's data region.
    pub offset: u64,
    /// How many bytes it holds; never 0 in a parsed list.
    pub length: u64,
    /// Its compression code, as stored.
    pub compression: u8,
    /// Its type code, as stored.
    pub subheader_type: u8,
    /// Its bytes.
    pub data: Vec<u8>,
}

/// The mathematical value of a [`SasSubheader`].
pub ghost struct SubheaderRecord {
    pub offset: nat,
    pub length: nat,
    pub compression: u8,
    pub subheader_type: u8,
    pub data: Seq<u8>,
}

impl View for SasSubheader {
    type V = SubheaderRecord;

    open spec fn view(&self) -> SubheaderRecord {
        SubheaderRecord {
            offset: self.offset as nat,
            length: self.length as nat,
            compression: self.compression,
            subheader_type: self.subheader_type,
            data: self.data@,
        }
    }
}

/// The mathematical values of a list of subheaders.
pub open spec fn records_of(list: Seq<SasSubheader>) -> Seq<SubheaderRecord> {
    list.map_values(|s: SasSubheader| s@)
}

/// The width of one entry of the pointer table: 24 bytes with wide offsets,
/// 12 without.
pub open spec fn pointer_width(wide: bool) -> int {
    if wide {
        24
    } else {
        12
    }
}

/// The width of the offset and of the length inside an entry.
pub open spec fn pointer_field_width(wide: bool) -> int {
    if wide {
        8
    } else {
        4
    }
}

/// Where entry `i` begins in the pointer table.
pub open spec fn entry_start(i: int, wide: bool) -> int {
    if wide {
        i * 24
    } else {
        i * 12
    }
}

/// How many whole entries the pointer table holds.
pub open spec fn entry_count(table: Seq<u8>, wide: bool) -> int {
    if wide {
        table.len() as int / 24
    } else {
        table.len() as int / 12
    }
}

/// The offset that entry `i` stores.
pub open spec fn entry_offset(table: Seq<u8>, i: int, endianness: Endianness, wide: bool) -> nat {
    uint_at(endianness, table, entry_start(i, wide), pointer_field_width(wide))
}

/// The length that entry `i` stores.
pub open spec fn entry_length(table: Seq<u8>, i: int, endianness: Endianness, wide: bool) -> nat {
    uint_at(
        endianness,
        table,
        entry_start(i, wide) + pointer_field_width(wide),
        pointer_field_width(wide),
    )
}

/// Whether entry `i` is absent or stays inside a data region of `data_len` bytes.
pub open spec fn entry_fits(
    table: Seq<u8>,
    data_len: nat,
    i: int,
    endianness: Endianness,
    wide: bool,
) -> bool {
    entry_length(table, i, endianness, wide) == 0 || entry_offset(table, i, endianness, wide)
        + entry_length(table, i, endianness, wide) <= data_len
}

/// The subheader that entry `i` locates.
pub open spec fn entry_record(
    table: Seq<u8>,
    page_data: Seq<u8>,
    i: int,
    endianness: Endianness,
    wide: bool,
) -> SubheaderRecord {
    let offset = entry_offset(table, i, endianness, wide);
    let length = entry_length(table, i, endianness, wide);
    SubheaderRecord {
        offset,
        length,
        compression: table[entry_start(i, wide) + 2 * pointer_field_width(wide)],
        subheader_type: table[entry_start(i, wide) + 2 * pointer_field_width(wide) + 1],
        data: page_data.subrange(offset as int, (offset + length) as int),
    }
}

/// The subheaders that the first `n` entries locate, in the order of the
/// table. An entry of length 0 locates none.
pub open spec fn records(
    table: Seq<u8>,
    page_data: Seq<u8>,
    endianness: Endianness,
    wide: bool,
    n: nat,
) -> Seq<SubheaderRecord>
    decreases n,
{
    if n == 0 {
        Seq::empty()
    } else {
        let before = records(table, page_data, endianness, wide, (n - 1) as nat);
        if entry_length(table, n - 1, endianness, wide) == 0 {
            before
        } else {
            before.push(entry_record(table, page_data, n - 1, endianness, wide))
        }
    }
}

/// What a pointer table and a data region parse to.
pub open spec fn parse_spec(
    table: Seq<u8>,
    page_data: Seq<u8>,
    endianness: Endianness,
    wide: bool,
) -> Result<Seq<SubheaderRecord>, FormatErrorView> {
    if table.len() as int % pointer_width(wide) != 0 {
        Err(FormatErrorView::TruncatedPage)
    } else if exists|i: int|
        0 <= i < entry_count(table, wide) && !entry_fits(
            table,
            page_data.len(),
            i,
            endianness,
            wide,
        ) {
        Err(FormatErrorView::SubheaderOutOfBounds)
    } else {
        Ok(records(table, page_data, endianness, wide, entry_count(table, wide) as nat))
    }
}

/// The byte order that the flag of a parser call stands for.
pub open spec fn endianness_of(is_little_endian: bool) -> Endianness {
    if is_little_endian {
        Endianness::Little
    } else {
        Endianness::Big
    }
}

impl SasSubheader {
    /// Walks the pointer table of a page and extracts each subheader from the
    /// page's data region.
    ///
    /// The table is read in strides of 12 bytes, or of 24 where `alignment`
    /// holds 4: an offset, a length, a compression code, a type code, then
    /// padding. An entry of length 0 is skipped. A table that ends inside a
    /// stride is a truncated page, and an entry of another length that reaches
    /// past the data region is out of bounds.
    pub fn parse_subheader_pointers(
        pointers_data: &[u8],
        page_data: &[u8],
        is_little_endian: bool,
        alignment: &Alignment,
    ) -> (r: Result<Vec<Self>, FormatError>)
        ensures
            match r {
                Ok(list) => parse_spec(
                    pointers_data@,
                    page_data@,
                    endianness_of(is_little_endian),
                    alignment.value == 4,
                ) == Ok::<Seq<SubheaderRecord>, FormatErrorView>(records_of(list@)),
                Err(e) => parse_spec(
                    pointers_data@,
                    page_data@,
                    endianness_of(is_little_endian),
                    alignment.value == 4,
                ) == Err::<Seq<SubheaderRecord>, FormatErrorView>(e@),
            },
            r is Ok ==> forall|k: int| 0 <= k < r->Ok_0@.len() ==> (#[trigger] r->Ok_0@[k]).length != 0,
    {
        let wide = alignment.value == 4;
        let endianness = if is_little_endian {
            Endianness::Little
        } else {
            Endianness::Big
        };
        let width: usize = if wide {
            24
        } else {
            12
        };
        let field: usize = if wide {
            8
        } else {
            4
        };
        let table_len = pointers_data.len();
        if table_len % width != 0 {
            return Err(FormatError::TruncatedPage);
        }
        let count = table_len / width;
        let data_len = page_data.len() as u64;
        let mut subheaders: Vec<SasSubheader> = Vec::new();
        let mut i: usize = 0;
        while i < count
            invariant
                i <= count,
                wide == (alignment.value == 4),
                endianness == endianness_of(is_little_endian),
                width == pointer_width(wide),
                field == pointer_field_width(wide),
                table_len == pointers_data@.len(),
                count == entry_count(pointers_data@, wide),
                count * width == table_len,
                data_len == page_data@.len(),
                page_data@.len() <= usize::MAX,
                forall|j: int|
                    0 <= j < i ==> entry_fits(
                        pointers_data@,
                        page_data@.len(),
                        j,
                        endianness,
                        wide,
                    ),
                records_of(subheaders@) == records(
                    pointers_data@,
                    page_data@,
                    endianness,
                    wide,
                    i as nat,
                ),
                forall|k: int| 0 <= k < subheaders@.len() ==> (#[trigger] subheaders@[k]).length != 0,
            decreases count - i,
        {
            assert((i + 1) * width <= count * width) by (nonlinear_arith)
                requires
                    i < count,
            ;
            assert((i + 1) * width == i * width + width) by (nonlinear_arith);
            let start = i * width;
            assert(start == entry_start(i as int, wide));
            let offset = read_uint(pointers_data, start, wide, endianness);
            let length = read_uint(pointers_data, start + field, wide, endianness);
            let compression = pointers_data[start + 2 * field];
            let subheader_type = pointers_data[start + 2 * field + 1];
            let ghost before = subheaders@;
            if length != 0 {
                if length > data_len || offset > data_len - length {
                    assert(!entry_fits(
                        pointers_data@,
                        page_data@.len(),
                        i as int,
                        endianness,
                        wide,
                    ));
                    return Err(FormatError::SubheaderOutOfBounds);
                }
                let data = slice_to_vec(
                    slice_subrange(page_data, offset as usize, (offset + length) as usize),
                );
                let subheader = SasSubheader { offset, length, compression, subheader_type, data };
                assert(subheader@ == entry_record(
                    pointers_data@,
                    page_data@,
                    i as int,
                    endianness,
                    wide,
                ));
                subheaders.push(subheader);
                assert(records_of(subheaders@) =~= records_of(before).push(subheader@));
            }
            i += 1;
        }
        Ok(subheaders)
    }
}

/// No subheader of length 0 is ever among the subheaders that a pointer table
/// locates, however often the table is parsed.
pub proof fn lemma_records_skip_absent(
    table: Seq<u8>,
    page_data: Seq<u8>,
    endianness: Endianness,
    wide: bool,
    n: nat,
)
    ensures
        forall|k: int|
            0 <= k < records(table, page_data, endianness, wide, n).len() ==> (#[trigger] records(
                table,
                page_data,
                endianness,
                wide,
                n,
            )[k]).length != 0,
    decreases n,
{
    if n > 0 {
        lemma_records_skip_absent(table, page_data, endianness, wide, (n - 1) as nat);
        let before = records(table, page_data, endianness, wide, (n - 1) as nat);
        let all = records(table, page_data, endianness, wide, n);
        assert forall|k: int| 0 <= k < all.len() implies (#[trigger] all[k]).length != 0 by {
            if k < before.len() {
                assert(all[k] == before[k]);
            }
        }
    }
}

} // verus!
