//! One page, interpreted.

use vstd::prelude::*;
use crate::sas::alignment::Alignment;
use crate::sas::data_row_iterator::{RowCursor, SasDataRowIterator};
use crate::sas::endianness::Endianness;
use crate::sas::errors::{FormatError, FormatErrorView};
use crate::sas::page_binary::PageBinary;
use crate::sas::page_type::{page_type_for_code, PageType};
use crate::sas::subheader::{
    endianness_of,
    parse_spec,
    records_of,
    SasSubheader,
    SubheaderRecord,
};

verus! {

/// One page of a file, interpreted: its type, its subheaders, and its data
/// region, which the rows are cut from. The data region is borrowed from the
/// page it was parsed from.
#[derive(Debug)]
pub struct SasPage<'a> {
    /// What the page holds.
    pub page_type: PageType,
    /// The subheaders that the pointer table locates, in its order.
    pub subheaders: Vec<SasSubheader>,
    /// The data region.
    pub data: &'a [u8],
}

impl<'a> SasPage<'a> {
    /// Interprets a page in the byte order that `endianness` names.
    ///
    /// The page type is classified, the pointer table is walked and each
    /// subheader is extracted from the data region. A page whose pointer
    /// table cannot be walked is refused with the error of the walk.
    pub fn from_binary_page(
        binary_page: &'a PageBinary,
        endianness: Endianness,
        alignment: &Alignment,
    ) -> (r: Result<SasPage<'a>, FormatError>)
        ensures
            match r {
                Ok(page) => parse_spec(
                    binary_page.subheader_pointers@,
                    binary_page.data@,
                    endianness,
                    alignment.value == 4,
                ) == Ok::<Seq<SubheaderRecord>, FormatErrorView>(records_of(page.subheaders@))
                    && page.page_type == page_type_for_code(binary_page.page_type) && page.data@
                    == binary_page.data@,
                Err(e) => parse_spec(
                    binary_page.subheader_pointers@,
                    binary_page.data@,
                    endianness,
                    alignment.value == 4,
                ) == Err::<Seq<SubheaderRecord>, FormatErrorView>(e@),
            },
    {
        let is_little_endian = match endianness {
            Endianness::Little => true,
            Endianness::Big => false,
        };
        Self::parse(binary_page, is_little_endian, alignment)
    }

    /// Interprets a page in little-endian byte order where the flag is set,
    /// in big-endian byte order where it is not.
    pub fn parse(binary_page: &'a PageBinary, is_little_endian: bool, alignment: &Alignment) -> (r:
        Result<SasPage<'a>, FormatError>)
        ensures
            match r {
                Ok(page) => parse_spec(
                    binary_page.subheader_pointers@,
                    binary_page.data@,
                    endianness_of(is_little_endian),
                    alignment.value == 4,
                ) == Ok::<Seq<SubheaderRecord>, FormatErrorView>(records_of(page.subheaders@))
                    && page.page_type == page_type_for_code(binary_page.page_type) && page.data@
                    == binary_page.data@,
                Err(e) => parse_spec(
                    binary_page.subheader_pointers@,
                    binary_page.data@,
                    endianness_of(is_little_endian),
                    alignment.value == 4,
                ) == Err::<Seq<SubheaderRecord>, FormatErrorView>(e@),
            },
    {
        let page_type = PageType::from_u16(binary_page.page_type);
        let subheaders = match SasSubheader::parse_subheader_pointers(
            binary_page.subheader_pointers.as_slice(),
            binary_page.data.as_slice(),
            is_little_endian,
            alignment,
        ) {
            Ok(subheaders) => subheaders,
            Err(e) => {
                return Err(e);
            },
        };
        Ok(SasPage { page_type, subheaders, data: binary_page.data.as_slice() })
    }

    /// A cursor over the rows of the page, for a page that holds rows: a data
    /// page or a mixed page. Any other page has none.
    pub fn data_rows(&self, row_count: usize, row_length: usize) -> (r: Option<
        SasDataRowIterator<'a>,
    >)
        ensures
            r is Some <==> self.page_type.holds_rows(),
            r is Some ==> r->Some_0@ == (RowCursor {
                data: self.data@,
                position: 0,
                remaining_rows: row_count as nat,
                row_length: row_length as nat,
            }),
    {
        if self.page_type.has_data_rows() {
            Some(SasDataRowIterator::new(self.data, row_count, row_length))
        } else {
            None
        }
    }
}

} // verus!
