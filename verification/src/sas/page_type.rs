//! The types of pages.

use vstd::prelude::*;

verus! {

/// What a page holds, by the code in its prologue.
#[derive(Debug, PartialEq, Eq, Structural, Clone, Copy)]
pub enum PageType {
    Meta,
    Data,
    Mix,
    AMD,
    Unknown(u16),
}

/// The page type of a page-type code. A code outside the four known ones is
/// kept as it is: such a page is skipped, not refused.
pub open spec fn page_type_for_code(code: u16) -> PageType {
    if code == 0 {
        PageType::Meta
    } else if code == 256 {
        PageType::Data
    } else if code == 512 {
        PageType::Mix
    } else if code == 1024 {
        PageType::AMD
    } else {
        PageType::Unknown(code)
    }
}

impl PageType {
    /// Classifies a page-type code.
    pub fn from_u16(value: u16) -> (r: Self)
        ensures
            r == page_type_for_code(value),
    {
        match value {
            0 => PageType::Meta,
            256 => PageType::Data,
            512 => PageType::Mix,
            1024 => PageType::AMD,
            _ => PageType::Unknown(value),
        }
    }

    /// Whether pages of this type hold rows: data pages and mixed pages do.
    pub open spec fn holds_rows(self) -> bool {
        self == PageType::Data || self == PageType::Mix
    }

    /// Whether pages of this type hold rows.
    pub fn has_data_rows(&self) -> (r: bool)
        ensures
            r == self.holds_rows(),
    {
        match self {
            PageType::Data => true,
            PageType::Mix => true,
            _ => false,
        }
    }
}

} // verus!
