//! Rows, one after the other, from the data region of a page.

use vstd::prelude::*;
use vstd::slice::*;
use crate::sas::errors::{FormatError, FormatErrorView};

verus! {

/// A forward-only cursor over the rows of a data region: `row_length` bytes
/// to the row, `row_count` rows at most. It cannot be restarted.
///
/// ```text
/// let data = vec![0x01, 0x02, 0x03, 0x04, 0x05, 0x06];
/// let mut rows = SasDataRowIterator::new(&data, 2, 3);
/// assert_eq!(rows.next(), Some(Ok(vec![0x01, 0x02, 0x03])));
/// assert_eq!(rows.next(), Some(Ok(vec![0x04, 0x05, 0x06])));
/// assert_eq!(rows.next(), None);
/// ```
#[derive(Debug)]
pub struct SasDataRowIterator<'a> {
    data: &'a [u8],
    position: usize,
    remaining_rows: usize,
    row_length: usize,
}

/// The mathematical value of a [`SasDataRowIterator`].
pub ghost struct RowCursor {
    /// The data region.
    pub data: Seq<u8>,
    /// How many bytes of it have been handed out.
    pub position: nat,
    /// How many rows are still to come.
    pub remaining_rows: nat,
    /// The length of each row.
    pub row_length: nat,
}

/// What one step of a row cursor yields, and the cursor after the step.
///
/// With no row left the cursor yields nothing and stays as it is. With a whole
/// row left in the data it yields that row and moves past it. With less than
/// a whole row left it yields the error and gives up the rows still to come.
pub open spec fn row_step(c: RowCursor) -> (RowCursor, Option<Result<Seq<u8>, FormatErrorView>>) {
    if c.remaining_rows == 0 {
        (c, None)
    } else if c.position + c.row_length <= c.data.len() {
        (
            RowCursor {
                position: c.position + c.row_length,
                remaining_rows: (c.remaining_rows - 1) as nat,
                ..c
            },
            Some(Ok(c.data.subrange(c.position as int, (c.position + c.row_length) as int))),
        )
    } else {
        (RowCursor { remaining_rows: 0, ..c }, Some(Err(FormatErrorView::TruncatedRow)))
    }
}

/// The mathematical value of what a step hands out.
pub open spec fn row_item_view(item: Option<Result<Vec<u8>, FormatError>>) -> Option<
    Result<Seq<u8>, FormatErrorView>,
> {
    match item {
        None => None,
        Some(Ok(row)) => Some(Ok(row@)),
        Some(Err(e)) => Some(Err(e@)),
    }
}

impl<'a> View for SasDataRowIterator<'a> {
    type V = RowCursor;

    closed spec fn view(&self) -> RowCursor {
        RowCursor {
            data: self.data@,
            position: self.position as nat,
            remaining_rows: self.remaining_rows as nat,
            row_length: self.row_length as nat,
        }
    }
}

impl<'a> SasDataRowIterator<'a> {
    #[verifier::type_invariant]
    spec fn within_data(self) -> bool {
        self.position <= self.data@.len()
    }

    /// A cursor at the start of `data`.
    pub fn new(data: &'a [u8], row_count: usize, row_length: usize) -> (r: Self)
        ensures
            r@ == (RowCursor {
                data: data@,
                position: 0,
                remaining_rows: row_count as nat,
                row_length: row_length as nat,
            }),
    {
        SasDataRowIterator { data, position: 0, remaining_rows: row_count, row_length }
    }

    /// Hands out the next row, the error that ends the rows, or nothing.
    pub fn next(&mut self) -> (r: Option<Result<Vec<u8>, FormatError>>)
        ensures
            final(self)@ == row_step(old(self)@).0,
            row_item_view(r) == row_step(old(self)@).1,
    {
        proof {
            use_type_invariant(&*self);
        }
        if self.remaining_rows == 0 {
            return None;
        }
        let available = self.data.len() - self.position;
        if self.row_length > available {
            self.remaining_rows = 0;
            return Some(Err(FormatError::TruncatedRow));
        }
        let end = self.position + self.row_length;
        let row = slice_to_vec(slice_subrange(self.data, self.position, end));
        self.position = end;
        self.remaining_rows -= 1;
        Some(Ok(row))
    }
}

/// Rows fail fast: after the step that yields an error, every step yields
/// nothing.
pub proof fn lemma_rows_end_after_error(c: RowCursor)
    requires
        row_step(c).1 is Some,
        row_step(c).1->Some_0 is Err,
    ensures
        row_step(row_step(c).0).1 is None,
        row_step(row_step(c).0).0 == row_step(c).0,
{
}

/// Rows are finite: every step that yields something leaves fewer rows to come.
pub proof fn lemma_rows_run_out(c: RowCursor)
    requires
        row_step(c).1 is Some,
    ensures
        row_step(c).0.remaining_rows < c.remaining_rows,
{
}

} // verus!
