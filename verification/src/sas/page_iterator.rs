//! Pages, one after the other: from blocks that a caller reads, or from the
//! bytes that follow the header.

use vstd::prelude::*;
use vstd::slice::*;
use crate::sas::errors::{FormatError, FormatErrorView};
use crate::sas::header::layout::LayoutFlags;
use crate::sas::page_binary::{decode_page_spec, PageBinary, PageView};

verus! {

/// The decisions of reading the pages of a file, for a caller that does the
/// reading: how many bytes to read next, and what the bytes that were read
/// amount to. After `page_count` pages, or after one error, no page is due.
#[derive(Debug, Clone, Copy)]
pub struct PageStream {
    page_size: usize,
    remaining_pages: usize,
    flags: LayoutFlags,
}

/// The mathematical value of a [`PageStream`].
pub ghost struct PageStreamState {
    /// The length of each page.
    pub page_size: nat,
    /// How many pages are still to come.
    pub remaining_pages: nat,
    /// The layout that the header declares.
    pub flags: LayoutFlags,
}

/// What a block that was read amounts to, and the stream after it.
///
/// With no page due the block amounts to nothing and the stream stays as it
/// is. A block that decodes is the next page, and one page fewer is due. A
/// block that does not, because the read came up short or because the page
/// cannot hold its own tables, is the error of decoding it, and no page is
/// due any more.
pub open spec fn stream_step(s: PageStreamState, block: Seq<u8>) -> (
    PageStreamState,
    Option<Result<PageView, FormatErrorView>>,
) {
    if s.remaining_pages == 0 {
        (s, None)
    } else {
        match decode_page_spec(block, s.page_size, s.flags) {
            Ok(page) => (
                PageStreamState { remaining_pages: (s.remaining_pages - 1) as nat, ..s },
                Some(Ok(page)),
            ),
            Err(e) => (PageStreamState { remaining_pages: 0, ..s }, Some(Err(e))),
        }
    }
}

/// The mathematical value of what a step hands out.
pub open spec fn page_item_view(item: Option<Result<PageBinary, FormatError>>) -> Option<
    Result<PageView, FormatErrorView>,
> {
    match item {
        None => None,
        Some(Ok(page)) => Some(Ok(page@)),
        Some(Err(e)) => Some(Err(e@)),
    }
}

impl View for PageStream {
    type V = PageStreamState;

    closed spec fn view(&self) -> PageStreamState {
        PageStreamState {
            page_size: self.page_size as nat,
            remaining_pages: self.remaining_pages as nat,
            flags: self.flags,
        }
    }
}

impl PageStream {
    /// A stream with `page_count` pages due.
    pub fn new(page_size: usize, page_count: usize, flags: LayoutFlags) -> (r: Self)
        ensures
            r@ == (PageStreamState {
                page_size: page_size as nat,
                remaining_pages: page_count as nat,
                flags,
            }),
    {
        PageStream { page_size, remaining_pages: page_count, flags }
    }

    /// How many bytes to read for the next page, if a page is due.
    pub fn next_read(&self) -> (r: Option<usize>)
        ensures
            r is Some <==> self@.remaining_pages > 0,
            r is Some ==> r->Some_0 == self@.page_size,
    {
        if self.remaining_pages == 0 {
            None
        } else {
            Some(self.page_size)
        }
    }

    /// Takes the bytes that a read for the next page returned, all of them
    /// and no others, and hands out the page they are or the error that ends
    /// the pages; nothing where no page is due.
    pub fn accept(&mut self, block: &[u8]) -> (r: Option<Result<PageBinary, FormatError>>)
        ensures
            final(self)@ == stream_step(old(self)@, block@).0,
            page_item_view(r) == stream_step(old(self)@, block@).1,
    {
        if self.remaining_pages == 0 {
            return None;
        }
        match PageBinary::decode(block, self.page_size, &self.flags) {
            Ok(page) => {
                self.remaining_pages -= 1;
                Some(Ok(page))
            },
            Err(e) => {
                self.remaining_pages = 0;
                Some(Err(e))
            },
        }
    }
}

/// A forward-only cursor over the pages of a file: `page_size` bytes to the
/// page, `page_count` pages at most, read from the bytes that follow the
/// header. It cannot be restarted.
#[derive(Debug)]
pub struct SasPageIterator<'a> {
    source: &'a [u8],
    position: usize,
    stream: PageStream,
}

/// The mathematical value of a [`SasPageIterator`].
pub ghost struct PageCursor {
    /// The bytes that follow the header.
    pub source: Seq<u8>,
    /// How many of them have been read.
    pub position: nat,
    /// The pages that are due.
    pub stream: PageStreamState,
}

/// The block that a read for the next page returns: the next `page_size`
/// bytes of the source, or all that are left where fewer are.
pub open spec fn next_block(c: PageCursor) -> Seq<u8> {
    if c.position + c.stream.page_size <= c.source.len() {
        c.source.subrange(c.position as int, (c.position + c.stream.page_size) as int)
    } else {
        c.source.subrange(c.position as int, c.source.len() as int)
    }
}

/// What one step of a page cursor yields, and the cursor after the step: what
/// the next block amounts to, with the cursor past the block where it was a
/// page.
pub open spec fn page_step(c: PageCursor) -> (PageCursor, Option<Result<PageView, FormatErrorView>>) {
    let (stream, item) = stream_step(c.stream, next_block(c));
    match item {
        Some(Ok(page)) => (
            PageCursor { position: c.position + c.stream.page_size, stream, ..c },
            item,
        ),
        _ => (PageCursor { stream, ..c }, item),
    }
}

impl<'a> View for SasPageIterator<'a> {
    type V = PageCursor;

    closed spec fn view(&self) -> PageCursor {
        PageCursor { source: self.source@, position: self.position as nat, stream: self.stream@ }
    }
}

impl<'a> SasPageIterator<'a> {
    #[verifier::type_invariant]
    spec fn within_source(self) -> bool {
        self.position <= self.source@.len()
    }

    /// A cursor at the start of `source`, the bytes that follow the header.
    pub fn new(source: &'a [u8], page_size: usize, page_count: usize, flags: LayoutFlags) -> (r:
        Self)
        ensures
            r@ == (PageCursor {
                source: source@,
                position: 0,
                stream: PageStreamState {
                    page_size: page_size as nat,
                    remaining_pages: page_count as nat,
                    flags,
                },
            }),
    {
        SasPageIterator { source, position: 0, stream: PageStream::new(page_size, page_count, flags) }
    }

    /// Hands out the next page, the error that ends the pages, or nothing.
    pub fn next(&mut self) -> (r: Option<Result<PageBinary, FormatError>>)
        ensures
            final(self)@ == page_step(old(self)@).0,
            page_item_view(r) == page_step(old(self)@).1,
    {
        proof {
            use_type_invariant(&*self);
        }
        let page_size = match self.stream.next_read() {
            Some(page_size) => page_size,
            None => {
                return None;
            },
        };
        let available = self.source.len() - self.position;
        let end = if page_size <= available {
            self.position + page_size
        } else {
            self.source.len()
        };
        let block = slice_subrange(self.source, self.position, end);
        let mut stream = self.stream;
        let item = stream.accept(block);
        self.stream = stream;
        if let Some(Ok(_)) = &item {
            self.position = end;
        }
        item
    }
}

/// A short read ends the pages with a truncated page.
pub proof fn lemma_short_read_is_truncated_page(s: PageStreamState, block: Seq<u8>)
    requires
        s.remaining_pages > 0,
        block.len() != s.page_size,
    ensures
        stream_step(s, block).1 == Some(
            Err::<PageView, FormatErrorView>(FormatErrorView::TruncatedPage),
        ),
        stream_step(s, block).0.remaining_pages == 0,
{
}

/// Pages fail fast: after the step that yields an error, every step yields
/// nothing.
pub proof fn lemma_pages_end_after_error(c: PageCursor)
    requires
        page_step(c).1 is Some,
        page_step(c).1->Some_0 is Err,
    ensures
        page_step(page_step(c).0).1 is None,
        page_step(page_step(c).0).0 == page_step(c).0,
{
}

/// Pages are finite: every step that yields something leaves fewer pages to
/// come.
pub proof fn lemma_pages_run_out(c: PageCursor)
    requires
        page_step(c).1 is Some,
    ensures
        page_step(c).0.stream.remaining_pages < c.stream.remaining_pages,
{
}

} // verus!
