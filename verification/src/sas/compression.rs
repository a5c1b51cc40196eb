//! Compression modes, and the decompression of one row.

use vstd::prelude::*;
use crate::sas::errors::{Error, FormatError, FormatErrorView};

verus! {

/// How the rows of a file are stored.
#[derive(Debug, PartialEq, Eq, Structural, Clone, Copy)]
pub enum Compression {
    /// Rows are stored as they are.
    Uncompressed,
    /// Rows are stored without the zero bytes that end them.
    Truncated,
    /// Rows are stored as run-length instructions.
    Rle,
}

/// The compression mode of a compression code, if any.
pub open spec fn compression_for_code(code: u8) -> Option<Compression> {
    if code == 0 {
        Some(Compression::Uncompressed)
    } else if code == 1 {
        Some(Compression::Truncated)
    } else if code == 4 {
        Some(Compression::Rle)
    } else {
        None
    }
}

impl Compression {
    /// Resolves a compression code; a code outside the three known ones is
    /// returned inside the error.
    pub fn from_u8(value: u8) -> (r: Result<Self, Error>)
        ensures
            r == match compression_for_code(value) {
                Some(mode) => Ok::<Self, Error>(mode),
                None => Err::<Self, Error>(Error::InvalidCompression(value)),
            },
    {
        match value {
            0 => Ok(Compression::Uncompressed),
            1 => Ok(Compression::Truncated),
            4 => Ok(Compression::Rle),
            _ => Err(Error::InvalidCompression(value)),
        }
    }
}

/// What a run-length instruction produces: bytes copied from the stream, or
/// one byte repeated.
pub ghost enum RlePayload {
    Copy,
    Fill(u8),
}

/// The head of a run-length instruction: how many bytes of the stream it
/// takes before any bytes that it copies, how many bytes it produces, and
/// what they are.
pub ghost struct RleHead {
    pub head_len: int,
    pub count: int,
    pub payload: RlePayload,
}

/// The head of the instruction that begins at `pos`, if the stream holds a
/// whole head of a known command there.
///
/// The high half of the first byte is the command, its low half `low` is
/// part of the count. Commands 0, 4, 6 and 7 take the next byte `next` into
/// the count, times 256 for `low`; a run can then be thousands of bytes long.
///
/// | command | produces | count |
/// |---|---|---|
/// | 0 | the bytes that follow | `next + 64 + 256 * low` |
/// | 4 | the byte after `next`, repeated | `next + 18 + 256 * low` |
/// | 6 | spaces | `next + 17 + 256 * low` |
/// | 7 | zero bytes | `next + 17 + 256 * low` |
/// | 8 | the bytes that follow | `low + 1` |
/// | 9 | the bytes that follow | `low + 17` |
/// | 10 | the bytes that follow | `low + 33` |
/// | 11 | the bytes that follow | `low + 49` |
/// | 12 | the next byte, repeated | `low + 3` |
/// | 13 | `@` signs | `low + 2` |
/// | 14 | spaces | `low + 2` |
/// | 15 | zero bytes | `low + 2` |
pub open spec fn rle_head(raw: Seq<u8>, pos: int) -> Option<RleHead> {
    let command = raw[pos] / 16;
    let low = (raw[pos] % 16) as int;
    let next = raw[pos + 1] as int;
    if command == 0 && pos + 1 < raw.len() {
        Some(RleHead { head_len: 2, count: next + 64 + 256 * low, payload: RlePayload::Copy })
    } else if command == 4 && pos + 2 < raw.len() {
        Some(
            RleHead {
                head_len: 3,
                count: next + 18 + 256 * low,
                payload: RlePayload::Fill(raw[pos + 2]),
            },
        )
    } else if command == 6 && pos + 1 < raw.len() {
        Some(RleHead { head_len: 2, count: next + 17 + 256 * low, payload: RlePayload::Fill(0x20) })
    } else if command == 7 && pos + 1 < raw.len() {
        Some(RleHead { head_len: 2, count: next + 17 + 256 * low, payload: RlePayload::Fill(0x00) })
    } else if command == 8 {
        Some(RleHead { head_len: 1, count: low + 1, payload: RlePayload::Copy })
    } else if command == 9 {
        Some(RleHead { head_len: 1, count: low + 17, payload: RlePayload::Copy })
    } else if command == 10 {
        Some(RleHead { head_len: 1, count: low + 33, payload: RlePayload::Copy })
    } else if command == 11 {
        Some(RleHead { head_len: 1, count: low + 49, payload: RlePayload::Copy })
    } else if command == 12 && pos + 1 < raw.len() {
        Some(RleHead { head_len: 2, count: low + 3, payload: RlePayload::Fill(raw[pos + 1]) })
    } else if command == 13 {
        Some(RleHead { head_len: 1, count: low + 2, payload: RlePayload::Fill(0x40) })
    } else if command == 14 {
        Some(RleHead { head_len: 1, count: low + 2, payload: RlePayload::Fill(0x20) })
    } else if command == 15 {
        Some(RleHead { head_len: 1, count: low + 2, payload: RlePayload::Fill(0x00) })
    } else {
        None
    }
}

/// A whole run-length instruction: how many bytes of the stream it takes,
/// and the bytes it produces.
pub ghost struct RleInstruction {
    pub consumed: int,
    pub output: Seq<u8>,
}

/// The instruction that begins at `pos`, if the stream holds a whole
/// instruction of a known command there.
pub open spec fn rle_instruction(raw: Seq<u8>, pos: int) -> Option<RleInstruction> {
    match rle_head(raw, pos) {
        None => None,
        Some(head) => match head.payload {
            RlePayload::Fill(byte) => Some(
                RleInstruction {
                    consumed: head.head_len,
                    output: Seq::new(head.count as nat, |i: int| byte),
                },
            ),
            RlePayload::Copy => if pos + head.head_len + head.count <= raw.len() {
                Some(
                    RleInstruction {
                        consumed: head.head_len + head.count,
                        output: raw.subrange(
                            pos + head.head_len,
                            pos + head.head_len + head.count,
                        ),
                    },
                )
            } else {
                None
            },
        },
    }
}

/// What the instructions from `pos` on add to the bytes `out` that the
/// instructions before `pos` produced, for a row of `row_length` bytes.
///
/// A stream that ends inside an instruction, or holds an unknown command,
/// underflows. An instruction that produces more than the row has room for
/// overflows. A stream that ends before the row is full underflows.
pub open spec fn rle_expand(raw: Seq<u8>, pos: int, out: Seq<u8>, row_length: nat) -> Result<
    Seq<u8>,
    FormatErrorView,
>
    decreases raw.len() - pos,
{
    if pos < 0 || pos >= raw.len() {
        if out.len() == row_length {
            Ok(out)
        } else {
            Err(FormatErrorView::RleUnderflow)
        }
    } else {
        match rle_instruction(raw, pos) {
            None => Err(FormatErrorView::RleUnderflow),
            Some(instruction) => if out.len() + instruction.output.len() > row_length {
                Err(FormatErrorView::RleOverflow)
            } else if instruction.consumed <= 0 {
                Err(FormatErrorView::RleUnderflow)
            } else {
                rle_expand(
                    raw,
                    pos + instruction.consumed,
                    out + instruction.output,
                    row_length,
                )
            },
        }
    }
}

/// The logical bytes of a row of `row_length` bytes that is stored as `raw`.
///
/// An uncompressed row is stored as it is, and must have the row length. A
/// truncated row is stored without the zero bytes that end it, and must not
/// be longer than the row length. A run-length encoded row is the output of
/// its instructions, which must fill the row exactly.
pub open spec fn decompress_spec(raw: Seq<u8>, row_length: nat, mode: Compression) -> Result<
    Seq<u8>,
    FormatErrorView,
> {
    match mode {
        Compression::Uncompressed => if raw.len() == row_length {
            Ok(raw)
        } else {
            Err(FormatErrorView::RowLengthMismatch)
        },
        Compression::Truncated => if raw.len() <= row_length {
            Ok(raw + Seq::new((row_length - raw.len()) as nat, |i: int| 0u8))
        } else {
            Err(FormatErrorView::RowLengthMismatch)
        },
        Compression::Rle => rle_expand(raw, 0, Seq::empty(), row_length),
    }
}

/// The head of an instruction, as the decoder holds it.
struct RleRun {
    head_len: usize,
    count: usize,
    fill: Option<u8>,
}

impl RleRun {
    spec fn head(self) -> RleHead {
        RleHead {
            head_len: self.head_len as int,
            count: self.count as int,
            payload: match self.fill {
                Some(byte) => RlePayload::Fill(byte),
                None => RlePayload::Copy,
            },
        }
    }
}

fn read_rle_head(raw: &[u8], pos: usize) -> (r: Option<RleRun>)
    requires
        pos < raw.len(),
    ensures
        match r {
            Some(run) => rle_head(raw@, pos as int) == Some(run.head()),
            None => rle_head(raw@, pos as int) is None,
        },
        r is Some ==> 1 <= r->Some_0.head_len <= 3 && 1 <= r->Some_0.count <= 4200,
{
    let control = raw[pos];
    let command = control / 16;
    let low = (control % 16) as usize;
    let len = raw.len();
    let has_next = len - pos > 1;
    if command == 0 && has_next {
        Some(RleRun { head_len: 2, count: raw[pos + 1] as usize + 64 + 256 * low, fill: None })
    } else if command == 4 && len - pos > 2 {
        Some(
            RleRun {
                head_len: 3,
                count: raw[pos + 1] as usize + 18 + 256 * low,
                fill: Some(raw[pos + 2]),
            },
        )
    } else if command == 6 && has_next {
        Some(
            RleRun { head_len: 2, count: raw[pos + 1] as usize + 17 + 256 * low, fill: Some(0x20) },
        )
    } else if command == 7 && has_next {
        Some(
            RleRun { head_len: 2, count: raw[pos + 1] as usize + 17 + 256 * low, fill: Some(0x00) },
        )
    } else if command == 8 {
        Some(RleRun { head_len: 1, count: low + 1, fill: None })
    } else if command == 9 {
        Some(RleRun { head_len: 1, count: low + 17, fill: None })
    } else if command == 10 {
        Some(RleRun { head_len: 1, count: low + 33, fill: None })
    } else if command == 11 {
        Some(RleRun { head_len: 1, count: low + 49, fill: None })
    } else if command == 12 && has_next {
        Some(RleRun { head_len: 2, count: low + 3, fill: Some(raw[pos + 1]) })
    } else if command == 13 {
        Some(RleRun { head_len: 1, count: low + 2, fill: Some(0x40) })
    } else if command == 14 {
        Some(RleRun { head_len: 1, count: low + 2, fill: Some(0x20) })
    } else if command == 15 {
        Some(RleRun { head_len: 1, count: low + 2, fill: Some(0x00) })
    } else {
        None
    }
}

fn append_fill(out: &mut Vec<u8>, byte: u8, count: usize)
    ensures
        final(out)@ == old(out)@ + Seq::new(count as nat, |i: int| byte),
{
    let mut i: usize = 0;
    while i < count
        invariant
            i <= count,
            out@ == old(out)@ + Seq::new(i as nat, |j: int| byte),
        decreases count - i,
    {
        out.push(byte);
        i += 1;
        assert(out@ =~= old(out)@ + Seq::new(i as nat, |j: int| byte));
    }
}

fn append_copy(out: &mut Vec<u8>, source: &[u8], start: usize, count: usize)
    requires
        start + count <= source.len(),
    ensures
        final(out)@ == old(out)@ + source@.subrange(start as int, start + count),
{
    let mut i: usize = 0;
    assert(out@ =~= old(out)@ + source@.subrange(start as int, start + 0));
    while i < count
        invariant
            i <= count,
            start + count <= source.len(),
            out@ == old(out)@ + source@.subrange(start as int, start + i),
        decreases count - i,
    {
        out.push(source[start + i]);
        i += 1;
        assert(out@ =~= old(out)@ + source@.subrange(start as int, start + i));
    }
}

fn expand_rle(raw: &[u8], row_length: usize) -> (r: Result<Vec<u8>, FormatError>)
    ensures
        match r {
            Ok(row) => rle_expand(raw@, 0, Seq::empty(), row_length as nat) == Ok::<
                Seq<u8>,
                FormatErrorView,
            >(row@),
            Err(e) => rle_expand(raw@, 0, Seq::empty(), row_length as nat) == Err::<
                Seq<u8>,
                FormatErrorView,
            >(e@),
        },
        r is Ok ==> r->Ok_0@.len() == row_length,
{
    let mut out: Vec<u8> = Vec::new();
    let mut pos: usize = 0;
    let len = raw.len();
    while pos < len
        invariant
            pos <= len,
            len == raw@.len(),
            out@.len() <= row_length,
            rle_expand(raw@, 0, Seq::empty(), row_length as nat) == rle_expand(
                raw@,
                pos as int,
                out@,
                row_length as nat,
            ),
        decreases len - pos,
    {
        let run = match read_rle_head(raw, pos) {
            Some(run) => run,
            None => {
                return Err(FormatError::RleUnderflow);
            },
        };
        let body = pos + run.head_len;
        match run.fill {
            Some(byte) => {
                if run.count > row_length - out.len() {
                    return Err(FormatError::RleOverflow);
                }
                append_fill(&mut out, byte, run.count);
                pos = body;
            },
            None => {
                if run.count > len - body {
                    return Err(FormatError::RleUnderflow);
                }
                if run.count > row_length - out.len() {
                    return Err(FormatError::RleOverflow);
                }
                append_copy(&mut out, raw, body, run.count);
                pos = body + run.count;
            },
        }
    }
    if out.len() == row_length {
        Ok(out)
    } else {
        Err(FormatError::RleUnderflow)
    }
}

/// Restores the logical bytes of one row from its stored bytes.
///
/// A failure is always reported: no row is ever completed with bytes that
/// its stored form does not stand for.
pub fn decompress(raw: &[u8], row_length: usize, mode: Compression) -> (r: Result<
    Vec<u8>,
    FormatError,
>)
    ensures
        match r {
            Ok(row) => decompress_spec(raw@, row_length as nat, mode) == Ok::<
                Seq<u8>,
                FormatErrorView,
            >(row@),
            Err(e) => decompress_spec(raw@, row_length as nat, mode) == Err::<
                Seq<u8>,
                FormatErrorView,
            >(e@),
        },
        r is Ok ==> r->Ok_0@.len() == row_length,
{
    match mode {
        Compression::Uncompressed => {
            if raw.len() != row_length {
                return Err(FormatError::RowLengthMismatch);
            }
            let mut row: Vec<u8> = Vec::new();
            append_copy(&mut row, raw, 0, row_length);
            assert(row@ =~= raw@);
            Ok(row)
        },
        Compression::Truncated => {
            if raw.len() > row_length {
                return Err(FormatError::RowLengthMismatch);
            }
            let mut row: Vec<u8> = Vec::new();
            append_copy(&mut row, raw, 0, raw.len());
            assert(row@ =~= raw@);
            append_fill(&mut row, 0, row_length - raw.len());
            Ok(row)
        },
        Compression::Rle => expand_rle(raw, row_length),
    }
}

/// Every row that decompresses has exactly the row length.
pub proof fn lemma_decompressed_row_has_row_length(
    raw: Seq<u8>,
    row_length: nat,
    mode: Compression,
)
    requires
        decompress_spec(raw, row_length, mode) is Ok,
    ensures
        decompress_spec(raw, row_length, mode)->Ok_0.len() == row_length,
{
    if mode == Compression::Rle {
        lemma_expanded_row_has_row_length(raw, 0, Seq::empty(), row_length);
    }
}

/// Every row that the instructions from `pos` on complete has exactly the
/// row length.
pub proof fn lemma_expanded_row_has_row_length(
    raw: Seq<u8>,
    pos: int,
    out: Seq<u8>,
    row_length: nat,
)
    requires
        rle_expand(raw, pos, out, row_length) is Ok,
    ensures
        rle_expand(raw, pos, out, row_length)->Ok_0.len() == row_length,
    decreases raw.len() - pos,
{
    if 0 <= pos < raw.len() {
        let instruction = rle_instruction(raw, pos)->Some_0;
        lemma_expanded_row_has_row_length(
            raw,
            pos + instruction.consumed,
            out + instruction.output,
            row_length,
        );
    }
}

/// An instruction that the whole stream holds is held by every prefix of the
/// stream that reaches its end, and by no prefix that ends inside it.
proof fn lemma_instruction_in_prefix(raw: Seq<u8>, cut: int, pos: int)
    requires
        0 <= pos < cut <= raw.len(),
        rle_instruction(raw, pos) is Some,
    ensures
        pos + rle_instruction(raw, pos)->Some_0.consumed <= cut ==> rle_instruction(
            raw.subrange(0, cut),
            pos,
        ) == rle_instruction(raw, pos),
        pos + rle_instruction(raw, pos)->Some_0.consumed > cut ==> rle_instruction(
            raw.subrange(0, cut),
            pos,
        ) is None,
        rle_instruction(raw, pos)->Some_0.consumed >= 1,
        rle_instruction(raw, pos)->Some_0.output.len() >= 1,
{
    let prefix = raw.subrange(0, cut);
    let head = rle_head(raw, pos)->Some_0;
    assert(prefix[pos] == raw[pos]);
    if pos + head.head_len <= cut {
        if pos + 1 < cut {
            assert(prefix[pos + 1] == raw[pos + 1]);
        }
        if pos + 2 < cut {
            assert(prefix[pos + 2] == raw[pos + 2]);
        }
        assert(rle_head(prefix, pos) == Some(head));
        if head.payload is Copy && pos + head.head_len + head.count <= cut {
            assert(prefix.subrange(pos + head.head_len, pos + head.head_len + head.count)
                =~= raw.subrange(pos + head.head_len, pos + head.head_len + head.count));
        }
    }
}

/// A stream that is cut short underflows: where the whole stream fills its
/// row, no proper prefix of it yields a row, full or short.
pub proof fn lemma_truncated_stream_underflows(raw: Seq<u8>, cut: int, row_length: nat)
    requires
        0 <= cut < raw.len(),
        rle_expand(raw, 0, Seq::empty(), row_length) is Ok,
    ensures
        rle_expand(raw.subrange(0, cut), 0, Seq::empty(), row_length) == Err::<
            Seq<u8>,
            FormatErrorView,
        >(FormatErrorView::RleUnderflow),
{
    lemma_truncated_tail_underflows(raw, cut, 0, Seq::empty(), row_length);
}

proof fn lemma_truncated_tail_underflows(
    raw: Seq<u8>,
    cut: int,
    pos: int,
    out: Seq<u8>,
    row_length: nat,
)
    requires
        0 <= pos <= cut < raw.len(),
        rle_expand(raw, pos, out, row_length) is Ok,
    ensures
        rle_expand(raw.subrange(0, cut), pos, out, row_length) == Err::<Seq<u8>, FormatErrorView>(
            FormatErrorView::RleUnderflow,
        ),
    decreases raw.len() - pos,
{
    let prefix = raw.subrange(0, cut);
    let instruction = rle_instruction(raw, pos)->Some_0;
    if pos == cut {
        lemma_instruction_in_prefix(raw, raw.len() as int, pos);
    } else {
        lemma_instruction_in_prefix(raw, cut, pos);
        if pos + instruction.consumed <= cut {
            lemma_truncated_tail_underflows(
                raw,
                cut,
                pos + instruction.consumed,
                out + instruction.output,
                row_length,
            );
        }
    }
}

} // verus!
