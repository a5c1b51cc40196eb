//! The kinds of files.

use vstd::prelude::*;
use vstd::string::*;
use vstd::utf8::*;
use crate::sas::text::{
    ascii_text,
    is_ascii_bytes,
    lemma_trim_end,
    lemma_trim_start,
    trim_end,
    trim_start,
};

verus! {

/// What a file holds.
#[derive(Debug, PartialEq, Eq, Structural, Clone, Copy)]
pub enum FileType {
    Data,
    Catalog,
}

/// A character of ASCII white space.
pub open spec fn is_blank_char(c: char) -> bool {
    c == ' ' || ('\t' <= c && c <= '\r')
}

/// The lower-case form of an ASCII capital; any other character itself.
pub open spec fn ascii_lower(c: char) -> char {
    if 'A' <= c && c <= 'Z' {
        ((c as u8 + 32) as u8) as char
    } else {
        c
    }
}

/// The text without the white space around it, in lower case.
pub open spec fn normalized(s: Seq<char>) -> Seq<char> {
    trim_start(trim_end(s, |c: char| is_blank_char(c)), |c: char| is_blank_char(c)).map_values(
        |c: char| ascii_lower(c),
    )
}

/// The file kind that a text names: ASCII text that reads `data` or `catalog`,
/// whatever its case and the white space around it.
pub open spec fn file_type_for_text(s: Seq<char>) -> Option<FileType> {
    if !is_ascii_chars(s) {
        None
    } else if normalized(s) == seq!['d', 'a', 't', 'a'] {
        Some(FileType::Data)
    } else if normalized(s) == seq!['c', 'a', 't', 'a', 'l', 'o', 'g'] {
        Some(FileType::Catalog)
    } else {
        None
    }
}

/// The file kind that the bytes of a field name: ASCII bytes whose text
/// names one.
pub open spec fn file_type_for_bytes(field: Seq<u8>) -> Option<FileType> {
    if is_ascii_bytes(field) {
        file_type_for_text(ascii_text(field))
    } else {
        None
    }
}

/// The text that reports a file kind that is neither of the two.
pub open spec fn unknown_file_type_message(s: Seq<char>) -> Seq<char> {
    "Unknown file type: "@ + s + ". Expected either 'data' or 'catalog'."@
}

fn is_blank_ascii(b: u8) -> (r: bool)
    ensures
        r == is_blank_char(b as char),
{
    b == 0x20 || (0x09 <= b && b <= 0x0d)
}

fn lower_ascii(b: u8) -> (r: u8)
    requires
        b < 128,
    ensures
        r as char == ascii_lower(b as char),
{
    if 0x41 <= b && b <= 0x5a {
        b + 32
    } else {
        b
    }
}

impl FileType {
    /// Reads a file kind from text.
    pub fn from_str(value: &str) -> (r: Result<FileType, String>)
        ensures
            match file_type_for_text(value@) {
                Some(kind) => r == Ok::<FileType, String>(kind),
                None => r is Err && r->Err_0@ == unknown_file_type_message(value@),
            },
    {
        if value.is_ascii() {
            let bytes = value.as_bytes();
            proof {
                is_ascii_chars_encode_utf8(value@);
                is_ascii_chars_nat_bound(value@);
            }
            assert(bytes@.len() == value@.len());
            assert(forall|i: int| 0 <= i < bytes@.len() ==> bytes@[i] as char == value@[i]);
            let mut end: usize = bytes.len();
            while end > 0 && is_blank_ascii(bytes[end - 1])
                invariant
                    end <= bytes@.len(),
                    bytes@.len() == value@.len(),
                    forall|i: int| 0 <= i < bytes@.len() ==> bytes@[i] as char == value@[i],
                    forall|i: int| end <= i < value@.len() ==> is_blank_char(#[trigger] value@[i]),
                decreases end,
            {
                end -= 1;
            }
            let mut start: usize = 0;
            while start < end && is_blank_ascii(bytes[start])
                invariant
                    start <= end <= bytes@.len(),
                    bytes@.len() == value@.len(),
                    forall|i: int| 0 <= i < bytes@.len() ==> bytes@[i] as char == value@[i],
                    forall|i: int| 0 <= i < start ==> is_blank_char(#[trigger] value@[i]),
                decreases end - start,
            {
                start += 1;
            }
            let ghost blank = |c: char| is_blank_char(c);
            let ghost kept = value@.subrange(0, end as int);
            let ghost core = value@.subrange(start as int, end as int);
            proof {
                lemma_trim_end(value@, blank, end as int);
                assert forall|i: int| 0 <= i < start implies blank(#[trigger] kept[i]) by {
                    assert(kept[i] == value@[i]);
                }
                lemma_trim_start(kept, blank, start as int);
                assert(kept.subrange(start as int, kept.len() as int) =~= core);
                assert(normalized(value@) == core.map_values(|c: char| ascii_lower(c)));
                assert(forall|i: int|
                    0 <= i < core.len() ==> #[trigger] core[i] == bytes@[start + i] as char);
            }
            let len = end - start;
            if len == 4 && lower_ascii(bytes[start]) == 0x64 && lower_ascii(bytes[start + 1])
                == 0x61 && lower_ascii(bytes[start + 2]) == 0x74 && lower_ascii(bytes[start + 3])
                == 0x61 {
                proof {
                    assert(core[0] == bytes@[start + 0] as char);
                    assert(core[1] == bytes@[start + 1] as char);
                    assert(core[2] == bytes@[start + 2] as char);
                    assert(core[3] == bytes@[start + 3] as char);
                    assert(normalized(value@) =~= seq!['d', 'a', 't', 'a']);
                }
                return Ok(FileType::Data);
            }
            if len == 7 && lower_ascii(bytes[start]) == 0x63 && lower_ascii(bytes[start + 1])
                == 0x61 && lower_ascii(bytes[start + 2]) == 0x74 && lower_ascii(bytes[start + 3])
                == 0x61 && lower_ascii(bytes[start + 4]) == 0x6c && lower_ascii(bytes[start + 5])
                == 0x6f && lower_ascii(bytes[start + 6]) == 0x67 {
                proof {
                    assert(core[0] == bytes@[start + 0] as char);
                    assert(core[1] == bytes@[start + 1] as char);
                    assert(core[2] == bytes@[start + 2] as char);
                    assert(core[3] == bytes@[start + 3] as char);
                    assert(core[4] == bytes@[start + 4] as char);
                    assert(core[5] == bytes@[start + 5] as char);
                    assert(core[6] == bytes@[start + 6] as char);
                    assert(normalized(value@) =~= seq!['c', 'a', 't', 'a', 'l', 'o', 'g']);
                    assert(seq!['c', 'a', 't', 'a', 'l', 'o', 'g'].len() != seq![
                        'd',
                        'a',
                        't',
                        'a',
                    ].len());
                }
                return Ok(FileType::Catalog);
            }
            proof {
                let t = normalized(value@);
                if t == seq!['d', 'a', 't', 'a'] {
                    assert(t.len() == 4);
                    assert(t[0] == 'd' && t[1] == 'a' && t[2] == 't' && t[3] == 'a');
                    assert(core[0] == bytes@[start + 0] as char);
                    assert(core[1] == bytes@[start + 1] as char);
                    assert(core[2] == bytes@[start + 2] as char);
                    assert(core[3] == bytes@[start + 3] as char);
                    assert(false);
                }
                if t == seq!['c', 'a', 't', 'a', 'l', 'o', 'g'] {
                    assert(t.len() == 7);
                    assert(t[0] == 'c' && t[1] == 'a' && t[2] == 't' && t[3] == 'a' && t[4] == 'l'
                        && t[5] == 'o' && t[6] == 'g');
                    assert(core[0] == bytes@[start + 0] as char);
                    assert(core[1] == bytes@[start + 1] as char);
                    assert(core[2] == bytes@[start + 2] as char);
                    assert(core[3] == bytes@[start + 3] as char);
                    assert(core[4] == bytes@[start + 4] as char);
                    assert(core[5] == bytes@[start + 5] as char);
                    assert(core[6] == bytes@[start + 6] as char);
                    assert(false);
                }
            }
        }
        let mut message = String::from_str("Unknown file type: ");
        message.append(value);
        message.append(". Expected either 'data' or 'catalog'.");
        Err(message)
    }
}

} // verus!
