//! The byte order of a file.

use vstd::prelude::*;
use vstd::string::*;
use crate::sas::text::{decimal, push_decimal};

verus! {

/// The byte order of every multi-byte number in the file.
#[derive(Debug, PartialEq, Eq, Structural, Clone, Copy)]
pub enum Endianness {
    Big,
    Little,
}

/// The byte order that an endianness byte stands for, if any.
pub open spec fn endianness_for_code(code: u8) -> Option<Endianness> {
    if code == 0 {
        Some(Endianness::Big)
    } else if code == 1 {
        Some(Endianness::Little)
    } else {
        None
    }
}

/// The text that reports an endianness byte outside the two known codes.
pub open spec fn unknown_endianness_message(code: u8) -> Seq<char> {
    "Unknown endianness code from binary: "@ + decimal(code as nat)
        + ". Expected either 0 for Big or 1 for Little."@
}

impl Endianness {
    /// Resolves the endianness byte of a header: 0 is big-endian, 1 is
    /// little-endian, and every other byte is reported, never defaulted.
    pub fn from_u8(value: u8) -> (r: Result<Self, String>)
        ensures
            match endianness_for_code(value) {
                Some(e) => r == Ok::<Self, String>(e),
                None => r is Err && r->Err_0@ == unknown_endianness_message(value),
            },
    {
        match value {
            0x00 => Ok(Endianness::Big),
            0x01 => Ok(Endianness::Little),
            _ => {
                let mut message = String::from_str("Unknown endianness code from binary: ");
                push_decimal(&mut message, value);
                message.append(". Expected either 0 for Big or 1 for Little.");
                Err(message)
            },
        }
    }
}

} // verus!
