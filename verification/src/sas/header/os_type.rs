//! The families of operating systems that a header can name.

use vstd::prelude::*;
use vstd::string::*;

verus! {

/// The family of the operating system that wrote the file.
#[derive(Debug, PartialEq, Eq, Structural, Clone, Copy)]
pub enum OsType {
    Windows,
    Unix,
}

/// The family that an OS-type character stands for, if any.
pub open spec fn os_type_for_char(c: char) -> Option<OsType> {
    if c == '1' {
        Some(OsType::Unix)
    } else if c == '2' {
        Some(OsType::Windows)
    } else {
        None
    }
}

/// The text that reports an OS-type character outside the two known codes.
pub open spec fn unknown_os_type_message(c: char) -> Seq<char> {
    "Unknown OS type code from binary: "@.push(c)
        + ". Expected either 1 for Unix or 2 for Windows."@
}

impl OsType {
    /// Resolves an OS-type character: `1` is Unix, `2` is Windows, and every
    /// other character is reported.
    pub fn from_char(value: char) -> (r: Result<Self, String>)
        ensures
            match os_type_for_char(value) {
                Some(os) => r == Ok::<Self, String>(os),
                None => r is Err && r->Err_0@ == unknown_os_type_message(value),
            },
    {
        match value {
            '1' => Ok(OsType::Unix),
            '2' => Ok(OsType::Windows),
            _ => {
                let mut message = String::from_str("Unknown OS type code from binary: ");
                message.push(value);
                message.append(". Expected either 1 for Unix or 2 for Windows.");
                Err(message)
            },
        }
    }

    /// Resolves the OS-type byte of a header, read as one character.
    pub fn from_u8(value: u8) -> (r: Result<Self, String>)
        ensures
            match os_type_for_char(value as char) {
                Some(os) => r == Ok::<Self, String>(os),
                None => r is Err && r->Err_0@ == unknown_os_type_message(value as char),
            },
    {
        let ascii_value = value as char;
        Self::from_char(ascii_value)
    }
}

} // verus!
