//! The makers of operating systems that a header can name.

use vstd::prelude::*;
use vstd::string::*;
use crate::sas::text::str_eq;

verus! {

/// The maker of the operating system that wrote the file.
#[derive(Debug, PartialEq, Eq, Structural, Clone, Copy)]
pub enum OsMaker {
    Sun,
    Ibm,
    Win,
}

/// The maker that a text names, if any.
pub open spec fn os_maker_for_text(s: Seq<char>) -> Option<OsMaker> {
    if s == "SUN"@ {
        Some(OsMaker::Sun)
    } else if s == "IBM"@ {
        Some(OsMaker::Ibm)
    } else if s == "WIN"@ {
        Some(OsMaker::Win)
    } else {
        None
    }
}

/// The text that reports a maker outside the three known ones.
pub open spec fn unknown_os_maker_message(s: Seq<char>) -> Seq<char> {
    "Unknown OS maker code from binary: "@ + s + ". Expected either SUN, IBM, or WIN."@
}

impl OsMaker {
    /// Reads a maker from its three-letter name; any other text is reported.
    pub fn from_ascii(value: String) -> (r: Result<Self, String>)
        ensures
            match os_maker_for_text(value@) {
                Some(maker) => r == Ok::<Self, String>(maker),
                None => r is Err && r->Err_0@ == unknown_os_maker_message(value@),
            },
    {
        if str_eq(value.as_str(), "SUN") {
            Ok(OsMaker::Sun)
        } else if str_eq(value.as_str(), "IBM") {
            Ok(OsMaker::Ibm)
        } else if str_eq(value.as_str(), "WIN") {
            Ok(OsMaker::Win)
        } else {
            let mut message = String::from_str("Unknown OS maker code from binary: ");
            message.append(value.as_str());
            message.append(". Expected either SUN, IBM, or WIN.");
            Err(message)
        }
    }
}

} // verus!
