//! The alignment flags of a header.

use vstd::prelude::*;

verus! {

/// The byte that marks an alignment flag as set.
pub const ALIGNMENT_MARKER: u8 = 0x33;

/// The value an alignment flag byte resolves to: 4 for the marker byte, 0 for any other.
pub open spec fn alignment_value(byte: u8) -> u8 {
    if byte == ALIGNMENT_MARKER {
        4
    } else {
        0
    }
}

/// One of the two alignment flags of a header, resolved to the number of
/// extra bytes it inserts (0 or 4).
#[derive(Debug, PartialEq, Eq, Structural, Clone, Copy)]
pub struct Alignment {
    pub value: u8,
}

impl Alignment {
    /// Resolves a raw flag byte.
    pub fn from_u8(value: u8) -> (r: Self)
        ensures
            r.value == alignment_value(value),
            r.value == 0 || r.value == 4,
            r.value == 4 <==> value == ALIGNMENT_MARKER,
    {
        if value == ALIGNMENT_MARKER {
            Alignment { value: 4 }
        } else {
            Alignment { value: 0 }
        }
    }
}

} // verus!
