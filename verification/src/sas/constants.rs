//! The fixed values of the format.

use vstd::prelude::*;

verus! {

/// The 32 bytes that every file begins with.
pub open spec fn magic_number() -> Seq<u8> {
    seq![
        0x00u8, 0x00u8, 0x00u8, 0x00u8, 0x00u8, 0x00u8, 0x00u8, 0x00u8,
        0x00u8, 0x00u8, 0x00u8, 0x00u8, 0xc2u8, 0xeau8, 0x81u8, 0x60u8,
        0xb3u8, 0x14u8, 0x11u8, 0xcfu8, 0xbdu8, 0x92u8, 0x08u8, 0x00u8,
        0x09u8, 0xc7u8, 0x31u8, 0x8cu8, 0x18u8, 0x1fu8, 0x10u8, 0x11u8,
    ]
}

/// The fixed values of the format.
#[derive(Debug, Clone)]
pub struct SasConstants {
    pub magic_number: [u8; 32],
    pub file_header_size_32_bit: u32,
    pub file_header_size_64_bit: u32,
    pub default_page_size: u32,
}

impl SasConstants {
    pub fn new() -> (r: Self)
        ensures
            r.magic_number@ == magic_number(),
            r.file_header_size_32_bit == 1024,
            r.file_header_size_64_bit == 8192,
            r.default_page_size == 4096,
    {
        let magic_number: [u8; 32] = [
            0x00, 0x00, 0x00, 0x00, 0x00, 0x00, 0x00, 0x00, 0x00, 0x00, 0x00, 0x00, 0xc2, 0xea,
            0x81, 0x60, 0xb3, 0x14, 0x11, 0xcf, 0xbd, 0x92, 0x08, 0x00, 0x09, 0xc7, 0x31, 0x8c,
            0x18, 0x1f, 0x10, 0x11,
        ];
        assert(magic_number@ =~= self::magic_number());
        SasConstants {
            magic_number,
            file_header_size_32_bit: 1024,
            file_header_size_64_bit: 8192,
            default_page_size: 4096,
        }
    }
}

impl Default for SasConstants {
    fn default() -> (r: Self)
        ensures
            r.magic_number@ == magic_number(),
            r.file_header_size_32_bit == 1024,
            r.file_header_size_64_bit == 8192,
            r.default_page_size == 4096,
    {
        Self::new()
    }
}

} // verus!
