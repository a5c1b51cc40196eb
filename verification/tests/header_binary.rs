use sas_reader_2000::sas::{
    Encoding, Endianness, FileType, FormatError, OsMaker, OsType, SasHeaderBinary,
};

const MAGIC_NUMBER: [u8; 32] = [
    0x00, 0x00, 0x00, 0x00, 0x00, 0x00, 0x00, 0x00, 0x00, 0x00, 0x00, 0x00, 0xc2, 0xea, 0x81, 0x60,
    0xb3, 0x14, 0x11, 0xcf, 0xbd, 0x92, 0x08, 0x00, 0x09, 0xc7, 0x31, 0x8c, 0x18, 0x1f, 0x10, 0x11,
];

/// The header of a small dataset named HADLEY, as release 9.4 writes it on
/// 64-bit Windows: narrow offsets, no padding, little-endian, Windows-1252.
fn sample_file_bytes() -> Vec<u8> {
    let mut bytes = vec![0_u8; 8192];
    bytes[..32].copy_from_slice(&MAGIC_NUMBER);
    let flags = [0x22, 0x22, 0x00, 0x32, 0x22, 0x01, 0x02, 0x32];
    bytes[32..40].copy_from_slice(&flags);
    bytes[56..64].copy_from_slice(&flags);
    bytes[70] = 62;
    bytes[84..92].copy_from_slice(b"SAS FILE");
    bytes[92..156].fill(b' ');
    bytes[92..98].copy_from_slice(b"HADLEY");
    bytes[156..164].copy_from_slice(b"DATA    ");
    bytes[164..172].copy_from_slice(&1_700_000_000.0_f64.to_le_bytes());
    bytes[172..180].copy_from_slice(&1_700_000_060.0_f64.to_le_bytes());
    bytes[196..200].copy_from_slice(&1024_u32.to_le_bytes());
    bytes[200..204].copy_from_slice(&4096_u32.to_le_bytes());
    bytes[204..208].copy_from_slice(&1_u32.to_le_bytes());
    bytes[216..224].copy_from_slice(b"9.0401M1");
    bytes[224..232].copy_from_slice(b"X64_8PRO");
    bytes
}

fn fix_bytes_for_a1_4(bytes: &mut [u8]) {
    bytes[35] = 0x33; // This makes a1=4
}

fn fix_bytes_for_a2_4(bytes: &mut [u8]) {
    bytes[32] = 0x33; // This makes a2=4
}

fn fix_bytes_for_little_endian(bytes: &mut [u8]) {
    bytes[37] = 0x01; // The numbers that follow are little-endian
}

fn header_from_test_file() -> SasHeaderBinary {
    let bytes = sample_file_bytes();
    SasHeaderBinary::new(&bytes)
}

#[test]
fn binary_can_create_sas_header() {
    let bytes = sample_file_bytes();
    let header = SasHeaderBinary::new(&bytes);

    assert_eq!(header.bytes, bytes);
}

#[test]
fn binary_can_validate_sas_file() {
    let header = header_from_test_file();
    assert!(header.validate_sas_file().is_ok());
}

#[test]
fn binary_can_get_magic_number_from_header() {
    let expected: [u8; 32] = [
        0x00, 0x00, 0x00, 0x00, 0x00, 0x00, 0x00, 0x00, 0x00, 0x00, 0x00, 0x00, 0xc2, 0xea,
        0x81, 0x60, 0xb3, 0x14, 0x11, 0xcf, 0xbd, 0x92, 0x08, 0x00, 0x09, 0xc7, 0x31, 0x8c,
        0x18, 0x1f, 0x10, 0x11,
    ];

    let header = header_from_test_file();
    assert_eq!(header.get_magic_number_from_header(), &expected);
}

#[test]
fn binary_can_get_sas_file_from_header() {
    let header = header_from_test_file();
    let bytes = &header.bytes;
    assert_eq!(header.get_sas_file_string_from_header(), &bytes[84..92]);
}

#[test]
fn binary_can_get_sas_file_from_header_as_string() {
    let header = header_from_test_file();
    assert_eq!(
        header.get_sas_file_from_header_as_str(),
        "SAS FILE".to_string()
    );
}

#[test]
fn binary_can_get_sas_filename_from_header() {
    let header = header_from_test_file();
    assert_eq!(
        header.get_sas_filename_from_header().to_lowercase(),
        "hadley".to_string()
    );
}

#[test]
fn binary_can_get_alignment_from_header1() {
    let header = header_from_test_file();
    let bytes = &header.bytes;
    let expected = if bytes[32] == 0x33 { 4 } else { 0 };

    assert_eq!(header.get_alignment_from_header1(), expected);
}

#[test]
fn binary_can_get_alignment_from_header2() {
    let header = header_from_test_file();
    let bytes = &header.bytes;
    let expected = if bytes[35] == 0x33 { 4 } else { 0 };

    assert_eq!(header.get_alignment_from_header2(), expected);
}

#[test]
fn binary_can_get_endianness_from_header() {
    let header = header_from_test_file();
    let bytes = &header.bytes;
    let endianness_from_bytes = Endianness::from_u8(bytes[37]);
    let endianness_from_header = header.get_endianness_from_header();

    assert_eq!(endianness_from_bytes, endianness_from_header);
}

#[test]
fn binary_can_get_os_type_from_header_when_unix() {
    let mut bytes = vec![0_u8; 8192];
    bytes[39] = b'1';

    let header = SasHeaderBinary::new(bytes.as_slice());

    // 1 = Unix, 2 = Windows
    assert_eq!(header.get_os_type_from_header().unwrap(), OsType::Unix);
}

#[test]
fn binary_can_get_os_type_from_header_when_windows() {
    let mut bytes = vec![0_u8; 8192];
    bytes[39] = b'2';

    let header = SasHeaderBinary::new(bytes.as_slice());

    // 1 = Unix, 2 = Windows
    assert_eq!(header.get_os_type_from_header().unwrap(), OsType::Windows);
}

#[test]
#[should_panic(
    expected = "Unknown OS type code from binary: 3. Expected either 1 for Unix or 2 for Windows."
)]
fn binary_cannot_get_os_type_from_header_when_invalid() {
    let mut bytes = vec![0_u8; 8192];
    bytes[39] = b'3'; // Invalid OS type -> should panic

    let header = SasHeaderBinary::new(bytes.as_slice());

    // 1 = Unix, 2 = Windows
    header.get_os_type_from_header().unwrap();
}

#[test]
fn can_validate_positions_56_to_64_when_actually_valid() {
    // Validate that positions 56 to 64 match positions 32 to 40
    let valid_bytes = (0..8192)
        .map(|i| {
            if (32..=40).contains(&i) {
                (i - 32 + 1) as u8
            } else if (56..=63).contains(&i) {
                (i - 56 + 1) as u8
            } else {
                0
            }
        })
        .collect::<Vec<u8>>();

    let header = SasHeaderBinary::new(&valid_bytes);
    assert!(header.is_56_to_64_valid());
}

#[test]
fn can_validate_positions_56_to_64_when_actually_invalid() {
    let invalid_bytes = (0..8192)
        .map(|i| {
            if (56..=63).contains(&i) {
                (i - 56 + 2) as u8
            } else {
                0
            }
        })
        .collect::<Vec<u8>>();

    let header = SasHeaderBinary::new(&invalid_bytes);
    assert!(!header.is_56_to_64_valid());
}

#[test]
fn binary_can_get_character_encoding() {
    let header = header_from_test_file();
    let encoding = header.get_character_encoding_from_header();
    assert_eq!(encoding, Ok(Encoding::Windows1252));
}

#[test]
fn can_get_character_encoding_when_latin1() {
    let mut bytes = vec![0_u8; 8192];
    bytes[70] = 29;

    let header = SasHeaderBinary::new(bytes.as_slice());

    let encoding = header.get_character_encoding_from_header();
    assert_eq!(encoding, Ok(Encoding::Iso8859_1));
}

#[test]
fn can_get_ascii_file_type_from_header() {
    let header = header_from_test_file();
    let raw_file_type = header.get_raw_ascii_file_type_from_header();
    assert_eq!(raw_file_type, Ok("DATA    ".to_string()));

    let file_type = header.get_ascii_file_type_from_header();
    assert_eq!(file_type, Ok(FileType::Data));
}

#[test]
fn test_get_a1_when_it_should_be_0() {
    let bytes = vec![0_u8; 8192];

    let header = SasHeaderBinary::new(&bytes);
    let a1 = header.get_a1();
    assert_eq!(a1, 0);
}

#[test]
fn test_get_a1_when_it_should_be_4() {
    let mut bytes = vec![0_u8; 8192];
    fix_bytes_for_a1_4(&mut bytes);

    let header = SasHeaderBinary::new(&bytes);
    let a1 = header.get_a1();
    assert_eq!(a1, 4);
}

#[test]
fn test_get_a2_when_it_should_be_0() {
    let bytes = vec![0_u8; 8192];

    let header = SasHeaderBinary::new(&bytes);
    let a2 = header.get_a2();
    assert_eq!(a2, 0);
}

#[test]
fn test_get_a2_when_it_should_be_4() {
    let mut bytes = vec![0_u8; 8192];
    bytes[32] = 0x33; // This makes a2=4

    let header = SasHeaderBinary::new(&bytes);
    let a2 = header.get_a2();
    assert_eq!(a2, 4);
}

#[test]
fn can_get_creation_timestamp_offset_when_a1_eq_0() {
    let bytes = vec![0_u8; 8192];

    let header = SasHeaderBinary::new(&bytes);
    let a1 = header.get_a1();
    assert_eq!(a1, 0);

    let ts_offset = header.get_creation_ts_offset();
    assert_eq!(ts_offset, 164 + a1 as usize);
}

#[test]
fn can_get_creation_timestamp_offset_when_a1_eq_4() {
    let mut bytes = vec![0_u8; 8192];
    bytes[35] = 0x33; // This makes a1=4

    let header = SasHeaderBinary::new(&bytes);
    let a1 = header.get_a1();
    assert_eq!(a1, 4);

    let ts_offset = header.get_creation_ts_offset();
    assert_eq!(ts_offset, 164 + a1 as usize);
}

#[test]
fn can_get_inserted_ts_from_midnight_11_26_1987() {
    let mut bytes = vec![0_u8; 8192];
    fix_bytes_for_little_endian(&mut bytes);

    // 1987-11-26 00:00:00
    let end_ts = chrono::NaiveDateTime::parse_from_str("1987-11-26 00:00:00", "%Y-%m-%d %H:%M:%S")
        .unwrap()
        .and_utc()
        .timestamp();

    // 1960-01-01 00:00:00
    let start_ts = chrono::NaiveDate::from_ymd_opt(1960, 1, 1)
        .unwrap()
        .and_hms_opt(0, 0, 0)
        .unwrap()
        .and_utc()
        .timestamp();

    let n_seconds: f64 = end_ts as f64 - start_ts as f64;

    // insert the timestamp at offset 164
    bytes[164..172].copy_from_slice(&n_seconds.to_le_bytes());

    let header = SasHeaderBinary::new(&bytes);
    let ts = f64::from_bits(header.get_creation_timestamp_bits_from_header().unwrap());
    assert!((ts - n_seconds).abs() < 1.0e-6);
}

#[test]
fn can_get_modification_timestamp_offset_when_a1_eq_0() {
    let bytes = vec![0_u8; 8192];

    let header = SasHeaderBinary::new(&bytes);
    let a1 = header.get_a1();
    assert_eq!(a1, 0);

    let ts_offset = header.get_modification_ts_offset();
    assert_eq!(ts_offset, 172 + a1 as usize);
}

#[test]
fn can_get_modification_timestamp_offset_when_a1_eq_4() {
    let mut bytes = vec![0_u8; 8192];
    bytes[35] = 0x33; // This makes a1=4

    let header = SasHeaderBinary::new(&bytes);
    let a1 = header.get_a1();
    assert_eq!(a1, 4);

    let ts_offset = header.get_modification_ts_offset();
    assert_eq!(ts_offset, 172 + a1 as usize);
}

#[test]
fn can_get_header_length() {
    let bytes = vec![0_u8; 8192];
    let header = SasHeaderBinary::new(&bytes);
    let header_len = header.get_header_length_from_header().unwrap();

    assert_eq!(header_len, 0);
}

#[test]
fn can_get_header_length_when_a1_eq_0_and_byte_200_eq_9() {
    let mut bytes = vec![0_u8; 8192];
    fix_bytes_for_little_endian(&mut bytes);
    bytes[200] = 9; // This does not affect header length

    let header = SasHeaderBinary::new(&bytes);
    let header_len = header.get_header_length_from_header().unwrap();

    assert_eq!(header_len, 0);

    bytes[196] = 9; // This makes header length = 9
    let header = SasHeaderBinary::new(&bytes);
    let header_len = header.get_header_length_from_header().unwrap();

    assert_eq!(header_len, 9);
}

#[test]
fn can_get_header_length_when_a1_eq_4_and_byte_200_eq_9() {
    let mut bytes = vec![0_u8; 8192];
    fix_bytes_for_little_endian(&mut bytes);
    bytes[35] = 0x33; // This makes a1=4
    bytes[200] = 9; // This makes header length = 9

    let header = SasHeaderBinary::new(&bytes);
    let header_len = header.get_header_length_from_header().unwrap();

    assert_eq!(header_len, 9);

    bytes[200] = 0; // This resets header length to 0
    bytes[196] = 9; // This does not affect header length

    let header = SasHeaderBinary::new(&bytes);
    let header_len = header.get_header_length_from_header().unwrap();

    assert_eq!(header_len, 0);
}

#[test]
fn can_get_header_len_when_a1_eq_0_and_len_forced_to_be_8192() {
    let mut bytes = vec![0_u8; 8192];
    fix_bytes_for_little_endian(&mut bytes);
    bytes[196..200].copy_from_slice(&8192_i32.to_le_bytes());

    let header = SasHeaderBinary::new(&bytes);
    let header_len = header.get_header_length_from_header().unwrap();

    assert_eq!(header_len, 8192);
}

#[test]
fn can_get_header_len_when_a1_eq_4_and_len_forced_to_be_8192() {
    let mut bytes = vec![0_u8; 8192];
    fix_bytes_for_little_endian(&mut bytes);
    bytes[35] = 0x33; // This makes a1=4

    // Since a1=4, the header length is at offset 200,
    // so this won't affect the header length:
    bytes[196..200].copy_from_slice(&8192_i32.to_le_bytes());

    let header = SasHeaderBinary::new(&bytes);
    let header_len = header.get_header_length_from_header().unwrap();

    assert_eq!(header_len, 0);

    // Now set the header length at offset 200
    bytes[200..204].copy_from_slice(&8192_i32.to_le_bytes());

    let header = SasHeaderBinary::new(&bytes);
    let header_len = header.get_header_length_from_header().unwrap();

    assert_eq!(header_len, 8192);
}

#[test]
fn can_get_page_size_from_header_when_a1_eq_0() {
    let mut bytes = vec![0_u8; 8192];
    fix_bytes_for_little_endian(&mut bytes);
    bytes[200..204].copy_from_slice(&20_i32.to_le_bytes());

    let header = SasHeaderBinary::new(&bytes);
    let page_size = header.get_page_size_from_header().unwrap();

    assert_eq!(page_size, 20);
}

#[test]
fn can_get_page_size_from_header_when_a1_eq_4() {
    let mut bytes = vec![0_u8; 8192];
    fix_bytes_for_little_endian(&mut bytes);
    bytes[35] = 0x33; // This makes a1=4

    // Since a1=4, the page size is at offset 204,
    // so this won't affect the page size:
    bytes[200..204].copy_from_slice(&20_i32.to_le_bytes());

    let header = SasHeaderBinary::new(&bytes);
    let page_size = header.get_page_size_from_header().unwrap();

    assert_eq!(page_size, 0);

    // Now set the page size at offset 204
    bytes[204..208].copy_from_slice(&20_i32.to_le_bytes());

    let header = SasHeaderBinary::new(&bytes);
    let page_size = header.get_page_size_from_header().unwrap();

    assert_eq!(page_size, 20);
}

fn test_page_count_a2_0(desired_page_count: i32, a1: u8) {
    let mut bytes = vec![0_u8; 8192];
    fix_bytes_for_little_endian(&mut bytes);
    let a1_byte = if a1 == 4 { 0x33 } else { 0 };

    bytes[35] = a1_byte;

    bytes[204 + a1 as usize..208 + a1 as usize]
        .copy_from_slice(&desired_page_count.to_le_bytes());

    let header = SasHeaderBinary::new(&bytes);

    let page_count_len = header.get_page_count_len();
    println!("page_count_len: {}", page_count_len);

    let a2_byte = bytes[32];
    println!("a2_byte: {}", a2_byte);

    let page_count = header.get_page_count_from_header().unwrap();

    assert_eq!(page_count, desired_page_count as u64);
}

fn test_page_count_a2_4(desired_page_count: i64, a1: u8) {
    let mut bytes = vec![0_u8; 8192];
    fix_bytes_for_little_endian(&mut bytes);
    let a1_byte = if a1 == 4 { 0x33 } else { 0 };
    let a2_byte = 0x33_u8;

    bytes[35] = a1_byte;
    bytes[32] = a2_byte;

    bytes[204 + a1 as usize..212 + a1 as usize]
        .copy_from_slice(&desired_page_count.to_le_bytes());

    let header = SasHeaderBinary::new(&bytes);
    let page_count = header.get_page_count_from_header().unwrap();

    assert_eq!(page_count, desired_page_count as u64);
}

#[test]
fn can_get_page_count_from_header_when_a1_0_a2_0_pagesize_20() {
    test_page_count_a2_0(20, 0);
}

#[test]
fn can_get_page_count_from_header_when_a1_4_a2_0_pagesize_30() {
    test_page_count_a2_0(30, 4);
}

#[test]
fn can_get_page_count_from_header_when_a1_0_a2_4_pagesize_40() {
    test_page_count_a2_4(40, 0);
}

#[test]
fn can_get_page_count_from_header_when_a1_4_a2_4_pagesize_50() {
    test_page_count_a2_4(50, 4);
}

#[test]
fn can_get_sas_release_from_header() {
    let header = header_from_test_file();
    let sas_release = header.get_sas_release_from_header();
    let expected = "9.0401M1".to_string();
    assert_eq!(sas_release, expected);
}

#[test]
fn can_get_host_sas_server_type_from_header() {
    let header = header_from_test_file();
    let host_sas_server_type = header.get_host_sas_server_type_from_header();
    let expected = "X64_8PRO".to_string();
    assert_eq!(host_sas_server_type, expected);
}

#[test]
fn can_get_os_version_number_from_header_when_not_unix() {
    let header = header_from_test_file();
    let os_version_number = header.get_os_version_number_from_header();
    let expected = None;
    assert_eq!(os_version_number, expected);
}

fn test_os_version_number(a1: u8, a2: u8) {
    let mut bytes = vec![0_u8; 8192];
    bytes[39] = b'1'; // Unix

    if a1 == 4 {
        fix_bytes_for_a1_4(&mut bytes);
    }

    if a2 == 4 {
        fix_bytes_for_a2_4(&mut bytes);
    }

    let start: usize = 240 + a1 as usize + a2 as usize;
    let end: usize = start + 16;
    let range = start..end;
    let padded_replacement_value = [
        // "UNIX_IBM" padded with null bytes
        b'U', b'N', b'I', b'X', b'_', b'I', b'B', b'M', 0, 0, 0, 0, 0, 0, 0, 0,
    ];
    bytes[range].copy_from_slice(&padded_replacement_value);

    let header = SasHeaderBinary::new(&bytes);
    let os_version_number = header.get_os_version_number_from_header();
    let expected = Some("UNIX_IBM".to_string());
    assert_eq!(os_version_number, expected);
}

#[test]
fn can_get_os_version_number_from_header_when_unix_a1_0_a2_0() {
    test_os_version_number(0, 0);
}

#[test]
fn can_get_os_version_number_from_header_when_unix_a1_4_a2_0() {
    test_os_version_number(4, 0);
}

#[test]
fn can_get_os_version_number_from_header_when_unix_a1_0_a2_4() {
    test_os_version_number(0, 4);
}

#[test]
fn can_get_os_version_number_from_header_when_unix_a1_4_a2_4() {
    test_os_version_number(4, 4);
}

#[test]
fn can_get_os_maker_or_version_from_header() {
    let mut bytes = vec![0_u8; 8192];
    bytes[39] = b'1'; // Unix: only a Unix header records the maker
    let a1 = 4;
    let a2 = 4;

    fix_bytes_for_a1_4(bytes.as_mut_slice());
    fix_bytes_for_a2_4(bytes.as_mut_slice());

    let start: usize = 256 + a1 as usize + a2 as usize;
    let end: usize = start + 16;
    let range = start..end;

    let padded_replacement_value = [
        // "IBM" padded with null bytes
        b'I', b'B', b'M', 0, 0, 0, 0, 0, 0, 0, 0, 0, 0, 0, 0, 0,
    ];

    bytes[range].copy_from_slice(&padded_replacement_value);

    let header = SasHeaderBinary::new(&bytes);
    let os_version = header.get_os_maker_or_version_from_header();
    let expected = OsMaker::from_ascii("IBM".to_string()).unwrap();
    assert_eq!(os_version, Some(expected));
}

#[test]
fn os_maker_is_absent_unless_the_header_is_from_unix() {
    let mut bytes = vec![0_u8; 8192];
    bytes[256..259].copy_from_slice(b"IBM");
    for os_type in [0u8, b'2', b'3'] {
        bytes[39] = os_type;
        let header = SasHeaderBinary::new(&bytes);
        assert_eq!(header.get_os_maker_or_version_from_header(), None);
        assert_eq!(header.get_os_version_number_from_header(), None);
    }
    bytes[39] = b'1';
    bytes[256..259].copy_from_slice(b"MAC");
    let header = SasHeaderBinary::new(&bytes);
    assert_eq!(header.get_os_maker_or_version_from_header(), None);
}

#[test]
fn numbers_are_read_in_the_byte_order_of_the_header() {
    let mut bytes = vec![0_u8; 8192];
    bytes[37] = 0x00; // big-endian
    bytes[196..200].copy_from_slice(&8192_u32.to_be_bytes());
    bytes[200..204].copy_from_slice(&4096_u32.to_be_bytes());
    bytes[204..208].copy_from_slice(&77_u32.to_be_bytes());
    bytes[164..172].copy_from_slice(&0x0102_0304_0506_0708_u64.to_be_bytes());
    bytes[172..180].copy_from_slice(&0x1112_1314_1516_1718_u64.to_be_bytes());

    let header = SasHeaderBinary::new(&bytes);
    assert_eq!(header.get_header_length_from_header(), Ok(8192));
    assert_eq!(header.get_page_size_from_header(), Ok(4096));
    assert_eq!(header.get_page_count_from_header(), Ok(77));
    assert_eq!(header.get_creation_timestamp_bits_from_header(), Ok(0x0102_0304_0506_0708));
    assert_eq!(header.get_modification_timestamp_bits_from_header(), Ok(0x1112_1314_1516_1718));

    bytes[37] = 0x01; // little-endian
    let header = SasHeaderBinary::new(&bytes);
    assert_eq!(header.get_header_length_from_header(), Ok(8192_u32.swap_bytes() as usize));
    assert_eq!(header.get_creation_timestamp_bits_from_header(), Ok(0x0807_0605_0403_0201));
}

#[test]
fn wide_page_count_is_read_as_eight_bytes_at_offset_204() {
    let mut bytes = vec![0_u8; 8192];
    bytes[32] = 0x33;
    bytes[35] = 0x00;
    for endianness in [0u8, 1] {
        bytes[37] = endianness;
        let count = 0x0000_0001_0000_0002_u64;
        let field = if endianness == 1 { count.to_le_bytes() } else { count.to_be_bytes() };
        bytes[204..212].copy_from_slice(&field);
        let header = SasHeaderBinary::new(&bytes);
        assert_eq!(header.get_a2(), 4);
        assert_eq!(header.get_a1(), 0);
        assert_eq!(header.get_page_count_len(), 8);
        assert_eq!(header.get_page_count_len_min_offset(), 204);
        assert_eq!(header.get_page_count_from_header(), Ok(count));
    }
}

#[test]
fn numbers_of_a_header_with_an_unknown_byte_order_are_errors() {
    let mut bytes = vec![0_u8; 8192];
    bytes[37] = 0x07;
    let header = SasHeaderBinary::new(&bytes);
    assert_eq!(header.get_header_length_from_header(), Err(FormatError::UnknownEndianness(7)));
    assert_eq!(header.get_page_size_from_header(), Err(FormatError::UnknownEndianness(7)));
    assert_eq!(header.get_page_count_from_header(), Err(FormatError::UnknownEndianness(7)));
    assert_eq!(
        header.get_creation_timestamp_bits_from_header(),
        Err(FormatError::UnknownEndianness(7))
    );
}

#[test]
fn numbers_of_a_short_header_are_errors() {
    let bytes = vec![0_u8; 8192];
    let header = SasHeaderBinary::new(&bytes[..37]);
    assert_eq!(header.get_header_length_from_header(), Err(FormatError::TruncatedHeader));
    let header = SasHeaderBinary::new(&bytes[..199]);
    assert_eq!(header.get_header_length_from_header(), Err(FormatError::TruncatedHeader));
    let header = SasHeaderBinary::new(&bytes[..200]);
    assert_eq!(header.get_header_length_from_header(), Ok(0));
    assert_eq!(header.get_page_size_from_header(), Err(FormatError::TruncatedHeader));
}

#[test]
fn validation_names_the_first_fault() {
    let good = sample_file_bytes();

    let mut bytes = good.clone();
    bytes[12] = 0;
    let header = SasHeaderBinary::new(&bytes);
    assert_eq!(header.validate_sas_file(), Err("Invalid magic number".to_string()));

    let mut bytes = good.clone();
    bytes[84] = b'X';
    let header = SasHeaderBinary::new(&bytes);
    assert_eq!(header.validate_sas_file(), Err("Invalid SAS file".to_string()));

    let mut bytes = good.clone();
    bytes[92..156].fill(b' ');
    let header = SasHeaderBinary::new(&bytes);
    assert_eq!(header.validate_sas_file(), Err("Invalid SAS filename".to_string()));

    let mut bytes = good.clone();
    bytes[92..156].fill(0);
    let header = SasHeaderBinary::new(&bytes);
    assert_eq!(header.validate_sas_file(), Err("Invalid SAS filename".to_string()));

}

#[test]
fn validation_does_not_ask_for_the_repeated_flag_bytes() {
    let mut bytes = sample_file_bytes();
    bytes[60] = 0x77;
    let header = SasHeaderBinary::new(&bytes);
    assert!(!header.is_56_to_64_valid());
    assert_eq!(header.validate_sas_file(), Ok(()));
}

#[test]
fn wrong_magic_number_is_the_fault_of_a_header_of_any_length() {
    let mut bytes = sample_file_bytes();
    bytes[31] ^= 0xff;
    for len in [0, 1, 31, 32, 33, 84, 92, 155, 156, 8192] {
        let header = SasHeaderBinary::new(&bytes[..len]);
        assert_eq!(header.validate_sas_file(), Err("Invalid magic number".to_string()));
    }
    let good = sample_file_bytes();
    for len in [0, 1, 31] {
        let header = SasHeaderBinary::new(&good[..len]);
        assert_eq!(header.validate_sas_file(), Err("Invalid magic number".to_string()));
    }
}

#[test]
fn header_that_ends_before_a_field_fails_the_check_of_that_field() {
    let good = sample_file_bytes();
    for len in [32, 84, 91] {
        let header = SasHeaderBinary::new(&good[..len]);
        assert_eq!(header.validate_sas_file(), Err("Invalid SAS file".to_string()));
    }
    for len in [92, 100, 155] {
        let header = SasHeaderBinary::new(&good[..len]);
        assert_eq!(header.validate_sas_file(), Err("Invalid SAS filename".to_string()));
    }
    let header = SasHeaderBinary::new(&good[..156]);
    assert_eq!(header.validate_sas_file(), Ok(()));
}

#[test]
fn dataset_name_loses_every_white_space_that_ends_it() {
    for blank in [
        "\u{85}", "\u{a0}", "\u{1680}", "\u{2000}", "\u{2005}", "\u{200a}", "\u{2028}",
        "\u{2029}", "\u{202f}", "\u{205f}", "\u{3000}", " ", "\t", "\n", "\u{b}", "\u{c}", "\r",
    ] {
        let mut bytes = sample_file_bytes();
        bytes[92..156].fill(0);
        let name = format!("A B{}\u{a0} {}", blank, blank);
        bytes[92..92 + name.len()].copy_from_slice(name.as_bytes());
        let header = SasHeaderBinary::new(&bytes);
        assert_eq!(header.get_sas_filename_from_header(), "A B".to_string());
        assert_eq!(header.get_sas_filename_from_header(), name.trim_end().to_string());
        assert_eq!(header.validate_sas_file(), Ok(()));

        bytes[92..156].fill(0);
        let name = format!("{}{}", blank, blank);
        bytes[92..92 + name.len()].copy_from_slice(name.as_bytes());
        let header = SasHeaderBinary::new(&bytes);
        assert_eq!(header.get_sas_filename_from_header(), String::new());
        assert_eq!(header.validate_sas_file(), Err("Invalid SAS filename".to_string()));
    }
}

#[test]
fn dataset_name_keeps_what_is_no_white_space() {
    for kept in ["\u{200b}", "\u{180e}", "\u{2060}", "\u{feff}", "\u{84}", "\u{a1}", "\u{200b}x"] {
        let mut bytes = sample_file_bytes();
        bytes[92..156].fill(0);
        let name = format!("A{}", kept);
        bytes[92..92 + name.len()].copy_from_slice(name.as_bytes());
        let header = SasHeaderBinary::new(&bytes);
        assert_eq!(header.get_sas_filename_from_header(), name);
        assert_eq!(name.trim_end(), name);
    }
    // Bytes that end like white space without being it.
    let mut bytes = sample_file_bytes();
    bytes[92..156].fill(0);
    bytes[92..95].copy_from_slice(&[b'A', 0xc3, 0xa0]);
    let header = SasHeaderBinary::new(&bytes);
    assert_eq!(header.get_sas_filename_from_header(), "A\u{e0}".to_string());
}

#[test]
fn dataset_name_loses_padding_then_white_space() {
    let mut bytes = sample_file_bytes();
    bytes[92..156].fill(0);
    bytes[92..99].copy_from_slice(b"AB C \t ");
    let header = SasHeaderBinary::new(&bytes);
    assert_eq!(header.get_sas_filename_from_header(), "AB C".to_string());

    bytes[92..156].fill(b' ');
    bytes[92..94].copy_from_slice(b"A\0");
    let header = SasHeaderBinary::new(&bytes);
    assert_eq!(header.get_sas_filename_from_header(), "A\0".to_string());
}

#[test]
fn text_that_is_no_valid_utf8_is_decoded_with_replacement_characters() {
    let mut bytes = sample_file_bytes();
    bytes[216..224].copy_from_slice(&[b'9', 0xff, b'4', 0, 0, 0, 0, 0]);
    let header = SasHeaderBinary::new(&bytes);
    assert_eq!(header.get_sas_release_from_header(), "9\u{fffd}4".to_string());
}

#[test]
fn file_type_field_that_is_all_padding_is_an_error() {
    let mut bytes = sample_file_bytes();
    bytes[156..164].fill(0);
    let header = SasHeaderBinary::new(&bytes);
    assert_eq!(
        header.get_raw_ascii_file_type_from_header(),
        Err("Invalid ASCII file type".to_string())
    );
    assert_eq!(
        header.get_ascii_file_type_from_header(),
        Err("Invalid ASCII file type".to_string())
    );
}

#[test]
fn text_that_is_valid_utf8_is_decoded_as_it_is() {
    let mut bytes = sample_file_bytes();
    bytes[92..156].fill(0);
    let name = "Caf\u{e9} \u{2603}".as_bytes();
    bytes[92..92 + name.len()].copy_from_slice(name);
    let header = SasHeaderBinary::new(&bytes);
    assert_eq!(header.get_sas_filename_from_header(), "Caf\u{e9} \u{2603}".to_string());
}
