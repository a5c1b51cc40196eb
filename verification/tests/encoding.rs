use sas_reader_2000::sas::Encoding;

#[test]
fn can_get_encoding_from_code() {
    let encoding = Encoding::from_u8(0);
    assert_eq!(encoding, Ok(Encoding::Windows1252));
}

#[test]
fn test_code_for_utf8() {
    let encoding = Encoding::from_u8(20);
    assert_eq!(encoding, Ok(Encoding::Utf8));
}

#[test]
fn test_code_for_iso8859_1() {
    // AKA Latin-1
    let encoding = Encoding::from_u8(29);
    assert_eq!(encoding, Ok(Encoding::Iso8859_1));
}

#[test]
fn can_get_encoding_from_invalid_code() {
    let encoding = Encoding::from_u8(250);
    assert_eq!(encoding, Err("Invalid encoding code".to_string()));
}

#[test]
fn three_codes_name_windows_1252() {
    for code in [0u8, 62, 204] {
        assert_eq!(Encoding::from_u8(code), Ok(Encoding::Windows1252));
    }
}

#[test]
fn codes_outside_the_table_are_errors() {
    for code in [1u8, 19, 21, 27, 38, 74, 77, 117, 120, 139, 143, 206, 249, 255] {
        assert_eq!(Encoding::from_u8(code), Err("Invalid encoding code".to_string()));
    }
}

#[test]
fn the_table_holds_seventy_five_codes() {
    let known = (0..=255u8).filter(|code| Encoding::from_u8(*code).is_ok()).count();
    assert_eq!(known, 75);
}

#[test]
fn some_codes_of_the_table() {
    assert_eq!(Encoding::from_u8(28), Ok(Encoding::UsAscii));
    assert_eq!(Encoding::from_u8(40), Ok(Encoding::Iso8859_15));
    assert_eq!(Encoding::from_u8(125), Ok(Encoding::Gb18030));
    assert_eq!(Encoding::from_u8(205), Ok(Encoding::Gb18030));
    assert_eq!(Encoding::from_u8(138), Ok(Encoding::Cp932));
    assert_eq!(Encoding::from_u8(248), Ok(Encoding::ShiftJisx0213));
}
