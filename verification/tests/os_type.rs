use sas_reader_2000::sas::OsType;

#[test]
fn can_make_os_type_enum() {
    let os_type1 = OsType::Unix;
    let os_type2 = OsType::from_u8(b'1').unwrap();

    assert_eq!(os_type1, os_type2);
}

#[test]
fn test_os_type_from_u8_when_unix() {
    let os_type = OsType::from_u8(b'1').unwrap();
    assert_eq!(os_type, OsType::Unix);

    let os_type = OsType::from_char('1').unwrap();
    assert_eq!(os_type, OsType::Unix);
}

#[test]
fn test_os_type_from_u8_when_windows() {
    let os_type = OsType::from_u8(b'2').unwrap();
    assert_eq!(os_type, OsType::Windows);

    let os_type = OsType::from_char('2').unwrap();
    assert_eq!(os_type, OsType::Windows);
}

#[test]
#[should_panic(
    expected = "Unknown OS type code from binary: 3. Expected either 1 for Unix or 2 for Windows."
)]
fn test_os_type_from_u8_when_unknown() {
    OsType::from_u8(b'3').unwrap();
}

#[test]
#[should_panic(
    expected = "Unknown OS type code from binary: 3. Expected either 1 for Unix or 2 for Windows."
)]
fn test_os_type_from_char_when_unknown() {
    OsType::from_char('3').unwrap();
}

#[test]
fn unknown_os_type_is_an_error_that_holds_the_character() {
    assert_eq!(
        OsType::from_char('x'),
        Err("Unknown OS type code from binary: x. Expected either 1 for Unix or 2 for Windows."
            .to_string())
    );
    assert_eq!(
        OsType::from_u8(0xe9),
        Err(
            "Unknown OS type code from binary: \u{e9}. Expected either 1 for Unix or 2 for Windows."
                .to_string()
        )
    );
    assert!(OsType::from_u8(1).is_err());
    assert!(OsType::from_u8(2).is_err());
}
