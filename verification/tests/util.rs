use sas_reader_2000::util::{is_kept_as_little_endian, is_little_endian, is_twos_complement};

#[test]
fn test_is_twos_complement() {
    assert!(is_twos_complement());
}

#[test]
fn test_is_little_endian() {
    assert!(is_little_endian());
}

#[test]
fn number_is_kept_where_the_conversion_changes_nothing() {
    assert!(is_kept_as_little_endian(1, 1));
    assert!(!is_kept_as_little_endian(1, 256));
    assert!(is_kept_as_little_endian(0x1234, 0x1234));
    assert!(!is_kept_as_little_endian(0x1234, 0x3412));
}

#[test]
fn little_endian_is_what_the_conversion_of_one_says() {
    assert_eq!(is_little_endian(), is_kept_as_little_endian(1, 1u16.to_le()));
}
