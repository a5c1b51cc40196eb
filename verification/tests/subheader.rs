use sas_reader_2000::sas::subheader::SasSubheader;
use sas_reader_2000::sas::{Alignment, FormatError};

fn put(bytes: &mut [u8], offset: usize, value: u64, width: usize, little: bool) {
    for i in 0..width {
        let shift = if little { i } else { width - 1 - i };
        bytes[offset + i] = (value >> (8 * shift)) as u8;
    }
}

/// A pointer table with the given entries, each as offset, length,
/// compression code and type code.
fn table(pointers: &[(u64, u64, u8, u8)], wide: bool, little: bool) -> Vec<u8> {
    let width = if wide { 24 } else { 12 };
    let field = if wide { 8 } else { 4 };
    let mut bytes = vec![0xee_u8; pointers.len() * width];
    for (i, (offset, length, compression, subheader_type)) in pointers.iter().enumerate() {
        let start = i * width;
        put(&mut bytes, start, *offset, field, little);
        put(&mut bytes, start + field, *length, field, little);
        bytes[start + 2 * field] = *compression;
        bytes[start + 2 * field + 1] = *subheader_type;
    }
    bytes
}

fn alignment(wide: bool) -> Alignment {
    Alignment::from_u8(if wide { 0x33 } else { 0x00 })
}

#[test]
fn each_entry_locates_its_bytes_in_the_data_region() {
    let page_data: Vec<u8> = (0..40).collect();
    for wide in [false, true] {
        for little in [false, true] {
            let pointers = table(&[(0, 4, 0, 1), (30, 10, 4, 2), (7, 1, 1, 3)], wide, little);
            let subheaders = SasSubheader::parse_subheader_pointers(
                &pointers,
                &page_data,
                little,
                &alignment(wide),
            )
            .unwrap();
            assert_eq!(
                subheaders,
                vec![
                    SasSubheader {
                        offset: 0,
                        length: 4,
                        compression: 0,
                        subheader_type: 1,
                        data: vec![0, 1, 2, 3],
                    },
                    SasSubheader {
                        offset: 30,
                        length: 10,
                        compression: 4,
                        subheader_type: 2,
                        data: (30..40).collect(),
                    },
                    SasSubheader {
                        offset: 7,
                        length: 1,
                        compression: 1,
                        subheader_type: 3,
                        data: vec![7],
                    },
                ]
            );
        }
    }
}

#[test]
fn entries_of_length_zero_are_left_out() {
    let page_data: Vec<u8> = (0..40).collect();
    for wide in [false, true] {
        let pointers = table(
            &[(0, 0, 0, 0), (3, 2, 0, 5), (1000, 0, 0, 0), (9, 1, 0, 6), (0, 0, 4, 1)],
            wide,
            true,
        );
        for _ in 0..3 {
            let subheaders = SasSubheader::parse_subheader_pointers(
                &pointers,
                &page_data,
                true,
                &alignment(wide),
            )
            .unwrap();
            assert_eq!(subheaders.len(), 2);
            assert!(subheaders.iter().all(|subheader| subheader.length != 0));
            assert_eq!(subheaders[0].data, vec![3, 4]);
            assert_eq!(subheaders[1].data, vec![9]);
        }
    }
}

#[test]
fn empty_table_locates_nothing() {
    assert_eq!(
        SasSubheader::parse_subheader_pointers(&[], &[1, 2, 3], true, &alignment(false)),
        Ok(vec![])
    );
    assert_eq!(
        SasSubheader::parse_subheader_pointers(&[], &[], false, &alignment(true)),
        Ok(vec![])
    );
}

#[test]
fn entry_that_reaches_past_the_data_region_is_out_of_bounds() {
    let page_data: Vec<u8> = (0..40).collect();
    for wide in [false, true] {
        for (offset, length) in [(40u64, 1u64), (39, 2), (0, 41), (u32::MAX as u64, 1)] {
            let pointers = table(&[(0, 4, 0, 1), (offset, length, 0, 0)], wide, true);
            assert_eq!(
                SasSubheader::parse_subheader_pointers(
                    &pointers,
                    &page_data,
                    true,
                    &alignment(wide)
                ),
                Err(FormatError::SubheaderOutOfBounds)
            );
        }
        let pointers = table(&[(39, 1, 0, 0), (0, 40, 0, 0), (40, 0, 0, 0)], wide, true);
        assert!(SasSubheader::parse_subheader_pointers(
            &pointers,
            &page_data,
            true,
            &alignment(wide)
        )
        .is_ok());
    }
}

#[test]
fn wide_entry_whose_end_does_not_fit_a_number_is_out_of_bounds() {
    let page_data: Vec<u8> = (0..40).collect();
    let pointers = table(&[(u64::MAX, u64::MAX, 0, 0)], true, true);
    assert_eq!(
        SasSubheader::parse_subheader_pointers(&pointers, &page_data, true, &alignment(true)),
        Err(FormatError::SubheaderOutOfBounds)
    );
    let pointers = table(&[(u64::MAX, 2, 0, 0)], true, false);
    assert_eq!(
        SasSubheader::parse_subheader_pointers(&pointers, &page_data, false, &alignment(true)),
        Err(FormatError::SubheaderOutOfBounds)
    );
}

#[test]
fn table_that_ends_inside_an_entry_is_a_truncated_page() {
    let page_data: Vec<u8> = (0..40).collect();
    let pointers = table(&[(0, 4, 0, 1), (4, 4, 0, 1)], false, true);
    for len in [1, 10, 11, 13, 23] {
        assert_eq!(
            SasSubheader::parse_subheader_pointers(
                &pointers[..len],
                &page_data,
                true,
                &alignment(false)
            ),
            Err(FormatError::TruncatedPage)
        );
    }
    // Two narrow entries are as long as one wide entry.
    assert_eq!(
        SasSubheader::parse_subheader_pointers(&[0; 24], &page_data, true, &alignment(true)),
        Ok(vec![])
    );
    assert_eq!(
        SasSubheader::parse_subheader_pointers(
            &pointers[..12],
            &page_data,
            true,
            &alignment(true)
        ),
        Err(FormatError::TruncatedPage)
    );
}

#[test]
fn entries_are_wide_only_for_an_alignment_of_four() {
    let page_data: Vec<u8> = (0..40).collect();
    let pointers = table(&[(2, 3, 0, 1)], false, true);
    for value in [0u8, 1, 3, 5, 8, 0x33] {
        assert_eq!(
            SasSubheader::parse_subheader_pointers(
                &pointers,
                &page_data,
                true,
                &Alignment { value }
            )
            .unwrap()[0]
                .data,
            vec![2, 3, 4]
        );
    }
}

#[test]
fn numbers_are_read_in_the_byte_order_that_is_asked_for() {
    let page_data = vec![0u8; 0x0400];
    let pointers = table(&[(0x0100, 0x0200, 0, 0)], false, true);
    let subheaders =
        SasSubheader::parse_subheader_pointers(&pointers, &page_data, true, &alignment(false))
            .unwrap();
    assert_eq!((subheaders[0].offset, subheaders[0].length), (0x0100, 0x0200));
    assert_eq!(
        SasSubheader::parse_subheader_pointers(&pointers, &page_data, false, &alignment(false)),
        Err(FormatError::SubheaderOutOfBounds)
    );
}
