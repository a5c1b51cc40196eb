use sas_reader_2000::sas::{FormatError, SasDataRowIterator};

/// Test that the iterator reads the data correctly.
/// Expected: The iterator should return two rows of data, each with 3 bytes.
/// The first row should be [0x01, 0x02, 0x03] and the second row should be
/// [0x04, 0x05, 0x06]. When the iterator reaches the end of the data, it
/// should return `None`.
#[test]
fn test_sas_data_row_iterator() {
    let data = vec![0x01, 0x02, 0x03, 0x04, 0x05, 0x06];
    let row_count = 2;
    let row_length = 3;
    let mut iterator = SasDataRowIterator::new(&data, row_count, row_length);

    let next: Vec<u8> = iterator
        .next()
        .expect("Expected Ok(_) value, found Err(_) instead")
        .expect("Expected Ok(_) value, found Err(_) instead");
    assert_eq!(next, vec![0x01, 0x02, 0x03]);

    let next: Vec<u8> = iterator
        .next()
        .expect("Expected Ok(_) value, found Err(_) instead")
        .expect("Expected Ok(_) value, found Err(_) instead");
    assert_eq!(next, vec![0x04, 0x05, 0x06]);

    let next: Option<Result<Vec<u8>, FormatError>> = iterator.next();
    assert!(next.is_none());
}

/// Test that the iterator returns an error when the buffer is incomplete.
/// Expected: Since `data` has 5 bytes and `row_length` is 3, the iterator
/// should return an error when trying to read the second row, because it
/// expects 3 bytes but only 2 are available.
#[test]
fn test_sas_data_row_iterator_incomplete_row() {
    let data = vec![0x01, 0x02, 0x03, 0x04, 0x05];
    let row_count = 2;
    let row_length = 3;
    let mut iterator = SasDataRowIterator::new(&data, row_count, row_length);

    // First row should be read successfully
    assert_eq!(iterator.next().unwrap().unwrap(), vec![0x01, 0x02, 0x03]);

    // Second row should return an error
    assert_eq!(iterator.next().unwrap().unwrap_err(), FormatError::TruncatedRow);

    // No more rows should be available
    assert!(iterator.next().is_none());
}

#[test]
fn rows_stop_for_good_after_an_error() {
    let data = vec![0x01, 0x02, 0x03, 0x04, 0x05];
    let mut iterator = SasDataRowIterator::new(&data, 4, 3);

    assert_eq!(iterator.next(), Some(Ok(vec![0x01, 0x02, 0x03])));
    assert_eq!(iterator.next(), Some(Err(FormatError::TruncatedRow)));
    assert_eq!(iterator.next(), None);
    assert_eq!(iterator.next(), None);
}

#[test]
fn no_rows_yield_nothing_and_no_error() {
    let data: Vec<u8> = Vec::new();
    let mut iterator = SasDataRowIterator::new(&data, 0, 0);
    assert_eq!(iterator.next(), None);
    assert_eq!(iterator.next(), None);
}

#[test]
fn rows_of_length_zero_are_empty() {
    let data: Vec<u8> = Vec::new();
    let mut iterator = SasDataRowIterator::new(&data, 2, 0);
    assert_eq!(iterator.next(), Some(Ok(vec![])));
    assert_eq!(iterator.next(), Some(Ok(vec![])));
    assert_eq!(iterator.next(), None);
}

#[test]
fn rows_stop_at_the_row_count() {
    let data = vec![1u8, 2, 3, 4, 5, 6, 7, 8];
    let mut iterator = SasDataRowIterator::new(&data, 2, 2);
    assert_eq!(iterator.next(), Some(Ok(vec![1, 2])));
    assert_eq!(iterator.next(), Some(Ok(vec![3, 4])));
    assert_eq!(iterator.next(), None);
}
