use sas_reader_2000::sas::errors::Error;

#[test]
fn test_error() {
    let error = Error::InvalidCompression(0);
    assert_eq!(error, Error::InvalidCompression(0));
}
