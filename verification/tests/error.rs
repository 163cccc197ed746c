use dbcell::Error;
use dbcell::ErrorKind;

#[test]
fn custom() {
    let error = Error::new(ErrorKind::Other, "test error");

    assert_eq!(error.kind(), ErrorKind::Other);
}

#[test]
fn simple() {
    let error = Error::from(ErrorKind::Other);

    assert_eq!(error.kind(), ErrorKind::Other);
}

#[test]
fn errorkind_as_str() {
    let error_format_error = Error::from(ErrorKind::FormatError);
    let error_missing_value = Error::from(ErrorKind::MissingValue);
    let error_other = Error::from(ErrorKind::Other);
    let error_unimplemented_format = Error::from(ErrorKind::UnimplementedFormat);

    assert_eq!(error_format_error.kind().as_str(), "format_error");
    assert_eq!(error_missing_value.kind().as_str(), "missing_value");
    assert_eq!(error_other.kind().as_str(), "other");
    assert_eq!(error_unimplemented_format.kind().as_str(), "unimplemented_format");
}

#[test]
fn custom_get_ref() {
    let error = Error::new(ErrorKind::Other, "test error");
    let ref_error = error.get_ref();

    assert!(ref_error.is_some());
    assert_eq!(ref_error.unwrap().as_str(), "test error");
}

#[test]
fn simple_get_ref() {
    let error = Error::from(ErrorKind::Other);

    assert!(error.get_ref().is_none());
}

#[test]
fn custom_get_mut() {
    let mut error = Error::new(ErrorKind::Other, "test error");
    let ref_error = error.get_mut();

    assert!(ref_error.is_some());
    assert_eq!(ref_error.unwrap().as_str(), "test error");
}

#[test]
fn simple_get_mut() {
    let mut error = Error::from(ErrorKind::Other);

    assert!(error.get_mut().is_none());
}

#[test]
fn custom_into_inner() {
    let error = Error::new(ErrorKind::Other, "test error");
    let inner_error = error.into_inner();

    assert!(inner_error.is_some());
    assert_eq!(inner_error.unwrap(), "test error");
}

#[test]
fn simple_into_inner() {
    let error = Error::from(ErrorKind::Other);

    assert!(error.into_inner().is_none());
}

#[test]
fn custom_description() {
    let error = Error::new(ErrorKind::Other, "test error");

    assert_eq!(error.description(), "test error");
}

#[test]
fn simple_description() {
    let error = Error::from(ErrorKind::Other);

    assert_eq!(error.description(), ErrorKind::Other.as_str());
}

#[test]
fn custom_cause() {
    let error = Error::new(ErrorKind::Other, "test error");
    let error_cause = error.cause();

    assert!(error_cause.is_none());
}

#[test]
fn simple_cause() {
    let error = Error::from(ErrorKind::Other);
    let error_cause = error.cause();

    assert!(error_cause.is_none());
}

#[test]
fn custom_source() {
    let error = Error::new(ErrorKind::Other, "test error");
    let error_source = error.source();

    assert!(error_source.is_none());
}

#[test]
fn simple_source() {
    let error = Error::from(ErrorKind::Other);
    let error_source = error.source();

    assert!(error_source.is_none());
}

#[test]
fn custom_debug() {
    let error = Error::new(ErrorKind::Other, "test error");

    assert_eq!(error.debug_string(), "Custom { kind: Other, error: \"test error\" }");
}

#[test]
fn simple_debug() {
    let error = Error::from(ErrorKind::Other);

    assert_eq!(error.debug_string(), "Kind(Other)");
}

#[test]
fn custom_display() {
    let error = Error::new(ErrorKind::Other, "test error");

    assert_eq!(error.description(), "test error");
}

#[test]
fn simple_display() {
    let error = Error::from(ErrorKind::Other);

    assert_eq!(error.description(), "other");
}

fn is_sync_send<T: Sync + Send>() {}

#[test]
fn assert_error_is_sync_send() {
    is_sync_send::<Error>();
}

#[test]
fn backend_error_from_native() {
    let error = Error::from(diesel::result::Error::NotFound);

    assert_eq!(error.kind(), ErrorKind::BackendError);
    assert_eq!(error.description(), "Record not found");
    assert_eq!(error.kind().as_str(), "backend_error");
}

#[test]
fn get_mut_changes_description() {
    let mut error = Error::new(ErrorKind::Other, "test error");
    error.get_mut().unwrap().push('!');

    assert_eq!(error.description(), "test error!");
    assert_eq!(error.kind(), ErrorKind::Other);
}
