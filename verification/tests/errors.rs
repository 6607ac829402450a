use matrix_mul::errors::{CustomError, ErrorCategory, ExceptionClass, HostException, NativeError};

#[test]
fn each_category_has_its_exception_class() {
    assert_eq!(ErrorCategory::InvalidArgument.exception_class(), ExceptionClass::ValueError);
    assert_eq!(ErrorCategory::AttributeMissing.exception_class(), ExceptionClass::AttributeError);
    assert_eq!(ErrorCategory::OperationFailed.exception_class(), ExceptionClass::OsError);
}

#[test]
fn each_exception_class_leads_back_to_its_category() {
    let categories = vec![
        ErrorCategory::InvalidArgument,
        ErrorCategory::AttributeMissing,
        ErrorCategory::OperationFailed,
    ];
    for category in &categories {
        assert_eq!(category.exception_class().category(), *category);
    }
    for left in &categories {
        for right in &categories {
            assert_eq!(left.exception_class() == right.exception_class(), left == right);
        }
    }
}

#[test]
fn categorised_failure_keeps_category_and_message() {
    let error = NativeError::new(ErrorCategory::AttributeMissing, "no such field");
    assert_eq!(error.declared_category(), Some(ErrorCategory::AttributeMissing));
    assert_eq!(error.category(), ErrorCategory::AttributeMissing);
    assert_eq!(error.message(), "no such field");
}

#[test]
fn uncategorised_failure_is_seen_as_operation_failed() {
    let error = NativeError::uncategorized("disk on fire");
    assert_eq!(error.declared_category(), None);
    assert_eq!(error.category(), ErrorCategory::OperationFailed);
    assert_eq!(error.message(), "disk on fire");
}

#[test]
fn translation_keeps_the_message_and_tags_the_category() {
    let error = NativeError::new(ErrorCategory::InvalidArgument, "x is negative");
    let exception = error.translate();
    assert_eq!(exception.message(), "x is negative");
    assert_eq!(exception.category(), ErrorCategory::InvalidArgument);
    assert_eq!(exception.exception_class(), ExceptionClass::ValueError);

    let missing = NativeError::new(ErrorCategory::AttributeMissing, "gone").translate();
    assert_eq!(missing.category(), ErrorCategory::AttributeMissing);
    assert_eq!(missing.exception_class(), ExceptionClass::AttributeError);
    assert_eq!(missing.message(), "gone");

    let failed = NativeError::new(ErrorCategory::OperationFailed, "").translate();
    assert_eq!(failed.category(), ErrorCategory::OperationFailed);
    assert_eq!(failed.exception_class(), ExceptionClass::OsError);
    assert_eq!(failed.message(), "");
}

#[test]
fn translation_of_an_uncategorised_failure_takes_the_default_path() {
    let exception = NativeError::uncategorized("unexpected").translate();
    assert_eq!(exception.category(), ErrorCategory::OperationFailed);
    assert_eq!(exception.exception_class(), ExceptionClass::OsError);
    assert_eq!(exception.message(), "unexpected");
}

#[test]
fn custom_error_text() {
    assert_eq!(CustomError.to_string(), "some error has occured");
}

#[test]
fn custom_error_reaches_the_host_as_os_error() {
    let native = NativeError::from(CustomError);
    assert_eq!(native.declared_category(), None);
    assert_eq!(native.message(), "some error has occured");

    let exception = HostException::from(native);
    assert_eq!(exception.category(), ErrorCategory::OperationFailed);
    assert_eq!(exception.exception_class(), ExceptionClass::OsError);
    assert_eq!(exception.message(), "some error has occured");
}

#[test]
fn conversion_and_translate_agree() {
    let by_method = NativeError::new(ErrorCategory::InvalidArgument, "bad").translate();
    let by_trait = HostException::from(NativeError::new(ErrorCategory::InvalidArgument, "bad"));
    assert_eq!(by_method, by_trait);
}
