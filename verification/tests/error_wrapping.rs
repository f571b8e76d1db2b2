use adbc_core::error::{Error, Status};
use r2d2_adbc::AdbcError;

#[test]
fn test_error_display() {
    let adbc_err = Error::with_message_and_status("test error", Status::Internal);
    let wrapped_err = AdbcError(adbc_err);

    let display = wrapped_err.to_string();
    assert!(display.contains("ADBC error"));
}

#[test]
fn test_error_source() {
    let adbc_err = Error::with_message_and_status("test error", Status::Internal);
    let wrapped_err = AdbcError(adbc_err);

    assert!(wrapped_err.source().is_some());
}

#[test]
fn display_is_prefix_then_driver_text() {
    let adbc_err = Error::with_message_and_status("test error", Status::Internal);
    let driver_text = format!("{}", adbc_err);
    let wrapped_err = AdbcError(adbc_err);

    assert_eq!(
        wrapped_err.to_string(),
        "ADBC error: Internal: test error (sqlstate: 00000, vendor_code: 0)"
    );
    assert_eq!(wrapped_err.to_string(), format!("ADBC error: {}", driver_text));
}

#[test]
fn display_starts_with_prefix_and_keeps_message() {
    let wrapped_err = AdbcError(Error::with_message_and_status(
        "connection refused by host db-7",
        Status::IO,
    ));

    let display = wrapped_err.to_string();
    assert!(display.starts_with("ADBC error: "));
    assert!(display.contains("connection refused by host db-7"));
}

#[test]
fn display_keeps_vendor_code_and_sqlstate() {
    let adbc_err = Error {
        message: "constraint violation".to_string(),
        status: Status::Integrity,
        vendor_code: 42,
        sqlstate: [50, 51, 53, 48, 53],
        details: None,
    };
    let wrapped_err = AdbcError(adbc_err);

    assert_eq!(
        wrapped_err.to_string(),
        "ADBC error: Integrity: constraint violation (sqlstate: 23505, vendor_code: 42)"
    );
}

#[test]
fn display_of_empty_message() {
    let wrapped_err = AdbcError(Error::with_message_and_status("", Status::Unknown));

    assert_eq!(
        wrapped_err.to_string(),
        "ADBC error: Unknown:  (sqlstate: 00000, vendor_code: 0)"
    );
}

#[test]
fn source_is_the_wrapped_error() {
    let adbc_err = Error {
        message: "timed out".to_string(),
        status: Status::Timeout,
        vendor_code: 7,
        sqlstate: [0; 5],
        details: Some(vec![("trace".to_string(), vec![1, 2, 3])]),
    };
    let wrapped_err = AdbcError(adbc_err.clone());

    assert_eq!(wrapped_err.source(), Some(&adbc_err));
    assert_eq!(wrapped_err.0, adbc_err);
}

#[test]
fn from_wraps_without_loss() {
    let adbc_err = Error {
        message: "no such table".to_string(),
        status: Status::NotFound,
        vendor_code: -3,
        sqlstate: [52, 50, 83, 48, 50],
        details: Some(vec![("table".to_string(), b"orders".to_vec())]),
    };

    let wrapped_err = AdbcError::from(adbc_err.clone());
    assert_eq!(wrapped_err.0, adbc_err);

    let converted: AdbcError = adbc_err.clone().into();
    assert_eq!(converted.source(), Some(&adbc_err));
}

#[test]
fn wrapped_error_formats_for_debugging() {
    let wrapped_err = AdbcError(Error::with_message_and_status("test error", Status::Internal));

    let debug = format!("{:?}", wrapped_err);
    assert!(debug.contains("AdbcError"));
    assert!(debug.contains("test error"));
}
