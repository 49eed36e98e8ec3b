//! The error taxonomy: both numeric conversions, the collapse classes, and
//! the host-category mapping.

use wasi_core::file::bytes_available_outcome;
use wasi_core::fs_error::HostErrorKind;
use wasi_core::fs_error::WasiFsError;

#[test]
fn from_wasi_err_recognized_codes() {
    assert_eq!(WasiFsError::from_wasi_err(8), WasiFsError::InvalidFd);
    assert_eq!(WasiFsError::from_wasi_err(20), WasiFsError::AlreadyExists);
    assert_eq!(WasiFsError::from_wasi_err(29), WasiFsError::IOError);
    assert_eq!(WasiFsError::from_wasi_err(3), WasiFsError::AddressInUse);
    assert_eq!(WasiFsError::from_wasi_err(4), WasiFsError::AddressNotAvailable);
    assert_eq!(WasiFsError::from_wasi_err(64), WasiFsError::BrokenPipe);
    assert_eq!(WasiFsError::from_wasi_err(13), WasiFsError::ConnectionAborted);
    assert_eq!(WasiFsError::from_wasi_err(14), WasiFsError::ConnectionRefused);
    assert_eq!(WasiFsError::from_wasi_err(15), WasiFsError::ConnectionReset);
    assert_eq!(WasiFsError::from_wasi_err(27), WasiFsError::Interrupted);
    assert_eq!(WasiFsError::from_wasi_err(28), WasiFsError::InvalidInput);
    assert_eq!(WasiFsError::from_wasi_err(53), WasiFsError::NotConnected);
    assert_eq!(WasiFsError::from_wasi_err(44), WasiFsError::EntityNotFound);
    assert_eq!(WasiFsError::from_wasi_err(63), WasiFsError::PermissionDenied);
    assert_eq!(WasiFsError::from_wasi_err(73), WasiFsError::TimedOut);
    assert_eq!(WasiFsError::from_wasi_err(65), WasiFsError::UnexpectedEof);
    assert_eq!(WasiFsError::from_wasi_err(6), WasiFsError::WouldBlock);
    assert_eq!(WasiFsError::from_wasi_err(51), WasiFsError::WriteZero);
    assert_eq!(WasiFsError::from_wasi_err(58), WasiFsError::NotSupported);
}

#[test]
fn from_wasi_err_unrecognized_code_keeps_code() {
    assert_eq!(WasiFsError::from_wasi_err(200), WasiFsError::UnknownError(200));
    assert_eq!(WasiFsError::from_wasi_err(0), WasiFsError::UnknownError(0));
    assert_eq!(WasiFsError::UnknownError(200).into_wasi_err(), 200);
}

#[test]
fn errno_round_trip_is_identity_on_codes() {
    for code in 0u16..=300u16 {
        let kind = WasiFsError::from_wasi_err(code);
        assert_eq!(kind.into_wasi_err(), code);
    }
}

#[test]
fn into_wasi_err_collapses_kinds() {
    // Two host kinds travel as the same code, so re-decoding loses the
    // distinction; this is deliberate.
    assert_eq!(WasiFsError::InvalidData.into_wasi_err(), 29);
    assert_eq!(WasiFsError::IOError.into_wasi_err(), 29);
    assert_eq!(
        WasiFsError::from_wasi_err(WasiFsError::InvalidData.into_wasi_err()),
        WasiFsError::IOError
    );
    assert_eq!(WasiFsError::NotAFile.into_wasi_err(), 28);
    assert_eq!(
        WasiFsError::from_wasi_err(WasiFsError::NotAFile.into_wasi_err()),
        WasiFsError::InvalidInput
    );
    assert_eq!(WasiFsError::BaseNotDirectory.into_wasi_err(), 54);
    assert_eq!(
        WasiFsError::from_wasi_err(WasiFsError::BaseNotDirectory.into_wasi_err()),
        WasiFsError::UnknownError(54)
    );
}

#[test]
fn host_error_kind_mapping_is_explicit() {
    assert_eq!(WasiFsError::from(HostErrorKind::AddrInUse), WasiFsError::AddressInUse);
    assert_eq!(
        WasiFsError::from(HostErrorKind::AddrNotAvailable),
        WasiFsError::AddressNotAvailable
    );
    assert_eq!(WasiFsError::from(HostErrorKind::AlreadyExists), WasiFsError::AlreadyExists);
    assert_eq!(WasiFsError::from(HostErrorKind::BrokenPipe), WasiFsError::BrokenPipe);
    assert_eq!(
        WasiFsError::from(HostErrorKind::ConnectionAborted),
        WasiFsError::ConnectionAborted
    );
    assert_eq!(
        WasiFsError::from(HostErrorKind::ConnectionRefused),
        WasiFsError::ConnectionRefused
    );
    assert_eq!(WasiFsError::from(HostErrorKind::ConnectionReset), WasiFsError::ConnectionReset);
    assert_eq!(WasiFsError::from(HostErrorKind::Interrupted), WasiFsError::Interrupted);
    assert_eq!(WasiFsError::from(HostErrorKind::InvalidData), WasiFsError::InvalidData);
    assert_eq!(WasiFsError::from(HostErrorKind::InvalidInput), WasiFsError::InvalidInput);
    assert_eq!(WasiFsError::from(HostErrorKind::NotConnected), WasiFsError::NotConnected);
    assert_eq!(WasiFsError::from(HostErrorKind::NotFound), WasiFsError::EntityNotFound);
    assert_eq!(
        WasiFsError::from(HostErrorKind::PermissionDenied),
        WasiFsError::PermissionDenied
    );
    assert_eq!(WasiFsError::from(HostErrorKind::TimedOut), WasiFsError::TimedOut);
    assert_eq!(WasiFsError::from(HostErrorKind::UnexpectedEof), WasiFsError::UnexpectedEof);
    assert_eq!(WasiFsError::from(HostErrorKind::WouldBlock), WasiFsError::WouldBlock);
    assert_eq!(WasiFsError::from(HostErrorKind::WriteZero), WasiFsError::WriteZero);
    assert_eq!(WasiFsError::from(HostErrorKind::Uncategorized), WasiFsError::IOError);
}

#[test]
fn io_error_values_map_through_their_category() {
    let pipe = std::io::Error::new(std::io::ErrorKind::BrokenPipe, "closed");
    assert_eq!(WasiFsError::from_io_error(&pipe), WasiFsError::BrokenPipe);
    let missing = std::io::Error::new(std::io::ErrorKind::NotFound, "gone");
    assert_eq!(WasiFsError::from_io_error(&missing), WasiFsError::EntityNotFound);
    let odd = std::io::Error::new(std::io::ErrorKind::Other, "odd");
    assert_eq!(WasiFsError::from_io_error(&odd), WasiFsError::IOError);
    assert!(!matches!(WasiFsError::from_io_error(&std::io::Error::from_raw_os_error(1)),
        WasiFsError::UnknownError(_)));
}

#[test]
fn byte_probe_outcomes_map_exactly() {
    assert_eq!(bytes_available_outcome(0, 5, 9, 14, 22), Ok(5));
    assert_eq!(bytes_available_outcome(0, -3, 9, 14, 22), Ok(0));
    assert_eq!(bytes_available_outcome(9, 0, 9, 14, 22), Err(WasiFsError::InvalidFd));
    assert_eq!(bytes_available_outcome(14, 0, 9, 14, 22), Err(WasiFsError::InvalidData));
    assert_eq!(bytes_available_outcome(22, 0, 9, 14, 22), Err(WasiFsError::InvalidInput));
    assert_eq!(bytes_available_outcome(-1, 0, 9, 14, 22), Err(WasiFsError::IOError));
}

#[test]
fn host_error_kind_never_reaches_unknown() {
    let all = [
        HostErrorKind::AddrInUse,
        HostErrorKind::AddrNotAvailable,
        HostErrorKind::AlreadyExists,
        HostErrorKind::BrokenPipe,
        HostErrorKind::ConnectionAborted,
        HostErrorKind::ConnectionRefused,
        HostErrorKind::ConnectionReset,
        HostErrorKind::Interrupted,
        HostErrorKind::InvalidData,
        HostErrorKind::InvalidInput,
        HostErrorKind::NotConnected,
        HostErrorKind::NotFound,
        HostErrorKind::PermissionDenied,
        HostErrorKind::TimedOut,
        HostErrorKind::UnexpectedEof,
        HostErrorKind::WouldBlock,
        HostErrorKind::WriteZero,
        HostErrorKind::Uncategorized,
    ];
    for k in all {
        let mapped = WasiFsError::from(k);
        assert!(!matches!(mapped, WasiFsError::UnknownError(_)));
    }
}
