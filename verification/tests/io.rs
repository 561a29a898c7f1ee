use poseidon_common::{PoseidonError, PoseidonErrorKind};
use std::io::{Error, ErrorKind};

#[test]
fn connection_reset_has_its_own_variant() {
    let native = Error::from(ErrorKind::ConnectionReset);
    assert_eq!(PoseidonErrorKind::from(native), PoseidonErrorKind::ConnectionReset);
}

#[test]
fn connection_reset_reaches_the_unified_error() {
    let native = Error::new(ErrorKind::ConnectionReset, "peer went away");
    assert_eq!(
        PoseidonError::from(native),
        PoseidonError::IoErr(PoseidonErrorKind::ConnectionReset)
    );
}

#[test]
fn every_listed_kind_has_the_variant_of_its_name() {
    let cases = vec![
        (ErrorKind::NotFound, PoseidonErrorKind::NotFound),
        (ErrorKind::PermissionDenied, PoseidonErrorKind::PermissionDenied),
        (ErrorKind::ConnectionRefused, PoseidonErrorKind::ConnectionRefused),
        (ErrorKind::ConnectionReset, PoseidonErrorKind::ConnectionReset),
        (ErrorKind::ConnectionAborted, PoseidonErrorKind::ConnectionAborted),
        (ErrorKind::NotConnected, PoseidonErrorKind::NotConnected),
        (ErrorKind::AddrInUse, PoseidonErrorKind::AddrInUse),
        (ErrorKind::AddrNotAvailable, PoseidonErrorKind::AddrNotAvailable),
        (ErrorKind::BrokenPipe, PoseidonErrorKind::BrokenPipe),
        (ErrorKind::AlreadyExists, PoseidonErrorKind::AlreadyExists),
        (ErrorKind::WouldBlock, PoseidonErrorKind::WouldBlock),
        (ErrorKind::InvalidInput, PoseidonErrorKind::InvalidInput),
        (ErrorKind::InvalidData, PoseidonErrorKind::InvalidData),
        (ErrorKind::TimedOut, PoseidonErrorKind::TimedOut),
        (ErrorKind::WriteZero, PoseidonErrorKind::WriteZero),
        (ErrorKind::Interrupted, PoseidonErrorKind::Interrupted),
        (ErrorKind::Unsupported, PoseidonErrorKind::Unsupported),
        (ErrorKind::UnexpectedEof, PoseidonErrorKind::UnexpectedEof),
        (ErrorKind::OutOfMemory, PoseidonErrorKind::OutOfMemory),
        (ErrorKind::Other, PoseidonErrorKind::Other),
    ];
    for (kind, expected) in cases {
        assert_eq!(PoseidonErrorKind::from(Error::from(kind)), expected);
        assert_eq!(PoseidonErrorKind::listed(kind), Some(expected));
    }
}

#[test]
fn listed_kinds_have_different_variants() {
    let kinds = [
        ErrorKind::NotFound,
        ErrorKind::PermissionDenied,
        ErrorKind::ConnectionRefused,
        ErrorKind::ConnectionReset,
        ErrorKind::ConnectionAborted,
        ErrorKind::NotConnected,
        ErrorKind::AddrInUse,
        ErrorKind::AddrNotAvailable,
        ErrorKind::BrokenPipe,
        ErrorKind::AlreadyExists,
        ErrorKind::WouldBlock,
        ErrorKind::InvalidInput,
        ErrorKind::InvalidData,
        ErrorKind::TimedOut,
        ErrorKind::WriteZero,
        ErrorKind::Interrupted,
        ErrorKind::Unsupported,
        ErrorKind::UnexpectedEof,
        ErrorKind::OutOfMemory,
        ErrorKind::Other,
    ];
    for (i, a) in kinds.iter().enumerate() {
        for (j, b) in kinds.iter().enumerate() {
            let same = PoseidonErrorKind::listed(*a) == PoseidonErrorKind::listed(*b);
            assert_eq!(same, i == j);
        }
    }
}

#[test]
fn a_kind_outside_the_list_is_not_listed() {
    assert_eq!(PoseidonErrorKind::listed(ErrorKind::HostUnreachable), None);
    assert_eq!(PoseidonErrorKind::listed(ErrorKind::IsADirectory), None);
}

#[test]
fn a_kind_outside_the_list_keeps_the_rendered_message() {
    let native = Error::new(ErrorKind::HostUnreachable, "no route");
    assert_eq!(
        PoseidonErrorKind::from(native),
        PoseidonErrorKind::Unspecified("std::io::Error - `no route`".to_string())
    );
}

#[test]
fn the_fallback_is_made_of_prefix_message_and_backtick() {
    assert_eq!(
        PoseidonErrorKind::unlisted("disk on fire"),
        PoseidonErrorKind::Unspecified("std::io::Error - `disk on fire`".to_string())
    );
}

#[test]
fn the_fallback_is_not_empty_even_for_an_empty_message() {
    match PoseidonErrorKind::unlisted("") {
        PoseidonErrorKind::Unspecified(text) => {
            assert_eq!(text, "std::io::Error - ``");
            assert!(!text.is_empty());
        }
        other => panic!("expected the fallback, got {:?}", other),
    }
}

#[test]
fn an_unusual_platform_reason_does_not_panic() {
    let native = Error::from_raw_os_error(9_999_999);
    let rendered = native.to_string();
    match PoseidonErrorKind::from(native) {
        PoseidonErrorKind::Unspecified(text) => {
            assert_eq!(text, format!("std::io::Error - `{}`", rendered));
            assert!(!text.is_empty());
        }
        other => panic!("expected the fallback, got {:?}", other),
    }
}

#[test]
fn a_kind_outside_the_list_reaches_the_unified_error() {
    let native = Error::new(ErrorKind::StorageFull, "disk full");
    assert_eq!(
        PoseidonError::from(native),
        PoseidonError::IoErr(PoseidonErrorKind::Unspecified(
            "std::io::Error - `disk full`".to_string()
        ))
    );
}
