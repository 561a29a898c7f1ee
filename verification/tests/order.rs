use poseidon_common::order::{slice_equal, slice_precedes, str_precedes};
use poseidon_common::{
    AlertDescription, ContentType, HandshakeType, HttpError, JsonError, PoseidonError,
    PoseidonErrorKind, RustlsError, SctError,
};
use std::cmp::Ordering;

/// Errors in strictly ascending order.
fn ascending() -> Vec<PoseidonError> {
    vec![
        PoseidonError::MissingEd25519PublicKey,
        PoseidonError::MissingKeypair,
        PoseidonError::MissingTxSignature,
        PoseidonError::HomeDirectoryNotFound,
        PoseidonError::PathIsNotValidUtf8,
        PoseidonError::InvalidUtf8(String::new()),
        PoseidonError::InvalidUtf8("a".to_string()),
        PoseidonError::InvalidUtf8("ab".to_string()),
        PoseidonError::InvalidUtf8("b".to_string()),
        PoseidonError::InvalidUtf8("é".to_string()),
        PoseidonError::InvalidBase58Ed25519SecretKey,
        PoseidonError::InvalidBase58Ed25519PublicKey,
        PoseidonError::InvalidBase58Ed25519Signature,
        PoseidonError::RepoCreatePermissionDenied,
        PoseidonError::RepoAlreadyExists,
        PoseidonError::IoErr(PoseidonErrorKind::NotFound),
        PoseidonError::IoErr(PoseidonErrorKind::ConnectionReset),
        PoseidonError::IoErr(PoseidonErrorKind::NotConnected),
        PoseidonError::IoErr(PoseidonErrorKind::ConnectionAborted),
        PoseidonError::IoErr(PoseidonErrorKind::Other),
        PoseidonError::IoErr(PoseidonErrorKind::Unspecified("x".to_string())),
        PoseidonError::IoErr(PoseidonErrorKind::Unspecified("y".to_string())),
        PoseidonError::InvalidByteToUtf8StringConversion,
        PoseidonError::InvalidEd25519PublicKeyHex,
        PoseidonError::InvalidHexCharacter { c: "f".to_string(), index: 9 },
        PoseidonError::InvalidHexCharacter { c: "g".to_string(), index: 0 },
        PoseidonError::InvalidHexCharacter { c: "g".to_string(), index: 1 },
        PoseidonError::OddLength,
        PoseidonError::InvalidStringLength,
        PoseidonError::SledCollectionNotFound("z".to_string()),
        PoseidonError::SledUnsupported("a".to_string()),
        PoseidonError::SledReportableBug("a".to_string()),
        PoseidonError::SledCorruption("a".to_string()),
        PoseidonError::AccountNotFound,
        PoseidonError::UnableToDeserializeAccountInfo,
        PoseidonError::UnableToSerializeTx,
        PoseidonError::Rustls(RustlsError::InappropriateMessage {
            expect_types: vec![],
            got_type: ContentType::Unknown(255),
        }),
        PoseidonError::Rustls(RustlsError::InappropriateMessage {
            expect_types: vec![ContentType::Alert],
            got_type: ContentType::ChangeCipherSpec,
        }),
        PoseidonError::Rustls(RustlsError::InappropriateMessage {
            expect_types: vec![ContentType::Alert],
            got_type: ContentType::Alert,
        }),
        PoseidonError::Rustls(RustlsError::InappropriateMessage {
            expect_types: vec![ContentType::Alert, ContentType::ChangeCipherSpec],
            got_type: ContentType::ChangeCipherSpec,
        }),
        PoseidonError::Rustls(RustlsError::InappropriateMessage {
            expect_types: vec![ContentType::Unknown(1)],
            got_type: ContentType::ChangeCipherSpec,
        }),
        PoseidonError::Rustls(RustlsError::InappropriateMessage {
            expect_types: vec![ContentType::Unknown(2)],
            got_type: ContentType::ChangeCipherSpec,
        }),
        PoseidonError::Rustls(RustlsError::InappropriateHandshakeMessage {
            expect_types: vec![HandshakeType::ClientHello, HandshakeType::ServerHello],
            got_type: HandshakeType::Finished,
        }),
        PoseidonError::Rustls(RustlsError::InappropriateHandshakeMessage {
            expect_types: vec![HandshakeType::ClientHello, HandshakeType::ServerHello],
            got_type: HandshakeType::Unknown(0),
        }),
        PoseidonError::Rustls(RustlsError::CorruptMessage),
        PoseidonError::Rustls(RustlsError::CorruptMessagePayload(ContentType::Handshake)),
        PoseidonError::Rustls(RustlsError::PeerIncompatibleError("a".to_string())),
        PoseidonError::Rustls(RustlsError::PeerMisbehavedError("a".to_string())),
        PoseidonError::Rustls(RustlsError::AlertReceived(AlertDescription::CloseNotify)),
        PoseidonError::Rustls(RustlsError::AlertReceived(AlertDescription::NoApplicationProtocol)),
        PoseidonError::Rustls(RustlsError::AlertReceived(AlertDescription::Unknown(0))),
        PoseidonError::Rustls(RustlsError::InvalidCertificateData("a".to_string())),
        PoseidonError::Rustls(RustlsError::InvalidSct(SctError::MalformedSct)),
        PoseidonError::Rustls(RustlsError::InvalidSct(SctError::UnknownLog)),
        PoseidonError::Rustls(RustlsError::General("a".to_string())),
        PoseidonError::Rustls(RustlsError::BadMaxFragmentSize),
        PoseidonError::Http(HttpError::MalformedChunkLength),
        PoseidonError::Http(HttpError::InvalidProxyCreds),
        PoseidonError::Http(HttpError::Other("a".to_string())),
        PoseidonError::Http(HttpError::Other("aa".to_string())),
        PoseidonError::Json(JsonError { code: -32000, message: "z".to_string() }),
        PoseidonError::Json(JsonError { code: -1, message: "a".to_string() }),
        PoseidonError::Json(JsonError { code: 0, message: String::new() }),
        PoseidonError::Json(JsonError { code: 0, message: "a".to_string() }),
        PoseidonError::Json(JsonError { code: 1, message: String::new() }),
        PoseidonError::SerdeJson("a".to_string()),
        PoseidonError::Unspecified(String::new()),
        PoseidonError::Unspecified("anything".to_string()),
    ]
}

#[test]
fn earlier_errors_come_before_later_ones() {
    let errors = ascending();
    for i in 0..errors.len() {
        for j in 0..errors.len() {
            let (a, b) = (&errors[i], &errors[j]);
            assert_eq!(a < b, i < j, "{:?} < {:?}", a, b);
            assert_eq!(a > b, i > j, "{:?} > {:?}", a, b);
            assert_eq!(a == b, i == j, "{:?} == {:?}", a, b);
            assert_eq!(a.precedes(b), i < j);
        }
    }
}

#[test]
fn no_error_comes_before_itself() {
    for error in ascending() {
        assert!(!error.precedes(&error));
        assert_eq!(error.partial_cmp(&error), Some(Ordering::Equal));
    }
}

#[test]
fn the_order_is_transitive_on_the_samples() {
    let errors = ascending();
    for a in &errors {
        for b in &errors {
            for c in &errors {
                if a.precedes(b) && b.precedes(c) {
                    assert!(a.precedes(c));
                }
            }
        }
    }
}

#[test]
fn of_two_different_errors_one_comes_first() {
    let errors = ascending();
    for a in &errors {
        for b in &errors {
            if a != b {
                assert!(a.precedes(b) != b.precedes(a));
            }
        }
    }
}

#[test]
fn the_three_way_comparison_agrees_with_the_total_order() {
    let errors = ascending();
    for a in &errors {
        for b in &errors {
            assert_eq!(a.partial_cmp(b), Some(a.cmp(b)));
        }
    }
}

#[test]
fn sorting_puts_the_samples_in_ascending_order() {
    let mut shuffled = ascending();
    shuffled.reverse();
    shuffled.sort();
    assert_eq!(shuffled, ascending());
}

#[test]
fn texts_are_ordered_by_their_bytes() {
    assert!(str_precedes("", "a"));
    assert!(str_precedes("a", "ab"));
    assert!(str_precedes("ab", "b"));
    assert!(str_precedes("Z", "a"));
    assert!(str_precedes("z", "é"));
    assert!(!str_precedes("a", "a"));
    assert!(!str_precedes("b", "ab"));
    assert!(!str_precedes("", ""));
}

#[test]
fn lists_are_ordered_entry_by_entry() {
    let a: Vec<u8> = vec![1, 2, 3];
    let b: Vec<u8> = vec![1, 2, 4];
    let c: Vec<u8> = vec![1, 2];
    assert!(slice_precedes(&a, &b));
    assert!(!slice_precedes(&b, &a));
    assert!(slice_precedes(&c, &a));
    assert!(!slice_precedes(&a, &c));
    assert!(!slice_precedes(&a, &a));
    assert!(slice_equal(&a, &a));
    assert!(!slice_equal(&a, &b));
    assert!(!slice_equal(&a, &c));
}

#[test]
fn the_vocabulary_is_ordered_as_declared() {
    assert!(ContentType::ChangeCipherSpec < ContentType::Alert);
    assert!(ContentType::Heartbeat < ContentType::Unknown(0));
    assert!(ContentType::Unknown(0) < ContentType::Unknown(1));
    assert!(HandshakeType::HelloRequest < HandshakeType::MessageHash);
    assert!(AlertDescription::CloseNotify < AlertDescription::UnexpectedMessage);
    assert!(AlertDescription::Unknown(254) < AlertDescription::Unknown(255));
    assert!(SctError::MalformedSct < SctError::UnknownLog);
    assert_eq!(
        ContentType::Alert.partial_cmp(&ContentType::Alert),
        Some(ContentType::Alert.cmp(&ContentType::Alert))
    );
    assert_eq!(
        AlertDescription::Unknown(3).partial_cmp(&AlertDescription::CloseNotify),
        Some(Ordering::Greater)
    );
}

#[test]
fn the_categories_are_ordered_on_their_own() {
    assert!(PoseidonErrorKind::NotFound < PoseidonErrorKind::PermissionDenied);
    assert!(PoseidonErrorKind::Other < PoseidonErrorKind::Unspecified(String::new()));
    assert!(HttpError::MalformedChunkLength < HttpError::MalformedChunkEnd);
    assert!(HttpError::Other("a".to_string()) < HttpError::Other("b".to_string()));
    assert!(RustlsError::CorruptMessage < RustlsError::NoCertificatesPresented);
    assert!(
        JsonError { code: 1, message: "z".to_string() }
            < JsonError { code: 2, message: "a".to_string() }
    );
    assert_eq!(
        JsonError { code: 1, message: "z".to_string() },
        JsonError { code: 1, message: "z".to_string() }
    );
}
