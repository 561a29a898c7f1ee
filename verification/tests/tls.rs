use poseidon_common::{
    AlertDescription, ContentType, HandshakeType, PoseidonError, RustlsError, SctError,
};
use rustls::internal::msgs::enums::AlertDescription as NativeAlert;
use rustls::internal::msgs::enums::ContentType as NativeContent;
use rustls::internal::msgs::enums::HandshakeType as NativeHandshake;

#[test]
fn an_inappropriate_handshake_message_keeps_list_and_type() {
    let native = rustls::Error::InappropriateHandshakeMessage {
        expect_types: vec![NativeHandshake::ClientHello, NativeHandshake::ServerHello],
        got_type: NativeHandshake::Finished,
    };
    match RustlsError::from(native) {
        RustlsError::InappropriateHandshakeMessage { expect_types, got_type } => {
            assert_eq!(expect_types.len(), 2);
            assert_eq!(expect_types[0], HandshakeType::ClientHello);
            assert_eq!(expect_types[1], HandshakeType::ServerHello);
            assert_eq!(got_type, HandshakeType::Finished);
        }
        other => panic!("expected the handshake message, got {:?}", other),
    }
}

#[test]
fn an_inappropriate_message_keeps_list_and_type() {
    let native = rustls::Error::InappropriateMessage {
        expect_types: vec![
            NativeContent::Handshake,
            NativeContent::Unknown(99),
            NativeContent::Alert,
        ],
        got_type: NativeContent::ApplicationData,
    };
    assert_eq!(
        RustlsError::from(native),
        RustlsError::InappropriateMessage {
            expect_types: vec![
                ContentType::Handshake,
                ContentType::Unknown(99),
                ContentType::Alert
            ],
            got_type: ContentType::ApplicationData,
        }
    );
}

#[test]
fn an_empty_list_stays_empty() {
    let native = rustls::Error::InappropriateMessage {
        expect_types: vec![],
        got_type: NativeContent::Heartbeat,
    };
    assert_eq!(
        RustlsError::from(native),
        RustlsError::InappropriateMessage { expect_types: vec![], got_type: ContentType::Heartbeat }
    );
}

#[test]
fn every_record_type_has_the_variant_of_its_name() {
    assert_eq!(ContentType::from(NativeContent::ChangeCipherSpec), ContentType::ChangeCipherSpec);
    assert_eq!(ContentType::from(NativeContent::Alert), ContentType::Alert);
    assert_eq!(ContentType::from(NativeContent::Handshake), ContentType::Handshake);
    assert_eq!(ContentType::from(NativeContent::ApplicationData), ContentType::ApplicationData);
    assert_eq!(ContentType::from(NativeContent::Heartbeat), ContentType::Heartbeat);
    assert_eq!(ContentType::from(NativeContent::Unknown(0x14)), ContentType::Unknown(0x14));
}

#[test]
fn every_handshake_type_has_the_variant_of_its_name() {
    let cases = vec![
        (NativeHandshake::HelloRequest, HandshakeType::HelloRequest),
        (NativeHandshake::ClientHello, HandshakeType::ClientHello),
        (NativeHandshake::ServerHello, HandshakeType::ServerHello),
        (NativeHandshake::NewSessionTicket, HandshakeType::NewSessionTicket),
        (NativeHandshake::EndOfEarlyData, HandshakeType::EndOfEarlyData),
        (NativeHandshake::HelloRetryRequest, HandshakeType::HelloRetryRequest),
        (NativeHandshake::EncryptedExtensions, HandshakeType::EncryptedExtensions),
        (NativeHandshake::Certificate, HandshakeType::Certificate),
        (NativeHandshake::ServerKeyExchange, HandshakeType::ServerKeyExchange),
        (NativeHandshake::CertificateRequest, HandshakeType::CertificateRequest),
        (NativeHandshake::ServerHelloDone, HandshakeType::ServerHelloDone),
        (NativeHandshake::CertificateVerify, HandshakeType::CertificateVerify),
        (NativeHandshake::ClientKeyExchange, HandshakeType::ClientKeyExchange),
        (NativeHandshake::Finished, HandshakeType::Finished),
        (NativeHandshake::CertificateURL, HandshakeType::CertificateURL),
        (NativeHandshake::CertificateStatus, HandshakeType::CertificateStatus),
        (NativeHandshake::KeyUpdate, HandshakeType::KeyUpdate),
        (NativeHandshake::MessageHash, HandshakeType::MessageHash),
        (NativeHandshake::Unknown(200), HandshakeType::Unknown(200)),
    ];
    for (native, expected) in cases {
        assert_eq!(HandshakeType::from(native), expected);
    }
}

#[test]
fn hello_verify_request_is_kept_by_its_code() {
    assert_eq!(HandshakeType::from(NativeHandshake::HelloVerifyRequest), HandshakeType::Unknown(3));
}

#[test]
fn every_alert_has_the_variant_of_its_name() {
    let cases = vec![
        (NativeAlert::CloseNotify, AlertDescription::CloseNotify),
        (NativeAlert::UnexpectedMessage, AlertDescription::UnexpectedMessage),
        (NativeAlert::BadRecordMac, AlertDescription::BadRecordMac),
        (NativeAlert::DecryptionFailed, AlertDescription::DecryptionFailed),
        (NativeAlert::RecordOverflow, AlertDescription::RecordOverflow),
        (NativeAlert::DecompressionFailure, AlertDescription::DecompressionFailure),
        (NativeAlert::HandshakeFailure, AlertDescription::HandshakeFailure),
        (NativeAlert::NoCertificate, AlertDescription::NoCertificate),
        (NativeAlert::BadCertificate, AlertDescription::BadCertificate),
        (NativeAlert::UnsupportedCertificate, AlertDescription::UnsupportedCertificate),
        (NativeAlert::CertificateRevoked, AlertDescription::CertificateRevoked),
        (NativeAlert::CertificateExpired, AlertDescription::CertificateExpired),
        (NativeAlert::CertificateUnknown, AlertDescription::CertificateUnknown),
        (NativeAlert::IllegalParameter, AlertDescription::IllegalParameter),
        (NativeAlert::UnknownCA, AlertDescription::UnknownCA),
        (NativeAlert::AccessDenied, AlertDescription::AccessDenied),
        (NativeAlert::DecodeError, AlertDescription::DecodeError),
        (NativeAlert::DecryptError, AlertDescription::DecryptError),
        (NativeAlert::ExportRestriction, AlertDescription::ExportRestriction),
        (NativeAlert::ProtocolVersion, AlertDescription::ProtocolVersion),
        (NativeAlert::InsufficientSecurity, AlertDescription::InsufficientSecurity),
        (NativeAlert::InternalError, AlertDescription::InternalError),
        (NativeAlert::InappropriateFallback, AlertDescription::InappropriateFallback),
        (NativeAlert::UserCanceled, AlertDescription::UserCanceled),
        (NativeAlert::NoRenegotiation, AlertDescription::NoRenegotiation),
        (NativeAlert::MissingExtension, AlertDescription::MissingExtension),
        (NativeAlert::UnsupportedExtension, AlertDescription::UnsupportedExtension),
        (NativeAlert::CertificateUnobtainable, AlertDescription::CertificateUnobtainable),
        (NativeAlert::UnrecognisedName, AlertDescription::UnrecognisedName),
        (
            NativeAlert::BadCertificateStatusResponse,
            AlertDescription::BadCertificateStatusResponse,
        ),
        (NativeAlert::BadCertificateHashValue, AlertDescription::BadCertificateHashValue),
        (NativeAlert::UnknownPSKIdentity, AlertDescription::UnknownPSKIdentity),
        (NativeAlert::CertificateRequired, AlertDescription::CertificateRequired),
        (NativeAlert::NoApplicationProtocol, AlertDescription::NoApplicationProtocol),
        (NativeAlert::Unknown(0), AlertDescription::Unknown(0)),
    ];
    for (native, expected) in cases {
        assert_eq!(AlertDescription::from(native), expected);
    }
}

#[test]
fn every_timestamp_error_has_the_variant_of_its_name() {
    assert_eq!(SctError::from(sct::Error::MalformedSct), SctError::MalformedSct);
    assert_eq!(SctError::from(sct::Error::InvalidSignature), SctError::InvalidSignature);
    assert_eq!(SctError::from(sct::Error::TimestampInFuture), SctError::TimestampInFuture);
    assert_eq!(SctError::from(sct::Error::UnsupportedSctVersion), SctError::UnsupportedSctVersion);
    assert_eq!(SctError::from(sct::Error::UnknownLog), SctError::UnknownLog);
}

#[test]
fn every_native_failure_has_the_variant_of_its_name() {
    let cases = vec![
        (rustls::Error::CorruptMessage, RustlsError::CorruptMessage),
        (
            rustls::Error::CorruptMessagePayload(NativeContent::Alert),
            RustlsError::CorruptMessagePayload(ContentType::Alert),
        ),
        (rustls::Error::NoCertificatesPresented, RustlsError::NoCertificatesPresented),
        (rustls::Error::UnsupportedNameType, RustlsError::UnsupportedNameType),
        (rustls::Error::DecryptError, RustlsError::DecryptError),
        (rustls::Error::EncryptError, RustlsError::EncryptError),
        (
            rustls::Error::PeerIncompatibleError("no tls 1.3".to_string()),
            RustlsError::PeerIncompatibleError("no tls 1.3".to_string()),
        ),
        (
            rustls::Error::PeerMisbehavedError("two hellos".to_string()),
            RustlsError::PeerMisbehavedError("two hellos".to_string()),
        ),
        (
            rustls::Error::AlertReceived(NativeAlert::HandshakeFailure),
            RustlsError::AlertReceived(AlertDescription::HandshakeFailure),
        ),
        (rustls::Error::InvalidCertificateEncoding, RustlsError::InvalidCertificateEncoding),
        (
            rustls::Error::InvalidCertificateSignatureType,
            RustlsError::InvalidCertificateSignatureType,
        ),
        (rustls::Error::InvalidCertificateSignature, RustlsError::InvalidCertificateSignature),
        (
            rustls::Error::InvalidCertificateData("expired".to_string()),
            RustlsError::InvalidCertificateData("expired".to_string()),
        ),
        (
            rustls::Error::InvalidSct(sct::Error::UnknownLog),
            RustlsError::InvalidSct(SctError::UnknownLog),
        ),
        (rustls::Error::General("oops".to_string()), RustlsError::General("oops".to_string())),
        (rustls::Error::FailedToGetCurrentTime, RustlsError::FailedToGetCurrentTime),
        (rustls::Error::FailedToGetRandomBytes, RustlsError::FailedToGetRandomBytes),
        (rustls::Error::HandshakeNotComplete, RustlsError::HandshakeNotComplete),
        (rustls::Error::PeerSentOversizedRecord, RustlsError::PeerSentOversizedRecord),
        (rustls::Error::NoApplicationProtocol, RustlsError::NoApplicationProtocol),
        (rustls::Error::BadMaxFragmentSize, RustlsError::BadMaxFragmentSize),
    ];
    let mut ranks = Vec::new();
    for (native, expected) in cases {
        let translated = RustlsError::from(native);
        assert_eq!(translated, expected);
        ranks.push(translated.rank_value());
    }
    let mut distinct = ranks.clone();
    distinct.sort();
    distinct.dedup();
    assert_eq!(distinct.len(), ranks.len());
}

#[test]
fn a_native_failure_reaches_the_unified_error() {
    let native = rustls::Error::AlertReceived(NativeAlert::Unknown(7));
    assert_eq!(
        PoseidonError::from(native),
        PoseidonError::Rustls(RustlsError::AlertReceived(AlertDescription::Unknown(7)))
    );
}
