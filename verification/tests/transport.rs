use poseidon_common::{
    AlertDescription, HttpError, PoseidonError, PoseidonErrorKind, RustlsError,
};
use rustls::internal::msgs::enums::AlertDescription as NativeAlert;

#[test]
fn every_transport_failure_has_the_variant_of_its_name() {
    let cases = vec![
        (minreq::Error::MalformedChunkLength, HttpError::MalformedChunkLength),
        (minreq::Error::MalformedChunkEnd, HttpError::MalformedChunkEnd),
        (minreq::Error::MalformedContentLength, HttpError::MalformedContentLength),
        (minreq::Error::HeadersOverflow, HttpError::HeadersOverflow),
        (minreq::Error::StatusLineOverflow, HttpError::StatusLineOverflow),
        (minreq::Error::AddressNotFound, HttpError::AddressNotFound),
        (minreq::Error::RedirectLocationMissing, HttpError::RedirectLocationMissing),
        (minreq::Error::InfiniteRedirectionLoop, HttpError::InfiniteRedirectionLoop),
        (minreq::Error::TooManyRedirections, HttpError::TooManyRedirections),
        (minreq::Error::InvalidUtf8InResponse, HttpError::InvalidUtf8InResponse),
        (minreq::Error::PunycodeConversionFailed, HttpError::PunycodeConversionFailed),
        (minreq::Error::HttpsFeatureNotEnabled, HttpError::HttpsFeatureNotEnabled),
        (minreq::Error::PunycodeFeatureNotEnabled, HttpError::PunycodeFeatureNotEnabled),
        (minreq::Error::BadProxy, HttpError::BadProxy),
        (minreq::Error::BadProxyCreds, HttpError::BadProxyCreds),
        (minreq::Error::ProxyConnect, HttpError::ProxyConnect),
        (minreq::Error::InvalidProxyCreds, HttpError::InvalidProxyCreds),
        (minreq::Error::Other("head too long"), HttpError::Other("head too long".to_string())),
    ];
    let mut ranks = Vec::new();
    for (native, expected) in cases {
        ranks.push(expected.rank_value());
        assert_eq!(PoseidonError::from(native), PoseidonError::Http(expected));
    }
    let mut distinct = ranks.clone();
    distinct.sort();
    distinct.dedup();
    assert_eq!(distinct.len(), ranks.len());
}

#[test]
fn a_body_that_is_not_utf8_keeps_the_rendering_of_the_native_error() {
    let bytes: Vec<u8> = vec![b'a', 0xff, b'b'];
    let inner = std::str::from_utf8(&bytes).unwrap_err();
    let native = minreq::Error::InvalidUtf8InBody(inner);
    assert_eq!(
        PoseidonError::from(native),
        PoseidonError::InvalidUtf8("Utf8Error { valid_up_to: 1, error_len: Some(1) }".to_string())
    );
}

#[test]
fn an_io_failure_of_the_transport_goes_to_the_io_category() {
    let inner = std::io::Error::from(std::io::ErrorKind::TimedOut);
    assert_eq!(
        PoseidonError::from(minreq::Error::IoError(inner)),
        PoseidonError::IoErr(PoseidonErrorKind::TimedOut)
    );
}

#[test]
fn an_unlisted_io_failure_of_the_transport_keeps_its_message() {
    let inner = std::io::Error::new(std::io::ErrorKind::NetworkDown, "cable unplugged");
    assert_eq!(
        PoseidonError::from(minreq::Error::IoError(inner)),
        PoseidonError::IoErr(PoseidonErrorKind::Unspecified(
            "std::io::Error - `cable unplugged`".to_string()
        ))
    );
}

#[test]
fn a_tls_failure_of_the_transport_goes_to_the_secure_channel_category() {
    let inner = rustls::Error::AlertReceived(NativeAlert::CertificateExpired);
    assert_eq!(
        PoseidonError::from(minreq::Error::RustlsCreateConnection(inner)),
        PoseidonError::Rustls(RustlsError::AlertReceived(AlertDescription::CertificateExpired))
    );
}

#[test]
fn an_empty_description_is_kept_empty() {
    assert_eq!(
        PoseidonError::from(minreq::Error::Other("")),
        PoseidonError::Http(HttpError::Other(String::new()))
    );
}

#[test]
fn a_json_error_keeps_the_message_of_the_parser() {
    let native = serde_json::from_str::<serde_json::Value>("{").unwrap_err();
    let rendered = native.to_string();
    assert_eq!(rendered, "EOF while parsing an object at line 1 column 1");
    assert_eq!(PoseidonError::from(native), PoseidonError::SerdeJson(rendered));
}

#[test]
fn a_json_error_of_another_kind_has_another_message() {
    let native = serde_json::from_str::<u8>("300").unwrap_err();
    match PoseidonError::from(native) {
        PoseidonError::SerdeJson(text) => {
            assert_eq!(text, "invalid value: integer `300`, expected u8 at line 1 column 3")
        }
        other => panic!("expected the parser's message, got {:?}", other),
    }
}
