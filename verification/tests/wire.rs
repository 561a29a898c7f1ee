use poseidon_common::wire::{decode_list, decode_text, encode_list, encode_text, Coded};
use poseidon_common::{
    AlertDescription, ContentType, HandshakeType, HttpError, JsonError, PoseidonError,
    PoseidonErrorKind, RustlsError, SctError,
};

fn samples() -> Vec<PoseidonError> {
    vec![
        PoseidonError::MissingEd25519PublicKey,
        PoseidonError::MissingKeypair,
        PoseidonError::MissingTxSignature,
        PoseidonError::HomeDirectoryNotFound,
        PoseidonError::PathIsNotValidUtf8,
        PoseidonError::InvalidUtf8("bad byte at 3".to_string()),
        PoseidonError::InvalidBase58Ed25519SecretKey,
        PoseidonError::InvalidBase58Ed25519PublicKey,
        PoseidonError::InvalidBase58Ed25519Signature,
        PoseidonError::RepoCreatePermissionDenied,
        PoseidonError::RepoAlreadyExists,
        PoseidonError::IoErr(PoseidonErrorKind::BrokenPipe),
        PoseidonError::IoErr(PoseidonErrorKind::Unspecified("std::io::Error - `x`".to_string())),
        PoseidonError::InvalidByteToUtf8StringConversion,
        PoseidonError::InvalidEd25519PublicKeyHex,
        PoseidonError::InvalidHexCharacter { c: "ü".to_string(), index: 70000 },
        PoseidonError::OddLength,
        PoseidonError::InvalidStringLength,
        PoseidonError::SledCollectionNotFound("users".to_string()),
        PoseidonError::SledUnsupported(String::new()),
        PoseidonError::SledReportableBug("b".to_string()),
        PoseidonError::SledCorruption("Some(Inline(5))".to_string()),
        PoseidonError::AccountNotFound,
        PoseidonError::UnableToDeserializeAccountInfo,
        PoseidonError::UnableToSerializeTx,
        PoseidonError::Rustls(RustlsError::InappropriateMessage {
            expect_types: vec![ContentType::Handshake, ContentType::Unknown(9)],
            got_type: ContentType::Alert,
        }),
        PoseidonError::Rustls(RustlsError::InappropriateHandshakeMessage {
            expect_types: vec![HandshakeType::ClientHello, HandshakeType::ServerHello],
            got_type: HandshakeType::Finished,
        }),
        PoseidonError::Rustls(RustlsError::CorruptMessage),
        PoseidonError::Rustls(RustlsError::CorruptMessagePayload(ContentType::Heartbeat)),
        PoseidonError::Rustls(RustlsError::NoCertificatesPresented),
        PoseidonError::Rustls(RustlsError::UnsupportedNameType),
        PoseidonError::Rustls(RustlsError::DecryptError),
        PoseidonError::Rustls(RustlsError::EncryptError),
        PoseidonError::Rustls(RustlsError::PeerIncompatibleError("p".to_string())),
        PoseidonError::Rustls(RustlsError::PeerMisbehavedError("q".to_string())),
        PoseidonError::Rustls(RustlsError::AlertReceived(AlertDescription::UnknownCA)),
        PoseidonError::Rustls(RustlsError::AlertReceived(AlertDescription::Unknown(77))),
        PoseidonError::Rustls(RustlsError::InvalidCertificateEncoding),
        PoseidonError::Rustls(RustlsError::InvalidCertificateSignatureType),
        PoseidonError::Rustls(RustlsError::InvalidCertificateSignature),
        PoseidonError::Rustls(RustlsError::InvalidCertificateData("d".to_string())),
        PoseidonError::Rustls(RustlsError::InvalidSct(SctError::TimestampInFuture)),
        PoseidonError::Rustls(RustlsError::General("g".to_string())),
        PoseidonError::Rustls(RustlsError::FailedToGetCurrentTime),
        PoseidonError::Rustls(RustlsError::FailedToGetRandomBytes),
        PoseidonError::Rustls(RustlsError::HandshakeNotComplete),
        PoseidonError::Rustls(RustlsError::PeerSentOversizedRecord),
        PoseidonError::Rustls(RustlsError::NoApplicationProtocol),
        PoseidonError::Rustls(RustlsError::BadMaxFragmentSize),
        PoseidonError::Http(HttpError::TooManyRedirections),
        PoseidonError::Http(HttpError::Other("o".to_string())),
        PoseidonError::Json(JsonError { code: -32601, message: "Method not found".to_string() }),
        PoseidonError::SerdeJson("EOF".to_string()),
        PoseidonError::Unspecified("anything at all".to_string()),
    ]
}

#[test]
fn every_error_is_read_back_from_its_binary_form() {
    for error in samples() {
        let bytes = error.to_bytes();
        assert_eq!(PoseidonError::from_bytes(&bytes), Some(error));
    }
}

#[test]
fn the_binary_form_starts_with_the_place_of_the_variant() {
    for error in samples() {
        assert_eq!(error.to_bytes()[0], error.rank_value());
    }
}

#[test]
fn different_errors_have_different_binary_forms() {
    let errors = samples();
    for (i, a) in errors.iter().enumerate() {
        for (j, b) in errors.iter().enumerate() {
            assert_eq!(a.to_bytes() == b.to_bytes(), i == j);
        }
    }
}

#[test]
fn a_variant_without_fields_is_one_byte() {
    assert_eq!(PoseidonError::MissingEd25519PublicKey.to_bytes(), vec![0]);
    assert_eq!(PoseidonError::OddLength.to_bytes(), vec![15]);
    assert_eq!(PoseidonError::UnableToSerializeTx.to_bytes(), vec![23]);
}

#[test]
fn a_text_is_its_length_and_its_utf8_bytes() {
    assert_eq!(
        PoseidonError::Unspecified("hé".to_string()).to_bytes(),
        vec![28, 3, 0, 0, 0, 0, 0, 0, 0, b'h', 0xc3, 0xa9]
    );
    assert_eq!(
        PoseidonError::SerdeJson(String::new()).to_bytes(),
        vec![27, 0, 0, 0, 0, 0, 0, 0, 0]
    );
}

#[test]
fn the_fields_follow_in_their_order() {
    assert_eq!(
        PoseidonError::InvalidHexCharacter { c: "g".to_string(), index: 258 }.to_bytes(),
        vec![14, 1, 0, 0, 0, 0, 0, 0, 0, b'g', 2, 1, 0, 0, 0, 0, 0, 0]
    );
}

#[test]
fn a_nested_category_follows_the_variant() {
    assert_eq!(PoseidonError::IoErr(PoseidonErrorKind::ConnectionReset).to_bytes(), vec![11, 3]);
    assert_eq!(
        PoseidonError::Rustls(RustlsError::AlertReceived(AlertDescription::Unknown(7))).to_bytes(),
        vec![24, 10, 34, 7]
    );
    assert_eq!(
        PoseidonError::Http(HttpError::Other("x".to_string())).to_bytes(),
        vec![25, 17, 1, 0, 0, 0, 0, 0, 0, 0, b'x']
    );
    assert_eq!(
        PoseidonError::Json(JsonError { code: -2, message: "no".to_string() }).to_bytes(),
        vec![26, 0xfe, 0xff, 2, 0, 0, 0, 0, 0, 0, 0, b'n', b'o']
    );
}

#[test]
fn a_list_is_its_count_and_its_entries() {
    let failure = RustlsError::InappropriateHandshakeMessage {
        expect_types: vec![HandshakeType::ClientHello, HandshakeType::Unknown(9)],
        got_type: HandshakeType::Finished,
    };
    assert_eq!(failure.to_bytes(), vec![1, 2, 0, 0, 0, 0, 0, 0, 0, 1, 18, 9, 13]);
    assert_eq!(RustlsError::from_bytes(&failure.to_bytes()), Some(failure));
}

#[test]
fn no_bytes_are_no_error() {
    assert_eq!(PoseidonError::from_bytes(&[]), None);
}

#[test]
fn an_unknown_place_is_no_error() {
    assert_eq!(PoseidonError::from_bytes(&[29]), None);
    assert_eq!(PoseidonError::from_bytes(&[255]), None);
    assert_eq!(PoseidonErrorKind::from_bytes(&[21]), None);
    assert_eq!(HttpError::from_bytes(&[18]), None);
    assert_eq!(RustlsError::from_bytes(&[23]), None);
}

#[test]
fn a_field_that_is_cut_off_is_no_error() {
    assert_eq!(PoseidonError::from_bytes(&[28]), None);
    assert_eq!(PoseidonError::from_bytes(&[28, 3, 0, 0, 0]), None);
    assert_eq!(PoseidonError::from_bytes(&[28, 3, 0, 0, 0, 0, 0, 0, 0, b'h']), None);
    assert_eq!(PoseidonError::from_bytes(&[14, 1, 0, 0, 0, 0, 0, 0, 0, b'g', 2, 1]), None);
    assert_eq!(PoseidonError::from_bytes(&[11]), None);
    assert_eq!(PoseidonError::from_bytes(&[24, 10, 34]), None);
    assert_eq!(PoseidonError::from_bytes(&[26, 0xfe]), None);
}

#[test]
fn a_length_beyond_the_input_is_no_error() {
    let bytes = [28, 255, 255, 255, 255, 255, 255, 255, 255, b'h'];
    assert_eq!(PoseidonError::from_bytes(&bytes), None);
    let list = [24, 0, 255, 255, 255, 255, 255, 255, 255, 255, 1, 1];
    assert_eq!(PoseidonError::from_bytes(&list), None);
}

#[test]
fn bytes_after_the_error_are_refused() {
    assert_eq!(PoseidonError::from_bytes(&[15, 0]), None);
    assert_eq!(PoseidonError::from_bytes(&[11, 3, 3]), None);
    assert_eq!(PoseidonError::decode(&[15, 0]), Some((PoseidonError::OddLength, 1)));
    assert_eq!(
        PoseidonError::decode(&[11, 3, 3]),
        Some((PoseidonError::IoErr(PoseidonErrorKind::ConnectionReset), 2))
    );
}

#[test]
fn a_text_that_is_not_utf8_is_no_error() {
    assert_eq!(PoseidonError::from_bytes(&[28, 1, 0, 0, 0, 0, 0, 0, 0, 0xff]), None);
    assert_eq!(PoseidonError::from_bytes(&[28, 2, 0, 0, 0, 0, 0, 0, 0, 0xc3, b'a']), None);
}

#[test]
fn every_category_is_read_back_on_its_own() {
    let kind = PoseidonErrorKind::Unspecified("k".to_string());
    assert_eq!(PoseidonErrorKind::from_bytes(&kind.to_bytes()), Some(kind));
    let http = HttpError::Other("h".to_string());
    assert_eq!(HttpError::from_bytes(&http.to_bytes()), Some(http));
    let json = JsonError { code: i16::MIN, message: "j".to_string() };
    assert_eq!(JsonError::from_bytes(&json.to_bytes()), Some(json));
    let json = JsonError { code: i16::MAX, message: String::new() };
    assert_eq!(json.to_bytes(), vec![0xff, 0x7f, 0, 0, 0, 0, 0, 0, 0, 0]);
    assert_eq!(JsonError::from_bytes(&json.to_bytes()), Some(json));
}

#[test]
fn the_vocabulary_is_read_back_on_its_own() {
    for code in 0..=255u8 {
        for value in [ContentType::Unknown(code), ContentType::Alert] {
            let mut bytes = Vec::new();
            value.encode(&mut bytes);
            assert_eq!(ContentType::decode(&bytes), Some((value, bytes.len())));
        }
        let alert = AlertDescription::Unknown(code);
        let mut bytes = vec![9];
        alert.encode(&mut bytes);
        assert_eq!(bytes, vec![9, 34, code]);
        assert_eq!(AlertDescription::decode(&bytes[1..]), Some((alert, 2)));
    }
    for rank in 0..=255u8 {
        let expected = SctError::of_rank_value(rank);
        assert_eq!(expected.is_some(), rank < 5);
        assert_eq!(SctError::decode(&[rank]), expected.map(|value| (value, 1)));
        if let Some(value) = HandshakeType::of_rank_value(rank) {
            assert_eq!(value.rank_value(), rank);
            let mut bytes = Vec::new();
            value.encode(&mut bytes);
            assert_eq!(bytes, vec![rank]);
        }
    }
    assert_eq!(HandshakeType::decode(&[18]), None);
    assert_eq!(HandshakeType::decode(&[18, 4, 4]), Some((HandshakeType::Unknown(4), 2)));
    assert_eq!(HandshakeType::decode(&[19]), None);
}

#[test]
fn texts_and_lists_are_read_back_with_what_follows_untouched() {
    let mut bytes = Vec::new();
    encode_text("größe", &mut bytes);
    let length = bytes.len();
    bytes.extend_from_slice(&[1, 2, 3]);
    assert_eq!(decode_text(&bytes), Some(("größe".to_string(), length)));

    let list = vec![ContentType::Alert, ContentType::Unknown(200), ContentType::Handshake];
    let mut bytes = Vec::new();
    encode_list(&list, &mut bytes);
    assert_eq!(bytes, vec![3, 0, 0, 0, 0, 0, 0, 0, 1, 5, 200, 2]);
    bytes.push(77);
    assert_eq!(decode_list::<ContentType>(&bytes), Some((list, 12)));
    assert_eq!(decode_list::<ContentType>(&bytes[..10]), None);
}
