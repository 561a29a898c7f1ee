use poseidon_common::structured::{
    describe_list, interpret_list, interpret_text, str_equal, Described, Entry,
};
use poseidon_common::{
    AlertDescription, ContentType, HandshakeType, HttpError, JsonError, PoseidonError,
    PoseidonErrorKind, RustlsError, SctError,
};

fn variant(name: &str) -> Entry {
    Entry::Variant(name.to_string())
}

fn field(name: &str) -> Entry {
    Entry::Field(name.to_string())
}

fn text(value: &str) -> Entry {
    Entry::Text(value.to_string())
}

fn documented() -> Vec<PoseidonError> {
    vec![
        PoseidonError::MissingEd25519PublicKey,
        PoseidonError::MissingKeypair,
        PoseidonError::MissingTxSignature,
        PoseidonError::HomeDirectoryNotFound,
        PoseidonError::PathIsNotValidUtf8,
        PoseidonError::InvalidUtf8("bad byte at 3".to_string()),
        PoseidonError::InvalidBase58Ed25519SecretKey,
        PoseidonError::InvalidBase58Ed25519PublicKey,
        PoseidonError::InvalidBase58Ed25519Signature,
        PoseidonError::RepoCreatePermissionDenied,
        PoseidonError::RepoAlreadyExists,
        PoseidonError::IoErr(PoseidonErrorKind::NotFound),
        PoseidonError::IoErr(PoseidonErrorKind::OutOfMemory),
        PoseidonError::IoErr(PoseidonErrorKind::Unspecified("std::io::Error - `x`".to_string())),
        PoseidonError::InvalidByteToUtf8StringConversion,
        PoseidonError::InvalidEd25519PublicKeyHex,
        PoseidonError::InvalidHexCharacter { c: "ü".to_string(), index: 70000 },
        PoseidonError::OddLength,
        PoseidonError::InvalidStringLength,
        PoseidonError::SledCollectionNotFound("users".to_string()),
        PoseidonError::SledUnsupported(String::new()),
        PoseidonError::SledReportableBug("b".to_string()),
        PoseidonError::SledCorruption("None".to_string()),
        PoseidonError::AccountNotFound,
        PoseidonError::UnableToDeserializeAccountInfo,
        PoseidonError::UnableToSerializeTx,
        PoseidonError::Rustls(RustlsError::InappropriateMessage {
            expect_types: vec![ContentType::Handshake, ContentType::Unknown(9)],
            got_type: ContentType::Alert,
        }),
        PoseidonError::Rustls(RustlsError::InappropriateHandshakeMessage {
            expect_types: vec![],
            got_type: HandshakeType::Unknown(0),
        }),
        PoseidonError::Rustls(RustlsError::CorruptMessage),
        PoseidonError::Rustls(RustlsError::CorruptMessagePayload(ContentType::Heartbeat)),
        PoseidonError::Rustls(RustlsError::NoCertificatesPresented),
        PoseidonError::Rustls(RustlsError::UnsupportedNameType),
        PoseidonError::Rustls(RustlsError::DecryptError),
        PoseidonError::Rustls(RustlsError::EncryptError),
        PoseidonError::Rustls(RustlsError::PeerIncompatibleError("p".to_string())),
        PoseidonError::Rustls(RustlsError::PeerMisbehavedError("q".to_string())),
        PoseidonError::Rustls(RustlsError::AlertReceived(AlertDescription::DecryptError)),
        PoseidonError::Rustls(RustlsError::AlertReceived(AlertDescription::Unknown(255))),
        PoseidonError::Rustls(RustlsError::InvalidCertificateEncoding),
        PoseidonError::Rustls(RustlsError::InvalidCertificateSignatureType),
        PoseidonError::Rustls(RustlsError::InvalidCertificateSignature),
        PoseidonError::Rustls(RustlsError::InvalidCertificateData("d".to_string())),
        PoseidonError::Rustls(RustlsError::InvalidSct(SctError::UnsupportedSctVersion)),
        PoseidonError::Rustls(RustlsError::General("g".to_string())),
        PoseidonError::Rustls(RustlsError::FailedToGetCurrentTime),
        PoseidonError::Rustls(RustlsError::FailedToGetRandomBytes),
        PoseidonError::Rustls(RustlsError::HandshakeNotComplete),
        PoseidonError::Rustls(RustlsError::PeerSentOversizedRecord),
        PoseidonError::Rustls(RustlsError::NoApplicationProtocol),
        PoseidonError::Rustls(RustlsError::BadMaxFragmentSize),
        PoseidonError::Http(HttpError::MalformedChunkLength),
        PoseidonError::Http(HttpError::InvalidProxyCreds),
        PoseidonError::Http(HttpError::Other("o".to_string())),
        PoseidonError::Json(JsonError { code: -32601, message: "Method not found".to_string() }),
        PoseidonError::SerdeJson("EOF".to_string()),
        PoseidonError::Unspecified("anything at all".to_string()),
    ]
}

#[test]
fn every_error_is_read_back_from_its_document() {
    for error in documented() {
        let document = error.to_document();
        assert_eq!(PoseidonError::from_document(&document), Some(error));
    }
}

#[test]
fn a_document_starts_with_the_name_of_the_variant() {
    for error in documented() {
        let document = error.to_document();
        assert_eq!(document[0], variant(error.variant_name()));
        assert_eq!(
            PoseidonError::rank_of_name_value(error.variant_name()),
            Some(error.rank_value())
        );
    }
}

#[test]
fn different_errors_have_different_documents() {
    let errors = documented();
    for (i, a) in errors.iter().enumerate() {
        for (j, b) in errors.iter().enumerate() {
            assert_eq!(a.to_document() == b.to_document(), i == j);
        }
    }
}

#[test]
fn a_variant_without_fields_is_its_name() {
    assert_eq!(PoseidonError::OddLength.to_document(), vec![variant("OddLength")]);
    assert_eq!(
        PoseidonError::from_document(&[variant("MissingKeypair")]),
        Some(PoseidonError::MissingKeypair)
    );
    assert_eq!(PoseidonError::MissingEd25519PublicKey.variant_name(), "MissingEd25519PublicKey");
    assert_eq!(PoseidonError::Unspecified(String::new()).variant_name(), "Unspecified");
}

#[test]
fn named_fields_stand_after_their_names() {
    assert_eq!(
        PoseidonError::InvalidHexCharacter { c: "g".to_string(), index: 1 }.to_document(),
        vec![
            variant("InvalidHexCharacter"),
            field("c"),
            text("g"),
            field("index"),
            Entry::Number(1)
        ]
    );
    assert_eq!(
        PoseidonError::Json(JsonError { code: -2, message: "no".to_string() }).to_document(),
        vec![
            variant("Json"),
            field("code"),
            Entry::Integer(-2),
            field("message"),
            text("no")
        ]
    );
}

#[test]
fn a_nested_category_follows_the_name_of_the_variant() {
    assert_eq!(
        PoseidonError::IoErr(PoseidonErrorKind::ConnectionReset).to_document(),
        vec![variant("IoErr"), variant("ConnectionReset")]
    );
    assert_eq!(
        PoseidonError::Rustls(RustlsError::AlertReceived(AlertDescription::Unknown(7)))
            .to_document(),
        vec![variant("Rustls"), variant("AlertReceived"), variant("Unknown"), Entry::Number(7)]
    );
    assert_eq!(
        PoseidonError::Http(HttpError::Other("x".to_string())).to_document(),
        vec![variant("Http"), variant("Other"), text("x")]
    );
}

#[test]
fn a_list_stands_after_the_number_of_its_entries() {
    let failure = RustlsError::InappropriateHandshakeMessage {
        expect_types: vec![HandshakeType::ClientHello, HandshakeType::ServerHello],
        got_type: HandshakeType::Finished,
    };
    assert_eq!(
        failure.to_document(),
        vec![
            variant("InappropriateHandshakeMessage"),
            field("expect_types"),
            Entry::List(2),
            variant("ClientHello"),
            variant("ServerHello"),
            field("got_type"),
            variant("Finished"),
        ]
    );
    assert_eq!(RustlsError::from_document(&failure.to_document()), Some(failure));
}

#[test]
fn an_empty_document_is_no_error() {
    assert_eq!(PoseidonError::from_document(&[]), None);
}

#[test]
fn an_unknown_name_is_no_error() {
    assert_eq!(PoseidonError::from_document(&[variant("Tx")]), None);
    assert_eq!(PoseidonError::from_document(&[variant("oddlength")]), None);
    assert_eq!(PoseidonError::from_document(&[variant("")]), None);
    assert_eq!(PoseidonError::from_document(&[variant("IoErr"), variant("Nothing")]), None);
    assert_eq!(PoseidonError::rank_of_name_value("OddLength "), None);
}

#[test]
fn a_document_that_starts_otherwise_is_no_error() {
    assert_eq!(PoseidonError::from_document(&[text("OddLength")]), None);
    assert_eq!(PoseidonError::from_document(&[field("OddLength")]), None);
    assert_eq!(PoseidonError::from_document(&[Entry::Number(15)]), None);
}

#[test]
fn a_missing_or_misnamed_field_is_no_error() {
    assert_eq!(PoseidonError::from_document(&[variant("InvalidUtf8")]), None);
    assert_eq!(PoseidonError::from_document(&[variant("InvalidUtf8"), Entry::Number(1)]), None);
    assert_eq!(
        PoseidonError::from_document(&[
            variant("InvalidHexCharacter"),
            text("g"),
            Entry::Number(1)
        ]),
        None
    );
    assert_eq!(
        PoseidonError::from_document(&[
            variant("InvalidHexCharacter"),
            field("index"),
            Entry::Number(1),
            field("c"),
            text("g"),
        ]),
        None
    );
    assert_eq!(
        PoseidonError::from_document(&[
            variant("InvalidHexCharacter"),
            field("c"),
            text("g"),
            field("index"),
        ]),
        None
    );
    assert_eq!(
        PoseidonError::from_document(&[
            variant("Json"),
            field("code"),
            Entry::Integer(1),
            field("text"),
            text("m"),
        ]),
        None
    );
}

#[test]
fn a_number_out_of_range_is_no_error() {
    assert_eq!(
        PoseidonError::from_document(&[
            variant("Rustls"),
            variant("AlertReceived"),
            variant("Unknown"),
            Entry::Number(256),
        ]),
        None
    );
    assert_eq!(
        PoseidonError::from_document(&[
            variant("Json"),
            field("code"),
            Entry::Integer(32768),
            field("message"),
            text("m"),
        ]),
        None
    );
    assert_eq!(
        PoseidonError::from_document(&[
            variant("Json"),
            field("code"),
            Entry::Integer(-32768),
            field("message"),
            text("m"),
        ]),
        Some(PoseidonError::Json(JsonError { code: i16::MIN, message: "m".to_string() }))
    );
    assert_eq!(
        PoseidonError::from_document(&[
            variant("Json"),
            field("code"),
            Entry::Number(1),
            field("message"),
            text("m"),
        ]),
        None
    );
}

#[test]
fn entries_after_the_error_are_refused() {
    assert_eq!(PoseidonError::from_document(&[variant("OddLength"), variant("OddLength")]), None);
    assert_eq!(
        PoseidonError::interpret(&[variant("OddLength"), variant("OddLength")]),
        Some((PoseidonError::OddLength, 1))
    );
    assert_eq!(
        PoseidonError::interpret(&[variant("IoErr"), variant("TimedOut"), text("x")]),
        Some((PoseidonError::IoErr(PoseidonErrorKind::TimedOut), 2))
    );
}

#[test]
fn a_list_that_announces_more_than_follows_is_no_error() {
    let document = vec![
        variant("InappropriateMessage"),
        field("expect_types"),
        Entry::List(3),
        variant("Alert"),
        variant("Handshake"),
        field("got_type"),
        variant("Alert"),
    ];
    assert_eq!(RustlsError::from_document(&document), None);
    let huge = vec![Entry::List(u64::MAX), variant("Alert")];
    assert_eq!(interpret_list::<ContentType>(&huge), None);
}

#[test]
fn every_category_is_read_back_from_its_own_document() {
    let kind = PoseidonErrorKind::Unspecified("k".to_string());
    assert_eq!(kind.to_document(), vec![variant("Unspecified"), text("k")]);
    assert_eq!(PoseidonErrorKind::from_document(&kind.to_document()), Some(kind));
    let http = HttpError::HeadersOverflow;
    assert_eq!(http.to_document(), vec![variant("HeadersOverflow")]);
    assert_eq!(HttpError::from_document(&http.to_document()), Some(http));
    let json = JsonError { code: 7, message: "j".to_string() };
    assert_eq!(JsonError::from_document(&json.to_document()), Some(json));
}

#[test]
fn the_vocabulary_is_read_back_from_its_own_documents() {
    for rank in 0..=255u8 {
        if let Some(value) = AlertDescription::of_rank_value(rank) {
            let mut document = Vec::new();
            value.describe(&mut document);
            assert_eq!(document, vec![variant(value.variant_name())]);
            assert_eq!(AlertDescription::interpret(&document), Some((value, 1)));
            assert_eq!(AlertDescription::rank_of_name_value(value.variant_name()), Some(rank));
        }
        if let Some(value) = HandshakeType::of_rank_value(rank) {
            let mut document = vec![text("before")];
            value.describe(&mut document);
            assert_eq!(HandshakeType::interpret(&document[1..]), Some((value, 1)));
        }
        let unknown = ContentType::Unknown(rank);
        let mut document = Vec::new();
        unknown.describe(&mut document);
        assert_eq!(document, vec![variant("Unknown"), Entry::Number(rank as u64)]);
        assert_eq!(ContentType::interpret(&document), Some((unknown, 2)));
    }
    assert_eq!(SctError::UnknownLog.variant_name(), "UnknownLog");
    assert_eq!(SctError::interpret(&[variant("UnknownLog")]), Some((SctError::UnknownLog, 1)));
    assert_eq!(SctError::interpret(&[variant("Unknown")]), None);
    assert_eq!(AlertDescription::CloseNotify.variant_name(), "CloseNotify");
    assert_eq!(AlertDescription::UnknownCA.variant_name(), "UnknownCA");
    assert_eq!(HandshakeType::CertificateURL.variant_name(), "CertificateURL");
    assert_eq!(ContentType::interpret(&[variant("Unknown")]), None);
}

#[test]
fn lists_and_texts_are_read_back_with_what_follows_untouched() {
    let list = vec![ContentType::Alert, ContentType::Unknown(200), ContentType::Handshake];
    let mut document = Vec::new();
    describe_list(&list, &mut document);
    assert_eq!(
        document,
        vec![
            Entry::List(3),
            variant("Alert"),
            variant("Unknown"),
            Entry::Number(200),
            variant("Handshake"),
        ]
    );
    document.push(text("after"));
    assert_eq!(interpret_list::<ContentType>(&document), Some((list, 5)));
    assert_eq!(interpret_text(&document[5..]), Some(("after".to_string(), 1)));
    assert_eq!(interpret_text(&document), None);
}

#[test]
fn texts_are_compared_by_their_content() {
    assert!(str_equal("", ""));
    assert!(str_equal("größe", "größe"));
    assert!(!str_equal("a", "b"));
    assert!(!str_equal("a", "ab"));
    assert!(!str_equal("A", "a"));
}
