//! The binary form of the secure-channel category and of its vocabulary.

use crate::errors::ssl::{
    AlertDescription, ContentType, HandshakeType, RustlsError, RustlsErrorView, SctError,
};
use crate::wire::{
    after_tag, after_tag_and_field, decode_list, decode_text, encode_list, encode_text,
    list_encoding, parse_list, parse_list_of_encoding, parse_text, parse_text_of_encoding,
    text_encoding, text_fits, Coded,
};
use vstd::prelude::*;
use vstd::slice::slice_subrange;

verus! {

impl ContentType {
    /// The variant without a field at this place of the declaration.
    #[verifier::opaque]
    pub open spec fn of_rank(rank: int) -> Option<Self> {
        if rank == 0 {
            Some(ContentType::ChangeCipherSpec)
        }         else if rank == 1 {
            Some(ContentType::Alert)
        }         else if rank == 2 {
            Some(ContentType::Handshake)
        }         else if rank == 3 {
            Some(ContentType::ApplicationData)
        }         else if rank == 4 {
            Some(ContentType::Heartbeat)
        } else {
            None
        }
    }

    /// The variant without a field at this place of the declaration.
    pub fn of_rank_value(rank: u8) -> (r: Option<Self>)
        ensures
            r == Self::of_rank(rank as int),
    {
        proof {
            reveal(ContentType::of_rank);
        }
        match rank {
            0 => Some(ContentType::ChangeCipherSpec),
            1 => Some(ContentType::Alert),
            2 => Some(ContentType::Handshake),
            3 => Some(ContentType::ApplicationData),
            4 => Some(ContentType::Heartbeat),
            _ => None,
        }
    }
}

impl Coded for ContentType {
    /// The place of the variant as one byte; after that of `Unknown`, its code.
    open spec fn encoding(self) -> Seq<u8> {
        match self {
            ContentType::Unknown(code) => seq![5u8, code],
            _ => seq![self.rank() as u8],
        }
    }

    open spec fn parse(bytes: Seq<u8>) -> Option<(Self, int)> {
        if bytes.len() == 0 {
            None
        } else if bytes[0] == 5 {
            if bytes.len() < 2 {
                None
            } else {
                Some((ContentType::Unknown(bytes[1]), 2))
            }
        } else {
            match Self::of_rank(bytes[0] as int) {
                Some(value) => Some((value, 1)),
                None => None,
            }
        }
    }

    proof fn parse_of_encoding(value: Self, rest: Seq<u8>) {
        reveal(ContentType::of_rank);
        let all = value.encoding() + rest;
        assert(all[0] == value.encoding()[0]);
        if value is Unknown {
            assert(all[1] == value.encoding()[1]);
        }
    }

    fn encode(&self, out: &mut Vec<u8>) {
        out.push(self.rank_value());
        if let ContentType::Unknown(code) = self {
            out.push(*code);
        }
        assert(out@ =~= old(out)@ + self.encoding());
    }

    fn decode(bytes: &[u8]) -> (r: Option<(Self, usize)>) {
        if bytes.len() == 0 {
            None
        } else if bytes[0] == 5 {
            if bytes.len() < 2 {
                None
            } else {
                Some((ContentType::Unknown(bytes[1]), 2))
            }
        } else {
            match Self::of_rank_value(bytes[0]) {
                Some(value) => Some((value, 1)),
                None => None,
            }
        }
    }
}

impl HandshakeType {
    /// The variant without a field at this place of the declaration.
    #[verifier::opaque]
    pub open spec fn of_rank(rank: int) -> Option<Self> {
        if rank == 0 {
            Some(HandshakeType::HelloRequest)
        }         else if rank == 1 {
            Some(HandshakeType::ClientHello)
        }         else if rank == 2 {
            Some(HandshakeType::ServerHello)
        }         else if rank == 3 {
            Some(HandshakeType::NewSessionTicket)
        }         else if rank == 4 {
            Some(HandshakeType::EndOfEarlyData)
        }         else if rank == 5 {
            Some(HandshakeType::HelloRetryRequest)
        }         else if rank == 6 {
            Some(HandshakeType::EncryptedExtensions)
        }         else if rank == 7 {
            Some(HandshakeType::Certificate)
        }         else if rank == 8 {
            Some(HandshakeType::ServerKeyExchange)
        }         else if rank == 9 {
            Some(HandshakeType::CertificateRequest)
        }         else if rank == 10 {
            Some(HandshakeType::ServerHelloDone)
        }         else if rank == 11 {
            Some(HandshakeType::CertificateVerify)
        }         else if rank == 12 {
            Some(HandshakeType::ClientKeyExchange)
        }         else if rank == 13 {
            Some(HandshakeType::Finished)
        }         else if rank == 14 {
            Some(HandshakeType::CertificateURL)
        }         else if rank == 15 {
            Some(HandshakeType::CertificateStatus)
        }         else if rank == 16 {
            Some(HandshakeType::KeyUpdate)
        }         else if rank == 17 {
            Some(HandshakeType::MessageHash)
        } else {
            None
        }
    }

    /// The variant without a field at this place of the declaration.
    pub fn of_rank_value(rank: u8) -> (r: Option<Self>)
        ensures
            r == Self::of_rank(rank as int),
    {
        proof {
            reveal(HandshakeType::of_rank);
        }
        match rank {
            0 => Some(HandshakeType::HelloRequest),
            1 => Some(HandshakeType::ClientHello),
            2 => Some(HandshakeType::ServerHello),
            3 => Some(HandshakeType::NewSessionTicket),
            4 => Some(HandshakeType::EndOfEarlyData),
            5 => Some(HandshakeType::HelloRetryRequest),
            6 => Some(HandshakeType::EncryptedExtensions),
            7 => Some(HandshakeType::Certificate),
            8 => Some(HandshakeType::ServerKeyExchange),
            9 => Some(HandshakeType::CertificateRequest),
            10 => Some(HandshakeType::ServerHelloDone),
            11 => Some(HandshakeType::CertificateVerify),
            12 => Some(HandshakeType::ClientKeyExchange),
            13 => Some(HandshakeType::Finished),
            14 => Some(HandshakeType::CertificateURL),
            15 => Some(HandshakeType::CertificateStatus),
            16 => Some(HandshakeType::KeyUpdate),
            17 => Some(HandshakeType::MessageHash),
            _ => None,
        }
    }
}

impl Coded for HandshakeType {
    /// The place of the variant as one byte; after that of `Unknown`, its code.
    open spec fn encoding(self) -> Seq<u8> {
        match self {
            HandshakeType::Unknown(code) => seq![18u8, code],
            _ => seq![self.rank() as u8],
        }
    }

    open spec fn parse(bytes: Seq<u8>) -> Option<(Self, int)> {
        if bytes.len() == 0 {
            None
        } else if bytes[0] == 18 {
            if bytes.len() < 2 {
                None
            } else {
                Some((HandshakeType::Unknown(bytes[1]), 2))
            }
        } else {
            match Self::of_rank(bytes[0] as int) {
                Some(value) => Some((value, 1)),
                None => None,
            }
        }
    }

    proof fn parse_of_encoding(value: Self, rest: Seq<u8>) {
        reveal(HandshakeType::of_rank);
        let all = value.encoding() + rest;
        assert(all[0] == value.encoding()[0]);
        if value is Unknown {
            assert(all[1] == value.encoding()[1]);
        }
    }

    fn encode(&self, out: &mut Vec<u8>) {
        out.push(self.rank_value());
        if let HandshakeType::Unknown(code) = self {
            out.push(*code);
        }
        assert(out@ =~= old(out)@ + self.encoding());
    }

    fn decode(bytes: &[u8]) -> (r: Option<(Self, usize)>) {
        if bytes.len() == 0 {
            None
        } else if bytes[0] == 18 {
            if bytes.len() < 2 {
                None
            } else {
                Some((HandshakeType::Unknown(bytes[1]), 2))
            }
        } else {
            match Self::of_rank_value(bytes[0]) {
                Some(value) => Some((value, 1)),
                None => None,
            }
        }
    }
}

impl AlertDescription {
    /// The variant without a field at this place of the declaration.
    #[verifier::opaque]
    pub open spec fn of_rank(rank: int) -> Option<Self> {
        if rank == 0 {
            Some(AlertDescription::CloseNotify)
        }         else if rank == 1 {
            Some(AlertDescription::UnexpectedMessage)
        }         else if rank == 2 {
            Some(AlertDescription::BadRecordMac)
        }         else if rank == 3 {
            Some(AlertDescription::DecryptionFailed)
        }         else if rank == 4 {
            Some(AlertDescription::RecordOverflow)
        }         else if rank == 5 {
            Some(AlertDescription::DecompressionFailure)
        }         else if rank == 6 {
            Some(AlertDescription::HandshakeFailure)
        }         else if rank == 7 {
            Some(AlertDescription::NoCertificate)
        }         else if rank == 8 {
            Some(AlertDescription::BadCertificate)
        }         else if rank == 9 {
            Some(AlertDescription::UnsupportedCertificate)
        }         else if rank == 10 {
            Some(AlertDescription::CertificateRevoked)
        }         else if rank == 11 {
            Some(AlertDescription::CertificateExpired)
        }         else if rank == 12 {
            Some(AlertDescription::CertificateUnknown)
        }         else if rank == 13 {
            Some(AlertDescription::IllegalParameter)
        }         else if rank == 14 {
            Some(AlertDescription::UnknownCA)
        }         else if rank == 15 {
            Some(AlertDescription::AccessDenied)
        }         else if rank == 16 {
            Some(AlertDescription::DecodeError)
        }         else if rank == 17 {
            Some(AlertDescription::DecryptError)
        }         else if rank == 18 {
            Some(AlertDescription::ExportRestriction)
        }         else if rank == 19 {
            Some(AlertDescription::ProtocolVersion)
        }         else if rank == 20 {
            Some(AlertDescription::InsufficientSecurity)
        }         else if rank == 21 {
            Some(AlertDescription::InternalError)
        }         else if rank == 22 {
            Some(AlertDescription::InappropriateFallback)
        }         else if rank == 23 {
            Some(AlertDescription::UserCanceled)
        }         else if rank == 24 {
            Some(AlertDescription::NoRenegotiation)
        }         else if rank == 25 {
            Some(AlertDescription::MissingExtension)
        }         else if rank == 26 {
            Some(AlertDescription::UnsupportedExtension)
        }         else if rank == 27 {
            Some(AlertDescription::CertificateUnobtainable)
        }         else if rank == 28 {
            Some(AlertDescription::UnrecognisedName)
        }         else if rank == 29 {
            Some(AlertDescription::BadCertificateStatusResponse)
        }         else if rank == 30 {
            Some(AlertDescription::BadCertificateHashValue)
        }         else if rank == 31 {
            Some(AlertDescription::UnknownPSKIdentity)
        }         else if rank == 32 {
            Some(AlertDescription::CertificateRequired)
        }         else if rank == 33 {
            Some(AlertDescription::NoApplicationProtocol)
        } else {
            None
        }
    }

    /// The variant without a field at this place of the declaration.
    pub fn of_rank_value(rank: u8) -> (r: Option<Self>)
        ensures
            r == Self::of_rank(rank as int),
    {
        proof {
            reveal(AlertDescription::of_rank);
        }
        match rank {
            0 => Some(AlertDescription::CloseNotify),
            1 => Some(AlertDescription::UnexpectedMessage),
            2 => Some(AlertDescription::BadRecordMac),
            3 => Some(AlertDescription::DecryptionFailed),
            4 => Some(AlertDescription::RecordOverflow),
            5 => Some(AlertDescription::DecompressionFailure),
            6 => Some(AlertDescription::HandshakeFailure),
            7 => Some(AlertDescription::NoCertificate),
            8 => Some(AlertDescription::BadCertificate),
            9 => Some(AlertDescription::UnsupportedCertificate),
            10 => Some(AlertDescription::CertificateRevoked),
            11 => Some(AlertDescription::CertificateExpired),
            12 => Some(AlertDescription::CertificateUnknown),
            13 => Some(AlertDescription::IllegalParameter),
            14 => Some(AlertDescription::UnknownCA),
            15 => Some(AlertDescription::AccessDenied),
            16 => Some(AlertDescription::DecodeError),
            17 => Some(AlertDescription::DecryptError),
            18 => Some(AlertDescription::ExportRestriction),
            19 => Some(AlertDescription::ProtocolVersion),
            20 => Some(AlertDescription::InsufficientSecurity),
            21 => Some(AlertDescription::InternalError),
            22 => Some(AlertDescription::InappropriateFallback),
            23 => Some(AlertDescription::UserCanceled),
            24 => Some(AlertDescription::NoRenegotiation),
            25 => Some(AlertDescription::MissingExtension),
            26 => Some(AlertDescription::UnsupportedExtension),
            27 => Some(AlertDescription::CertificateUnobtainable),
            28 => Some(AlertDescription::UnrecognisedName),
            29 => Some(AlertDescription::BadCertificateStatusResponse),
            30 => Some(AlertDescription::BadCertificateHashValue),
            31 => Some(AlertDescription::UnknownPSKIdentity),
            32 => Some(AlertDescription::CertificateRequired),
            33 => Some(AlertDescription::NoApplicationProtocol),
            _ => None,
        }
    }
}

impl Coded for AlertDescription {
    /// The place of the variant as one byte; after that of `Unknown`, its code.
    open spec fn encoding(self) -> Seq<u8> {
        match self {
            AlertDescription::Unknown(code) => seq![34u8, code],
            _ => seq![self.rank() as u8],
        }
    }

    open spec fn parse(bytes: Seq<u8>) -> Option<(Self, int)> {
        if bytes.len() == 0 {
            None
        } else if bytes[0] == 34 {
            if bytes.len() < 2 {
                None
            } else {
                Some((AlertDescription::Unknown(bytes[1]), 2))
            }
        } else {
            match Self::of_rank(bytes[0] as int) {
                Some(value) => Some((value, 1)),
                None => None,
            }
        }
    }

    proof fn parse_of_encoding(value: Self, rest: Seq<u8>) {
        reveal(AlertDescription::of_rank);
        let all = value.encoding() + rest;
        assert(all[0] == value.encoding()[0]);
        if value is Unknown {
            assert(all[1] == value.encoding()[1]);
        }
    }

    fn encode(&self, out: &mut Vec<u8>) {
        out.push(self.rank_value());
        if let AlertDescription::Unknown(code) = self {
            out.push(*code);
        }
        assert(out@ =~= old(out)@ + self.encoding());
    }

    fn decode(bytes: &[u8]) -> (r: Option<(Self, usize)>) {
        if bytes.len() == 0 {
            None
        } else if bytes[0] == 34 {
            if bytes.len() < 2 {
                None
            } else {
                Some((AlertDescription::Unknown(bytes[1]), 2))
            }
        } else {
            match Self::of_rank_value(bytes[0]) {
                Some(value) => Some((value, 1)),
                None => None,
            }
        }
    }
}

impl SctError {
    /// The variant without a field at this place of the declaration.
    #[verifier::opaque]
    pub open spec fn of_rank(rank: int) -> Option<Self> {
        if rank == 0 {
            Some(SctError::MalformedSct)
        }         else if rank == 1 {
            Some(SctError::InvalidSignature)
        }         else if rank == 2 {
            Some(SctError::TimestampInFuture)
        }         else if rank == 3 {
            Some(SctError::UnsupportedSctVersion)
        }         else if rank == 4 {
            Some(SctError::UnknownLog)
        } else {
            None
        }
    }

    /// The variant without a field at this place of the declaration.
    pub fn of_rank_value(rank: u8) -> (r: Option<Self>)
        ensures
            r == Self::of_rank(rank as int),
    {
        proof {
            reveal(SctError::of_rank);
        }
        match rank {
            0 => Some(SctError::MalformedSct),
            1 => Some(SctError::InvalidSignature),
            2 => Some(SctError::TimestampInFuture),
            3 => Some(SctError::UnsupportedSctVersion),
            4 => Some(SctError::UnknownLog),
            _ => None,
        }
    }
}

impl Coded for SctError {
    /// The place of the variant as one byte.
    open spec fn encoding(self) -> Seq<u8> {
        seq![self.rank() as u8]
    }

    open spec fn parse(bytes: Seq<u8>) -> Option<(Self, int)> {
        if bytes.len() == 0 {
            None
        } else {
            match Self::of_rank(bytes[0] as int) {
                Some(value) => Some((value, 1)),
                None => None,
            }
        }
    }

    proof fn parse_of_encoding(value: Self, rest: Seq<u8>) {
        reveal(SctError::of_rank);
        let all = value.encoding() + rest;
        assert(all[0] == value.encoding()[0]);
    }

    fn encode(&self, out: &mut Vec<u8>) {
        out.push(self.rank_value());
        assert(out@ =~= old(out)@ + self.encoding());
    }

    fn decode(bytes: &[u8]) -> (r: Option<(Self, usize)>) {
        if bytes.len() == 0 {
            None
        } else {
            match Self::of_rank_value(bytes[0]) {
                Some(value) => Some((value, 1)),
                None => None,
            }
        }
    }
}

impl RustlsErrorView {
    /// The variant without a field at this place of the declaration.
    pub open spec fn unit_of_rank(rank: int) -> Option<Self> {
        if rank == 2 {
            Some(RustlsErrorView::CorruptMessage)
        }         else if rank == 4 {
            Some(RustlsErrorView::NoCertificatesPresented)
        }         else if rank == 5 {
            Some(RustlsErrorView::UnsupportedNameType)
        }         else if rank == 6 {
            Some(RustlsErrorView::DecryptError)
        }         else if rank == 7 {
            Some(RustlsErrorView::EncryptError)
        }         else if rank == 11 {
            Some(RustlsErrorView::InvalidCertificateEncoding)
        }         else if rank == 12 {
            Some(RustlsErrorView::InvalidCertificateSignatureType)
        }         else if rank == 13 {
            Some(RustlsErrorView::InvalidCertificateSignature)
        }         else if rank == 17 {
            Some(RustlsErrorView::FailedToGetCurrentTime)
        }         else if rank == 18 {
            Some(RustlsErrorView::FailedToGetRandomBytes)
        }         else if rank == 19 {
            Some(RustlsErrorView::HandshakeNotComplete)
        }         else if rank == 20 {
            Some(RustlsErrorView::PeerSentOversizedRecord)
        }         else if rank == 21 {
            Some(RustlsErrorView::NoApplicationProtocol)
        }         else if rank == 22 {
            Some(RustlsErrorView::BadMaxFragmentSize)
        } else {
            None
        }
    }

    /// Reads the fields of `InappropriateMessage`.
    pub open spec fn parse_inappropriate_message(rest: Seq<u8>) -> Option<(Self, int)> {
        match parse_list::<ContentType>(rest) {
            Some((a0, n0)) => {
                match ContentType::parse(rest.skip(n0)) {
                    Some((a1, n1)) => {
                        Some(
                            (
                                RustlsErrorView::InappropriateMessage {
                                    expect_types: a0,
                                    got_type: a1,
                                },
                                n0 + n1,
                            ),
                        )
                    },
                    None => None,
                }
            },
            None => None,
        }
    }

    /// Reads the fields of `InappropriateHandshakeMessage`.
    pub open spec fn parse_inappropriate_handshake_message(rest: Seq<u8>) -> Option<(Self, int)> {
        match parse_list::<HandshakeType>(rest) {
            Some((a0, n0)) => {
                match HandshakeType::parse(rest.skip(n0)) {
                    Some((a1, n1)) => {
                        Some(
                            (
                                RustlsErrorView::InappropriateHandshakeMessage {
                                    expect_types: a0,
                                    got_type: a1,
                                },
                                n0 + n1,
                            ),
                        )
                    },
                    None => None,
                }
            },
            None => None,
        }
    }

    /// Whether every text and list inside is short enough for its length to
    /// be written down.
    pub open spec fn fits(self) -> bool {
        match self {
            RustlsErrorView::InappropriateMessage { expect_types: a0, got_type: _ } => {
                a0.len() <= u64::MAX
            },
            RustlsErrorView::InappropriateHandshakeMessage { expect_types: a0, got_type: _ } => {
                a0.len() <= u64::MAX
            },
            RustlsErrorView::PeerIncompatibleError(a0) => text_fits(a0),
            RustlsErrorView::PeerMisbehavedError(a0) => text_fits(a0),
            RustlsErrorView::InvalidCertificateData(a0) => text_fits(a0),
            RustlsErrorView::General(a0) => text_fits(a0),
            _ => true,
        }
    }

    /// The binary form: the place of the variant as one byte, then the fields.
    pub open spec fn encoding(self) -> Seq<u8> {
        match self {
            RustlsErrorView::InappropriateMessage { expect_types: a0, got_type: a1 } => {
                seq![0u8] + list_encoding(a0) + a1.encoding()
            },
            RustlsErrorView::InappropriateHandshakeMessage { expect_types: a0, got_type: a1 } => {
                seq![1u8] + list_encoding(a0) + a1.encoding()
            },
            RustlsErrorView::CorruptMessagePayload(a0) => seq![3u8] + a0.encoding(),
            RustlsErrorView::PeerIncompatibleError(a0) => seq![8u8] + text_encoding(a0),
            RustlsErrorView::PeerMisbehavedError(a0) => seq![9u8] + text_encoding(a0),
            RustlsErrorView::AlertReceived(a0) => seq![10u8] + a0.encoding(),
            RustlsErrorView::InvalidCertificateData(a0) => seq![14u8] + text_encoding(a0),
            RustlsErrorView::InvalidSct(a0) => seq![15u8] + a0.encoding(),
            RustlsErrorView::General(a0) => seq![16u8] + text_encoding(a0),
            _ => seq![self.rank() as u8],
        }
    }

    /// Reads one value from the front of `bytes`: the value and the count of
    /// bytes read, or `None` where no value stands there.
    #[verifier::opaque]
    pub open spec fn parse(bytes: Seq<u8>) -> Option<(Self, int)> {
        if bytes.len() == 0 {
            None
        } else {
            let tag = bytes[0];
            let rest = bytes.skip(1);
            if tag == 0 {
                match Self::parse_inappropriate_message(rest) {
                    Some((value, read)) => Some((value, 1 + read)),
                    None => None,
                }
            } else if tag == 1 {
                match Self::parse_inappropriate_handshake_message(rest) {
                    Some((value, read)) => Some((value, 1 + read)),
                    None => None,
                }
            } else if tag == 3 {
                match ContentType::parse(rest) {
                    Some((a0, n0)) => Some((RustlsErrorView::CorruptMessagePayload(a0), 1 + n0)),
                    None => None,
                }
            } else if tag == 8 {
                match parse_text(rest) {
                    Some((a0, n0)) => Some((RustlsErrorView::PeerIncompatibleError(a0), 1 + n0)),
                    None => None,
                }
            } else if tag == 9 {
                match parse_text(rest) {
                    Some((a0, n0)) => Some((RustlsErrorView::PeerMisbehavedError(a0), 1 + n0)),
                    None => None,
                }
            } else if tag == 10 {
                match AlertDescription::parse(rest) {
                    Some((a0, n0)) => Some((RustlsErrorView::AlertReceived(a0), 1 + n0)),
                    None => None,
                }
            } else if tag == 14 {
                match parse_text(rest) {
                    Some((a0, n0)) => Some((RustlsErrorView::InvalidCertificateData(a0), 1 + n0)),
                    None => None,
                }
            } else if tag == 15 {
                match SctError::parse(rest) {
                    Some((a0, n0)) => Some((RustlsErrorView::InvalidSct(a0), 1 + n0)),
                    None => None,
                }
            } else if tag == 16 {
                match parse_text(rest) {
                    Some((a0, n0)) => Some((RustlsErrorView::General(a0), 1 + n0)),
                    None => None,
                }
            } else {
                match Self::unit_of_rank(tag as int) {
                    Some(value) => Some((value, 1)),
                    None => None,
                }
            }
        }
    }
}

impl RustlsError {
    /// The variant without a field at this place of the declaration.
    pub fn unit_of_rank_value(rank: u8) -> (r: Option<Self>)
        ensures
            match r {
                Some(value) => RustlsErrorView::unit_of_rank(rank as int) == Some(value@),
                None => RustlsErrorView::unit_of_rank(rank as int) is None,
            },
    {
        match rank {
            2 => Some(RustlsError::CorruptMessage),
            4 => Some(RustlsError::NoCertificatesPresented),
            5 => Some(RustlsError::UnsupportedNameType),
            6 => Some(RustlsError::DecryptError),
            7 => Some(RustlsError::EncryptError),
            11 => Some(RustlsError::InvalidCertificateEncoding),
            12 => Some(RustlsError::InvalidCertificateSignatureType),
            13 => Some(RustlsError::InvalidCertificateSignature),
            17 => Some(RustlsError::FailedToGetCurrentTime),
            18 => Some(RustlsError::FailedToGetRandomBytes),
            19 => Some(RustlsError::HandshakeNotComplete),
            20 => Some(RustlsError::PeerSentOversizedRecord),
            21 => Some(RustlsError::NoApplicationProtocol),
            22 => Some(RustlsError::BadMaxFragmentSize),
            _ => None,
        }
    }

    /// Reads the fields of `InappropriateMessage`.
    fn decode_inappropriate_message(rest: &[u8]) -> (r: Option<(Self, usize)>)
        ensures
            match r {
                Some((value, read)) => {
                    &&& RustlsErrorView::parse_inappropriate_message(rest@)
                        == Some((value@, read as int))
                    &&& read <= rest.len()
                },
                None => RustlsErrorView::parse_inappropriate_message(rest@) is None,
            },
    {
        match decode_list::<ContentType>(rest) {
            Some((x0, n0)) => {
                let after0 = slice_subrange(rest, n0, rest.len());
                assert(after0@ =~= rest@.skip(n0 as int));
                match ContentType::decode(after0) {
                    Some((x1, n1)) => {
                        Some(
                            (
                                RustlsError::InappropriateMessage {
                                    expect_types: x0,
                                    got_type: x1,
                                },
                                n0 + n1,
                            ),
                        )
                    },
                    None => None,
                }
            },
            None => None,
        }
    }

    /// Reads the fields of `InappropriateHandshakeMessage`.
    fn decode_inappropriate_handshake_message(rest: &[u8]) -> (r: Option<(Self, usize)>)
        ensures
            match r {
                Some((value, read)) => {
                    &&& RustlsErrorView::parse_inappropriate_handshake_message(rest@)
                        == Some((value@, read as int))
                    &&& read <= rest.len()
                },
                None => RustlsErrorView::parse_inappropriate_handshake_message(rest@) is None,
            },
    {
        match decode_list::<HandshakeType>(rest) {
            Some((x0, n0)) => {
                let after0 = slice_subrange(rest, n0, rest.len());
                assert(after0@ =~= rest@.skip(n0 as int));
                match HandshakeType::decode(after0) {
                    Some((x1, n1)) => {
                        Some(
                            (
                                RustlsError::InappropriateHandshakeMessage {
                                    expect_types: x0,
                                    got_type: x1,
                                },
                                n0 + n1,
                            ),
                        )
                    },
                    None => None,
                }
            },
            None => None,
        }
    }

    /// Appends the binary form of `self`.
    pub fn encode(&self, out: &mut Vec<u8>)
        ensures
            final(out)@ == old(out)@ + self@.encoding(),
            self@.fits(),
    {
        out.push(self.rank_value());
        match self {
            RustlsError::InappropriateMessage { expect_types: x0, got_type: x1 } => {
                encode_list(x0.as_slice(), out);
                x1.encode(out);
            },
            RustlsError::InappropriateHandshakeMessage { expect_types: x0, got_type: x1 } => {
                encode_list(x0.as_slice(), out);
                x1.encode(out);
            },
            RustlsError::CorruptMessagePayload(x0) => {
                x0.encode(out);
            },
            RustlsError::PeerIncompatibleError(x0) => {
                encode_text(x0.as_str(), out);
            },
            RustlsError::PeerMisbehavedError(x0) => {
                encode_text(x0.as_str(), out);
            },
            RustlsError::AlertReceived(x0) => {
                x0.encode(out);
            },
            RustlsError::InvalidCertificateData(x0) => {
                encode_text(x0.as_str(), out);
            },
            RustlsError::InvalidSct(x0) => {
                x0.encode(out);
            },
            RustlsError::General(x0) => {
                encode_text(x0.as_str(), out);
            },
            _ => {},
        }
        assert(out@ =~= old(out)@ + self@.encoding());
    }

    /// Reads one value from the front of `bytes`: the value and the count of
    /// bytes read, or `None` where no value stands there.
    pub fn decode(bytes: &[u8]) -> (r: Option<(Self, usize)>)
        ensures
            match r {
                Some((value, read)) => {
                    &&& RustlsErrorView::parse(bytes@) == Some((value@, read as int))
                    &&& read <= bytes.len()
                },
                None => RustlsErrorView::parse(bytes@) is None,
            },
    {
        proof {
            reveal(RustlsErrorView::parse);
        }
        if bytes.len() == 0 {
            return None;
        }
        let tag = bytes[0];
        let rest = slice_subrange(bytes, 1, bytes.len());
        assert(rest@ =~= bytes@.skip(1));
        if tag == 0 {
            match Self::decode_inappropriate_message(rest) {
                Some((value, read)) => Some((value, 1 + read)),
                None => None,
            }
        } else if tag == 1 {
            match Self::decode_inappropriate_handshake_message(rest) {
                Some((value, read)) => Some((value, 1 + read)),
                None => None,
            }
        } else if tag == 3 {
            match ContentType::decode(rest) {
                Some((x0, n0)) => Some((RustlsError::CorruptMessagePayload(x0), 1 + n0)),
                None => None,
            }
        } else if tag == 8 {
            match decode_text(rest) {
                Some((x0, n0)) => Some((RustlsError::PeerIncompatibleError(x0), 1 + n0)),
                None => None,
            }
        } else if tag == 9 {
            match decode_text(rest) {
                Some((x0, n0)) => Some((RustlsError::PeerMisbehavedError(x0), 1 + n0)),
                None => None,
            }
        } else if tag == 10 {
            match AlertDescription::decode(rest) {
                Some((x0, n0)) => Some((RustlsError::AlertReceived(x0), 1 + n0)),
                None => None,
            }
        } else if tag == 14 {
            match decode_text(rest) {
                Some((x0, n0)) => Some((RustlsError::InvalidCertificateData(x0), 1 + n0)),
                None => None,
            }
        } else if tag == 15 {
            match SctError::decode(rest) {
                Some((x0, n0)) => Some((RustlsError::InvalidSct(x0), 1 + n0)),
                None => None,
            }
        } else if tag == 16 {
            match decode_text(rest) {
                Some((x0, n0)) => Some((RustlsError::General(x0), 1 + n0)),
                None => None,
            }
        } else {
            match Self::unit_of_rank_value(tag) {
                Some(value) => Some((value, 1)),
                None => None,
            }
        }
    }

    /// The binary form of `self`.
    pub fn to_bytes(&self) -> (bytes: Vec<u8>)
        ensures
            bytes@ == self@.encoding(),
            self@.fits(),
    {
        let mut bytes: Vec<u8> = Vec::new();
        self.encode(&mut bytes);
        assert(bytes@ =~= self@.encoding());
        bytes
    }

    /// The value whose binary form `bytes` is, all of it; `None` where the
    /// bytes are no binary form, or more bytes follow one.
    pub fn from_bytes(bytes: &[u8]) -> (r: Option<Self>)
        ensures
            match r {
                Some(value) => RustlsErrorView::parse(bytes@) == Some(
                    (value@, bytes@.len() as int),
                ),
                None => !(RustlsErrorView::parse(bytes@) matches Some((_, read))
                    && read == bytes@.len()),
            },
    {
        match Self::decode(bytes) {
            Some((value, read)) => {
                if read == bytes.len() {
                    Some(value)
                } else {
                    None
                }
            },
            None => None,
        }
    }
}

/// A failure is read back from its binary form, whatever follows.
pub proof fn tls_parse_of_encoding(value: RustlsErrorView, rest: Seq<u8>)
    requires
        value.fits(),
    ensures
        RustlsErrorView::parse(value.encoding() + rest) == Some(
            (value, value.encoding().len() as int),
        ),
{
    reveal(RustlsErrorView::parse);
    let tag = value.rank() as u8;
    match value {
        RustlsErrorView::InappropriateMessage { expect_types: a0, got_type: a1 } => {
            after_tag_and_field(tag, list_encoding(a0), a1.encoding(), rest);
            parse_list_of_encoding(a0, a1.encoding() + rest);
            ContentType::parse_of_encoding(a1, rest);
        },
        RustlsErrorView::InappropriateHandshakeMessage { expect_types: a0, got_type: a1 } => {
            after_tag_and_field(tag, list_encoding(a0), a1.encoding(), rest);
            parse_list_of_encoding(a0, a1.encoding() + rest);
            HandshakeType::parse_of_encoding(a1, rest);
        },
        RustlsErrorView::CorruptMessagePayload(a0) => {
            after_tag(tag, a0.encoding(), rest);
            ContentType::parse_of_encoding(a0, rest);
        },
        RustlsErrorView::PeerIncompatibleError(a0) => {
            after_tag(tag, text_encoding(a0), rest);
            parse_text_of_encoding(a0, rest);
        },
        RustlsErrorView::PeerMisbehavedError(a0) => {
            after_tag(tag, text_encoding(a0), rest);
            parse_text_of_encoding(a0, rest);
        },
        RustlsErrorView::AlertReceived(a0) => {
            after_tag(tag, a0.encoding(), rest);
            AlertDescription::parse_of_encoding(a0, rest);
        },
        RustlsErrorView::InvalidCertificateData(a0) => {
            after_tag(tag, text_encoding(a0), rest);
            parse_text_of_encoding(a0, rest);
        },
        RustlsErrorView::InvalidSct(a0) => {
            after_tag(tag, a0.encoding(), rest);
            SctError::parse_of_encoding(a0, rest);
        },
        RustlsErrorView::General(a0) => {
            after_tag(tag, text_encoding(a0), rest);
            parse_text_of_encoding(a0, rest);
        },
        _ => {
            after_tag(tag, Seq::empty(), rest);
        },
    }
}

/// Reading the binary form of a failure gives the value back, and reads all of it.
pub proof fn tls_round_trip(value: RustlsErrorView)
    requires
        value.fits(),
    ensures
        RustlsErrorView::parse(value.encoding()) == Some(
            (value, value.encoding().len() as int),
        ),
{
    tls_parse_of_encoding(value, Seq::empty());
    assert(value.encoding() + Seq::<u8>::empty() =~= value.encoding());
}

/// Two values with the same binary form are the same value.
pub proof fn tls_encoding_is_injective(a: RustlsErrorView, b: RustlsErrorView)
    requires
        a.fits(),
        b.fits(),
        a.encoding() == b.encoding(),
    ensures
        a == b,
{
    tls_round_trip(a);
    tls_round_trip(b);
}

} // verus!
