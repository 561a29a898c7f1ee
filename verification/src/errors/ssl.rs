//! The secure-channel category: failures of a TLS connection, and the
//! vocabulary of record types, handshake message types and alerts that they
//! speak in.

use crate::order::{
    lex_connected, lex_irreflexive, lex_precedes, lex_transitive, order_from, order_from_value,
    slice_equal, slice_precedes, str_precedes, text_connected, text_irreflexive, text_precedes,
    text_transitive, Keyed,
};
use rustls::internal::msgs::enums::AlertDescription as RustlsAlertDescription;
use rustls::internal::msgs::enums::ContentType as RustlsContentType;
use rustls::internal::msgs::enums::HandshakeType as RustlsHandshakeType;
use std::cmp::Ordering;
use vstd::prelude::*;
use vstd::std_specs::cmp::{PartialEqSpecImpl, PartialOrdSpecImpl};
use vstd::std_specs::convert::FromSpecImpl;

verus! {

// The native enums are declared with their variants, as the crates define
// them, so that every translation below is checked arm by arm.
#[verifier::external_type_specification]
pub struct ExRustlsContentType(RustlsContentType);

#[verifier::external_type_specification]
pub struct ExRustlsHandshakeType(RustlsHandshakeType);

#[verifier::external_type_specification]
pub struct ExRustlsAlertDescription(RustlsAlertDescription);

#[verifier::external_type_specification]
pub struct ExSctError(sct::Error);

#[verifier::external_type_specification]
pub struct ExRustlsError(rustls::Error);

/// The type of a TLS record.
#[derive(Debug, Clone, Copy, PartialEq, Eq, Ord, Structural)]
pub enum ContentType {
    ChangeCipherSpec,
    Alert,
    Handshake,
    ApplicationData,
    Heartbeat,
    /// A code without a name of its own, kept as it came.
    Unknown(u8),
}

impl ContentType {
    /// The place of the variant in the declaration, counted from 0.
    pub open spec fn rank(self) -> int {
        match self {
            ContentType::ChangeCipherSpec => 0,
            ContentType::Alert => 1,
            ContentType::Handshake => 2,
            ContentType::ApplicationData => 3,
            ContentType::Heartbeat => 4,
            ContentType::Unknown(_) => 5,
        }
    }

    /// The code that `Unknown` carries; 0 for every other variant.
    pub open spec fn octet(self) -> int {
        match self {
            ContentType::Unknown(code) => code as int,
            _ => 0,
        }
    }

    /// The record type that stands for the native one.
    pub open spec fn of_native(native: RustlsContentType) -> Self {
        match native {
            RustlsContentType::ChangeCipherSpec => ContentType::ChangeCipherSpec,
            RustlsContentType::Alert => ContentType::Alert,
            RustlsContentType::Handshake => ContentType::Handshake,
            RustlsContentType::ApplicationData => ContentType::ApplicationData,
            RustlsContentType::Heartbeat => ContentType::Heartbeat,
            RustlsContentType::Unknown(code) => ContentType::Unknown(code),
        }
    }

    /// The place of the variant in the declaration, counted from 0.
    pub fn rank_value(&self) -> (r: u8)
        ensures
            r == self.rank(),
    {
        match self {
            ContentType::ChangeCipherSpec => 0,
            ContentType::Alert => 1,
            ContentType::Handshake => 2,
            ContentType::ApplicationData => 3,
            ContentType::Heartbeat => 4,
            ContentType::Unknown(_) => 5,
        }
    }

    /// The code that `Unknown` carries; 0 for every other variant.
    pub fn octet_value(&self) -> (r: u8)
        ensures
            r == self.octet(),
    {
        match self {
            ContentType::Unknown(code) => *code,
            _ => 0,
        }
    }
}

impl Keyed for ContentType {
    /// Variants in declaration order, `Unknown` values by their code.
    open spec fn key(self) -> int {
        self.rank() * 256 + self.octet()
    }

    proof fn key_is_injective(a: Self, b: Self) {
    }

    fn key_value(&self) -> (k: u16) {
        let rank = self.rank_value() as u16;
        rank * 256 + self.octet_value() as u16
    }
}

impl PartialOrdSpecImpl for ContentType {
    open spec fn obeys_partial_cmp_spec() -> bool {
        true
    }

    open spec fn partial_cmp_spec(&self, other: &Self) -> Option<Ordering> {
        order_from(self.key() < other.key(), other.key() < self.key())
    }
}

impl PartialOrd for ContentType {
    /// The place of `self` relative to `other`, by their keys.
    fn partial_cmp(&self, other: &Self) -> (r: Option<Ordering>) {
        let a = self.key_value();
        let b = other.key_value();
        order_from_value(a < b, b < a)
    }
}

impl FromSpecImpl<RustlsContentType> for ContentType {
    open spec fn obeys_from_spec() -> bool {
        true
    }

    open spec fn from_spec(native: RustlsContentType) -> Self {
        Self::of_native(native)
    }
}

impl From<RustlsContentType> for ContentType {
    /// The record type that stands for the native one: the variant of the same name.
    fn from(native: RustlsContentType) -> (r: Self)
        ensures
            r == Self::of_native(native),
    {
        match native {
            RustlsContentType::ChangeCipherSpec => ContentType::ChangeCipherSpec,
            RustlsContentType::Alert => ContentType::Alert,
            RustlsContentType::Handshake => ContentType::Handshake,
            RustlsContentType::ApplicationData => ContentType::ApplicationData,
            RustlsContentType::Heartbeat => ContentType::Heartbeat,
            RustlsContentType::Unknown(code) => ContentType::Unknown(code),
        }
    }
}

/// The type of a TLS handshake message.
///
/// The list has no entry for the hello-verify-request message of DTLS: it is
/// kept as `Unknown` with its code on the wire, 3.
#[derive(Debug, Clone, Copy, PartialEq, Eq, Ord, Structural)]
pub enum HandshakeType {
    HelloRequest,
    ClientHello,
    ServerHello,
    NewSessionTicket,
    EndOfEarlyData,
    HelloRetryRequest,
    EncryptedExtensions,
    Certificate,
    ServerKeyExchange,
    CertificateRequest,
    ServerHelloDone,
    CertificateVerify,
    ClientKeyExchange,
    Finished,
    CertificateURL,
    CertificateStatus,
    KeyUpdate,
    MessageHash,
    /// A code without a name of its own, kept as it came.
    Unknown(u8),
}

impl HandshakeType {
    /// The place of the variant in the declaration, counted from 0.
    pub open spec fn rank(self) -> int {
        match self {
            HandshakeType::HelloRequest => 0,
            HandshakeType::ClientHello => 1,
            HandshakeType::ServerHello => 2,
            HandshakeType::NewSessionTicket => 3,
            HandshakeType::EndOfEarlyData => 4,
            HandshakeType::HelloRetryRequest => 5,
            HandshakeType::EncryptedExtensions => 6,
            HandshakeType::Certificate => 7,
            HandshakeType::ServerKeyExchange => 8,
            HandshakeType::CertificateRequest => 9,
            HandshakeType::ServerHelloDone => 10,
            HandshakeType::CertificateVerify => 11,
            HandshakeType::ClientKeyExchange => 12,
            HandshakeType::Finished => 13,
            HandshakeType::CertificateURL => 14,
            HandshakeType::CertificateStatus => 15,
            HandshakeType::KeyUpdate => 16,
            HandshakeType::MessageHash => 17,
            HandshakeType::Unknown(_) => 18,
        }
    }

    /// The code that `Unknown` carries; 0 for every other variant.
    pub open spec fn octet(self) -> int {
        match self {
            HandshakeType::Unknown(code) => code as int,
            _ => 0,
        }
    }

    /// The message type that stands for the native one.
    pub open spec fn of_native(native: RustlsHandshakeType) -> Self {
        match native {
            RustlsHandshakeType::HelloRequest => HandshakeType::HelloRequest,
            RustlsHandshakeType::ClientHello => HandshakeType::ClientHello,
            RustlsHandshakeType::ServerHello => HandshakeType::ServerHello,
            RustlsHandshakeType::NewSessionTicket => HandshakeType::NewSessionTicket,
            RustlsHandshakeType::EndOfEarlyData => HandshakeType::EndOfEarlyData,
            RustlsHandshakeType::HelloRetryRequest => HandshakeType::HelloRetryRequest,
            RustlsHandshakeType::EncryptedExtensions => HandshakeType::EncryptedExtensions,
            RustlsHandshakeType::Certificate => HandshakeType::Certificate,
            RustlsHandshakeType::ServerKeyExchange => HandshakeType::ServerKeyExchange,
            RustlsHandshakeType::CertificateRequest => HandshakeType::CertificateRequest,
            RustlsHandshakeType::ServerHelloDone => HandshakeType::ServerHelloDone,
            RustlsHandshakeType::CertificateVerify => HandshakeType::CertificateVerify,
            RustlsHandshakeType::ClientKeyExchange => HandshakeType::ClientKeyExchange,
            RustlsHandshakeType::Finished => HandshakeType::Finished,
            RustlsHandshakeType::CertificateURL => HandshakeType::CertificateURL,
            RustlsHandshakeType::CertificateStatus => HandshakeType::CertificateStatus,
            RustlsHandshakeType::KeyUpdate => HandshakeType::KeyUpdate,
            RustlsHandshakeType::MessageHash => HandshakeType::MessageHash,
            RustlsHandshakeType::HelloVerifyRequest => HandshakeType::Unknown(0x03),
            RustlsHandshakeType::Unknown(code) => HandshakeType::Unknown(code),
        }
    }

    /// The place of the variant in the declaration, counted from 0.
    pub fn rank_value(&self) -> (r: u8)
        ensures
            r == self.rank(),
    {
        match self {
            HandshakeType::HelloRequest => 0,
            HandshakeType::ClientHello => 1,
            HandshakeType::ServerHello => 2,
            HandshakeType::NewSessionTicket => 3,
            HandshakeType::EndOfEarlyData => 4,
            HandshakeType::HelloRetryRequest => 5,
            HandshakeType::EncryptedExtensions => 6,
            HandshakeType::Certificate => 7,
            HandshakeType::ServerKeyExchange => 8,
            HandshakeType::CertificateRequest => 9,
            HandshakeType::ServerHelloDone => 10,
            HandshakeType::CertificateVerify => 11,
            HandshakeType::ClientKeyExchange => 12,
            HandshakeType::Finished => 13,
            HandshakeType::CertificateURL => 14,
            HandshakeType::CertificateStatus => 15,
            HandshakeType::KeyUpdate => 16,
            HandshakeType::MessageHash => 17,
            HandshakeType::Unknown(_) => 18,
        }
    }

    /// The code that `Unknown` carries; 0 for every other variant.
    pub fn octet_value(&self) -> (r: u8)
        ensures
            r == self.octet(),
    {
        match self {
            HandshakeType::Unknown(code) => *code,
            _ => 0,
        }
    }
}

impl Keyed for HandshakeType {
    /// Variants in declaration order, `Unknown` values by their code.
    open spec fn key(self) -> int {
        self.rank() * 256 + self.octet()
    }

    proof fn key_is_injective(a: Self, b: Self) {
    }

    fn key_value(&self) -> (k: u16) {
        let rank = self.rank_value() as u16;
        rank * 256 + self.octet_value() as u16
    }
}

impl PartialOrdSpecImpl for HandshakeType {
    open spec fn obeys_partial_cmp_spec() -> bool {
        true
    }

    open spec fn partial_cmp_spec(&self, other: &Self) -> Option<Ordering> {
        order_from(self.key() < other.key(), other.key() < self.key())
    }
}

impl PartialOrd for HandshakeType {
    /// The place of `self` relative to `other`, by their keys.
    fn partial_cmp(&self, other: &Self) -> (r: Option<Ordering>) {
        let a = self.key_value();
        let b = other.key_value();
        order_from_value(a < b, b < a)
    }
}

impl FromSpecImpl<RustlsHandshakeType> for HandshakeType {
    open spec fn obeys_from_spec() -> bool {
        true
    }

    open spec fn from_spec(native: RustlsHandshakeType) -> Self {
        Self::of_native(native)
    }
}

impl From<RustlsHandshakeType> for HandshakeType {
    /// The message type that stands for the native one: the variant of the same name.
    fn from(native: RustlsHandshakeType) -> (r: Self)
        ensures
            r == Self::of_native(native),
    {
        match native {
            RustlsHandshakeType::HelloRequest => HandshakeType::HelloRequest,
            RustlsHandshakeType::ClientHello => HandshakeType::ClientHello,
            RustlsHandshakeType::ServerHello => HandshakeType::ServerHello,
            RustlsHandshakeType::NewSessionTicket => HandshakeType::NewSessionTicket,
            RustlsHandshakeType::EndOfEarlyData => HandshakeType::EndOfEarlyData,
            RustlsHandshakeType::HelloRetryRequest => HandshakeType::HelloRetryRequest,
            RustlsHandshakeType::EncryptedExtensions => HandshakeType::EncryptedExtensions,
            RustlsHandshakeType::Certificate => HandshakeType::Certificate,
            RustlsHandshakeType::ServerKeyExchange => HandshakeType::ServerKeyExchange,
            RustlsHandshakeType::CertificateRequest => HandshakeType::CertificateRequest,
            RustlsHandshakeType::ServerHelloDone => HandshakeType::ServerHelloDone,
            RustlsHandshakeType::CertificateVerify => HandshakeType::CertificateVerify,
            RustlsHandshakeType::ClientKeyExchange => HandshakeType::ClientKeyExchange,
            RustlsHandshakeType::Finished => HandshakeType::Finished,
            RustlsHandshakeType::CertificateURL => HandshakeType::CertificateURL,
            RustlsHandshakeType::CertificateStatus => HandshakeType::CertificateStatus,
            RustlsHandshakeType::KeyUpdate => HandshakeType::KeyUpdate,
            RustlsHandshakeType::MessageHash => HandshakeType::MessageHash,
            RustlsHandshakeType::HelloVerifyRequest => HandshakeType::Unknown(0x03),
            RustlsHandshakeType::Unknown(code) => HandshakeType::Unknown(code),
        }
    }
}

/// What a TLS alert of the peer says.
#[derive(Debug, Clone, Copy, PartialEq, Eq, Ord, Structural)]
pub enum AlertDescription {
    CloseNotify,
    UnexpectedMessage,
    BadRecordMac,
    DecryptionFailed,
    RecordOverflow,
    DecompressionFailure,
    HandshakeFailure,
    NoCertificate,
    BadCertificate,
    UnsupportedCertificate,
    CertificateRevoked,
    CertificateExpired,
    CertificateUnknown,
    IllegalParameter,
    UnknownCA,
    AccessDenied,
    DecodeError,
    DecryptError,
    ExportRestriction,
    ProtocolVersion,
    InsufficientSecurity,
    InternalError,
    InappropriateFallback,
    UserCanceled,
    NoRenegotiation,
    MissingExtension,
    UnsupportedExtension,
    CertificateUnobtainable,
    UnrecognisedName,
    BadCertificateStatusResponse,
    BadCertificateHashValue,
    UnknownPSKIdentity,
    CertificateRequired,
    NoApplicationProtocol,
    /// A code without a name of its own, kept as it came.
    Unknown(u8),
}

impl AlertDescription {
    /// The place of the variant in the declaration, counted from 0.
    pub open spec fn rank(self) -> int {
        match self {
            AlertDescription::CloseNotify => 0,
            AlertDescription::UnexpectedMessage => 1,
            AlertDescription::BadRecordMac => 2,
            AlertDescription::DecryptionFailed => 3,
            AlertDescription::RecordOverflow => 4,
            AlertDescription::DecompressionFailure => 5,
            AlertDescription::HandshakeFailure => 6,
            AlertDescription::NoCertificate => 7,
            AlertDescription::BadCertificate => 8,
            AlertDescription::UnsupportedCertificate => 9,
            AlertDescription::CertificateRevoked => 10,
            AlertDescription::CertificateExpired => 11,
            AlertDescription::CertificateUnknown => 12,
            AlertDescription::IllegalParameter => 13,
            AlertDescription::UnknownCA => 14,
            AlertDescription::AccessDenied => 15,
            AlertDescription::DecodeError => 16,
            AlertDescription::DecryptError => 17,
            AlertDescription::ExportRestriction => 18,
            AlertDescription::ProtocolVersion => 19,
            AlertDescription::InsufficientSecurity => 20,
            AlertDescription::InternalError => 21,
            AlertDescription::InappropriateFallback => 22,
            AlertDescription::UserCanceled => 23,
            AlertDescription::NoRenegotiation => 24,
            AlertDescription::MissingExtension => 25,
            AlertDescription::UnsupportedExtension => 26,
            AlertDescription::CertificateUnobtainable => 27,
            AlertDescription::UnrecognisedName => 28,
            AlertDescription::BadCertificateStatusResponse => 29,
            AlertDescription::BadCertificateHashValue => 30,
            AlertDescription::UnknownPSKIdentity => 31,
            AlertDescription::CertificateRequired => 32,
            AlertDescription::NoApplicationProtocol => 33,
            AlertDescription::Unknown(_) => 34,
        }
    }

    /// The code that `Unknown` carries; 0 for every other variant.
    pub open spec fn octet(self) -> int {
        match self {
            AlertDescription::Unknown(code) => code as int,
            _ => 0,
        }
    }

    /// The alert that stands for the native one.
    pub open spec fn of_native(native: RustlsAlertDescription) -> Self {
        match native {
            RustlsAlertDescription::CloseNotify => AlertDescription::CloseNotify,
            RustlsAlertDescription::UnexpectedMessage => AlertDescription::UnexpectedMessage,
            RustlsAlertDescription::BadRecordMac => AlertDescription::BadRecordMac,
            RustlsAlertDescription::DecryptionFailed => AlertDescription::DecryptionFailed,
            RustlsAlertDescription::RecordOverflow => AlertDescription::RecordOverflow,
            RustlsAlertDescription::DecompressionFailure => AlertDescription::DecompressionFailure,
            RustlsAlertDescription::HandshakeFailure => AlertDescription::HandshakeFailure,
            RustlsAlertDescription::NoCertificate => AlertDescription::NoCertificate,
            RustlsAlertDescription::BadCertificate => AlertDescription::BadCertificate,
            RustlsAlertDescription::UnsupportedCertificate => {
                AlertDescription::UnsupportedCertificate
            },
            RustlsAlertDescription::CertificateRevoked => AlertDescription::CertificateRevoked,
            RustlsAlertDescription::CertificateExpired => AlertDescription::CertificateExpired,
            RustlsAlertDescription::CertificateUnknown => AlertDescription::CertificateUnknown,
            RustlsAlertDescription::IllegalParameter => AlertDescription::IllegalParameter,
            RustlsAlertDescription::UnknownCA => AlertDescription::UnknownCA,
            RustlsAlertDescription::AccessDenied => AlertDescription::AccessDenied,
            RustlsAlertDescription::DecodeError => AlertDescription::DecodeError,
            RustlsAlertDescription::DecryptError => AlertDescription::DecryptError,
            RustlsAlertDescription::ExportRestriction => AlertDescription::ExportRestriction,
            RustlsAlertDescription::ProtocolVersion => AlertDescription::ProtocolVersion,
            RustlsAlertDescription::InsufficientSecurity => AlertDescription::InsufficientSecurity,
            RustlsAlertDescription::InternalError => AlertDescription::InternalError,
            RustlsAlertDescription::InappropriateFallback => {
                AlertDescription::InappropriateFallback
            },
            RustlsAlertDescription::UserCanceled => AlertDescription::UserCanceled,
            RustlsAlertDescription::NoRenegotiation => AlertDescription::NoRenegotiation,
            RustlsAlertDescription::MissingExtension => AlertDescription::MissingExtension,
            RustlsAlertDescription::UnsupportedExtension => AlertDescription::UnsupportedExtension,
            RustlsAlertDescription::CertificateUnobtainable => {
                AlertDescription::CertificateUnobtainable
            },
            RustlsAlertDescription::UnrecognisedName => AlertDescription::UnrecognisedName,
            RustlsAlertDescription::BadCertificateStatusResponse => {
                AlertDescription::BadCertificateStatusResponse
            },
            RustlsAlertDescription::BadCertificateHashValue => {
                AlertDescription::BadCertificateHashValue
            },
            RustlsAlertDescription::UnknownPSKIdentity => AlertDescription::UnknownPSKIdentity,
            RustlsAlertDescription::CertificateRequired => AlertDescription::CertificateRequired,
            RustlsAlertDescription::NoApplicationProtocol => {
                AlertDescription::NoApplicationProtocol
            },
            RustlsAlertDescription::Unknown(code) => AlertDescription::Unknown(code),
        }
    }

    /// The place of the variant in the declaration, counted from 0.
    pub fn rank_value(&self) -> (r: u8)
        ensures
            r == self.rank(),
    {
        match self {
            AlertDescription::CloseNotify => 0,
            AlertDescription::UnexpectedMessage => 1,
            AlertDescription::BadRecordMac => 2,
            AlertDescription::DecryptionFailed => 3,
            AlertDescription::RecordOverflow => 4,
            AlertDescription::DecompressionFailure => 5,
            AlertDescription::HandshakeFailure => 6,
            AlertDescription::NoCertificate => 7,
            AlertDescription::BadCertificate => 8,
            AlertDescription::UnsupportedCertificate => 9,
            AlertDescription::CertificateRevoked => 10,
            AlertDescription::CertificateExpired => 11,
            AlertDescription::CertificateUnknown => 12,
            AlertDescription::IllegalParameter => 13,
            AlertDescription::UnknownCA => 14,
            AlertDescription::AccessDenied => 15,
            AlertDescription::DecodeError => 16,
            AlertDescription::DecryptError => 17,
            AlertDescription::ExportRestriction => 18,
            AlertDescription::ProtocolVersion => 19,
            AlertDescription::InsufficientSecurity => 20,
            AlertDescription::InternalError => 21,
            AlertDescription::InappropriateFallback => 22,
            AlertDescription::UserCanceled => 23,
            AlertDescription::NoRenegotiation => 24,
            AlertDescription::MissingExtension => 25,
            AlertDescription::UnsupportedExtension => 26,
            AlertDescription::CertificateUnobtainable => 27,
            AlertDescription::UnrecognisedName => 28,
            AlertDescription::BadCertificateStatusResponse => 29,
            AlertDescription::BadCertificateHashValue => 30,
            AlertDescription::UnknownPSKIdentity => 31,
            AlertDescription::CertificateRequired => 32,
            AlertDescription::NoApplicationProtocol => 33,
            AlertDescription::Unknown(_) => 34,
        }
    }

    /// The code that `Unknown` carries; 0 for every other variant.
    pub fn octet_value(&self) -> (r: u8)
        ensures
            r == self.octet(),
    {
        match self {
            AlertDescription::Unknown(code) => *code,
            _ => 0,
        }
    }
}

impl Keyed for AlertDescription {
    /// Variants in declaration order, `Unknown` values by their code.
    open spec fn key(self) -> int {
        self.rank() * 256 + self.octet()
    }

    proof fn key_is_injective(a: Self, b: Self) {
    }

    fn key_value(&self) -> (k: u16) {
        let rank = self.rank_value() as u16;
        rank * 256 + self.octet_value() as u16
    }
}

impl PartialOrdSpecImpl for AlertDescription {
    open spec fn obeys_partial_cmp_spec() -> bool {
        true
    }

    open spec fn partial_cmp_spec(&self, other: &Self) -> Option<Ordering> {
        order_from(self.key() < other.key(), other.key() < self.key())
    }
}

impl PartialOrd for AlertDescription {
    /// The place of `self` relative to `other`, by their keys.
    fn partial_cmp(&self, other: &Self) -> (r: Option<Ordering>) {
        let a = self.key_value();
        let b = other.key_value();
        order_from_value(a < b, b < a)
    }
}

impl FromSpecImpl<RustlsAlertDescription> for AlertDescription {
    open spec fn obeys_from_spec() -> bool {
        true
    }

    open spec fn from_spec(native: RustlsAlertDescription) -> Self {
        Self::of_native(native)
    }
}

impl From<RustlsAlertDescription> for AlertDescription {
    /// The alert that stands for the native one: the variant of the same name.
    fn from(native: RustlsAlertDescription) -> (r: Self)
        ensures
            r == Self::of_native(native),
    {
        match native {
            RustlsAlertDescription::CloseNotify => AlertDescription::CloseNotify,
            RustlsAlertDescription::UnexpectedMessage => AlertDescription::UnexpectedMessage,
            RustlsAlertDescription::BadRecordMac => AlertDescription::BadRecordMac,
            RustlsAlertDescription::DecryptionFailed => AlertDescription::DecryptionFailed,
            RustlsAlertDescription::RecordOverflow => AlertDescription::RecordOverflow,
            RustlsAlertDescription::DecompressionFailure => AlertDescription::DecompressionFailure,
            RustlsAlertDescription::HandshakeFailure => AlertDescription::HandshakeFailure,
            RustlsAlertDescription::NoCertificate => AlertDescription::NoCertificate,
            RustlsAlertDescription::BadCertificate => AlertDescription::BadCertificate,
            RustlsAlertDescription::UnsupportedCertificate => {
                AlertDescription::UnsupportedCertificate
            },
            RustlsAlertDescription::CertificateRevoked => AlertDescription::CertificateRevoked,
            RustlsAlertDescription::CertificateExpired => AlertDescription::CertificateExpired,
            RustlsAlertDescription::CertificateUnknown => AlertDescription::CertificateUnknown,
            RustlsAlertDescription::IllegalParameter => AlertDescription::IllegalParameter,
            RustlsAlertDescription::UnknownCA => AlertDescription::UnknownCA,
            RustlsAlertDescription::AccessDenied => AlertDescription::AccessDenied,
            RustlsAlertDescription::DecodeError => AlertDescription::DecodeError,
            RustlsAlertDescription::DecryptError => AlertDescription::DecryptError,
            RustlsAlertDescription::ExportRestriction => AlertDescription::ExportRestriction,
            RustlsAlertDescription::ProtocolVersion => AlertDescription::ProtocolVersion,
            RustlsAlertDescription::InsufficientSecurity => AlertDescription::InsufficientSecurity,
            RustlsAlertDescription::InternalError => AlertDescription::InternalError,
            RustlsAlertDescription::InappropriateFallback => {
                AlertDescription::InappropriateFallback
            },
            RustlsAlertDescription::UserCanceled => AlertDescription::UserCanceled,
            RustlsAlertDescription::NoRenegotiation => AlertDescription::NoRenegotiation,
            RustlsAlertDescription::MissingExtension => AlertDescription::MissingExtension,
            RustlsAlertDescription::UnsupportedExtension => AlertDescription::UnsupportedExtension,
            RustlsAlertDescription::CertificateUnobtainable => {
                AlertDescription::CertificateUnobtainable
            },
            RustlsAlertDescription::UnrecognisedName => AlertDescription::UnrecognisedName,
            RustlsAlertDescription::BadCertificateStatusResponse => {
                AlertDescription::BadCertificateStatusResponse
            },
            RustlsAlertDescription::BadCertificateHashValue => {
                AlertDescription::BadCertificateHashValue
            },
            RustlsAlertDescription::UnknownPSKIdentity => AlertDescription::UnknownPSKIdentity,
            RustlsAlertDescription::CertificateRequired => AlertDescription::CertificateRequired,
            RustlsAlertDescription::NoApplicationProtocol => {
                AlertDescription::NoApplicationProtocol
            },
            RustlsAlertDescription::Unknown(code) => AlertDescription::Unknown(code),
        }
    }
}

/// Why a signed certificate timestamp was not accepted.
#[derive(Debug, Clone, Copy, PartialEq, Eq, Ord, Structural)]
pub enum SctError {
    MalformedSct,
    InvalidSignature,
    TimestampInFuture,
    UnsupportedSctVersion,
    UnknownLog,
}

impl SctError {
    /// The place of the variant in the declaration, counted from 0.
    pub open spec fn rank(self) -> int {
        match self {
            SctError::MalformedSct => 0,
            SctError::InvalidSignature => 1,
            SctError::TimestampInFuture => 2,
            SctError::UnsupportedSctVersion => 3,
            SctError::UnknownLog => 4,
        }
    }

    /// The reason that stands for the native one.
    pub open spec fn of_native(native: sct::Error) -> Self {
        match native {
            sct::Error::MalformedSct => SctError::MalformedSct,
            sct::Error::InvalidSignature => SctError::InvalidSignature,
            sct::Error::TimestampInFuture => SctError::TimestampInFuture,
            sct::Error::UnsupportedSctVersion => SctError::UnsupportedSctVersion,
            sct::Error::UnknownLog => SctError::UnknownLog,
        }
    }

    /// The place of the variant in the declaration, counted from 0.
    pub fn rank_value(&self) -> (r: u8)
        ensures
            r == self.rank(),
    {
        match self {
            SctError::MalformedSct => 0,
            SctError::InvalidSignature => 1,
            SctError::TimestampInFuture => 2,
            SctError::UnsupportedSctVersion => 3,
            SctError::UnknownLog => 4,
        }
    }
}

impl Keyed for SctError {
    /// Variants in declaration order.
    open spec fn key(self) -> int {
        self.rank()
    }

    proof fn key_is_injective(a: Self, b: Self) {
    }

    fn key_value(&self) -> (k: u16) {
        self.rank_value() as u16
    }
}

impl PartialOrdSpecImpl for SctError {
    open spec fn obeys_partial_cmp_spec() -> bool {
        true
    }

    open spec fn partial_cmp_spec(&self, other: &Self) -> Option<Ordering> {
        order_from(self.key() < other.key(), other.key() < self.key())
    }
}

impl PartialOrd for SctError {
    /// The place of `self` relative to `other`, by their keys.
    fn partial_cmp(&self, other: &Self) -> (r: Option<Ordering>) {
        let a = self.key_value();
        let b = other.key_value();
        order_from_value(a < b, b < a)
    }
}

impl FromSpecImpl<sct::Error> for SctError {
    open spec fn obeys_from_spec() -> bool {
        true
    }

    open spec fn from_spec(native: sct::Error) -> Self {
        Self::of_native(native)
    }
}

impl From<sct::Error> for SctError {
    /// The reason that stands for the native one: the variant of the same name.
    fn from(native: sct::Error) -> (r: Self)
        ensures
            r == Self::of_native(native),
    {
        match native {
            sct::Error::MalformedSct => SctError::MalformedSct,
            sct::Error::InvalidSignature => SctError::InvalidSignature,
            sct::Error::TimestampInFuture => SctError::TimestampInFuture,
            sct::Error::UnsupportedSctVersion => SctError::UnsupportedSctVersion,
            sct::Error::UnknownLog => SctError::UnknownLog,
        }
    }
}

/// The secure-channel category: why a TLS connection failed.
#[allow(inconsistent_fields)]
#[derive(Debug, Eq, Ord)]
pub enum RustlsError {
    /// A record came that is not valid now: the types that were expected, in
    /// order, and the type that came.
    InappropriateMessage {
        expect_types: Vec<ContentType>,
        got_type: ContentType,
    },
    /// A handshake message came that is not valid now: the types that were
    /// expected, in order, and the type that came.
    InappropriateHandshakeMessage {
        expect_types: Vec<HandshakeType>,
        got_type: HandshakeType,
    },
    CorruptMessage,
    /// A record of this type had invalid contents.
    CorruptMessagePayload(ContentType),
    NoCertificatesPresented,
    UnsupportedNameType,
    DecryptError,
    EncryptError,
    /// The peer lacks something that is required; the text says what.
    PeerIncompatibleError(String),
    /// The peer left the protocol; the text says where.
    PeerMisbehavedError(String),
    /// The peer sent a fatal alert.
    AlertReceived(AlertDescription),
    InvalidCertificateEncoding,
    InvalidCertificateSignatureType,
    InvalidCertificateSignature,
    /// A certificate held invalid data; the text says which.
    InvalidCertificateData(String),
    /// A signed certificate timestamp was not accepted.
    InvalidSct(SctError),
    /// Any other failure, as a text.
    General(String),
    FailedToGetCurrentTime,
    FailedToGetRandomBytes,
    HandshakeNotComplete,
    PeerSentOversizedRecord,
    NoApplicationProtocol,
    BadMaxFragmentSize,
}

/// What a [`RustlsError`] holds: its texts as sequences of characters, its lists as
/// sequences.
#[allow(inconsistent_fields)]
pub enum RustlsErrorView {
    InappropriateMessage {
        expect_types: Seq<ContentType>,
        got_type: ContentType,
    },
    InappropriateHandshakeMessage {
        expect_types: Seq<HandshakeType>,
        got_type: HandshakeType,
    },
    CorruptMessage,
    CorruptMessagePayload(ContentType),
    NoCertificatesPresented,
    UnsupportedNameType,
    DecryptError,
    EncryptError,
    PeerIncompatibleError(Seq<char>),
    PeerMisbehavedError(Seq<char>),
    AlertReceived(AlertDescription),
    InvalidCertificateEncoding,
    InvalidCertificateSignatureType,
    InvalidCertificateSignature,
    InvalidCertificateData(Seq<char>),
    InvalidSct(SctError),
    General(Seq<char>),
    FailedToGetCurrentTime,
    FailedToGetRandomBytes,
    HandshakeNotComplete,
    PeerSentOversizedRecord,
    NoApplicationProtocol,
    BadMaxFragmentSize,
}

impl View for RustlsError {
    type V = RustlsErrorView;

    open spec fn view(&self) -> RustlsErrorView {
        match *self {
            RustlsError::InappropriateMessage { expect_types, got_type } => {
                RustlsErrorView::InappropriateMessage { expect_types: expect_types@, got_type }
            },
            RustlsError::InappropriateHandshakeMessage { expect_types, got_type } => {
                RustlsErrorView::InappropriateHandshakeMessage {
                    expect_types: expect_types@,
                    got_type,
                }
            },
            RustlsError::CorruptMessage => RustlsErrorView::CorruptMessage,
            RustlsError::CorruptMessagePayload(x0) => RustlsErrorView::CorruptMessagePayload(x0),
            RustlsError::NoCertificatesPresented => RustlsErrorView::NoCertificatesPresented,
            RustlsError::UnsupportedNameType => RustlsErrorView::UnsupportedNameType,
            RustlsError::DecryptError => RustlsErrorView::DecryptError,
            RustlsError::EncryptError => RustlsErrorView::EncryptError,
            RustlsError::PeerIncompatibleError(x0) => RustlsErrorView::PeerIncompatibleError(x0@),
            RustlsError::PeerMisbehavedError(x0) => RustlsErrorView::PeerMisbehavedError(x0@),
            RustlsError::AlertReceived(x0) => RustlsErrorView::AlertReceived(x0),
            RustlsError::InvalidCertificateEncoding => RustlsErrorView::InvalidCertificateEncoding,
            RustlsError::InvalidCertificateSignatureType => {
                RustlsErrorView::InvalidCertificateSignatureType
            },
            RustlsError::InvalidCertificateSignature => {
                RustlsErrorView::InvalidCertificateSignature
            },
            RustlsError::InvalidCertificateData(x0) => RustlsErrorView::InvalidCertificateData(x0@),
            RustlsError::InvalidSct(x0) => RustlsErrorView::InvalidSct(x0),
            RustlsError::General(x0) => RustlsErrorView::General(x0@),
            RustlsError::FailedToGetCurrentTime => RustlsErrorView::FailedToGetCurrentTime,
            RustlsError::FailedToGetRandomBytes => RustlsErrorView::FailedToGetRandomBytes,
            RustlsError::HandshakeNotComplete => RustlsErrorView::HandshakeNotComplete,
            RustlsError::PeerSentOversizedRecord => RustlsErrorView::PeerSentOversizedRecord,
            RustlsError::NoApplicationProtocol => RustlsErrorView::NoApplicationProtocol,
            RustlsError::BadMaxFragmentSize => RustlsErrorView::BadMaxFragmentSize,
        }
    }
}

/// The record types that stand for the native ones, one for one and in order.
pub open spec fn content_types_of_native(native: Seq<RustlsContentType>) -> Seq<ContentType> {
    Seq::new(native.len(), |i: int| ContentType::of_native(native[i]))
}

/// The message types that stand for the native ones, one for one and in order.
pub open spec fn handshake_types_of_native(native: Seq<RustlsHandshakeType>) -> Seq<
    HandshakeType,
> {
    Seq::new(native.len(), |i: int| HandshakeType::of_native(native[i]))
}

/// The place of the variant of a native error in its declaration, counted
/// from 0.
pub open spec fn tls_variant(native: rustls::Error) -> int {
    match native {
        rustls::Error::InappropriateMessage { .. } => 0,
        rustls::Error::InappropriateHandshakeMessage { .. } => 1,
        rustls::Error::CorruptMessage => 2,
        rustls::Error::CorruptMessagePayload(_) => 3,
        rustls::Error::NoCertificatesPresented => 4,
        rustls::Error::UnsupportedNameType => 5,
        rustls::Error::DecryptError => 6,
        rustls::Error::EncryptError => 7,
        rustls::Error::PeerIncompatibleError(_) => 8,
        rustls::Error::PeerMisbehavedError(_) => 9,
        rustls::Error::AlertReceived(_) => 10,
        rustls::Error::InvalidCertificateEncoding => 11,
        rustls::Error::InvalidCertificateSignatureType => 12,
        rustls::Error::InvalidCertificateSignature => 13,
        rustls::Error::InvalidCertificateData(_) => 14,
        rustls::Error::InvalidSct(_) => 15,
        rustls::Error::General(_) => 16,
        rustls::Error::FailedToGetCurrentTime => 17,
        rustls::Error::FailedToGetRandomBytes => 18,
        rustls::Error::HandshakeNotComplete => 19,
        rustls::Error::PeerSentOversizedRecord => 20,
        rustls::Error::NoApplicationProtocol => 21,
        rustls::Error::BadMaxFragmentSize => 22,
    }
}

impl RustlsErrorView {
    /// The place of the variant in the declaration, counted from 0.
    pub open spec fn rank(self) -> int {
        match self {
            RustlsErrorView::InappropriateMessage { .. } => 0,
            RustlsErrorView::InappropriateHandshakeMessage { .. } => 1,
            RustlsErrorView::CorruptMessage => 2,
            RustlsErrorView::CorruptMessagePayload(_) => 3,
            RustlsErrorView::NoCertificatesPresented => 4,
            RustlsErrorView::UnsupportedNameType => 5,
            RustlsErrorView::DecryptError => 6,
            RustlsErrorView::EncryptError => 7,
            RustlsErrorView::PeerIncompatibleError(_) => 8,
            RustlsErrorView::PeerMisbehavedError(_) => 9,
            RustlsErrorView::AlertReceived(_) => 10,
            RustlsErrorView::InvalidCertificateEncoding => 11,
            RustlsErrorView::InvalidCertificateSignatureType => 12,
            RustlsErrorView::InvalidCertificateSignature => 13,
            RustlsErrorView::InvalidCertificateData(_) => 14,
            RustlsErrorView::InvalidSct(_) => 15,
            RustlsErrorView::General(_) => 16,
            RustlsErrorView::FailedToGetCurrentTime => 17,
            RustlsErrorView::FailedToGetRandomBytes => 18,
            RustlsErrorView::HandshakeNotComplete => 19,
            RustlsErrorView::PeerSentOversizedRecord => 20,
            RustlsErrorView::NoApplicationProtocol => 21,
            RustlsErrorView::BadMaxFragmentSize => 22,
        }
    }

    /// The strict order: by place in the declaration, then by the fields in their order.
    pub open spec fn precedes(self, other: Self) -> bool {
        self.rank() < other.rank() || (self.rank() == other.rank() && match (self, other) {
            (
                RustlsErrorView::InappropriateMessage { expect_types: a0, got_type: a1 },
                RustlsErrorView::InappropriateMessage { expect_types: b0, got_type: b1 },
            ) => lex_precedes(a0, b0) || (a0 == b0 && a1.key() < b1.key()),
            (
                RustlsErrorView::InappropriateHandshakeMessage { expect_types: a0, got_type: a1 },
                RustlsErrorView::InappropriateHandshakeMessage { expect_types: b0, got_type: b1 },
            ) => lex_precedes(a0, b0) || (a0 == b0 && a1.key() < b1.key()),
            (
                RustlsErrorView::CorruptMessagePayload(a),
                RustlsErrorView::CorruptMessagePayload(b),
            ) => a.key() < b.key(),
            (
                RustlsErrorView::PeerIncompatibleError(a),
                RustlsErrorView::PeerIncompatibleError(b),
            ) => text_precedes(a, b),
            (
                RustlsErrorView::PeerMisbehavedError(a),
                RustlsErrorView::PeerMisbehavedError(b),
            ) => text_precedes(a, b),
            (
                RustlsErrorView::AlertReceived(a),
                RustlsErrorView::AlertReceived(b),
            ) => a.key() < b.key(),
            (
                RustlsErrorView::InvalidCertificateData(a),
                RustlsErrorView::InvalidCertificateData(b),
            ) => text_precedes(a, b),
            (RustlsErrorView::InvalidSct(a), RustlsErrorView::InvalidSct(b)) => a.key() < b.key(),
            (RustlsErrorView::General(a), RustlsErrorView::General(b)) => text_precedes(a, b),
            _ => false,
        })
    }

    /// What the native error becomes: the variant of the same name, with
    /// every field kept.
    pub open spec fn of_native(native: rustls::Error) -> Self {
        match native {
            rustls::Error::InappropriateMessage { expect_types, got_type } => {
                RustlsErrorView::InappropriateMessage {
                    expect_types: content_types_of_native(expect_types@),
                    got_type: ContentType::of_native(got_type),
                }
            },
            rustls::Error::InappropriateHandshakeMessage { expect_types, got_type } => {
                RustlsErrorView::InappropriateHandshakeMessage {
                    expect_types: handshake_types_of_native(expect_types@),
                    got_type: HandshakeType::of_native(got_type),
                }
            },
            rustls::Error::CorruptMessage => RustlsErrorView::CorruptMessage,
            rustls::Error::CorruptMessagePayload(value) => {
                RustlsErrorView::CorruptMessagePayload(ContentType::of_native(value))
            },
            rustls::Error::NoCertificatesPresented => RustlsErrorView::NoCertificatesPresented,
            rustls::Error::UnsupportedNameType => RustlsErrorView::UnsupportedNameType,
            rustls::Error::DecryptError => RustlsErrorView::DecryptError,
            rustls::Error::EncryptError => RustlsErrorView::EncryptError,
            rustls::Error::PeerIncompatibleError(text) => {
                RustlsErrorView::PeerIncompatibleError(text@)
            },
            rustls::Error::PeerMisbehavedError(text) => RustlsErrorView::PeerMisbehavedError(text@),
            rustls::Error::AlertReceived(value) => {
                RustlsErrorView::AlertReceived(AlertDescription::of_native(value))
            },
            rustls::Error::InvalidCertificateEncoding => {
                RustlsErrorView::InvalidCertificateEncoding
            },
            rustls::Error::InvalidCertificateSignatureType => {
                RustlsErrorView::InvalidCertificateSignatureType
            },
            rustls::Error::InvalidCertificateSignature => {
                RustlsErrorView::InvalidCertificateSignature
            },
            rustls::Error::InvalidCertificateData(text) => {
                RustlsErrorView::InvalidCertificateData(text@)
            },
            rustls::Error::InvalidSct(value) => {
                RustlsErrorView::InvalidSct(SctError::of_native(value))
            },
            rustls::Error::General(text) => RustlsErrorView::General(text@),
            rustls::Error::FailedToGetCurrentTime => RustlsErrorView::FailedToGetCurrentTime,
            rustls::Error::FailedToGetRandomBytes => RustlsErrorView::FailedToGetRandomBytes,
            rustls::Error::HandshakeNotComplete => RustlsErrorView::HandshakeNotComplete,
            rustls::Error::PeerSentOversizedRecord => RustlsErrorView::PeerSentOversizedRecord,
            rustls::Error::NoApplicationProtocol => RustlsErrorView::NoApplicationProtocol,
            rustls::Error::BadMaxFragmentSize => RustlsErrorView::BadMaxFragmentSize,
        }
    }
}

impl RustlsError {
    /// The place of the variant in the declaration, counted from 0.
    pub fn rank_value(&self) -> (r: u8)
        ensures
            r == self@.rank(),
    {
        match self {
            RustlsError::InappropriateMessage { .. } => 0,
            RustlsError::InappropriateHandshakeMessage { .. } => 1,
            RustlsError::CorruptMessage => 2,
            RustlsError::CorruptMessagePayload(_) => 3,
            RustlsError::NoCertificatesPresented => 4,
            RustlsError::UnsupportedNameType => 5,
            RustlsError::DecryptError => 6,
            RustlsError::EncryptError => 7,
            RustlsError::PeerIncompatibleError(_) => 8,
            RustlsError::PeerMisbehavedError(_) => 9,
            RustlsError::AlertReceived(_) => 10,
            RustlsError::InvalidCertificateEncoding => 11,
            RustlsError::InvalidCertificateSignatureType => 12,
            RustlsError::InvalidCertificateSignature => 13,
            RustlsError::InvalidCertificateData(_) => 14,
            RustlsError::InvalidSct(_) => 15,
            RustlsError::General(_) => 16,
            RustlsError::FailedToGetCurrentTime => 17,
            RustlsError::FailedToGetRandomBytes => 18,
            RustlsError::HandshakeNotComplete => 19,
            RustlsError::PeerSentOversizedRecord => 20,
            RustlsError::NoApplicationProtocol => 21,
            RustlsError::BadMaxFragmentSize => 22,
        }
    }

    /// Whether `self` comes strictly before `other`.
    pub fn precedes(&self, other: &Self) -> (r: bool)
        ensures
            r == self@.precedes(other@),
    {
        let a = self.rank_value();
        let b = other.rank_value();
        if a != b {
            a < b
        } else {
            match (self, other) {
                (
                    RustlsError::InappropriateMessage { expect_types: x0, got_type: x1 },
                    RustlsError::InappropriateMessage { expect_types: y0, got_type: y1 },
                ) => {
                    if slice_precedes(x0.as_slice(), y0.as_slice()) {
                        true
                    } else if slice_equal(x0.as_slice(), y0.as_slice()) {
                        x1.key_value() < y1.key_value()
                    } else {
                        false
                    }
                },
                (
                    RustlsError::InappropriateHandshakeMessage { expect_types: x0, got_type: x1 },
                    RustlsError::InappropriateHandshakeMessage { expect_types: y0, got_type: y1 },
                ) => {
                    if slice_precedes(x0.as_slice(), y0.as_slice()) {
                        true
                    } else if slice_equal(x0.as_slice(), y0.as_slice()) {
                        x1.key_value() < y1.key_value()
                    } else {
                        false
                    }
                },
                (RustlsError::CorruptMessagePayload(x), RustlsError::CorruptMessagePayload(y)) => {
                    x.key_value() < y.key_value()
                },
                (RustlsError::PeerIncompatibleError(x), RustlsError::PeerIncompatibleError(y)) => {
                    str_precedes(x.as_str(), y.as_str())
                },
                (RustlsError::PeerMisbehavedError(x), RustlsError::PeerMisbehavedError(y)) => {
                    str_precedes(x.as_str(), y.as_str())
                },
                (RustlsError::AlertReceived(x), RustlsError::AlertReceived(y)) => {
                    x.key_value() < y.key_value()
                },
                (
                    RustlsError::InvalidCertificateData(x),
                    RustlsError::InvalidCertificateData(y),
                ) => {
                    str_precedes(x.as_str(), y.as_str())
                },
                (RustlsError::InvalidSct(x), RustlsError::InvalidSct(y)) => {
                    x.key_value() < y.key_value()
                },
                (RustlsError::General(x), RustlsError::General(y)) => {
                    str_precedes(x.as_str(), y.as_str())
                },
                _ => false,
            }
        }
    }
}

/// The record types that stand for the native ones, one for one and in order.
pub fn content_types(native: &Vec<RustlsContentType>) -> (r: Vec<ContentType>)
    ensures
        r@ == content_types_of_native(native@),
{
    let mut types: Vec<ContentType> = Vec::new();
    let mut i: usize = 0;
    while i < native.len()
        invariant
            i <= native.len(),
            types.len() == i,
            forall|j: int| 0 <= j < i ==> types@[j] == ContentType::of_native(native@[j]),
        decreases native.len() - i,
    {
        types.push(ContentType::from(native[i]));
        i += 1;
    }
    assert(types@ =~= content_types_of_native(native@));
    types
}

/// The message types that stand for the native ones, one for one and in order.
pub fn handshake_types(native: &Vec<RustlsHandshakeType>) -> (r: Vec<HandshakeType>)
    ensures
        r@ == handshake_types_of_native(native@),
{
    let mut types: Vec<HandshakeType> = Vec::new();
    let mut i: usize = 0;
    while i < native.len()
        invariant
            i <= native.len(),
            types.len() == i,
            forall|j: int| 0 <= j < i ==> types@[j] == HandshakeType::of_native(native@[j]),
        decreases native.len() - i,
    {
        types.push(HandshakeType::from(native[i]));
        i += 1;
    }
    assert(types@ =~= handshake_types_of_native(native@));
    types
}

impl PartialEqSpecImpl for RustlsError {
    open spec fn obeys_eq_spec() -> bool {
        true
    }

    open spec fn eq_spec(&self, other: &Self) -> bool {
        self@ == other@
    }
}

impl PartialEq for RustlsError {
    /// Whether the two hold the same: the same variant with the same contents.
    fn eq(&self, other: &Self) -> (r: bool) {
        match (self, other) {
            (
                RustlsError::InappropriateMessage { expect_types: x0, got_type: x1 },
                RustlsError::InappropriateMessage { expect_types: y0, got_type: y1 },
            ) => slice_equal(x0.as_slice(), y0.as_slice()) && *x1 == *y1,
            (
                RustlsError::InappropriateHandshakeMessage { expect_types: x0, got_type: x1 },
                RustlsError::InappropriateHandshakeMessage { expect_types: y0, got_type: y1 },
            ) => slice_equal(x0.as_slice(), y0.as_slice()) && *x1 == *y1,
            (
                RustlsError::CorruptMessagePayload(x),
                RustlsError::CorruptMessagePayload(y),
            ) => *x == *y,
            (
                RustlsError::PeerIncompatibleError(x),
                RustlsError::PeerIncompatibleError(y),
            ) => *x == *y,
            (RustlsError::PeerMisbehavedError(x), RustlsError::PeerMisbehavedError(y)) => *x == *y,
            (RustlsError::AlertReceived(x), RustlsError::AlertReceived(y)) => *x == *y,
            (
                RustlsError::InvalidCertificateData(x),
                RustlsError::InvalidCertificateData(y),
            ) => *x == *y,
            (RustlsError::InvalidSct(x), RustlsError::InvalidSct(y)) => *x == *y,
            (RustlsError::General(x), RustlsError::General(y)) => *x == *y,
            _ => self.rank_value() == other.rank_value(),
        }
    }
}

impl PartialOrdSpecImpl for RustlsError {
    open spec fn obeys_partial_cmp_spec() -> bool {
        true
    }

    open spec fn partial_cmp_spec(&self, other: &Self) -> Option<Ordering> {
        order_from(self@.precedes(other@), other@.precedes(self@))
    }
}

impl PartialOrd for RustlsError {
    /// The place of `self` relative to `other` in the strict order of the views.
    fn partial_cmp(&self, other: &Self) -> (r: Option<Ordering>) {
        order_from_value(self.precedes(other), other.precedes(self))
    }
}

// What `from` gives is stated on `from` itself, over the view of the result: the
// result holds a text or a list that is made anew, which no expression here can name.
impl FromSpecImpl<rustls::Error> for RustlsError {
    open spec fn obeys_from_spec() -> bool {
        false
    }

    open spec fn from_spec(native: rustls::Error) -> Self {
        arbitrary()
    }
}

impl From<rustls::Error> for RustlsError {
    /// The failure that stands for the native one: the variant of the same
    /// name, with every field kept, lists element by element.
    fn from(native: rustls::Error) -> (r: Self)
        ensures
            r@ == RustlsErrorView::of_native(native),
    {
        match native {
            rustls::Error::InappropriateMessage { expect_types, got_type } => {
                RustlsError::InappropriateMessage {
                    expect_types: content_types(&expect_types),
                    got_type: ContentType::from(got_type),
                }
            },
            rustls::Error::InappropriateHandshakeMessage { expect_types, got_type } => {
                RustlsError::InappropriateHandshakeMessage {
                    expect_types: handshake_types(&expect_types),
                    got_type: HandshakeType::from(got_type),
                }
            },
            rustls::Error::CorruptMessage => RustlsError::CorruptMessage,
            rustls::Error::CorruptMessagePayload(value) => {
                RustlsError::CorruptMessagePayload(ContentType::from(value))
            },
            rustls::Error::NoCertificatesPresented => RustlsError::NoCertificatesPresented,
            rustls::Error::UnsupportedNameType => RustlsError::UnsupportedNameType,
            rustls::Error::DecryptError => RustlsError::DecryptError,
            rustls::Error::EncryptError => RustlsError::EncryptError,
            rustls::Error::PeerIncompatibleError(text) => RustlsError::PeerIncompatibleError(text),
            rustls::Error::PeerMisbehavedError(text) => RustlsError::PeerMisbehavedError(text),
            rustls::Error::AlertReceived(value) => {
                RustlsError::AlertReceived(AlertDescription::from(value))
            },
            rustls::Error::InvalidCertificateEncoding => RustlsError::InvalidCertificateEncoding,
            rustls::Error::InvalidCertificateSignatureType => {
                RustlsError::InvalidCertificateSignatureType
            },
            rustls::Error::InvalidCertificateSignature => RustlsError::InvalidCertificateSignature,
            rustls::Error::InvalidCertificateData(text) => {
                RustlsError::InvalidCertificateData(text)
            },
            rustls::Error::InvalidSct(value) => RustlsError::InvalidSct(SctError::from(value)),
            rustls::Error::General(text) => RustlsError::General(text),
            rustls::Error::FailedToGetCurrentTime => RustlsError::FailedToGetCurrentTime,
            rustls::Error::FailedToGetRandomBytes => RustlsError::FailedToGetRandomBytes,
            rustls::Error::HandshakeNotComplete => RustlsError::HandshakeNotComplete,
            rustls::Error::PeerSentOversizedRecord => RustlsError::PeerSentOversizedRecord,
            rustls::Error::NoApplicationProtocol => RustlsError::NoApplicationProtocol,
            rustls::Error::BadMaxFragmentSize => RustlsError::BadMaxFragmentSize,
        }
    }
}

/// No failure comes before itself.
pub proof fn tls_order_irreflexive(a: RustlsErrorView)
    ensures
        !a.precedes(a),
{
    match a {
        RustlsErrorView::InappropriateMessage { expect_types: x0, got_type: _ } => {
            lex_irreflexive(x0);
        },
        RustlsErrorView::InappropriateHandshakeMessage { expect_types: x0, got_type: _ } => {
            lex_irreflexive(x0);
        },
        RustlsErrorView::PeerIncompatibleError(x0) => {
            text_irreflexive(x0);
        },
        RustlsErrorView::PeerMisbehavedError(x0) => {
            text_irreflexive(x0);
        },
        RustlsErrorView::InvalidCertificateData(x0) => {
            text_irreflexive(x0);
        },
        RustlsErrorView::General(x0) => {
            text_irreflexive(x0);
        },
        _ => {},
    }
}

/// If one failure comes before a second, and that before a third, then the
/// first comes before the third.
pub proof fn tls_order_transitive(
    a: RustlsErrorView,
    b: RustlsErrorView,
    c: RustlsErrorView,
)
    requires
        a.precedes(b),
        b.precedes(c),
    ensures
        a.precedes(c),
{
    match (a, b, c) {
        (
            RustlsErrorView::InappropriateMessage { expect_types: a0, got_type: _ },
            RustlsErrorView::InappropriateMessage { expect_types: b0, got_type: _ },
            RustlsErrorView::InappropriateMessage { expect_types: c0, got_type: _ },
        ) => {
            if lex_precedes(a0, b0) && lex_precedes(b0, c0) {
                lex_transitive(a0, b0, c0);
            }
        },
        (
            RustlsErrorView::InappropriateHandshakeMessage { expect_types: a0, got_type: _ },
            RustlsErrorView::InappropriateHandshakeMessage { expect_types: b0, got_type: _ },
            RustlsErrorView::InappropriateHandshakeMessage { expect_types: c0, got_type: _ },
        ) => {
            if lex_precedes(a0, b0) && lex_precedes(b0, c0) {
                lex_transitive(a0, b0, c0);
            }
        },
        (
            RustlsErrorView::PeerIncompatibleError(a0),
            RustlsErrorView::PeerIncompatibleError(b0),
            RustlsErrorView::PeerIncompatibleError(c0),
        ) => {
            text_transitive(a0, b0, c0);
        },
        (
            RustlsErrorView::PeerMisbehavedError(a0),
            RustlsErrorView::PeerMisbehavedError(b0),
            RustlsErrorView::PeerMisbehavedError(c0),
        ) => {
            text_transitive(a0, b0, c0);
        },
        (
            RustlsErrorView::InvalidCertificateData(a0),
            RustlsErrorView::InvalidCertificateData(b0),
            RustlsErrorView::InvalidCertificateData(c0),
        ) => {
            text_transitive(a0, b0, c0);
        },
        (
            RustlsErrorView::General(a0),
            RustlsErrorView::General(b0),
            RustlsErrorView::General(c0),
        ) => {
            text_transitive(a0, b0, c0);
        },
        _ => {},
    }
}

/// Of two different failures one comes before the other.
pub proof fn tls_order_connected(a: RustlsErrorView, b: RustlsErrorView)
    requires
        a != b,
    ensures
        a.precedes(b) || b.precedes(a),
{
    match (a, b) {
        (
            RustlsErrorView::InappropriateMessage { expect_types: a0, got_type: a1 },
            RustlsErrorView::InappropriateMessage { expect_types: b0, got_type: b1 },
        ) => {
            if a0 != b0 {
                lex_connected(a0, b0);
            }
            if a1.key() == b1.key() {
                ContentType::key_is_injective(a1, b1);
            }
        },
        (
            RustlsErrorView::InappropriateHandshakeMessage { expect_types: a0, got_type: a1 },
            RustlsErrorView::InappropriateHandshakeMessage { expect_types: b0, got_type: b1 },
        ) => {
            if a0 != b0 {
                lex_connected(a0, b0);
            }
            if a1.key() == b1.key() {
                HandshakeType::key_is_injective(a1, b1);
            }
        },
        (
            RustlsErrorView::CorruptMessagePayload(a0),
            RustlsErrorView::CorruptMessagePayload(b0),
        ) => {
            if a0.key() == b0.key() {
                ContentType::key_is_injective(a0, b0);
            }
        },
        (
            RustlsErrorView::PeerIncompatibleError(a0),
            RustlsErrorView::PeerIncompatibleError(b0),
        ) => {
            if a0 != b0 {
                text_connected(a0, b0);
            }
        },
        (RustlsErrorView::PeerMisbehavedError(a0), RustlsErrorView::PeerMisbehavedError(b0)) => {
            if a0 != b0 {
                text_connected(a0, b0);
            }
        },
        (RustlsErrorView::AlertReceived(a0), RustlsErrorView::AlertReceived(b0)) => {
            if a0.key() == b0.key() {
                AlertDescription::key_is_injective(a0, b0);
            }
        },
        (
            RustlsErrorView::InvalidCertificateData(a0),
            RustlsErrorView::InvalidCertificateData(b0),
        ) => {
            if a0 != b0 {
                text_connected(a0, b0);
            }
        },
        (RustlsErrorView::InvalidSct(a0), RustlsErrorView::InvalidSct(b0)) => {
            if a0.key() == b0.key() {
                SctError::key_is_injective(a0, b0);
            }
        },
        (RustlsErrorView::General(a0), RustlsErrorView::General(b0)) => {
            if a0 != b0 {
                text_connected(a0, b0);
            }
        },
        _ => {},
    }
}

/// Two native record types with the same translation are the same: every
/// variant has a variant of its own, and `Unknown` keeps its code.
pub proof fn content_type_translation_is_injective(a: RustlsContentType, b: RustlsContentType)
    requires
        ContentType::of_native(a) == ContentType::of_native(b),
    ensures
        a == b,
{
}

/// Two native message types with the same translation are the same, as long
/// as neither is the hello-verify-request message, which shares `Unknown(3)`
/// with the native `Unknown(3)`.
pub proof fn handshake_type_translation_is_injective(
    a: RustlsHandshakeType,
    b: RustlsHandshakeType,
)
    requires
        a != RustlsHandshakeType::HelloVerifyRequest,
        b != RustlsHandshakeType::HelloVerifyRequest,
        HandshakeType::of_native(a) == HandshakeType::of_native(b),
    ensures
        a == b,
{
}

/// Two native alerts with the same translation are the same.
pub proof fn alert_translation_is_injective(a: RustlsAlertDescription, b: RustlsAlertDescription)
    requires
        AlertDescription::of_native(a) == AlertDescription::of_native(b),
    ensures
        a == b,
{
}

/// Two native timestamp errors with the same translation are the same.
pub proof fn sct_translation_is_injective(a: sct::Error, b: sct::Error)
    requires
        SctError::of_native(a) == SctError::of_native(b),
    ensures
        a == b,
{
}

/// The translation of a native error has the variant in the same place of
/// the declaration: the variant of the result tells the variant of the
/// source, and no two source variants share one.
pub proof fn tls_translation_keeps_the_variant(native: rustls::Error)
    ensures
        RustlsErrorView::of_native(native).rank() == tls_variant(native),
{
}

/// A list is translated element by element: the result has as many
/// entries, and each stands for the native entry in the same place.
pub proof fn tls_translation_keeps_the_lists(
    records: Seq<RustlsContentType>,
    messages: Seq<RustlsHandshakeType>,
)
    ensures
        content_types_of_native(records).len() == records.len(),
        handshake_types_of_native(messages).len() == messages.len(),
        forall|i: int|
            0 <= i < records.len() ==> #[trigger] content_types_of_native(records)[i]
                == ContentType::of_native(records[i]),
        forall|i: int|
            0 <= i < messages.len() ==> #[trigger] handshake_types_of_native(messages)[i]
                == HandshakeType::of_native(messages[i]),
{
}

} // verus!
