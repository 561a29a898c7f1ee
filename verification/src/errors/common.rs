//! The unified error type, and the translations that need no category of
//! their own: hexadecimal decoding, I/O, JSON and the secure channel.

use crate::errors::http::{
    http_order_connected, http_order_irreflexive, http_order_transitive, json_order_connected,
    json_order_irreflexive, json_order_transitive, HttpError, HttpErrorView, JsonError,
    JsonErrorView,
};
use crate::errors::io::{
    io_order_connected, io_order_irreflexive, io_order_transitive, PoseidonErrorKind,
    PoseidonErrorKindView,
};
use crate::errors::ssl::{
    tls_order_connected, tls_order_irreflexive, tls_order_transitive, RustlsError,
    RustlsErrorView,
};
use crate::order::{
    order_from, order_from_value, str_precedes, text_connected, text_irreflexive, text_precedes,
    text_transitive,
};
use crate::text::char_text;
use std::cmp::Ordering;
use vstd::prelude::*;
use vstd::std_specs::cmp::{PartialEqSpecImpl, PartialOrdSpecImpl};
use vstd::std_specs::convert::FromSpecImpl;
use vstd::string::to_string_from_display_ensures;

verus! {

// Declared with its variants, as the crate defines them, so that the
// translation below is checked arm by arm.
#[verifier::external_type_specification]
pub struct ExFromHexError(hex::FromHexError);

// An error of the JSON parser is carried through and displayed, never looked
// into.
#[verifier::external_type_specification]
#[verifier::external_body]
pub struct ExSerdeJsonError(serde_json::Error);

/// What every fallible operation of the toolkit returns.
pub type PoseidonResult<T> = Result<T, PoseidonError>;

/// The one error type that every operation of the toolkit reports through.
#[derive(Debug, Eq, Ord)]
pub enum PoseidonError {
    MissingEd25519PublicKey,
    MissingKeypair,
    MissingTxSignature,
    HomeDirectoryNotFound,
    PathIsNotValidUtf8,
    /// A text was expected and the bytes were not UTF-8; the diagnostic as given.
    InvalidUtf8(String),
    InvalidBase58Ed25519SecretKey,
    InvalidBase58Ed25519PublicKey,
    InvalidBase58Ed25519Signature,
    RepoCreatePermissionDenied,
    RepoAlreadyExists,
    /// An I/O failure, by its category.
    IoErr(PoseidonErrorKind),
    /// An identifier came as bytes that are not UTF-8.
    InvalidByteToUtf8StringConversion,
    InvalidEd25519PublicKeyHex,
    /// A character that is no hexadecimal digit, and its index in the input.
    InvalidHexCharacter {
        c: String,
        index: usize,
    },
    /// A hexadecimal text of odd length: two digits make one byte.
    OddLength,
    /// A hexadecimal text whose length does not fit the container of fixed size
    /// that it was decoded into.
    InvalidStringLength,
    /// The collection of this name no longer exists.
    SledCollectionNotFound(String),
    /// The store was used in a way that it does not support.
    SledUnsupported(String),
    /// The store met a bug of its own.
    SledReportableBug(String),
    /// The store found its file corrupted; the text says where.
    SledCorruption(String),
    AccountNotFound,
    UnableToDeserializeAccountInfo,
    UnableToSerializeTx,
    /// A failure of the secure channel.
    Rustls(RustlsError),
    /// A failure of the transport.
    Http(HttpError),
    /// An error that the remote side reported.
    Json(JsonError),
    /// A JSON document could not be read or written; the parser's message.
    SerdeJson(String),
    /// Anything that has no variant of its own, as a text.
    Unspecified(String),
}

/// What a [`PoseidonError`] holds: its texts as sequences of characters, its lists as
/// sequences.
pub enum PoseidonErrorView {
    MissingEd25519PublicKey,
    MissingKeypair,
    MissingTxSignature,
    HomeDirectoryNotFound,
    PathIsNotValidUtf8,
    InvalidUtf8(Seq<char>),
    InvalidBase58Ed25519SecretKey,
    InvalidBase58Ed25519PublicKey,
    InvalidBase58Ed25519Signature,
    RepoCreatePermissionDenied,
    RepoAlreadyExists,
    IoErr(PoseidonErrorKindView),
    InvalidByteToUtf8StringConversion,
    InvalidEd25519PublicKeyHex,
    InvalidHexCharacter {
        c: Seq<char>,
        index: usize,
    },
    OddLength,
    InvalidStringLength,
    SledCollectionNotFound(Seq<char>),
    SledUnsupported(Seq<char>),
    SledReportableBug(Seq<char>),
    SledCorruption(Seq<char>),
    AccountNotFound,
    UnableToDeserializeAccountInfo,
    UnableToSerializeTx,
    Rustls(RustlsErrorView),
    Http(HttpErrorView),
    Json(JsonErrorView),
    SerdeJson(Seq<char>),
    Unspecified(Seq<char>),
}

impl View for PoseidonError {
    type V = PoseidonErrorView;

    open spec fn view(&self) -> PoseidonErrorView {
        match *self {
            PoseidonError::MissingEd25519PublicKey => PoseidonErrorView::MissingEd25519PublicKey,
            PoseidonError::MissingKeypair => PoseidonErrorView::MissingKeypair,
            PoseidonError::MissingTxSignature => PoseidonErrorView::MissingTxSignature,
            PoseidonError::HomeDirectoryNotFound => PoseidonErrorView::HomeDirectoryNotFound,
            PoseidonError::PathIsNotValidUtf8 => PoseidonErrorView::PathIsNotValidUtf8,
            PoseidonError::InvalidUtf8(x0) => PoseidonErrorView::InvalidUtf8(x0@),
            PoseidonError::InvalidBase58Ed25519SecretKey => {
                PoseidonErrorView::InvalidBase58Ed25519SecretKey
            },
            PoseidonError::InvalidBase58Ed25519PublicKey => {
                PoseidonErrorView::InvalidBase58Ed25519PublicKey
            },
            PoseidonError::InvalidBase58Ed25519Signature => {
                PoseidonErrorView::InvalidBase58Ed25519Signature
            },
            PoseidonError::RepoCreatePermissionDenied => {
                PoseidonErrorView::RepoCreatePermissionDenied
            },
            PoseidonError::RepoAlreadyExists => PoseidonErrorView::RepoAlreadyExists,
            PoseidonError::IoErr(x0) => PoseidonErrorView::IoErr(x0@),
            PoseidonError::InvalidByteToUtf8StringConversion => {
                PoseidonErrorView::InvalidByteToUtf8StringConversion
            },
            PoseidonError::InvalidEd25519PublicKeyHex => {
                PoseidonErrorView::InvalidEd25519PublicKeyHex
            },
            PoseidonError::InvalidHexCharacter { c, index } => {
                PoseidonErrorView::InvalidHexCharacter { c: c@, index }
            },
            PoseidonError::OddLength => PoseidonErrorView::OddLength,
            PoseidonError::InvalidStringLength => PoseidonErrorView::InvalidStringLength,
            PoseidonError::SledCollectionNotFound(x0) => {
                PoseidonErrorView::SledCollectionNotFound(x0@)
            },
            PoseidonError::SledUnsupported(x0) => PoseidonErrorView::SledUnsupported(x0@),
            PoseidonError::SledReportableBug(x0) => PoseidonErrorView::SledReportableBug(x0@),
            PoseidonError::SledCorruption(x0) => PoseidonErrorView::SledCorruption(x0@),
            PoseidonError::AccountNotFound => PoseidonErrorView::AccountNotFound,
            PoseidonError::UnableToDeserializeAccountInfo => {
                PoseidonErrorView::UnableToDeserializeAccountInfo
            },
            PoseidonError::UnableToSerializeTx => PoseidonErrorView::UnableToSerializeTx,
            PoseidonError::Rustls(x0) => PoseidonErrorView::Rustls(x0@),
            PoseidonError::Http(x0) => PoseidonErrorView::Http(x0@),
            PoseidonError::Json(x0) => PoseidonErrorView::Json(x0@),
            PoseidonError::SerdeJson(x0) => PoseidonErrorView::SerdeJson(x0@),
            PoseidonError::Unspecified(x0) => PoseidonErrorView::Unspecified(x0@),
        }
    }
}

impl PoseidonErrorView {
    /// The place of the variant in the declaration, counted from 0.
    pub open spec fn rank(self) -> int {
        match self {
            PoseidonErrorView::MissingEd25519PublicKey => 0,
            PoseidonErrorView::MissingKeypair => 1,
            PoseidonErrorView::MissingTxSignature => 2,
            PoseidonErrorView::HomeDirectoryNotFound => 3,
            PoseidonErrorView::PathIsNotValidUtf8 => 4,
            PoseidonErrorView::InvalidUtf8(_) => 5,
            PoseidonErrorView::InvalidBase58Ed25519SecretKey => 6,
            PoseidonErrorView::InvalidBase58Ed25519PublicKey => 7,
            PoseidonErrorView::InvalidBase58Ed25519Signature => 8,
            PoseidonErrorView::RepoCreatePermissionDenied => 9,
            PoseidonErrorView::RepoAlreadyExists => 10,
            PoseidonErrorView::IoErr(_) => 11,
            PoseidonErrorView::InvalidByteToUtf8StringConversion => 12,
            PoseidonErrorView::InvalidEd25519PublicKeyHex => 13,
            PoseidonErrorView::InvalidHexCharacter { .. } => 14,
            PoseidonErrorView::OddLength => 15,
            PoseidonErrorView::InvalidStringLength => 16,
            PoseidonErrorView::SledCollectionNotFound(_) => 17,
            PoseidonErrorView::SledUnsupported(_) => 18,
            PoseidonErrorView::SledReportableBug(_) => 19,
            PoseidonErrorView::SledCorruption(_) => 20,
            PoseidonErrorView::AccountNotFound => 21,
            PoseidonErrorView::UnableToDeserializeAccountInfo => 22,
            PoseidonErrorView::UnableToSerializeTx => 23,
            PoseidonErrorView::Rustls(_) => 24,
            PoseidonErrorView::Http(_) => 25,
            PoseidonErrorView::Json(_) => 26,
            PoseidonErrorView::SerdeJson(_) => 27,
            PoseidonErrorView::Unspecified(_) => 28,
        }
    }

    /// The strict order: by place in the declaration, then by the fields in their order.
    pub open spec fn precedes(self, other: Self) -> bool {
        self.rank() < other.rank() || (self.rank() == other.rank() && match (self, other) {
            (
                PoseidonErrorView::InvalidUtf8(a),
                PoseidonErrorView::InvalidUtf8(b),
            ) => text_precedes(a, b),
            (PoseidonErrorView::IoErr(a), PoseidonErrorView::IoErr(b)) => a.precedes(b),
            (
                PoseidonErrorView::InvalidHexCharacter { c: a0, index: a1 },
                PoseidonErrorView::InvalidHexCharacter { c: b0, index: b1 },
            ) => text_precedes(a0, b0) || (a0 == b0 && a1 < b1),
            (
                PoseidonErrorView::SledCollectionNotFound(a),
                PoseidonErrorView::SledCollectionNotFound(b),
            ) => text_precedes(a, b),
            (
                PoseidonErrorView::SledUnsupported(a),
                PoseidonErrorView::SledUnsupported(b),
            ) => text_precedes(a, b),
            (
                PoseidonErrorView::SledReportableBug(a),
                PoseidonErrorView::SledReportableBug(b),
            ) => text_precedes(a, b),
            (
                PoseidonErrorView::SledCorruption(a),
                PoseidonErrorView::SledCorruption(b),
            ) => text_precedes(a, b),
            (PoseidonErrorView::Rustls(a), PoseidonErrorView::Rustls(b)) => a.precedes(b),
            (PoseidonErrorView::Http(a), PoseidonErrorView::Http(b)) => a.precedes(b),
            (PoseidonErrorView::Json(a), PoseidonErrorView::Json(b)) => a.precedes(b),
            (
                PoseidonErrorView::SerdeJson(a),
                PoseidonErrorView::SerdeJson(b),
            ) => text_precedes(a, b),
            (
                PoseidonErrorView::Unspecified(a),
                PoseidonErrorView::Unspecified(b),
            ) => text_precedes(a, b),
            _ => false,
        })
    }

    /// The variant, and for a nested category the variant inside it: what
    /// a caller branches on.
    pub open spec fn discriminant(self) -> (int, int) {
        (
            self.rank(),
            match self {
                PoseidonErrorView::IoErr(category) => category.rank(),
                PoseidonErrorView::Rustls(failure) => failure.rank(),
                PoseidonErrorView::Http(failure) => failure.rank(),
                _ => 0,
            },
        )
    }

    /// What an error of hexadecimal decoding becomes: the variant of the
    /// same name, the offending character as a text of its own and its
    /// index unchanged.
    pub open spec fn of_hex(native: hex::FromHexError) -> Self {
        match native {
            hex::FromHexError::InvalidHexCharacter { c, index } => {
                PoseidonErrorView::InvalidHexCharacter { c: seq![c], index }
            },
            hex::FromHexError::OddLength => PoseidonErrorView::OddLength,
            hex::FromHexError::InvalidStringLength => PoseidonErrorView::InvalidStringLength,
        }
    }

    /// Whether `self` is what the I/O error becomes: `IoErr` with the
    /// category of the error.
    pub open spec fn is_translation_of_io(self, native: std::io::Error) -> bool {
        self matches PoseidonErrorView::IoErr(category) && category.is_translation_of(native)
    }

    /// Whether `self` is what the JSON error becomes: `SerdeJson` with the
    /// message that the error displays.
    pub open spec fn is_translation_of_json(self, native: serde_json::Error) -> bool {
        exists|rendered: String|
            #![auto]
            to_string_from_display_ensures::<serde_json::Error>(&native, rendered) && self
                == PoseidonErrorView::SerdeJson(rendered@)
    }

    /// What a native error of the secure channel becomes: `Rustls` with the
    /// failure that stands for it.
    pub open spec fn of_tls(native: rustls::Error) -> Self {
        PoseidonErrorView::Rustls(RustlsErrorView::of_native(native))
    }
}

impl PoseidonError {
    /// The place of the variant in the declaration, counted from 0.
    pub fn rank_value(&self) -> (r: u8)
        ensures
            r == self@.rank(),
    {
        match self {
            PoseidonError::MissingEd25519PublicKey => 0,
            PoseidonError::MissingKeypair => 1,
            PoseidonError::MissingTxSignature => 2,
            PoseidonError::HomeDirectoryNotFound => 3,
            PoseidonError::PathIsNotValidUtf8 => 4,
            PoseidonError::InvalidUtf8(_) => 5,
            PoseidonError::InvalidBase58Ed25519SecretKey => 6,
            PoseidonError::InvalidBase58Ed25519PublicKey => 7,
            PoseidonError::InvalidBase58Ed25519Signature => 8,
            PoseidonError::RepoCreatePermissionDenied => 9,
            PoseidonError::RepoAlreadyExists => 10,
            PoseidonError::IoErr(_) => 11,
            PoseidonError::InvalidByteToUtf8StringConversion => 12,
            PoseidonError::InvalidEd25519PublicKeyHex => 13,
            PoseidonError::InvalidHexCharacter { .. } => 14,
            PoseidonError::OddLength => 15,
            PoseidonError::InvalidStringLength => 16,
            PoseidonError::SledCollectionNotFound(_) => 17,
            PoseidonError::SledUnsupported(_) => 18,
            PoseidonError::SledReportableBug(_) => 19,
            PoseidonError::SledCorruption(_) => 20,
            PoseidonError::AccountNotFound => 21,
            PoseidonError::UnableToDeserializeAccountInfo => 22,
            PoseidonError::UnableToSerializeTx => 23,
            PoseidonError::Rustls(_) => 24,
            PoseidonError::Http(_) => 25,
            PoseidonError::Json(_) => 26,
            PoseidonError::SerdeJson(_) => 27,
            PoseidonError::Unspecified(_) => 28,
        }
    }

    /// Whether `self` comes strictly before `other`.
    pub fn precedes(&self, other: &Self) -> (r: bool)
        ensures
            r == self@.precedes(other@),
    {
        let a = self.rank_value();
        let b = other.rank_value();
        if a != b {
            a < b
        } else {
            match (self, other) {
                (PoseidonError::InvalidUtf8(x), PoseidonError::InvalidUtf8(y)) => {
                    str_precedes(x.as_str(), y.as_str())
                },
                (PoseidonError::IoErr(x), PoseidonError::IoErr(y)) => {
                    x.precedes(y)
                },
                (
                    PoseidonError::InvalidHexCharacter { c: x0, index: x1 },
                    PoseidonError::InvalidHexCharacter { c: y0, index: y1 },
                ) => {
                    if str_precedes(x0.as_str(), y0.as_str()) {
                        true
                    } else if *x0 == *y0 {
                        *x1 < *y1
                    } else {
                        false
                    }
                },
                (
                    PoseidonError::SledCollectionNotFound(x),
                    PoseidonError::SledCollectionNotFound(y),
                ) => {
                    str_precedes(x.as_str(), y.as_str())
                },
                (PoseidonError::SledUnsupported(x), PoseidonError::SledUnsupported(y)) => {
                    str_precedes(x.as_str(), y.as_str())
                },
                (PoseidonError::SledReportableBug(x), PoseidonError::SledReportableBug(y)) => {
                    str_precedes(x.as_str(), y.as_str())
                },
                (PoseidonError::SledCorruption(x), PoseidonError::SledCorruption(y)) => {
                    str_precedes(x.as_str(), y.as_str())
                },
                (PoseidonError::Rustls(x), PoseidonError::Rustls(y)) => {
                    x.precedes(y)
                },
                (PoseidonError::Http(x), PoseidonError::Http(y)) => {
                    x.precedes(y)
                },
                (PoseidonError::Json(x), PoseidonError::Json(y)) => {
                    x.precedes(y)
                },
                (PoseidonError::SerdeJson(x), PoseidonError::SerdeJson(y)) => {
                    str_precedes(x.as_str(), y.as_str())
                },
                (PoseidonError::Unspecified(x), PoseidonError::Unspecified(y)) => {
                    str_precedes(x.as_str(), y.as_str())
                },
                _ => false,
            }
        }
    }
}

impl PartialEqSpecImpl for PoseidonError {
    open spec fn obeys_eq_spec() -> bool {
        true
    }

    open spec fn eq_spec(&self, other: &Self) -> bool {
        self@ == other@
    }
}

impl PartialEq for PoseidonError {
    /// Whether the two hold the same: the same variant with the same contents.
    fn eq(&self, other: &Self) -> (r: bool) {
        match (self, other) {
            (PoseidonError::InvalidUtf8(x), PoseidonError::InvalidUtf8(y)) => *x == *y,
            (PoseidonError::IoErr(x), PoseidonError::IoErr(y)) => *x == *y,
            (
                PoseidonError::InvalidHexCharacter { c: x0, index: x1 },
                PoseidonError::InvalidHexCharacter { c: y0, index: y1 },
            ) => *x0 == *y0 && *x1 == *y1,
            (
                PoseidonError::SledCollectionNotFound(x),
                PoseidonError::SledCollectionNotFound(y),
            ) => *x == *y,
            (PoseidonError::SledUnsupported(x), PoseidonError::SledUnsupported(y)) => *x == *y,
            (PoseidonError::SledReportableBug(x), PoseidonError::SledReportableBug(y)) => *x == *y,
            (PoseidonError::SledCorruption(x), PoseidonError::SledCorruption(y)) => *x == *y,
            (PoseidonError::Rustls(x), PoseidonError::Rustls(y)) => *x == *y,
            (PoseidonError::Http(x), PoseidonError::Http(y)) => *x == *y,
            (PoseidonError::Json(x), PoseidonError::Json(y)) => *x == *y,
            (PoseidonError::SerdeJson(x), PoseidonError::SerdeJson(y)) => *x == *y,
            (PoseidonError::Unspecified(x), PoseidonError::Unspecified(y)) => *x == *y,
            _ => self.rank_value() == other.rank_value(),
        }
    }
}

impl PartialOrdSpecImpl for PoseidonError {
    open spec fn obeys_partial_cmp_spec() -> bool {
        true
    }

    open spec fn partial_cmp_spec(&self, other: &Self) -> Option<Ordering> {
        order_from(self@.precedes(other@), other@.precedes(self@))
    }
}

impl PartialOrd for PoseidonError {
    /// The place of `self` relative to `other` in the strict order of the views.
    fn partial_cmp(&self, other: &Self) -> (r: Option<Ordering>) {
        order_from_value(self.precedes(other), other.precedes(self))
    }
}

// What `from` gives is stated on `from` itself, over the view of the result: the
// result holds a text or a list that is made anew, which no expression here can name.
impl FromSpecImpl<hex::FromHexError> for PoseidonError {
    open spec fn obeys_from_spec() -> bool {
        false
    }

    open spec fn from_spec(native: hex::FromHexError) -> Self {
        arbitrary()
    }
}

impl From<hex::FromHexError> for PoseidonError {
    /// The unified error that stands for an error of hexadecimal decoding.
    fn from(native: hex::FromHexError) -> (r: Self)
        ensures
            r@ == PoseidonErrorView::of_hex(native),
    {
        match native {
            hex::FromHexError::InvalidHexCharacter { c, index } => {
                PoseidonError::InvalidHexCharacter { c: char_text(c), index }
            },
            hex::FromHexError::OddLength => PoseidonError::OddLength,
            hex::FromHexError::InvalidStringLength => PoseidonError::InvalidStringLength,
        }
    }
}

// What `from` gives is stated on `from` itself, over the view of the result: the
// result holds a text or a list that is made anew, which no expression here can name.
impl FromSpecImpl<std::io::Error> for PoseidonError {
    open spec fn obeys_from_spec() -> bool {
        false
    }

    open spec fn from_spec(native: std::io::Error) -> Self {
        arbitrary()
    }
}

impl From<std::io::Error> for PoseidonError {
    /// The unified error that stands for an I/O error.
    fn from(native: std::io::Error) -> (r: Self)
        ensures
            r@.is_translation_of_io(native),
    {
        PoseidonError::IoErr(PoseidonErrorKind::from(native))
    }
}

// What `from` gives is stated on `from` itself, over the view of the result: the
// result holds a text or a list that is made anew, which no expression here can name.
impl FromSpecImpl<serde_json::Error> for PoseidonError {
    open spec fn obeys_from_spec() -> bool {
        false
    }

    open spec fn from_spec(native: serde_json::Error) -> Self {
        arbitrary()
    }
}

impl From<serde_json::Error> for PoseidonError {
    /// The unified error that stands for an error of the JSON parser.
    fn from(native: serde_json::Error) -> (r: Self)
        ensures
            r@.is_translation_of_json(native),
    {
        PoseidonError::SerdeJson(native.to_string())
    }
}

// What `from` gives is stated on `from` itself, over the view of the result: the
// result holds a text or a list that is made anew, which no expression here can name.
impl FromSpecImpl<rustls::Error> for PoseidonError {
    open spec fn obeys_from_spec() -> bool {
        false
    }

    open spec fn from_spec(native: rustls::Error) -> Self {
        arbitrary()
    }
}

impl From<rustls::Error> for PoseidonError {
    /// The unified error that stands for a native error of the secure
    /// channel.
    fn from(native: rustls::Error) -> (r: Self)
        ensures
            r@ == PoseidonErrorView::of_tls(native),
    {
        PoseidonError::Rustls(RustlsError::from(native))
    }
}

/// No error comes before itself.
pub proof fn error_order_irreflexive(a: PoseidonErrorView)
    ensures
        !a.precedes(a),
{
    match a {
        PoseidonErrorView::InvalidUtf8(x0) => {
            text_irreflexive(x0);
        },
        PoseidonErrorView::IoErr(x0) => {
            io_order_irreflexive(x0);
        },
        PoseidonErrorView::InvalidHexCharacter { c: x0, index: _ } => {
            text_irreflexive(x0);
        },
        PoseidonErrorView::SledCollectionNotFound(x0) => {
            text_irreflexive(x0);
        },
        PoseidonErrorView::SledUnsupported(x0) => {
            text_irreflexive(x0);
        },
        PoseidonErrorView::SledReportableBug(x0) => {
            text_irreflexive(x0);
        },
        PoseidonErrorView::SledCorruption(x0) => {
            text_irreflexive(x0);
        },
        PoseidonErrorView::Rustls(x0) => {
            tls_order_irreflexive(x0);
        },
        PoseidonErrorView::Http(x0) => {
            http_order_irreflexive(x0);
        },
        PoseidonErrorView::Json(x0) => {
            json_order_irreflexive(x0);
        },
        PoseidonErrorView::SerdeJson(x0) => {
            text_irreflexive(x0);
        },
        PoseidonErrorView::Unspecified(x0) => {
            text_irreflexive(x0);
        },
        _ => {},
    }
}

/// If one error comes before a second, and that before a third, then the
/// first comes before the third.
pub proof fn error_order_transitive(
    a: PoseidonErrorView,
    b: PoseidonErrorView,
    c: PoseidonErrorView,
)
    requires
        a.precedes(b),
        b.precedes(c),
    ensures
        a.precedes(c),
{
    match (a, b, c) {
        (
            PoseidonErrorView::InvalidUtf8(a0),
            PoseidonErrorView::InvalidUtf8(b0),
            PoseidonErrorView::InvalidUtf8(c0),
        ) => {
            text_transitive(a0, b0, c0);
        },
        (
            PoseidonErrorView::IoErr(a0),
            PoseidonErrorView::IoErr(b0),
            PoseidonErrorView::IoErr(c0),
        ) => {
            io_order_transitive(a0, b0, c0);
        },
        (
            PoseidonErrorView::InvalidHexCharacter { c: a0, index: _ },
            PoseidonErrorView::InvalidHexCharacter { c: b0, index: _ },
            PoseidonErrorView::InvalidHexCharacter { c: c0, index: _ },
        ) => {
            if text_precedes(a0, b0) && text_precedes(b0, c0) {
                text_transitive(a0, b0, c0);
            }
        },
        (
            PoseidonErrorView::SledCollectionNotFound(a0),
            PoseidonErrorView::SledCollectionNotFound(b0),
            PoseidonErrorView::SledCollectionNotFound(c0),
        ) => {
            text_transitive(a0, b0, c0);
        },
        (
            PoseidonErrorView::SledUnsupported(a0),
            PoseidonErrorView::SledUnsupported(b0),
            PoseidonErrorView::SledUnsupported(c0),
        ) => {
            text_transitive(a0, b0, c0);
        },
        (
            PoseidonErrorView::SledReportableBug(a0),
            PoseidonErrorView::SledReportableBug(b0),
            PoseidonErrorView::SledReportableBug(c0),
        ) => {
            text_transitive(a0, b0, c0);
        },
        (
            PoseidonErrorView::SledCorruption(a0),
            PoseidonErrorView::SledCorruption(b0),
            PoseidonErrorView::SledCorruption(c0),
        ) => {
            text_transitive(a0, b0, c0);
        },
        (
            PoseidonErrorView::Rustls(a0),
            PoseidonErrorView::Rustls(b0),
            PoseidonErrorView::Rustls(c0),
        ) => {
            tls_order_transitive(a0, b0, c0);
        },
        (
            PoseidonErrorView::Http(a0),
            PoseidonErrorView::Http(b0),
            PoseidonErrorView::Http(c0),
        ) => {
            http_order_transitive(a0, b0, c0);
        },
        (
            PoseidonErrorView::Json(a0),
            PoseidonErrorView::Json(b0),
            PoseidonErrorView::Json(c0),
        ) => {
            json_order_transitive(a0, b0, c0);
        },
        (
            PoseidonErrorView::SerdeJson(a0),
            PoseidonErrorView::SerdeJson(b0),
            PoseidonErrorView::SerdeJson(c0),
        ) => {
            text_transitive(a0, b0, c0);
        },
        (
            PoseidonErrorView::Unspecified(a0),
            PoseidonErrorView::Unspecified(b0),
            PoseidonErrorView::Unspecified(c0),
        ) => {
            text_transitive(a0, b0, c0);
        },
        _ => {},
    }
}

/// Of two different errors one comes before the other.
pub proof fn error_order_connected(a: PoseidonErrorView, b: PoseidonErrorView)
    requires
        a != b,
    ensures
        a.precedes(b) || b.precedes(a),
{
    match (a, b) {
        (PoseidonErrorView::InvalidUtf8(a0), PoseidonErrorView::InvalidUtf8(b0)) => {
            if a0 != b0 {
                text_connected(a0, b0);
            }
        },
        (PoseidonErrorView::IoErr(a0), PoseidonErrorView::IoErr(b0)) => {
            if a0 != b0 {
                io_order_connected(a0, b0);
            }
        },
        (
            PoseidonErrorView::InvalidHexCharacter { c: a0, index: _ },
            PoseidonErrorView::InvalidHexCharacter { c: b0, index: _ },
        ) => {
            if a0 != b0 {
                text_connected(a0, b0);
            }
        },
        (
            PoseidonErrorView::SledCollectionNotFound(a0),
            PoseidonErrorView::SledCollectionNotFound(b0),
        ) => {
            if a0 != b0 {
                text_connected(a0, b0);
            }
        },
        (PoseidonErrorView::SledUnsupported(a0), PoseidonErrorView::SledUnsupported(b0)) => {
            if a0 != b0 {
                text_connected(a0, b0);
            }
        },
        (PoseidonErrorView::SledReportableBug(a0), PoseidonErrorView::SledReportableBug(b0)) => {
            if a0 != b0 {
                text_connected(a0, b0);
            }
        },
        (PoseidonErrorView::SledCorruption(a0), PoseidonErrorView::SledCorruption(b0)) => {
            if a0 != b0 {
                text_connected(a0, b0);
            }
        },
        (PoseidonErrorView::Rustls(a0), PoseidonErrorView::Rustls(b0)) => {
            if a0 != b0 {
                tls_order_connected(a0, b0);
            }
        },
        (PoseidonErrorView::Http(a0), PoseidonErrorView::Http(b0)) => {
            if a0 != b0 {
                http_order_connected(a0, b0);
            }
        },
        (PoseidonErrorView::Json(a0), PoseidonErrorView::Json(b0)) => {
            if a0 != b0 {
                json_order_connected(a0, b0);
            }
        },
        (PoseidonErrorView::SerdeJson(a0), PoseidonErrorView::SerdeJson(b0)) => {
            if a0 != b0 {
                text_connected(a0, b0);
            }
        },
        (PoseidonErrorView::Unspecified(a0), PoseidonErrorView::Unspecified(b0)) => {
            if a0 != b0 {
                text_connected(a0, b0);
            }
        },
        _ => {},
    }
}

/// Two errors of hexadecimal decoding with the same translation are the
/// same: no variant shares its target with another, and the character and
/// the index can be read back.
pub proof fn hex_translation_is_injective(a: hex::FromHexError, b: hex::FromHexError)
    requires
        PoseidonErrorView::of_hex(a) == PoseidonErrorView::of_hex(b),
    ensures
        a == b,
{
    match (a, b) {
        (
            hex::FromHexError::InvalidHexCharacter { c: x, index: _ },
            hex::FromHexError::InvalidHexCharacter { c: y, index: _ },
        ) => {
            assert(seq![x][0] == seq![y][0]);
        },
        _ => {},
    }
}

} // verus!
