//! The transport category: failures of an HTTP exchange, and the error
//! object that a remote side reports.

use crate::errors::common::{PoseidonError, PoseidonErrorView};
use crate::errors::io::{io_error_kind, PoseidonErrorKind, PoseidonErrorKindView};
use crate::errors::ssl::{RustlsError, RustlsErrorView};
use crate::order::{
    order_from, order_from_value, str_precedes, text_connected, text_irreflexive, text_precedes,
    text_transitive,
};
use std::cmp::Ordering;
use vstd::prelude::*;
use vstd::std_specs::cmp::{PartialEqSpecImpl, PartialOrdSpecImpl};
use vstd::std_specs::convert::FromSpecImpl;

verus! {

// An error of UTF-8 validation is carried through and rendered, never looked
// into.
#[verifier::external_type_specification]
#[verifier::external_body]
pub struct ExUtf8Error(core::str::Utf8Error);

// Declared with its variants, as the crate defines them, so that the
// translation below is checked arm by arm.
#[verifier::external_type_specification]
pub struct ExMinreqError(minreq::Error);

/// What the debug rendering of a UTF-8 error reads.
pub uninterp spec fn utf8_error_rendering(error: core::str::Utf8Error) -> Seq<char>;

/// The debug rendering of a `Utf8Error`, made by `format!`: it reads the two
/// numbers that the error holds and nothing else, so the same error always
/// renders the same.
#[verifier::external_body]
fn utf8_error_text(error: &core::str::Utf8Error) -> (text: String)
    ensures
        text@ == utf8_error_rendering(*error),
{
    format!("{:?}", error)
}

/// An error as a remote side reports it: a code and a message.
#[derive(Debug, Eq, Ord)]
pub struct JsonError {
    pub code: i16,
    pub message: String,
}

/// What a [`JsonError`] holds.
pub struct JsonErrorView {
    pub code: i16,
    pub message: Seq<char>,
}

impl View for JsonError {
    type V = JsonErrorView;

    open spec fn view(&self) -> JsonErrorView {
        JsonErrorView { code: self.code, message: self.message@ }
    }
}

impl JsonErrorView {
    /// The strict order: by the code, then by the message.
    pub open spec fn precedes(self, other: Self) -> bool {
        self.code < other.code || (self.code == other.code && text_precedes(
            self.message,
            other.message,
        ))
    }
}

impl JsonError {
    /// Whether `self` comes strictly before `other`.
    pub fn precedes(&self, other: &Self) -> (r: bool)
        ensures
            r == self@.precedes(other@),
    {
        if self.code != other.code {
            self.code < other.code
        } else {
            str_precedes(self.message.as_str(), other.message.as_str())
        }
    }
}

impl PartialEqSpecImpl for JsonError {
    open spec fn obeys_eq_spec() -> bool {
        true
    }

    open spec fn eq_spec(&self, other: &Self) -> bool {
        self@ == other@
    }
}

impl PartialEq for JsonError {
    /// Whether the two hold the same code and the same message.
    fn eq(&self, other: &Self) -> (r: bool) {
        self.code == other.code && self.message == other.message
    }
}

impl PartialOrdSpecImpl for JsonError {
    open spec fn obeys_partial_cmp_spec() -> bool {
        true
    }

    open spec fn partial_cmp_spec(&self, other: &Self) -> Option<Ordering> {
        order_from(self@.precedes(other@), other@.precedes(self@))
    }
}

impl PartialOrd for JsonError {
    /// The place of `self` relative to `other` in the strict order of the views.
    fn partial_cmp(&self, other: &Self) -> (r: Option<Ordering>) {
        order_from_value(self.precedes(other), other.precedes(self))
    }
}

/// No reported error comes before itself.
pub proof fn json_order_irreflexive(a: JsonErrorView)
    ensures
        !a.precedes(a),
{
    text_irreflexive(a.message);
}

/// If one reported error comes before a second, and that before a third,
/// then the first comes before the third.
pub proof fn json_order_transitive(a: JsonErrorView, b: JsonErrorView, c: JsonErrorView)
    requires
        a.precedes(b),
        b.precedes(c),
    ensures
        a.precedes(c),
{
    if text_precedes(a.message, b.message) && text_precedes(b.message, c.message) {
        text_transitive(a.message, b.message, c.message);
    }
}

/// Of two different reported errors one comes before the other.
pub proof fn json_order_connected(a: JsonErrorView, b: JsonErrorView)
    requires
        a != b,
    ensures
        a.precedes(b) || b.precedes(a),
{
    if a.message != b.message {
        text_connected(a.message, b.message);
    }
}

/// The transport category: why an HTTP exchange failed.
#[derive(Debug, Eq, Ord)]
pub enum HttpError {
    MalformedChunkLength,
    MalformedChunkEnd,
    MalformedContentLength,
    HeadersOverflow,
    StatusLineOverflow,
    AddressNotFound,
    RedirectLocationMissing,
    InfiniteRedirectionLoop,
    TooManyRedirections,
    InvalidUtf8InResponse,
    PunycodeConversionFailed,
    HttpsFeatureNotEnabled,
    PunycodeFeatureNotEnabled,
    BadProxy,
    BadProxyCreds,
    ProxyConnect,
    InvalidProxyCreds,
    /// A failure that the transport could only describe.
    Other(String),
}

/// What a [`HttpError`] holds: its texts as sequences of characters, its lists as
/// sequences.
pub enum HttpErrorView {
    MalformedChunkLength,
    MalformedChunkEnd,
    MalformedContentLength,
    HeadersOverflow,
    StatusLineOverflow,
    AddressNotFound,
    RedirectLocationMissing,
    InfiniteRedirectionLoop,
    TooManyRedirections,
    InvalidUtf8InResponse,
    PunycodeConversionFailed,
    HttpsFeatureNotEnabled,
    PunycodeFeatureNotEnabled,
    BadProxy,
    BadProxyCreds,
    ProxyConnect,
    InvalidProxyCreds,
    Other(Seq<char>),
}

impl View for HttpError {
    type V = HttpErrorView;

    open spec fn view(&self) -> HttpErrorView {
        match *self {
            HttpError::MalformedChunkLength => HttpErrorView::MalformedChunkLength,
            HttpError::MalformedChunkEnd => HttpErrorView::MalformedChunkEnd,
            HttpError::MalformedContentLength => HttpErrorView::MalformedContentLength,
            HttpError::HeadersOverflow => HttpErrorView::HeadersOverflow,
            HttpError::StatusLineOverflow => HttpErrorView::StatusLineOverflow,
            HttpError::AddressNotFound => HttpErrorView::AddressNotFound,
            HttpError::RedirectLocationMissing => HttpErrorView::RedirectLocationMissing,
            HttpError::InfiniteRedirectionLoop => HttpErrorView::InfiniteRedirectionLoop,
            HttpError::TooManyRedirections => HttpErrorView::TooManyRedirections,
            HttpError::InvalidUtf8InResponse => HttpErrorView::InvalidUtf8InResponse,
            HttpError::PunycodeConversionFailed => HttpErrorView::PunycodeConversionFailed,
            HttpError::HttpsFeatureNotEnabled => HttpErrorView::HttpsFeatureNotEnabled,
            HttpError::PunycodeFeatureNotEnabled => HttpErrorView::PunycodeFeatureNotEnabled,
            HttpError::BadProxy => HttpErrorView::BadProxy,
            HttpError::BadProxyCreds => HttpErrorView::BadProxyCreds,
            HttpError::ProxyConnect => HttpErrorView::ProxyConnect,
            HttpError::InvalidProxyCreds => HttpErrorView::InvalidProxyCreds,
            HttpError::Other(x0) => HttpErrorView::Other(x0@),
        }
    }
}

impl HttpErrorView {
    /// The place of the variant in the declaration, counted from 0.
    pub open spec fn rank(self) -> int {
        match self {
            HttpErrorView::MalformedChunkLength => 0,
            HttpErrorView::MalformedChunkEnd => 1,
            HttpErrorView::MalformedContentLength => 2,
            HttpErrorView::HeadersOverflow => 3,
            HttpErrorView::StatusLineOverflow => 4,
            HttpErrorView::AddressNotFound => 5,
            HttpErrorView::RedirectLocationMissing => 6,
            HttpErrorView::InfiniteRedirectionLoop => 7,
            HttpErrorView::TooManyRedirections => 8,
            HttpErrorView::InvalidUtf8InResponse => 9,
            HttpErrorView::PunycodeConversionFailed => 10,
            HttpErrorView::HttpsFeatureNotEnabled => 11,
            HttpErrorView::PunycodeFeatureNotEnabled => 12,
            HttpErrorView::BadProxy => 13,
            HttpErrorView::BadProxyCreds => 14,
            HttpErrorView::ProxyConnect => 15,
            HttpErrorView::InvalidProxyCreds => 16,
            HttpErrorView::Other(_) => 17,
        }
    }

    /// The strict order: by place in the declaration, then by the text.
    pub open spec fn precedes(self, other: Self) -> bool {
        self.rank() < other.rank() || (self.rank() == other.rank() && match (self, other) {
            (HttpErrorView::Other(a), HttpErrorView::Other(b)) => text_precedes(a, b),
            _ => false,
        })
    }
}

impl HttpError {
    /// The place of the variant in the declaration, counted from 0.
    pub fn rank_value(&self) -> (r: u8)
        ensures
            r == self@.rank(),
    {
        match self {
            HttpError::MalformedChunkLength => 0,
            HttpError::MalformedChunkEnd => 1,
            HttpError::MalformedContentLength => 2,
            HttpError::HeadersOverflow => 3,
            HttpError::StatusLineOverflow => 4,
            HttpError::AddressNotFound => 5,
            HttpError::RedirectLocationMissing => 6,
            HttpError::InfiniteRedirectionLoop => 7,
            HttpError::TooManyRedirections => 8,
            HttpError::InvalidUtf8InResponse => 9,
            HttpError::PunycodeConversionFailed => 10,
            HttpError::HttpsFeatureNotEnabled => 11,
            HttpError::PunycodeFeatureNotEnabled => 12,
            HttpError::BadProxy => 13,
            HttpError::BadProxyCreds => 14,
            HttpError::ProxyConnect => 15,
            HttpError::InvalidProxyCreds => 16,
            HttpError::Other(_) => 17,
        }
    }

    /// Whether `self` comes strictly before `other`.
    pub fn precedes(&self, other: &Self) -> (r: bool)
        ensures
            r == self@.precedes(other@),
    {
        let a = self.rank_value();
        let b = other.rank_value();
        if a != b {
            a < b
        } else {
            match (self, other) {
                (HttpError::Other(x), HttpError::Other(y)) => {
                    str_precedes(x.as_str(), y.as_str())
                },
                _ => false,
            }
        }
    }
}

impl PartialEqSpecImpl for HttpError {
    open spec fn obeys_eq_spec() -> bool {
        true
    }

    open spec fn eq_spec(&self, other: &Self) -> bool {
        self@ == other@
    }
}

impl PartialEq for HttpError {
    /// Whether the two hold the same: the same variant with the same contents.
    fn eq(&self, other: &Self) -> (r: bool) {
        match (self, other) {
            (HttpError::Other(x), HttpError::Other(y)) => *x == *y,
            _ => self.rank_value() == other.rank_value(),
        }
    }
}

impl PartialOrdSpecImpl for HttpError {
    open spec fn obeys_partial_cmp_spec() -> bool {
        true
    }

    open spec fn partial_cmp_spec(&self, other: &Self) -> Option<Ordering> {
        order_from(self@.precedes(other@), other@.precedes(self@))
    }
}

impl PartialOrd for HttpError {
    /// The place of `self` relative to `other` in the strict order of the views.
    fn partial_cmp(&self, other: &Self) -> (r: Option<Ordering>) {
        order_from_value(self.precedes(other), other.precedes(self))
    }
}

/// No failure comes before itself.
pub proof fn http_order_irreflexive(a: HttpErrorView)
    ensures
        !a.precedes(a),
{
    match a {
        HttpErrorView::Other(x0) => {
            text_irreflexive(x0);
        },
        _ => {},
    }
}

/// If one failure comes before a second, and that before a third, then the
/// first comes before the third.
pub proof fn http_order_transitive(
    a: HttpErrorView,
    b: HttpErrorView,
    c: HttpErrorView,
)
    requires
        a.precedes(b),
        b.precedes(c),
    ensures
        a.precedes(c),
{
    match (a, b, c) {
        (
            HttpErrorView::Other(a0),
            HttpErrorView::Other(b0),
            HttpErrorView::Other(c0),
        ) => {
            text_transitive(a0, b0, c0);
        },
        _ => {},
    }
}

/// Of two different failures one comes before the other.
pub proof fn http_order_connected(a: HttpErrorView, b: HttpErrorView)
    requires
        a != b,
    ensures
        a.precedes(b) || b.precedes(a),
{
    match (a, b) {
        (HttpErrorView::Other(a0), HttpErrorView::Other(b0)) => {
            if a0 != b0 {
                text_connected(a0, b0);
            }
        },
        _ => {},
    }
}

/// The place of the variant of a native transport error in its declaration,
/// counted from 0.
pub open spec fn transport_variant(native: minreq::Error) -> int {
    match native {
        minreq::Error::InvalidUtf8InBody(_) => 0,
        minreq::Error::RustlsCreateConnection(_) => 1,
        minreq::Error::IoError(_) => 2,
        minreq::Error::MalformedChunkLength => 3,
        minreq::Error::MalformedChunkEnd => 4,
        minreq::Error::MalformedContentLength => 5,
        minreq::Error::HeadersOverflow => 6,
        minreq::Error::StatusLineOverflow => 7,
        minreq::Error::AddressNotFound => 8,
        minreq::Error::RedirectLocationMissing => 9,
        minreq::Error::InfiniteRedirectionLoop => 10,
        minreq::Error::TooManyRedirections => 11,
        minreq::Error::InvalidUtf8InResponse => 12,
        minreq::Error::PunycodeConversionFailed => 13,
        minreq::Error::HttpsFeatureNotEnabled => 14,
        minreq::Error::PunycodeFeatureNotEnabled => 15,
        minreq::Error::BadProxy => 16,
        minreq::Error::BadProxyCreds => 17,
        minreq::Error::ProxyConnect => 18,
        minreq::Error::InvalidProxyCreds => 19,
        minreq::Error::Other(_) => 20,
    }
}

impl PoseidonErrorView {
    /// Whether `self` is what the native transport error becomes: a
    /// failure of the transport itself goes to the variant of the same name
    /// in the transport category, an I/O failure to the I/O category, a
    /// failure of the secure channel to its category, and a body that is not
    /// UTF-8 to `InvalidUtf8` with the rendering of the native error.
    pub open spec fn is_translation_of_transport(self, native: minreq::Error) -> bool {
        match native {
            minreq::Error::InvalidUtf8InBody(inner) => self == PoseidonErrorView::InvalidUtf8(
                utf8_error_rendering(inner),
            ),
            minreq::Error::RustlsCreateConnection(inner) => self == PoseidonErrorView::Rustls(
                RustlsErrorView::of_native(inner),
            ),
            minreq::Error::IoError(inner) => self matches PoseidonErrorView::IoErr(kind)
                && kind.is_translation_of(inner),
            minreq::Error::MalformedChunkLength => self == PoseidonErrorView::Http(
                HttpErrorView::MalformedChunkLength,
            ),
            minreq::Error::MalformedChunkEnd => self == PoseidonErrorView::Http(
                HttpErrorView::MalformedChunkEnd,
            ),
            minreq::Error::MalformedContentLength => self == PoseidonErrorView::Http(
                HttpErrorView::MalformedContentLength,
            ),
            minreq::Error::HeadersOverflow => self == PoseidonErrorView::Http(
                HttpErrorView::HeadersOverflow,
            ),
            minreq::Error::StatusLineOverflow => self == PoseidonErrorView::Http(
                HttpErrorView::StatusLineOverflow,
            ),
            minreq::Error::AddressNotFound => self == PoseidonErrorView::Http(
                HttpErrorView::AddressNotFound,
            ),
            minreq::Error::RedirectLocationMissing => self == PoseidonErrorView::Http(
                HttpErrorView::RedirectLocationMissing,
            ),
            minreq::Error::InfiniteRedirectionLoop => self == PoseidonErrorView::Http(
                HttpErrorView::InfiniteRedirectionLoop,
            ),
            minreq::Error::TooManyRedirections => self == PoseidonErrorView::Http(
                HttpErrorView::TooManyRedirections,
            ),
            minreq::Error::InvalidUtf8InResponse => self == PoseidonErrorView::Http(
                HttpErrorView::InvalidUtf8InResponse,
            ),
            minreq::Error::PunycodeConversionFailed => self == PoseidonErrorView::Http(
                HttpErrorView::PunycodeConversionFailed,
            ),
            minreq::Error::HttpsFeatureNotEnabled => self == PoseidonErrorView::Http(
                HttpErrorView::HttpsFeatureNotEnabled,
            ),
            minreq::Error::PunycodeFeatureNotEnabled => self == PoseidonErrorView::Http(
                HttpErrorView::PunycodeFeatureNotEnabled,
            ),
            minreq::Error::BadProxy => self == PoseidonErrorView::Http(HttpErrorView::BadProxy),
            minreq::Error::BadProxyCreds => self == PoseidonErrorView::Http(
                HttpErrorView::BadProxyCreds,
            ),
            minreq::Error::ProxyConnect => self == PoseidonErrorView::Http(
                HttpErrorView::ProxyConnect,
            ),
            minreq::Error::InvalidProxyCreds => self == PoseidonErrorView::Http(
                HttpErrorView::InvalidProxyCreds,
            ),
            minreq::Error::Other(text) => {
                self == PoseidonErrorView::Http(HttpErrorView::Other(text@))
            },
        }
    }
}

// What `from` gives is stated on `from` itself, over the view of the result: the
// result holds a text or a list that is made anew, which no expression here can name.
impl FromSpecImpl<minreq::Error> for PoseidonError {
    open spec fn obeys_from_spec() -> bool {
        false
    }

    open spec fn from_spec(native: minreq::Error) -> Self {
        arbitrary()
    }
}

impl From<minreq::Error> for PoseidonError {
    /// The unified error that stands for a native transport error.
    fn from(native: minreq::Error) -> (r: Self)
        ensures
            r@.is_translation_of_transport(native),
    {
        match native {
            minreq::Error::InvalidUtf8InBody(inner) => {
                PoseidonError::InvalidUtf8(utf8_error_text(&inner))
            },
            minreq::Error::RustlsCreateConnection(inner) => {
                PoseidonError::Rustls(RustlsError::from(inner))
            },
            minreq::Error::IoError(inner) => PoseidonError::IoErr(PoseidonErrorKind::from(inner)),
            minreq::Error::MalformedChunkLength => {
                PoseidonError::Http(HttpError::MalformedChunkLength)
            },
            minreq::Error::MalformedChunkEnd => PoseidonError::Http(HttpError::MalformedChunkEnd),
            minreq::Error::MalformedContentLength => {
                PoseidonError::Http(HttpError::MalformedContentLength)
            },
            minreq::Error::HeadersOverflow => PoseidonError::Http(HttpError::HeadersOverflow),
            minreq::Error::StatusLineOverflow => PoseidonError::Http(HttpError::StatusLineOverflow),
            minreq::Error::AddressNotFound => PoseidonError::Http(HttpError::AddressNotFound),
            minreq::Error::RedirectLocationMissing => {
                PoseidonError::Http(HttpError::RedirectLocationMissing)
            },
            minreq::Error::InfiniteRedirectionLoop => {
                PoseidonError::Http(HttpError::InfiniteRedirectionLoop)
            },
            minreq::Error::TooManyRedirections => {
                PoseidonError::Http(HttpError::TooManyRedirections)
            },
            minreq::Error::InvalidUtf8InResponse => {
                PoseidonError::Http(HttpError::InvalidUtf8InResponse)
            },
            minreq::Error::PunycodeConversionFailed => {
                PoseidonError::Http(HttpError::PunycodeConversionFailed)
            },
            minreq::Error::HttpsFeatureNotEnabled => {
                PoseidonError::Http(HttpError::HttpsFeatureNotEnabled)
            },
            minreq::Error::PunycodeFeatureNotEnabled => {
                PoseidonError::Http(HttpError::PunycodeFeatureNotEnabled)
            },
            minreq::Error::BadProxy => PoseidonError::Http(HttpError::BadProxy),
            minreq::Error::BadProxyCreds => PoseidonError::Http(HttpError::BadProxyCreds),
            minreq::Error::ProxyConnect => PoseidonError::Http(HttpError::ProxyConnect),
            minreq::Error::InvalidProxyCreds => PoseidonError::Http(HttpError::InvalidProxyCreds),
            minreq::Error::Other(text) => PoseidonError::Http(HttpError::Other(text.to_owned())),
        }
    }
}

/// Two native transport errors of different variants never become unified
/// errors of the same variant and category: the result tells the variant
/// of the source.
pub proof fn transport_translation_keeps_variants_apart(
    a: minreq::Error,
    b: minreq::Error,
    x: PoseidonErrorView,
    y: PoseidonErrorView,
)
    requires
        x.is_translation_of_transport(a),
        y.is_translation_of_transport(b),
        x.discriminant() == y.discriminant(),
    ensures
        transport_variant(a) == transport_variant(b),
{
}

/// Two native transport errors of the same variant become unified errors of
/// the same variant; but for the two variants that wrap an error of
/// another domain, they have the same place in their category too.
pub proof fn transport_translation_is_determined(
    a: minreq::Error,
    b: minreq::Error,
    x: PoseidonErrorView,
    y: PoseidonErrorView,
)
    requires
        x.is_translation_of_transport(a),
        y.is_translation_of_transport(b),
        transport_variant(a) == transport_variant(b),
    ensures
        x.rank() == y.rank(),
        !(a is IoError) && !(a is RustlsCreateConnection) ==> x.discriminant() == y.discriminant(),
{
}

} // verus!
