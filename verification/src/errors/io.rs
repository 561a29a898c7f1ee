//! The I/O category: why an operation of the operating system failed.

use crate::order::{
    order_from, order_from_value, str_precedes, text_connected, text_irreflexive, text_precedes,
    text_transitive,
};
use std::cmp::Ordering;
use std::io::ErrorKind;
use vstd::prelude::*;
use vstd::std_specs::cmp::{PartialEqSpecImpl, PartialOrdSpecImpl};
use vstd::std_specs::convert::FromSpecImpl;
use vstd::string::{to_string_from_display_ensures, StringExecFns};

verus! {

// An I/O error is carried through, asked for its reason and displayed, never
// looked into.
#[verifier::external_type_specification]
#[verifier::external_body]
pub struct ExIoError(std::io::Error);

// The reasons are declared with their variants, as std defines them, so that
// the translation below is checked arm by arm.
#[verifier::external_type_specification]
pub struct ExIoErrorKind(std::io::ErrorKind);

/// The reason that an I/O error reports for itself.
pub uninterp spec fn io_error_kind(error: std::io::Error) -> ErrorKind;

/// `std::io::Error::kind` reports the reason of the error; it reads the
/// error and nothing else, so the same error always has the same reason.
pub assume_specification[ std::io::Error::kind ](error: &std::io::Error) -> (kind: ErrorKind)
    ensures
        kind == io_error_kind(*error),
;

/// Why an I/O operation failed.
#[derive(Debug, Eq, Ord)]
pub enum PoseidonErrorKind {
    NotFound,
    PermissionDenied,
    ConnectionRefused,
    ConnectionReset,
    NotConnected,
    ConnectionAborted,
    AddrInUse,
    AddrNotAvailable,
    AlreadyExists,
    WouldBlock,
    InvalidInput,
    InvalidData,
    BrokenPipe,
    TimedOut,
    WriteZero,
    Interrupted,
    Unsupported,
    UnexpectedEof,
    OutOfMemory,
    Other,
    /// A reason outside the list above, with the platform's description of it.
    Unspecified(String),
}

/// What a [`PoseidonErrorKind`] holds.
pub enum PoseidonErrorKindView {
    NotFound,
    PermissionDenied,
    ConnectionRefused,
    ConnectionReset,
    NotConnected,
    ConnectionAborted,
    AddrInUse,
    AddrNotAvailable,
    AlreadyExists,
    WouldBlock,
    InvalidInput,
    InvalidData,
    BrokenPipe,
    TimedOut,
    WriteZero,
    Interrupted,
    Unsupported,
    UnexpectedEof,
    OutOfMemory,
    Other,
    Unspecified(Seq<char>),
}

impl View for PoseidonErrorKind {
    type V = PoseidonErrorKindView;

    open spec fn view(&self) -> PoseidonErrorKindView {
        match *self {
            PoseidonErrorKind::NotFound => PoseidonErrorKindView::NotFound,
            PoseidonErrorKind::PermissionDenied => PoseidonErrorKindView::PermissionDenied,
            PoseidonErrorKind::ConnectionRefused => PoseidonErrorKindView::ConnectionRefused,
            PoseidonErrorKind::ConnectionReset => PoseidonErrorKindView::ConnectionReset,
            PoseidonErrorKind::NotConnected => PoseidonErrorKindView::NotConnected,
            PoseidonErrorKind::ConnectionAborted => PoseidonErrorKindView::ConnectionAborted,
            PoseidonErrorKind::AddrInUse => PoseidonErrorKindView::AddrInUse,
            PoseidonErrorKind::AddrNotAvailable => PoseidonErrorKindView::AddrNotAvailable,
            PoseidonErrorKind::AlreadyExists => PoseidonErrorKindView::AlreadyExists,
            PoseidonErrorKind::WouldBlock => PoseidonErrorKindView::WouldBlock,
            PoseidonErrorKind::InvalidInput => PoseidonErrorKindView::InvalidInput,
            PoseidonErrorKind::InvalidData => PoseidonErrorKindView::InvalidData,
            PoseidonErrorKind::BrokenPipe => PoseidonErrorKindView::BrokenPipe,
            PoseidonErrorKind::TimedOut => PoseidonErrorKindView::TimedOut,
            PoseidonErrorKind::WriteZero => PoseidonErrorKindView::WriteZero,
            PoseidonErrorKind::Interrupted => PoseidonErrorKindView::Interrupted,
            PoseidonErrorKind::Unsupported => PoseidonErrorKindView::Unsupported,
            PoseidonErrorKind::UnexpectedEof => PoseidonErrorKindView::UnexpectedEof,
            PoseidonErrorKind::OutOfMemory => PoseidonErrorKindView::OutOfMemory,
            PoseidonErrorKind::Other => PoseidonErrorKindView::Other,
            PoseidonErrorKind::Unspecified(text) => PoseidonErrorKindView::Unspecified(text@),
        }
    }
}

impl PoseidonErrorKindView {
    /// The place of the variant in the declaration, counted from 0.
    pub open spec fn rank(self) -> int {
        match self {
            PoseidonErrorKindView::NotFound => 0,
            PoseidonErrorKindView::PermissionDenied => 1,
            PoseidonErrorKindView::ConnectionRefused => 2,
            PoseidonErrorKindView::ConnectionReset => 3,
            PoseidonErrorKindView::NotConnected => 4,
            PoseidonErrorKindView::ConnectionAborted => 5,
            PoseidonErrorKindView::AddrInUse => 6,
            PoseidonErrorKindView::AddrNotAvailable => 7,
            PoseidonErrorKindView::AlreadyExists => 8,
            PoseidonErrorKindView::WouldBlock => 9,
            PoseidonErrorKindView::InvalidInput => 10,
            PoseidonErrorKindView::InvalidData => 11,
            PoseidonErrorKindView::BrokenPipe => 12,
            PoseidonErrorKindView::TimedOut => 13,
            PoseidonErrorKindView::WriteZero => 14,
            PoseidonErrorKindView::Interrupted => 15,
            PoseidonErrorKindView::Unsupported => 16,
            PoseidonErrorKindView::UnexpectedEof => 17,
            PoseidonErrorKindView::OutOfMemory => 18,
            PoseidonErrorKindView::Other => 19,
            PoseidonErrorKindView::Unspecified(_) => 20,
        }
    }

    /// The strict order: by place in the declaration, then by the text.
    pub open spec fn precedes(self, other: Self) -> bool {
        self.rank() < other.rank() || (self.rank() == other.rank() && match (self, other) {
            (
                PoseidonErrorKindView::Unspecified(a),
                PoseidonErrorKindView::Unspecified(b),
            ) => text_precedes(a, b),
            _ => false,
        })
    }

    /// The category of a reason that the list names; `None` for any other.
    pub open spec fn of_listed_kind(kind: ErrorKind) -> Option<Self> {
        match kind {
            ErrorKind::NotFound => Some(PoseidonErrorKindView::NotFound),
            ErrorKind::PermissionDenied => Some(PoseidonErrorKindView::PermissionDenied),
            ErrorKind::ConnectionRefused => Some(PoseidonErrorKindView::ConnectionRefused),
            ErrorKind::ConnectionReset => Some(PoseidonErrorKindView::ConnectionReset),
            ErrorKind::ConnectionAborted => Some(PoseidonErrorKindView::ConnectionAborted),
            ErrorKind::NotConnected => Some(PoseidonErrorKindView::NotConnected),
            ErrorKind::AddrInUse => Some(PoseidonErrorKindView::AddrInUse),
            ErrorKind::AddrNotAvailable => Some(PoseidonErrorKindView::AddrNotAvailable),
            ErrorKind::BrokenPipe => Some(PoseidonErrorKindView::BrokenPipe),
            ErrorKind::AlreadyExists => Some(PoseidonErrorKindView::AlreadyExists),
            ErrorKind::WouldBlock => Some(PoseidonErrorKindView::WouldBlock),
            ErrorKind::InvalidInput => Some(PoseidonErrorKindView::InvalidInput),
            ErrorKind::InvalidData => Some(PoseidonErrorKindView::InvalidData),
            ErrorKind::TimedOut => Some(PoseidonErrorKindView::TimedOut),
            ErrorKind::WriteZero => Some(PoseidonErrorKindView::WriteZero),
            ErrorKind::Interrupted => Some(PoseidonErrorKindView::Interrupted),
            ErrorKind::Unsupported => Some(PoseidonErrorKindView::Unsupported),
            ErrorKind::UnexpectedEof => Some(PoseidonErrorKindView::UnexpectedEof),
            ErrorKind::OutOfMemory => Some(PoseidonErrorKindView::OutOfMemory),
            ErrorKind::Other => Some(PoseidonErrorKindView::Other),
            _ => None,
        }
    }

    /// The diagnostic kept for a reason that the list does not name:
    /// the platform's description of the error between backticks, after a
    /// fixed prefix.
    pub open spec fn fallback_text(rendered: Seq<char>) -> Seq<char> {
        "std::io::Error - `"@ + rendered + "`"@
    }

    /// Whether `self` is what the I/O error becomes: the variant named
    /// like its reason where the list names it, else `Unspecified` with the
    /// diagnostic made from the text that the error displays.
    pub open spec fn is_translation_of(self, error: std::io::Error) -> bool {
        match Self::of_listed_kind(io_error_kind(error)) {
            Some(listed) => self == listed,
            None => exists|rendered: String|
                #![auto]
                to_string_from_display_ensures::<std::io::Error>(&error, rendered) && self
                    == PoseidonErrorKindView::Unspecified(Self::fallback_text(rendered@)),
        }
    }
}

impl PoseidonErrorKind {
    /// The place of the variant in the declaration, counted from 0.
    pub fn rank_value(&self) -> (r: u8)
        ensures
            r == self@.rank(),
    {
        match self {
            PoseidonErrorKind::NotFound => 0,
            PoseidonErrorKind::PermissionDenied => 1,
            PoseidonErrorKind::ConnectionRefused => 2,
            PoseidonErrorKind::ConnectionReset => 3,
            PoseidonErrorKind::NotConnected => 4,
            PoseidonErrorKind::ConnectionAborted => 5,
            PoseidonErrorKind::AddrInUse => 6,
            PoseidonErrorKind::AddrNotAvailable => 7,
            PoseidonErrorKind::AlreadyExists => 8,
            PoseidonErrorKind::WouldBlock => 9,
            PoseidonErrorKind::InvalidInput => 10,
            PoseidonErrorKind::InvalidData => 11,
            PoseidonErrorKind::BrokenPipe => 12,
            PoseidonErrorKind::TimedOut => 13,
            PoseidonErrorKind::WriteZero => 14,
            PoseidonErrorKind::Interrupted => 15,
            PoseidonErrorKind::Unsupported => 16,
            PoseidonErrorKind::UnexpectedEof => 17,
            PoseidonErrorKind::OutOfMemory => 18,
            PoseidonErrorKind::Other => 19,
            PoseidonErrorKind::Unspecified(_) => 20,
        }
    }

    /// Whether `self` comes strictly before `other`.
    pub fn precedes(&self, other: &Self) -> (r: bool)
        ensures
            r == self@.precedes(other@),
    {
        let a = self.rank_value();
        let b = other.rank_value();
        if a != b {
            a < b
        } else {
            match (self, other) {
                (PoseidonErrorKind::Unspecified(x), PoseidonErrorKind::Unspecified(y)) => {
                    str_precedes(x.as_str(), y.as_str())
                },
                _ => false,
            }
        }
    }

    /// The category of a reason that the list names; `None` for any other.
    pub fn listed(kind: ErrorKind) -> (r: Option<Self>)
        ensures
            match r {
                Some(category) => PoseidonErrorKindView::of_listed_kind(kind) == Some(category@),
                None => PoseidonErrorKindView::of_listed_kind(kind) is None,
            },
    {
        match kind {
            ErrorKind::NotFound => Some(PoseidonErrorKind::NotFound),
            ErrorKind::PermissionDenied => Some(PoseidonErrorKind::PermissionDenied),
            ErrorKind::ConnectionRefused => Some(PoseidonErrorKind::ConnectionRefused),
            ErrorKind::ConnectionReset => Some(PoseidonErrorKind::ConnectionReset),
            ErrorKind::ConnectionAborted => Some(PoseidonErrorKind::ConnectionAborted),
            ErrorKind::NotConnected => Some(PoseidonErrorKind::NotConnected),
            ErrorKind::AddrInUse => Some(PoseidonErrorKind::AddrInUse),
            ErrorKind::AddrNotAvailable => Some(PoseidonErrorKind::AddrNotAvailable),
            ErrorKind::BrokenPipe => Some(PoseidonErrorKind::BrokenPipe),
            ErrorKind::AlreadyExists => Some(PoseidonErrorKind::AlreadyExists),
            ErrorKind::WouldBlock => Some(PoseidonErrorKind::WouldBlock),
            ErrorKind::InvalidInput => Some(PoseidonErrorKind::InvalidInput),
            ErrorKind::InvalidData => Some(PoseidonErrorKind::InvalidData),
            ErrorKind::TimedOut => Some(PoseidonErrorKind::TimedOut),
            ErrorKind::WriteZero => Some(PoseidonErrorKind::WriteZero),
            ErrorKind::Interrupted => Some(PoseidonErrorKind::Interrupted),
            ErrorKind::Unsupported => Some(PoseidonErrorKind::Unsupported),
            ErrorKind::UnexpectedEof => Some(PoseidonErrorKind::UnexpectedEof),
            ErrorKind::OutOfMemory => Some(PoseidonErrorKind::OutOfMemory),
            ErrorKind::Other => Some(PoseidonErrorKind::Other),
            _ => None,
        }
    }

    /// The fallback for a reason that the list does not name, from the
    /// platform's description of the error. Its text is never empty.
    pub fn unlisted(rendered: &str) -> (r: Self)
        ensures
            r@ == PoseidonErrorKindView::Unspecified(
                PoseidonErrorKindView::fallback_text(rendered@),
            ),
            r@ matches PoseidonErrorKindView::Unspecified(text) && text.len() > 0,
    {
        let mut text = String::from_str("std::io::Error - `");
        text.append(rendered);
        text.append("`");
        proof {
            reveal_strlit("`");
        }
        PoseidonErrorKind::Unspecified(text)
    }
}

impl PartialEqSpecImpl for PoseidonErrorKind {
    open spec fn obeys_eq_spec() -> bool {
        true
    }

    open spec fn eq_spec(&self, other: &Self) -> bool {
        self@ == other@
    }
}

impl PartialEq for PoseidonErrorKind {
    fn eq(&self, other: &Self) -> (r: bool) {
        match (self, other) {
            (PoseidonErrorKind::Unspecified(x), PoseidonErrorKind::Unspecified(y)) => *x == *y,
            _ => self.rank_value() == other.rank_value(),
        }
    }
}

impl PartialOrdSpecImpl for PoseidonErrorKind {
    open spec fn obeys_partial_cmp_spec() -> bool {
        true
    }

    open spec fn partial_cmp_spec(&self, other: &Self) -> Option<Ordering> {
        order_from(self@.precedes(other@), other@.precedes(self@))
    }
}

impl PartialOrd for PoseidonErrorKind {
    fn partial_cmp(&self, other: &Self) -> (r: Option<Ordering>) {
        order_from_value(self.precedes(other), other.precedes(self))
    }
}

// What `from` gives is stated on `from` itself, over the view of the result: the
// result holds a text or a list that is made anew, which no expression here can name.
impl FromSpecImpl<std::io::Error> for PoseidonErrorKind {
    open spec fn obeys_from_spec() -> bool {
        false
    }

    open spec fn from_spec(error: std::io::Error) -> Self {
        arbitrary()
    }
}

impl From<std::io::Error> for PoseidonErrorKind {
    /// Classifies an I/O error by its reason. A reason that the list does
    /// not name is kept as `Unspecified`, with the platform's description.
    fn from(error: std::io::Error) -> (r: Self)
        ensures
            r@.is_translation_of(error),
            r@ matches PoseidonErrorKindView::Unspecified(text) ==> text.len() > 0,
    {
        match PoseidonErrorKind::listed(error.kind()) {
            Some(category) => category,
            None => {
                let rendered = error.to_string();
                PoseidonErrorKind::unlisted(rendered.as_str())
            },
        }
    }
}

/// No category comes before itself.
pub proof fn io_order_irreflexive(a: PoseidonErrorKindView)
    ensures
        !a.precedes(a),
{
    if let PoseidonErrorKindView::Unspecified(x) = a {
        text_irreflexive(x);
    }
}

/// The order of the categories is transitive.
pub proof fn io_order_transitive(
    a: PoseidonErrorKindView,
    b: PoseidonErrorKindView,
    c: PoseidonErrorKindView,
)
    requires
        a.precedes(b),
        b.precedes(c),
    ensures
        a.precedes(c),
{
    match (a, b, c) {
        (
            PoseidonErrorKindView::Unspecified(x),
            PoseidonErrorKindView::Unspecified(y),
            PoseidonErrorKindView::Unspecified(z),
        ) => {
            text_transitive(x, y, z);
        },
        _ => {},
    }
}

/// Of two different categories one comes before the other.
pub proof fn io_order_connected(a: PoseidonErrorKindView, b: PoseidonErrorKindView)
    requires
        a != b,
    ensures
        a.precedes(b) || b.precedes(a),
{
    match (a, b) {
        (PoseidonErrorKindView::Unspecified(x), PoseidonErrorKindView::Unspecified(y)) => {
            text_connected(x, y);
        },
        _ => {},
    }
}

/// Two reasons that the list names have different categories: no variant
/// stands for two of them.
pub proof fn io_translation_keeps_listed_kinds_apart(a: ErrorKind, b: ErrorKind)
    requires
        PoseidonErrorKindView::of_listed_kind(a) is Some,
        PoseidonErrorKindView::of_listed_kind(a) == PoseidonErrorKindView::of_listed_kind(b),
    ensures
        a == b,
{
}

/// Whatever the reason and whatever the platform says of the error, the
/// diagnostic of the fallback is not empty.
pub proof fn io_fallback_is_never_empty(rendered: Seq<char>)
    ensures
        PoseidonErrorKindView::fallback_text(rendered).len() > 0,
{
    reveal_strlit("`");
}

} // verus!
