//! The translation of the errors of the embedded store.

use crate::errors::common::{PoseidonError, PoseidonErrorView};
use crate::errors::io::PoseidonErrorKind;
use crate::text::text_from_utf8;
use vstd::prelude::*;
use vstd::std_specs::convert::FromSpecImpl;
use vstd::utf8::{decode_utf8, encode_utf8_decode_utf8, valid_utf8};

verus! {

// A native error of the store holds a byte string of the store, which is
// not declared here: the error is taken apart by `store_fault` below.
#[verifier::external_type_specification]
#[verifier::external_body]
pub struct ExSledError(sled::Error);

// Declared with its variants, as the crate defines them: a location is two
// plain numbers at most.
#[verifier::external_type_specification]
pub struct ExDiskPtr(sled::DiskPtr);

/// What a native error of the store holds, in plain values: the name of a
/// collection as bytes, the texts as they are, the location of a
/// corruption, the I/O error untouched.
#[derive(Debug)]
pub enum StoreFault {
    /// The collection of this name no longer exists.
    CollectionNotFound(Vec<u8>),
    /// The store was used in a way that it does not support.
    Unsupported(String),
    /// The store met a bug of its own.
    ReportableBug(String),
    /// Reading or writing the file system failed.
    Io(std::io::Error),
    /// The store found its file corrupted at this location, if it knows one.
    Corruption(Option<sled::DiskPtr>),
}

/// What a native error of the store holds.
pub uninterp spec fn store_fault_of(native: sled::Error) -> StoreFault;

/// Takes a native error of the store apart, variant by variant, moving each
/// field. The name of a collection is a byte string of the store, which
/// `to_vec` copies out byte by byte; of a corruption only the location is
/// kept, as the native error has nothing else to tell.
#[verifier::external_body]
fn store_fault(native: sled::Error) -> (fault: StoreFault)
    ensures
        fault == store_fault_of(native),
{
    match native {
        sled::Error::CollectionNotFound(name) => StoreFault::CollectionNotFound(name.to_vec()),
        sled::Error::Unsupported(text) => StoreFault::Unsupported(text),
        sled::Error::ReportableBug(text) => StoreFault::ReportableBug(text),
        sled::Error::Io(inner) => StoreFault::Io(inner),
        sled::Error::Corruption { at, .. } => StoreFault::Corruption(at),
    }
}

/// What the debug rendering of a location in the store's file reads.
pub uninterp spec fn disk_location_rendering(at: Option<sled::DiskPtr>) -> Seq<char>;

/// The debug rendering of a location, made by `format!`: it reads the
/// numbers that the location holds and nothing else, so the same location
/// always renders the same.
#[verifier::external_body]
fn disk_location_text(at: &Option<sled::DiskPtr>) -> (text: String)
    ensures
        text@ == disk_location_rendering(*at),
{
    format!("{:?}", at)
}

impl StoreFault {
    /// The place of the variant in the declaration, counted from 0.
    pub open spec fn rank(self) -> int {
        match self {
            StoreFault::CollectionNotFound(_) => 0,
            StoreFault::Unsupported(_) => 1,
            StoreFault::ReportableBug(_) => 2,
            StoreFault::Io(_) => 3,
            StoreFault::Corruption(_) => 4,
        }
    }
}

impl PoseidonErrorView {
    /// What a missing collection becomes, from the bytes of its name: the
    /// name as a text where the bytes are UTF-8, and the marker of an
    /// identifier that is not a text where they are not.
    pub open spec fn of_collection_name(name: Seq<u8>) -> Self {
        if valid_utf8(name) {
            PoseidonErrorView::SledCollectionNotFound(decode_utf8(name))
        } else {
            PoseidonErrorView::InvalidByteToUtf8StringConversion
        }
    }

    /// Whether `self` is what the fault becomes: the variant that is named
    /// after it, with its text; an I/O failure goes to the I/O category, a
    /// corruption keeps the rendering of its location.
    pub open spec fn is_translation_of_store(self, fault: StoreFault) -> bool {
        match fault {
            StoreFault::CollectionNotFound(name) => self == Self::of_collection_name(name@),
            StoreFault::Unsupported(text) => self == PoseidonErrorView::SledUnsupported(text@),
            StoreFault::ReportableBug(text) => self == PoseidonErrorView::SledReportableBug(text@),
            StoreFault::Io(inner) => self.is_translation_of_io(inner),
            StoreFault::Corruption(at) => self == PoseidonErrorView::SledCorruption(
                disk_location_rendering(at),
            ),
        }
    }
}

impl PoseidonError {
    /// The error for a collection that no longer exists, from the bytes of
    /// its name. Bytes that are no text give the marker of an undecodable
    /// identifier; nothing is cut off and nothing fails.
    pub fn from_collection_name(name: Vec<u8>) -> (r: Self)
        ensures
            r@ == PoseidonErrorView::of_collection_name(name@),
    {
        match text_from_utf8(name) {
            Some(text) => {
                proof {
                    encode_utf8_decode_utf8(text@);
                }
                PoseidonError::SledCollectionNotFound(text)
            },
            None => PoseidonError::InvalidByteToUtf8StringConversion,
        }
    }

    /// The unified error that stands for a fault of the store.
    pub fn from_store_fault(fault: StoreFault) -> (r: Self)
        ensures
            r@.is_translation_of_store(fault),
    {
        match fault {
            StoreFault::CollectionNotFound(name) => PoseidonError::from_collection_name(name),
            StoreFault::Unsupported(text) => PoseidonError::SledUnsupported(text),
            StoreFault::ReportableBug(text) => PoseidonError::SledReportableBug(text),
            StoreFault::Io(inner) => PoseidonError::IoErr(PoseidonErrorKind::from(inner)),
            StoreFault::Corruption(at) => PoseidonError::SledCorruption(disk_location_text(&at)),
        }
    }
}

// What `from` gives is stated on `from` itself, over the view of the result: the
// result holds a text or a list that is made anew, which no expression here can name.
impl FromSpecImpl<sled::Error> for PoseidonError {
    open spec fn obeys_from_spec() -> bool {
        false
    }

    open spec fn from_spec(native: sled::Error) -> Self {
        arbitrary()
    }
}

impl From<sled::Error> for PoseidonError {
    /// The unified error that stands for a native error of the store.
    fn from(native: sled::Error) -> (r: Self)
        ensures
            r@.is_translation_of_store(store_fault_of(native)),
    {
        PoseidonError::from_store_fault(store_fault(native))
    }
}

/// Two faults of different variants never become unified errors of the same
/// variant: the result tells the variant of the source.
pub proof fn store_translation_keeps_variants_apart(
    a: StoreFault,
    b: StoreFault,
    x: PoseidonErrorView,
    y: PoseidonErrorView,
)
    requires
        x.is_translation_of_store(a),
        y.is_translation_of_store(b),
        x.rank() == y.rank(),
    ensures
        a.rank() == b.rank(),
{
}

} // verus!
