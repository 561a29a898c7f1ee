//! Types that the Poseidon libraries share: first of all the one error that
//! every subsystem reports through, whatever library the failure came from.
//!
//! - [`errors`] holds the unified error, the category of each failure domain
//!   (I/O, transport, secure channel) and the translation of each domain's
//!   native errors. Every native error is translated once, at the boundary,
//!   and without loss: each field of the source is kept.
//! - [`order`] holds the order that `<` computes. It is stated over the views
//!   of the types, by place in the declaration and then field by field, and
//!   is proved to be a strict total order.
//! - [`wire`] holds the binary form and [`structured`] the structured form,
//!   a document of named entries. Reading either form gives back the value
//!   that it was made of.
//! - [`common`] and [`pss`] hold plain data.

pub mod common;
pub mod errors;
pub mod order;
pub mod pss;
pub mod structured;
pub mod text;
pub mod wire;

pub use crate::common::{
    AccountOptions, Base58BlockHash, Base58EncodedData, Base58PublicKey, Base58Sha256Hash,
    Base58Signature, Cluster, DataBytes, DataID, DataOwnedBytes, Ed25519Keypair,
    Ed25519PublicKey, Ed25519Signature, EncryptedData, Lamports, PdaData, PoseidonOutcome,
    SubscriptionID, TokenID, UnixTimestamp, UserData,
};
pub use crate::errors::common::{PoseidonError, PoseidonErrorView, PoseidonResult};
pub use crate::errors::db::StoreErr;
pub use crate::errors::http::{HttpError, HttpErrorView, JsonError, JsonErrorView};
pub use crate::errors::io::{PoseidonErrorKind, PoseidonErrorKindView};
pub use crate::errors::sled_errors::StoreFault;
pub use crate::errors::ssl::{
    AlertDescription, ContentType, HandshakeType, RustlsError, RustlsErrorView, SctError,
};
pub use crate::pss::PSSProtocol;
pub use crate::structured::{Entry, EntryView};
