//! The requests of the storage protocol.

use vstd::prelude::*;

verus! {

/// A request, with its argument as a text.
#[derive(Debug)]
pub enum PSSProtocol {
    FetchTransaction(String),
    Account(String),
    SendTx(String),
}

} // verus!
