//! The error taxonomy: the unified error, the category of each failure
//! domain, and the translation of each domain's native errors.

pub mod common;
pub mod consistency;
pub mod db;
pub mod http;
pub mod io;
pub mod sled_errors;
pub mod ssl;
