//! Storage queries against a remote node: derivation of wire-level storage
//! keys, decoding of fetched values with default fallback, and a paginating
//! key/value iterator driven by the caller's transport.

pub mod hashing;
pub mod key;
pub mod decode;
pub mod metadata;
pub mod client;
pub mod iter;
