//! Wire-protocol message layer for a trading-gateway client: length-prefixed
//! framing, NUL-terminated field encoding and splitting, the catalogs of
//! message codes for both directions with the per-kind request layouts, typed
//! requests and their payloads, and the reading of numeric fields and
//! response codes.
pub mod error;
pub mod text;
pub mod field;
pub mod frame;
pub mod catalog;
pub mod request;
pub mod decode;
pub mod message;
