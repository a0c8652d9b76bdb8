//! Typed XML tag/namespace binding for WS-Management style SOAP envelopes.
//!
//! The crate couples typed content values to compile-time tag identities,
//! validates tag names and namespaces while deserializing a parsed node tree,
//! and serializes values back out with one consistent alias per namespace
//! across a whole document.

pub mod attribute;
pub mod deserialize;
pub mod element;
pub mod error;
pub mod namespace;
pub mod node;
pub mod parser;
pub mod tag;
pub mod text;
