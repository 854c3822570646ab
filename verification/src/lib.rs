//! Manifest resolution core: a polymorphic author representation, a
//! multi-format manifest loader, and a template-reference resolver.

pub mod author;
pub mod document;
pub mod error;
pub mod manifest;
pub mod raw_url;
pub mod script;
pub mod version;
