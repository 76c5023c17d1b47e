//! Data model operations for Pubky App objects: post kinds, object identifiers,
//! storage paths, `pubky://` URI parsing, and the JSON framing of results
//! handed across the foreign-function boundary.

pub mod response;
mod text;
pub mod ids;
pub mod kind;
pub mod paths;
pub mod uri;
pub mod models;
pub mod api;
