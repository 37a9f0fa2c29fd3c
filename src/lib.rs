//! Generation of structured error taxonomies: stable error codes, canonical
//! descriptions and display rules for error enums, and delegation rules for
//! container enums that wrap them.

pub mod code;
pub mod description;
pub mod metadata;
pub mod error;
pub mod leaf;
pub mod pretty;
pub mod container;
pub mod laws;
