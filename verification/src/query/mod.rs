//! The records in query-parameter form: pairs of a key and a value, all
//! joined by commas, as a record is written into a single header or
//! query value.
//!
//! Writing leaves out what the form cannot hold: identifiers, headers
//! and nested records. Reading walks the pairs in order, stops at the
//! first error, and of a key that comes twice keeps the first value.

pub mod error;
pub mod header;
pub mod header_value;
pub mod numbers;
pub mod parse;
pub mod records;
pub mod tokens;
pub mod user;
