//! Structured-error representation: a closed classification of failure
//! categories, an optional error-code overlay, and a composite error value
//! with construction, chaining, canonical rendering, and parsing.

pub mod codes;
pub mod error_type;
pub mod mapped;
pub mod parse;
pub mod text;
