//! Helpers for authors of attribute-style and derive-style macros.
//!
//! The library walks a pre-parsed syntax tree: it pulls literal
//! configuration values out of attribute argument lists, normalizes the
//! field list of a struct declaration, detects and unwraps
//! single-type-parameter wrapper types such as `Option<T>` and `Vec<T>`,
//! and reads `name = "value"` pairs out of a field's attributes.
//!
//! The tree itself is plain data owned by the caller ([`model`]); the host
//! macro system's opaque artifacts (spans, compile-error token streams)
//! stay behind the small trusted boundary in [`host`].

pub mod attr_args;
pub mod field_attr;
pub mod fields;
pub mod host;
pub mod model;
pub mod report;
pub mod type_shape;
