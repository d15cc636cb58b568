//! Typed data bindings for XML Schema complex types.
//!
//! A complex type of a schema, with its sequence, content models, attributes
//! and annotation, is turned into a struct definition and the definitions of
//! the anonymous types nested in it. Every step is stated over the views of
//! the schema model and proved.

pub mod annotation;
pub mod attribute;
pub mod binding;
pub mod complex_content;
pub mod complex_type;
pub mod context;
pub mod element;
pub mod error;
pub mod gather;
pub mod implementation;
pub mod laws;
pub mod naming;
pub mod recursion;
pub mod render;
pub mod sequence;
pub mod simple_content;
pub mod simple_type;
pub mod text;
pub mod type_mapping;
