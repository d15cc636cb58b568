//! From the type references of a schema to Rust types.

use crate::binding::{Primitive, TypeReference, TypeReferenceView};
use crate::context::{XsdContext, XsdContextView};
use crate::error::{outcome, SchemaError, SchemaErrorView};
use crate::naming::{is_identifier, is_valid_identifier, to_type_name, type_identifier};
use crate::text::{qualified_name, same_text, split_qualified_name};
use vstd::prelude::*;

verus! {

/// The Rust type for a built-in type of XML Schema, by its local name. One
/// that has no closer Rust type is kept as text.
pub open spec fn primitive_of(local: Seq<char>) -> Primitive {
    if local == "boolean"@ {
        Primitive::Boolean
    } else if local == "byte"@ {
        Primitive::I8
    } else if local == "unsignedByte"@ {
        Primitive::U8
    } else if local == "short"@ {
        Primitive::I16
    } else if local == "unsignedShort"@ {
        Primitive::U16
    } else if local == "int"@ {
        Primitive::I32
    } else if local == "unsignedInt"@ {
        Primitive::U32
    } else if local == "long"@ || local == "integer"@ {
        Primitive::I64
    } else if local == "unsignedLong"@ || local == "nonNegativeInteger"@ || local
        == "positiveInteger"@ {
        Primitive::U64
    } else if local == "float"@ {
        Primitive::Single
    } else if local == "double"@ || local == "decimal"@ {
        Primitive::Double
    } else {
        Primitive::Text
    }
}

/// The reference to the named type `local` of the schema: its Rust name,
/// where that is an identifier.
pub open spec fn declared_type(local: Seq<char>) -> Result<TypeReferenceView, SchemaErrorView> {
    if is_identifier(type_identifier(local)) {
        Ok(TypeReferenceView::Declared(type_identifier(local)))
    } else {
        Err(SchemaErrorView::InvalidName { name: local })
    }
}

/// The Rust type that a type reference of the schema stands for. Under the
/// prefix of XML Schema it is a built-in type; under another prefix, or
/// none, a named type of the schema. A reference with more than one colon
/// resolves to nothing.
pub open spec fn resolved_type(context: XsdContextView, reference: Seq<char>) -> Result<
    TypeReferenceView,
    SchemaErrorView,
> {
    match qualified_name(reference) {
        None => Err(SchemaErrorView::UnresolvedType { reference }),
        Some((None, local)) => declared_type(local),
        Some((Some(prefix), local)) => if context.xml_schema_prefix == Some(prefix) {
            Ok(TypeReferenceView::Primitive(primitive_of(local)))
        } else {
            declared_type(local)
        },
    }
}

/// Maps the local name of a built-in type of XML Schema to its Rust type.
pub fn primitive_for(local: &str) -> (primitive: Primitive)
    ensures
        primitive == primitive_of(local@),
{
    if same_text(local, "boolean") {
        Primitive::Boolean
    } else if same_text(local, "byte") {
        Primitive::I8
    } else if same_text(local, "unsignedByte") {
        Primitive::U8
    } else if same_text(local, "short") {
        Primitive::I16
    } else if same_text(local, "unsignedShort") {
        Primitive::U16
    } else if same_text(local, "int") {
        Primitive::I32
    } else if same_text(local, "unsignedInt") {
        Primitive::U32
    } else if same_text(local, "long") || same_text(local, "integer") {
        Primitive::I64
    } else if same_text(local, "unsignedLong") || same_text(local, "nonNegativeInteger")
        || same_text(local, "positiveInteger") {
        Primitive::U64
    } else if same_text(local, "float") {
        Primitive::Single
    } else if same_text(local, "double") || same_text(local, "decimal") {
        Primitive::Double
    } else {
        Primitive::Text
    }
}

fn declare(local: &str) -> (r: Result<TypeReference, SchemaError>)
    ensures
        outcome(r) == declared_type(local@),
{
    let name = to_type_name(local);
    if is_valid_identifier(name.as_str()) {
        Ok(TypeReference::Declared(name))
    } else {
        Err(SchemaError::InvalidName { name: local.to_owned() })
    }
}

/// Resolves a type reference of the schema.
pub fn resolve_type(context: &XsdContext, reference: &str) -> (r: Result<
    TypeReference,
    SchemaError,
>)
    ensures
        outcome(r) == resolved_type(context@, reference@),
{
    match split_qualified_name(reference) {
        None => Err(SchemaError::UnresolvedType { reference: reference.to_owned() }),
        Some((None, local)) => declare(local),
        Some((Some(prefix), local)) => {
            if context.match_xml_schema_prefix(prefix) {
                Ok(TypeReference::Primitive(primitive_for(local)))
            } else {
                declare(local)
            }
        },
    }
}

} // verus!
