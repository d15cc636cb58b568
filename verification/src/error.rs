//! What can be wrong with a schema, or with its header.

use vstd::prelude::*;

verus! {

/// A fault in the schema model. No definition is emitted for a type in
/// which one is found; other types of the schema are not touched by it.
#[derive(Clone, Debug, PartialEq, Eq)]
pub enum SchemaError {
    /// The name, as the schema writes it, gives no identifier.
    InvalidName { name: String },
    /// The reference to a type is no qualified name: it holds more than one
    /// colon.
    UnresolvedType { reference: String },
    /// The element or attribute of this name has no type at all.
    MissingType { construct: String },
}

/// The view of a fault.
pub enum SchemaErrorView {
    InvalidName { name: Seq<char> },
    UnresolvedType { reference: Seq<char> },
    MissingType { construct: Seq<char> },
}

impl View for SchemaError {
    type V = SchemaErrorView;

    open spec fn view(&self) -> SchemaErrorView {
        match *self {
            SchemaError::InvalidName { name } => SchemaErrorView::InvalidName { name: name@ },
            SchemaError::UnresolvedType { reference } => SchemaErrorView::UnresolvedType {
                reference: reference@,
            },
            SchemaError::MissingType { construct } => SchemaErrorView::MissingType {
                construct: construct@,
            },
        }
    }
}

/// A fault in the header of the schema document. Nothing can be emitted
/// without a context, so it ends the whole run.
#[derive(Clone, Copy, Debug, PartialEq, Eq)]
pub enum ContextError {
    /// No element of the document is the `schema` element of XML Schema.
    MissingSchemaElement,
}

/// The view of an outcome: that of the value, or that of the fault.
pub open spec fn outcome<T: DeepView>(r: Result<T, SchemaError>) -> Result<T::V, SchemaErrorView> {
    match r {
        Ok(value) => Ok(value.deep_view()),
        Err(fault) => Err(fault@),
    }
}

} // verus!
