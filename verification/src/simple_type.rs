//! Simple types written inside an element or attribute.

use crate::text::copy_text;
use crate::binding::{TypeReference, TypeReferenceView};
use crate::context::{XsdContext, XsdContextView};
use crate::error::{outcome, SchemaError, SchemaErrorView};
use crate::type_mapping::{resolve_type, resolved_type};
use vstd::prelude::*;

verus! {

/// An anonymous simple type. Where it restricts another type, `base` names
/// that type.
#[derive(Debug, PartialEq, Eq)]
pub struct SimpleType {
    pub name: String,
    pub base: Option<String>,
}

/// The view of a simple type.
pub struct SimpleTypeView {
    pub name: Seq<char>,
    pub base: Option<Seq<char>>,
}

impl View for SimpleType {
    type V = SimpleTypeView;

    open spec fn view(&self) -> SimpleTypeView {
        SimpleTypeView { name: self.name@, base: self.base.deep_view() }
    }
}

impl DeepView for SimpleType {
    type V = SimpleTypeView;

    open spec fn deep_view(&self) -> SimpleTypeView {
        self@
    }
}

impl Default for SimpleType {
    /// A simple type without a name that restricts nothing.
    fn default() -> (empty: Self)
        ensures
            empty@ == (SimpleTypeView { name: Seq::empty(), base: None }),
    {
        SimpleType { name: String::new(), base: None }
    }
}

impl Clone for SimpleType {
    fn clone(&self) -> (copy: Self)
        ensures
            copy@ == self@,
    {
        SimpleType { name: self.name.clone(), base: copy_text(&self.base) }
    }
}

/// The Rust type of a simple type written in place, inside the construct
/// named `owner`: that of the type it restricts. One that restricts nothing
/// gives its owner no type.
pub open spec fn simple_type_reference(
    simple_type: SimpleTypeView,
    context: XsdContextView,
    owner: Seq<char>,
) -> Result<TypeReferenceView, SchemaErrorView> {
    match simple_type.base {
        Some(base) => resolved_type(context, base),
        None => Err(SchemaErrorView::MissingType { construct: owner }),
    }
}

impl SimpleType {
    /// Resolves the type that this simple type restricts.
    pub fn get_type_implementation(&self, context: &XsdContext, owner: &str) -> (r: Result<
        TypeReference,
        SchemaError,
    >)
        ensures
            outcome(r) == simple_type_reference(self@, context@, owner@),
    {
        match &self.base {
            Some(base) => resolve_type(context, base.as_str()),
            None => Err(SchemaError::MissingType { construct: owner.to_owned() }),
        }
    }
}

} // verus!
