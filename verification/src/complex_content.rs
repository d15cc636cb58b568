//! Complex content: the content model of another type, extended or
//! restricted.

use crate::attribute::{
    attribute_fields, copy_attributes, implement_attributes, Attribute, AttributeView,
};
use crate::binding::{
    Cardinality, Field, FieldType, FieldTypeView, FieldView, Namespace, NamespaceView,
    Serialization, SerializationView,
};
use crate::context::{XsdContext, XsdContextView};
use crate::error::{outcome, SchemaError, SchemaErrorView};
use crate::gather::{followed_by, single};
use crate::implementation::Implementation;
use crate::type_mapping::{resolve_type, resolved_type};
use vstd::prelude::*;

verus! {

/// The content of a type that takes the content model of the type `base`,
/// with the attributes that it adds.
#[derive(Debug, PartialEq, Eq)]
pub struct ComplexContent {
    pub base: String,
    pub attributes: Vec<Attribute>,
}

/// The view of a complex content.
pub struct ComplexContentView {
    pub base: Seq<char>,
    pub attributes: Seq<AttributeView>,
}

impl View for ComplexContent {
    type V = ComplexContentView;

    open spec fn view(&self) -> ComplexContentView {
        ComplexContentView { base: self.base@, attributes: self.attributes.deep_view() }
    }
}

impl DeepView for ComplexContent {
    type V = ComplexContentView;

    open spec fn deep_view(&self) -> ComplexContentView {
        self@
    }
}

impl Default for ComplexContent {
    /// A content over a base without a name, with no attributes.
    fn default() -> (empty: Self)
        ensures
            empty@ == (ComplexContentView { base: Seq::empty(), attributes: Seq::empty() }),
    {
        let empty = ComplexContent { base: String::new(), attributes: Vec::new() };
        assert(empty@.attributes =~= Seq::empty());
        empty
    }
}

impl Clone for ComplexContent {
    fn clone(&self) -> (copy: Self)
        ensures
            copy@ == self@,
    {
        ComplexContent { base: self.base.clone(), attributes: copy_attributes(&self.attributes) }
    }
}

/// The name of the member that holds the value of the base type.
pub open spec fn complex_content_member() -> Seq<char> {
    "base"@
}

/// The member that holds the value of the base type.
pub open spec fn complex_content_base(
    content: ComplexContentView,
    context: XsdContextView,
) -> Result<FieldView, SchemaErrorView> {
    match resolved_type(context, content.base) {
        Err(fault) => Err(fault),
        Ok(base) => Ok(
            FieldView {
                name: complex_content_member(),
                kind: FieldTypeView { base, indirected: false, cardinality: Cardinality::One },
                serialization: SerializationView::Flatten,
            },
        ),
    }
}

/// The fields of a complex content: the base type as one member whose own
/// fields are written as fields of the holder, not nested in it, and then
/// the attributes that the content adds.
pub open spec fn complex_content_fields(
    content: ComplexContentView,
    context: XsdContextView,
) -> Result<Seq<FieldView>, SchemaErrorView> {
    followed_by(
        single(complex_content_base(content, context)),
        attribute_fields(content.attributes, context),
    )
}

impl ComplexContent {
    /// Gives the fields that the complex content adds to the type that
    /// holds it.
    pub fn get_field_implementation(&self, context: &XsdContext) -> (r: Result<
        Vec<Field>,
        SchemaError,
    >)
        ensures
            outcome(r) == complex_content_fields(self@, context@),
    {
        let base = match resolve_type(context, self.base.as_str()) {
            Err(fault) => {
                return Err(fault);
            },
            Ok(base) => base,
        };
        let member = Field {
            name: "base".to_owned(),
            kind: FieldType { base, indirected: false, cardinality: Cardinality::One },
            serialization: Serialization::Flatten,
        };
        let mut fields: Vec<Field> = Vec::new();
        fields.push(member);
        let mut rest = match implement_attributes(&self.attributes, context) {
            Err(fault) => {
                return Err(fault);
            },
            Ok(rest) => rest,
        };
        let ghost tail = rest.deep_view();
        fields.append(&mut rest);
        assert(fields.deep_view() =~= seq![member@] + tail);
        Ok(fields)
    }
}

impl Implementation for ComplexContent {
    type Fragment = Vec<Field>;

    /// The fields of the content.
    open spec fn fragment(
        &self,
        namespace: Option<NamespaceView>,
        prefix: Option<Seq<char>>,
        context: XsdContextView,
    ) -> Result<Seq<FieldView>, SchemaErrorView> {
        complex_content_fields(self@, context)
    }

    fn implement(
        &self,
        namespace_definition: &Option<Namespace>,
        prefix: &Option<String>,
        context: &XsdContext,
    ) -> (r: Result<Vec<Field>, SchemaError>)
        ensures
            outcome(r) == complex_content_fields(self@, context@),
    {
        self.get_field_implementation(context)
    }
}

} // verus!
