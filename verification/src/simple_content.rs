//! Simple content: a text value with attributes.

use crate::attribute::{
    attribute_fields, copy_attributes, implement_attributes, Attribute, AttributeView,
};
use crate::binding::{
    Cardinality, Field, FieldType, FieldTypeView, FieldView, Namespace, NamespaceView,
    Serialization, SerializationView,
};
use crate::context::{XsdContext, XsdContextView};
use crate::error::{outcome, SchemaError, SchemaErrorView};
use crate::gather::{followed_by, single};
use crate::implementation::Implementation;
use crate::type_mapping::{resolve_type, resolved_type};
use vstd::prelude::*;

verus! {

/// The content of a type whose value is a text: the type `base` that the
/// text restricts or extends, and the attributes declared with it.
#[derive(Debug, PartialEq, Eq)]
pub struct SimpleContent {
    pub base: String,
    pub attributes: Vec<Attribute>,
}

/// The view of a simple content.
pub struct SimpleContentView {
    pub base: Seq<char>,
    pub attributes: Seq<AttributeView>,
}

impl View for SimpleContent {
    type V = SimpleContentView;

    open spec fn view(&self) -> SimpleContentView {
        SimpleContentView { base: self.base@, attributes: self.attributes.deep_view() }
    }
}

impl DeepView for SimpleContent {
    type V = SimpleContentView;

    open spec fn deep_view(&self) -> SimpleContentView {
        self@
    }
}

impl Default for SimpleContent {
    /// A content over a base without a name, with no attributes.
    fn default() -> (empty: Self)
        ensures
            empty@ == (SimpleContentView { base: Seq::empty(), attributes: Seq::empty() }),
    {
        let empty = SimpleContent { base: String::new(), attributes: Vec::new() };
        assert(empty@.attributes =~= Seq::empty());
        empty
    }
}

impl Clone for SimpleContent {
    fn clone(&self) -> (copy: Self)
        ensures
            copy@ == self@,
    {
        SimpleContent { base: self.base.clone(), attributes: copy_attributes(&self.attributes) }
    }
}

/// The name of the member that holds the value of the base type.
pub open spec fn simple_content_member() -> Seq<char> {
    "content"@
}

/// The member that holds the value of the base type.
pub open spec fn simple_content_base(
    content: SimpleContentView,
    context: XsdContextView,
) -> Result<FieldView, SchemaErrorView> {
    match resolved_type(context, content.base) {
        Err(fault) => Err(fault),
        Ok(base) => Ok(
            FieldView {
                name: simple_content_member(),
                kind: FieldTypeView { base, indirected: false, cardinality: Cardinality::One },
                serialization: SerializationView::Text,
            },
        ),
    }
}

/// The fields of a simple content: the text of the element, as a value
/// of the base type, and then the attributes declared with it.
pub open spec fn simple_content_fields(
    content: SimpleContentView,
    context: XsdContextView,
) -> Result<Seq<FieldView>, SchemaErrorView> {
    followed_by(
        single(simple_content_base(content, context)),
        attribute_fields(content.attributes, context),
    )
}

impl SimpleContent {
    /// Gives the fields that the simple content adds to the type that
    /// holds it.
    pub fn get_field_implementation(&self, context: &XsdContext) -> (r: Result<
        Vec<Field>,
        SchemaError,
    >)
        ensures
            outcome(r) == simple_content_fields(self@, context@),
    {
        let base = match resolve_type(context, self.base.as_str()) {
            Err(fault) => {
                return Err(fault);
            },
            Ok(base) => base,
        };
        let member = Field {
            name: "content".to_owned(),
            kind: FieldType { base, indirected: false, cardinality: Cardinality::One },
            serialization: Serialization::Text,
        };
        let mut fields: Vec<Field> = Vec::new();
        fields.push(member);
        let mut rest = match implement_attributes(&self.attributes, context) {
            Err(fault) => {
                return Err(fault);
            },
            Ok(rest) => rest,
        };
        let ghost tail = rest.deep_view();
        fields.append(&mut rest);
        assert(fields.deep_view() =~= seq![member@] + tail);
        Ok(fields)
    }
}

impl Implementation for SimpleContent {
    type Fragment = Vec<Field>;

    /// The fields of the content.
    open spec fn fragment(
        &self,
        namespace: Option<NamespaceView>,
        prefix: Option<Seq<char>>,
        context: XsdContextView,
    ) -> Result<Seq<FieldView>, SchemaErrorView> {
        simple_content_fields(self@, context)
    }

    fn implement(
        &self,
        namespace_definition: &Option<Namespace>,
        prefix: &Option<String>,
        context: &XsdContext,
    ) -> (r: Result<Vec<Field>, SchemaError>)
        ensures
            outcome(r) == simple_content_fields(self@, context@),
    {
        self.get_field_implementation(context)
    }
}

} // verus!
