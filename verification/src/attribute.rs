//! Attributes of a complex type.

use crate::text::copy_text;
use crate::binding::{
    Cardinality, Field, FieldType, FieldTypeView, FieldView, Namespace, NamespaceView,
    Serialization, SerializationView, TypeReference, TypeReferenceView,
};
use crate::context::{XsdContext, XsdContextView};
use crate::error::{outcome, SchemaError, SchemaErrorView};
use crate::gather::{gather, lemma_gather_fault, lemma_gather_next};
use crate::implementation::Implementation;
use crate::naming::{field_identifier, is_identifier, is_valid_identifier, to_field_name};
use crate::simple_type::{simple_type_reference, SimpleType, SimpleTypeView};
use crate::text::same_text;
use crate::type_mapping::{resolve_type, resolved_type};
use vstd::prelude::*;

verus! {

/// Whether a document must write the attribute.
#[derive(Clone, Copy, Debug, PartialEq, Eq)]
pub enum Required {
    Optional,
    Required,
}

/// An attribute: its name, its type by reference (`kind`, or `reference` to
/// an attribute declared elsewhere) or written in place (`simple_type`),
/// whether it is required, and its default.
#[derive(Debug, PartialEq, Eq)]
pub struct Attribute {
    pub name: Option<String>,
    pub kind: Option<String>,
    pub reference: Option<String>,
    pub simple_type: Option<SimpleType>,
    pub required: Required,
    pub default: Option<String>,
}

/// The view of an attribute.
pub struct AttributeView {
    pub name: Option<Seq<char>>,
    pub kind: Option<Seq<char>>,
    pub reference: Option<Seq<char>>,
    pub simple_type: Option<SimpleTypeView>,
    pub required: Required,
    pub default: Option<Seq<char>>,
}

impl View for Attribute {
    type V = AttributeView;

    open spec fn view(&self) -> AttributeView {
        AttributeView {
            name: self.name.deep_view(),
            kind: self.kind.deep_view(),
            reference: self.reference.deep_view(),
            simple_type: self.simple_type.deep_view(),
            required: self.required,
            default: self.default.deep_view(),
        }
    }
}

impl DeepView for Attribute {
    type V = AttributeView;

    open spec fn deep_view(&self) -> AttributeView {
        self@
    }
}

/// What the text of a `use` asks of an attribute: `required` requires it,
/// any other text leaves it optional.
pub open spec fn stated_use(text: Seq<char>) -> Required {
    if text == "required"@ {
        Required::Required
    } else {
        Required::Optional
    }
}

impl Required {
    /// Reads what the text of a `use` asks of an attribute.
    pub fn parse(text: &str) -> (required: Required)
        ensures
            required == stated_use(text@),
    {
        if same_text(text, "required") {
            Required::Required
        } else {
            Required::Optional
        }
    }
}

impl Default for Required {
    /// An attribute is optional unless the schema says otherwise.
    fn default() -> (required: Self)
        ensures
            required == Required::Optional,
    {
        Required::Optional
    }
}

impl Default for Attribute {
    /// An optional attribute without a name and without a type.
    fn default() -> (empty: Self)
        ensures
            empty@ == (AttributeView {
                name: None,
                kind: None,
                reference: None,
                simple_type: None,
                required: Required::Optional,
                default: None,
            }),
    {
        Attribute {
            name: None,
            kind: None,
            reference: None,
            simple_type: None,
            required: Required::Optional,
            default: None,
        }
    }
}

impl Clone for Attribute {
    fn clone(&self) -> (copy: Self)
        ensures
            copy@ == self@,
    {
        Attribute {
            name: copy_text(&self.name),
            kind: copy_text(&self.kind),
            reference: copy_text(&self.reference),
            simple_type: match &self.simple_type {
                Some(simple_type) => Some(simple_type.clone()),
                None => None,
            },
            required: self.required,
            default: copy_text(&self.default),
        }
    }
}

/// A copy of a list of attributes.
pub(crate) fn copy_attributes(attributes: &Vec<Attribute>) -> (copy: Vec<Attribute>)
    ensures
        copy.deep_view() == attributes.deep_view(),
{
    let mut copy: Vec<Attribute> = Vec::new();
    let mut i: usize = 0;
    while i < attributes.len()
        invariant
            i <= attributes.len(),
            copy.len() == i,
            forall|j: int| 0 <= j < i ==> copy@[j]@ == attributes@[j]@,
        decreases attributes.len() - i,
    {
        copy.push(attributes[i].clone());
        i += 1;
    }
    copy
}

/// The Rust type of an attribute named `owner`: by its `kind`, else by its
/// `reference`, else by the simple type written in it.
pub open spec fn attribute_type(
    attribute: AttributeView,
    context: XsdContextView,
    owner: Seq<char>,
) -> Result<TypeReferenceView, SchemaErrorView> {
    match attribute.kind {
        Some(kind) => resolved_type(context, kind),
        None => match attribute.reference {
            Some(reference) => resolved_type(context, reference),
            None => match attribute.simple_type {
                Some(simple_type) => simple_type_reference(simple_type, context, owner),
                None => Err(SchemaErrorView::MissingType { construct: owner }),
            },
        },
    }
}

/// The wrapper of an attribute: optional unless the schema requires it.
pub open spec fn attribute_cardinality(required: Required) -> Cardinality {
    match required {
        Required::Optional => Cardinality::Optional,
        Required::Required => Cardinality::One,
    }
}

/// The field of an attribute. One without a name gives no field. The field
/// is written as an attribute, under the name that the schema gives it.
pub open spec fn attribute_field(attribute: AttributeView, context: XsdContextView) -> Result<
    Option<FieldView>,
    SchemaErrorView,
> {
    match attribute.name {
        None => Ok(None),
        Some(raw) => if !is_identifier(field_identifier(raw)) {
            Err(SchemaErrorView::InvalidName { name: raw })
        } else {
            match attribute_type(attribute, context, raw) {
                Err(fault) => Err(fault),
                Ok(base) => Ok(
                    Some(
                        FieldView {
                            name: field_identifier(raw),
                            kind: FieldTypeView {
                                base,
                                indirected: false,
                                cardinality: attribute_cardinality(attribute.required),
                            },
                            serialization: SerializationView::Attribute { wire_name: raw },
                        },
                    ),
                ),
            }
        },
    }
}

/// The field of an attribute as a part of a field list.
pub open spec fn attribute_part(attribute: AttributeView, context: XsdContextView) -> Result<
    Seq<FieldView>,
    SchemaErrorView,
> {
    match attribute_field(attribute, context) {
        Err(fault) => Err(fault),
        Ok(None) => Ok(Seq::empty()),
        Ok(Some(field)) => Ok(seq![field]),
    }
}

/// The fields of a list of attributes, in the order of their declaration.
pub open spec fn attribute_fields(
    attributes: Seq<AttributeView>,
    context: XsdContextView,
) -> Result<Seq<FieldView>, SchemaErrorView> {
    gather(Seq::new(attributes.len(), |i: int| attribute_part(attributes[i], context)))
}

impl Attribute {
    fn type_reference(&self, context: &XsdContext, owner: &str) -> (r: Result<
        TypeReference,
        SchemaError,
    >)
        ensures
            outcome(r) == attribute_type(self@, context@, owner@),
    {
        match &self.kind {
            Some(kind) => resolve_type(context, kind.as_str()),
            None => match &self.reference {
                Some(reference) => resolve_type(context, reference.as_str()),
                None => match &self.simple_type {
                    Some(simple_type) => simple_type.get_type_implementation(context, owner),
                    None => Err(SchemaError::MissingType { construct: owner.to_owned() }),
                },
            },
        }
    }

    /// Gives the field that stands for the attribute, or none where the
    /// attribute has no name.
    pub fn get_field_implementation(&self, context: &XsdContext) -> (r: Result<
        Option<Field>,
        SchemaError,
    >)
        ensures
            outcome(r) == attribute_field(self@, context@),
    {
        let raw = match &self.name {
            None => {
                return Ok(None);
            },
            Some(raw) => raw,
        };
        let name = to_field_name(raw.as_str());
        if !is_valid_identifier(name.as_str()) {
            return Err(SchemaError::InvalidName { name: raw.clone() });
        }
        let base = match self.type_reference(context, raw.as_str()) {
            Err(fault) => {
                return Err(fault);
            },
            Ok(base) => base,
        };
        let cardinality = match self.required {
            Required::Optional => Cardinality::Optional,
            Required::Required => Cardinality::One,
        };
        Ok(
            Some(
                Field {
                    name,
                    kind: FieldType { base, indirected: false, cardinality },
                    serialization: Serialization::Attribute { wire_name: raw.clone() },
                },
            ),
        )
    }
}

impl Implementation for Attribute {
    type Fragment = Option<Field>;

    /// The field of the attribute.
    open spec fn fragment(
        &self,
        namespace: Option<NamespaceView>,
        prefix: Option<Seq<char>>,
        context: XsdContextView,
    ) -> Result<Option<FieldView>, SchemaErrorView> {
        attribute_field(self@, context)
    }

    fn implement(
        &self,
        namespace_definition: &Option<Namespace>,
        prefix: &Option<String>,
        context: &XsdContext,
    ) -> (r: Result<Option<Field>, SchemaError>)
        ensures
            outcome(r) == attribute_field(self@, context@),
    {
        self.get_field_implementation(context)
    }
}

/// Gives the fields of a list of attributes.
pub fn implement_attributes(attributes: &Vec<Attribute>, context: &XsdContext) -> (r: Result<
    Vec<Field>,
    SchemaError,
>)
    ensures
        outcome(r) == attribute_fields(attributes.deep_view(), context@),
{
    let ghost parts = Seq::new(
        attributes.deep_view().len(),
        |i: int| attribute_part(attributes.deep_view()[i], context@),
    );
    let mut fields: Vec<Field> = Vec::new();
    let mut i: usize = 0;
    proof {
        assert(fields.deep_view() =~= Seq::empty());
    }
    while i < attributes.len()
        invariant
            i <= attributes.len(),
            parts.len() == attributes.len(),
            parts == Seq::new(
                attributes.deep_view().len(),
                |i: int| attribute_part(attributes.deep_view()[i], context@),
            ),
            gather(parts.take(i as int)) == Ok::<Seq<FieldView>, SchemaErrorView>(
                fields.deep_view(),
            ),
        decreases attributes.len() - i,
    {
        proof {
            lemma_gather_next(parts, i as int);
        }
        let ghost before = fields.deep_view();
        match attributes[i].get_field_implementation(context) {
            Err(fault) => {
                proof {
                    lemma_gather_fault(parts, i + 1);
                }
                return Err(fault);
            },
            Ok(None) => {
            },
            Ok(Some(field)) => {
                fields.push(field);
                assert(fields.deep_view() =~= before + seq![field@]);
            },
        }
        i += 1;
    }
    assert(parts.take(attributes.len() as int) =~= parts);
    Ok(fields)
}

} // verus!
