//! Complex types, and the definitions emitted for them.

use crate::annotation::{documentation_of, implement_annotation, Annotation, AnnotationView};
use crate::attribute::{
    attribute_fields, copy_attributes, implement_attributes, Attribute, AttributeView,
};
use crate::binding::{
    copy_namespace, Definitions, DefinitionsView, Field, FieldView, Namespace, NamespaceView,
    Primitive, TypeDefinition, TypeDefinitionView, TypeReference, TypeReferenceView,
};
use crate::complex_content::{complex_content_fields, ComplexContent, ComplexContentView};
use crate::context::{XsdContext, XsdContextView};
use crate::error::{outcome, SchemaError, SchemaErrorView};
use crate::gather::followed_by;
use crate::implementation::Implementation;
use crate::naming::{is_identifier, is_valid_identifier, to_type_name, type_identifier};
use crate::recursion::{mark_recursive, marked_sequence};
use crate::sequence::{
    copy_sequence, sequence_fields, sequence_sub_types, sequence_view, Sequence, SequenceView,
};
use crate::simple_content::{simple_content_fields, SimpleContent, SimpleContentView};
use vstd::prelude::*;

verus! {

/// A complex type: its name (empty where the type is anonymous), its
/// attributes in the order of their declaration, one of three content
/// models, and its annotation. A well-formed schema gives at most one of
/// `sequence`, `simple_content` and `complex_content`; any subset is taken.
#[derive(Debug, PartialEq, Eq)]
pub struct ComplexType {
    pub name: String,
    pub attributes: Vec<Attribute>,
    pub sequence: Option<Sequence>,
    pub simple_content: Option<SimpleContent>,
    pub complex_content: Option<ComplexContent>,
    pub annotation: Option<Annotation>,
}

/// The view of a complex type.
pub struct ComplexTypeView {
    pub name: Seq<char>,
    pub attributes: Seq<AttributeView>,
    pub sequence: Option<SequenceView>,
    pub simple_content: Option<SimpleContentView>,
    pub complex_content: Option<ComplexContentView>,
    pub annotation: Option<AnnotationView>,
}

/// The view of a complex type, through the types nested in it.
pub open spec fn complex_type_view(complex_type: ComplexType) -> ComplexTypeView
    decreases complex_type,
{
    ComplexTypeView {
        name: complex_type.name@,
        attributes: complex_type.attributes.deep_view(),
        sequence: match complex_type.sequence {
            Some(sequence) => Some(sequence_view(sequence)),
            None => None,
        },
        simple_content: complex_type.simple_content.deep_view(),
        complex_content: complex_type.complex_content.deep_view(),
        annotation: complex_type.annotation.deep_view(),
    }
}

impl View for ComplexType {
    type V = ComplexTypeView;

    open spec fn view(&self) -> ComplexTypeView {
        complex_type_view(*self)
    }
}

impl DeepView for ComplexType {
    type V = ComplexTypeView;

    open spec fn deep_view(&self) -> ComplexTypeView {
        complex_type_view(*self)
    }
}

/// A copy of a complex type, with all that is nested in it.
pub(crate) fn copy_complex_type(complex_type: &ComplexType) -> (copy: ComplexType)
    ensures
        copy@ == complex_type@,
    decreases complex_type,
{
    ComplexType {
        name: complex_type.name.clone(),
        attributes: copy_attributes(&complex_type.attributes),
        sequence: match &complex_type.sequence {
            Some(sequence) => Some(copy_sequence(sequence)),
            None => None,
        },
        simple_content: match &complex_type.simple_content {
            Some(simple_content) => Some(simple_content.clone()),
            None => None,
        },
        complex_content: match &complex_type.complex_content {
            Some(complex_content) => Some(complex_content.clone()),
            None => None,
        },
        annotation: match &complex_type.annotation {
            Some(annotation) => Some(annotation.clone()),
            None => None,
        },
    }
}

impl Default for ComplexType {
    /// An anonymous complex type without content and without attributes.
    fn default() -> (empty: Self)
        ensures
            empty@ == (ComplexTypeView {
                name: Seq::empty(),
                attributes: Seq::empty(),
                sequence: None,
                simple_content: None,
                complex_content: None,
                annotation: None,
            }),
    {
        let empty = ComplexType {
            name: String::new(),
            attributes: Vec::new(),
            sequence: None,
            simple_content: None,
            complex_content: None,
            annotation: None,
        };
        assert(empty@.attributes =~= Seq::empty());
        empty
    }
}

impl Clone for ComplexType {
    fn clone(&self) -> (copy: Self)
        ensures
            copy@ == self@,
    {
        copy_complex_type(self)
    }
}

/// The fields that a complex type gives to a type that takes its content:
/// those of its sequence, or else those of its simple content, or none.
pub open spec fn complex_type_fields(
    complex_type: ComplexTypeView,
    context: XsdContextView,
    prefix: Option<Seq<char>>,
) -> Result<Seq<FieldView>, SchemaErrorView> {
    match complex_type.sequence {
        Some(sequence) => sequence_fields(sequence, context, prefix),
        None => match complex_type.simple_content {
            Some(simple_content) => simple_content_fields(simple_content, context),
            None => Ok(Seq::empty()),
        },
    }
}

/// What a complex type is when it is held as a value and not referenced by
/// name: a text where it has simple content; the definition hoisted under
/// `parent_name` where it has a sequence; a text where it has neither.
pub open spec fn integrated_type(complex_type: ComplexTypeView, parent_name: Seq<char>) -> Result<
    TypeReferenceView,
    SchemaErrorView,
> {
    if complex_type.simple_content is Some {
        Ok(TypeReferenceView::Primitive(Primitive::Text))
    } else if complex_type.sequence is Some {
        if is_identifier(parent_name) {
            Ok(TypeReferenceView::Hoisted(parent_name))
        } else {
            Err(SchemaErrorView::InvalidName { name: parent_name })
        }
    } else {
        Ok(TypeReferenceView::Primitive(Primitive::Text))
    }
}

/// The fields of the sequence of a complex type, after the elements that
/// refer to the type itself are marked; none without a sequence.
pub open spec fn sequence_part(
    complex_type: ComplexTypeView,
    context: XsdContextView,
    prefix: Option<Seq<char>>,
) -> Result<Seq<FieldView>, SchemaErrorView> {
    match complex_type.sequence {
        Some(sequence) => sequence_fields(
            marked_sequence(sequence, complex_type.name),
            context,
            prefix,
        ),
        None => Ok(Seq::empty()),
    }
}

/// The fields of the simple content of a complex type; none without one.
pub open spec fn simple_content_part(
    complex_type: ComplexTypeView,
    context: XsdContextView,
) -> Result<Seq<FieldView>, SchemaErrorView> {
    match complex_type.simple_content {
        Some(simple_content) => simple_content_fields(simple_content, context),
        None => Ok(Seq::empty()),
    }
}

/// The fields of the complex content of a complex type; none without one.
pub open spec fn complex_content_part(
    complex_type: ComplexTypeView,
    context: XsdContextView,
) -> Result<Seq<FieldView>, SchemaErrorView> {
    match complex_type.complex_content {
        Some(complex_content) => complex_content_fields(complex_content, context),
        None => Ok(Seq::empty()),
    }
}

/// The fields of the definition of a complex type, in this order: those of
/// its sequence, of its simple content, of its complex content, and of its
/// attributes.
pub open spec fn implementation_fields(
    complex_type: ComplexTypeView,
    context: XsdContextView,
    prefix: Option<Seq<char>>,
) -> Result<Seq<FieldView>, SchemaErrorView> {
    followed_by(
        followed_by(
            followed_by(
                sequence_part(complex_type, context, prefix),
                simple_content_part(complex_type, context),
            ),
            complex_content_part(complex_type, context),
        ),
        attribute_fields(complex_type.attributes, context),
    )
}

/// The definitions hoisted out of the sequence of a complex type; none
/// without a sequence.
pub open spec fn implementation_sub_types(
    complex_type: ComplexTypeView,
    namespace: Option<NamespaceView>,
    prefix: Option<Seq<char>>,
    context: XsdContextView,
) -> Result<Seq<TypeDefinitionView>, SchemaErrorView> {
    match complex_type.sequence {
        Some(sequence) => sequence_sub_types(
            marked_sequence(sequence, complex_type.name),
            namespace,
            prefix,
            context,
        ),
        None => Ok(Seq::empty()),
    }
}

/// What a complex type gives: a definition under the Rust name of the
/// type, with its fields, its documentation and the namespace of the
/// invocation, and beside it the definitions hoisted out of its sequence.
/// A fault in the name, in a field or in a hoisted definition, the first in
/// this order, is given in place of all of it.
pub open spec fn implementation(
    complex_type: ComplexTypeView,
    namespace: Option<NamespaceView>,
    prefix: Option<Seq<char>>,
    context: XsdContextView,
) -> Result<DefinitionsView, SchemaErrorView> {
    if !is_identifier(type_identifier(complex_type.name)) {
        Err(SchemaErrorView::InvalidName { name: complex_type.name })
    } else {
        match implementation_fields(complex_type, context, prefix) {
            Err(fault) => Err(fault),
            Ok(fields) => match implementation_sub_types(complex_type, namespace, prefix, context) {
                Err(fault) => Err(fault),
                Ok(sub_types) => Ok(
                    DefinitionsView {
                        primary: TypeDefinitionView {
                            name: type_identifier(complex_type.name),
                            documentation: documentation_of(complex_type.annotation),
                            namespace,
                            fields,
                        },
                        sub_types,
                    },
                ),
            },
        }
    }
}

impl Implementation for ComplexType {
    type Fragment = Definitions;

    /// The definition of the type and the definitions hoisted out of it.
    open spec fn fragment(
        &self,
        namespace: Option<NamespaceView>,
        prefix: Option<Seq<char>>,
        context: XsdContextView,
    ) -> Result<DefinitionsView, SchemaErrorView> {
        implementation(self@, namespace, prefix, context)
    }

    /// Gives the definition of this type and the definitions hoisted out
    /// of it. The elements of its sequence that refer to this type are
    /// marked on a copy of the sequence; the type itself is not changed.
    fn implement(
        &self,
        namespace_definition: &Option<Namespace>,
        prefix: &Option<String>,
        context: &XsdContext,
    ) -> (r: Result<Definitions, SchemaError>)
        ensures
            outcome(r) == implementation(
                self@,
                namespace_definition.deep_view(),
                prefix.deep_view(),
                context@,
            ),
            r matches Ok(definitions) ==> !definitions.primary.name@.contains('.'),
    {
        let name = to_type_name(self.name.as_str());
        if !is_valid_identifier(name.as_str()) {
            return Err(SchemaError::InvalidName { name: self.name.clone() });
        }
        let working: Option<Sequence> = match &self.sequence {
            Some(sequence) => {
                let mut copy = copy_sequence(sequence);
                mark_recursive(self.name.as_str(), &mut copy);
                Some(copy)
            },
            None => None,
        };
        let mut fields: Vec<Field> = match &working {
            Some(sequence) => match sequence.implement(namespace_definition, prefix, context) {
                Err(fault) => {
                    return Err(fault);
                },
                Ok(fields) => fields,
            },
            None => Vec::new(),
        };
        let ghost first = fields.deep_view();
        assert(Ok::<Seq<FieldView>, SchemaErrorView>(first) == sequence_part(
            self@,
            context@,
            prefix.deep_view(),
        )) by {
            if working is None {
                assert(first =~= Seq::empty());
            }
        }
        let mut simple: Vec<Field> = match &self.simple_content {
            Some(simple_content) => match simple_content.get_field_implementation(context) {
                Err(fault) => {
                    return Err(fault);
                },
                Ok(fields) => fields,
            },
            None => Vec::new(),
        };
        let ghost second = simple.deep_view();
        assert(Ok::<Seq<FieldView>, SchemaErrorView>(second) == simple_content_part(
            self@,
            context@,
        )) by {
            if self.simple_content is None {
                assert(second =~= Seq::empty());
            }
        }
        fields.append(&mut simple);
        let mut complex: Vec<Field> = match &self.complex_content {
            Some(complex_content) => match complex_content.get_field_implementation(context) {
                Err(fault) => {
                    return Err(fault);
                },
                Ok(fields) => fields,
            },
            None => Vec::new(),
        };
        let ghost third = complex.deep_view();
        assert(Ok::<Seq<FieldView>, SchemaErrorView>(third) == complex_content_part(
            self@,
            context@,
        )) by {
            if self.complex_content is None {
                assert(third =~= Seq::empty());
            }
        }
        fields.append(&mut complex);
        let mut attributes = match implement_attributes(&self.attributes, context) {
            Err(fault) => {
                return Err(fault);
            },
            Ok(fields) => fields,
        };
        let ghost fourth = attributes.deep_view();
        fields.append(&mut attributes);
        assert(fields.deep_view() =~= first + second + third + fourth);
        let sub_types: Vec<TypeDefinition> = match &working {
            Some(sequence) => match sequence.get_sub_types_implementation(
                context,
                namespace_definition,
                prefix,
            ) {
                Err(fault) => {
                    return Err(fault);
                },
                Ok(sub_types) => sub_types,
            },
            None => Vec::new(),
        };
        assert(Ok::<Seq<TypeDefinitionView>, SchemaErrorView>(sub_types.deep_view())
            == implementation_sub_types(
            self@,
            namespace_definition.deep_view(),
            prefix.deep_view(),
            context@,
        )) by {
            if working is None {
                assert(sub_types.deep_view() =~= Seq::empty());
            }
        }
        Ok(
            Definitions {
                primary: TypeDefinition {
                    name,
                    documentation: implement_annotation(&self.annotation),
                    namespace: copy_namespace(namespace_definition),
                    fields,
                },
                sub_types,
            },
        )
    }
}

impl ComplexType {
    /// Gives the fields that this type adds to a type that takes its
    /// content.
    pub fn get_field_implementation(&self, context: &XsdContext, prefix: &Option<String>) -> (r:
        Result<Vec<Field>, SchemaError>)
        ensures
            outcome(r) == complex_type_fields(self@, context@, prefix.deep_view()),
    {
        match &self.sequence {
            Some(sequence) => sequence.get_field_implementation(context, prefix),
            None => match &self.simple_content {
                Some(simple_content) => simple_content.get_field_implementation(context),
                None => {
                    let fields: Vec<Field> = Vec::new();
                    assert(fields.deep_view() =~= Seq::empty());
                    Ok(fields)
                },
            },
        }
    }

    /// Gives the type of a value of this type where it is written inside
    /// the construct for which `parent_name` was made.
    pub fn get_integrated_implementation(&self, parent_name: &str) -> (r: Result<
        TypeReference,
        SchemaError,
    >)
        ensures
            outcome(r) == integrated_type(self@, parent_name@),
    {
        if self.simple_content.is_some() {
            return Ok(TypeReference::Primitive(Primitive::Text));
        }
        if self.sequence.is_some() {
            if is_valid_identifier(parent_name) {
                return Ok(TypeReference::Hoisted(parent_name.to_owned()));
            }
            return Err(SchemaError::InvalidName { name: parent_name.to_owned() });
        }
        Ok(TypeReference::Primitive(Primitive::Text))
    }
}

} // verus!
