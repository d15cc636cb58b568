//! What holds of every complex type and of what is emitted for it.

use crate::annotation::{documentation_of, AnnotationView};
use crate::attribute::{attribute_field, attribute_fields, attribute_part, AttributeView};
use crate::binding::{
    Cardinality, DefinitionsView, FieldView, NamespaceView, Primitive, SerializationView,
    TypeDefinitionView, TypeReferenceView,
};
use crate::complex_content::{
    complex_content_base, complex_content_fields, ComplexContentView,
};
use crate::complex_type::{
    complex_type_fields, implementation, implementation_fields, integrated_type, sequence_part,
    simple_content_part, ComplexTypeView,
};
use crate::context::XsdContextView;
use crate::element::{
    cardinality_of, element_field, element_name, element_sub_types, hoisted_definition,
    ElementView, MaxOccurences,
};
use crate::error::SchemaErrorView;
use crate::gather::{
    followed_by, gather, lemma_gather_all, lemma_gather_ok, lemma_gather_singles, single,
};
use crate::naming::{field_identifier, is_identifier, type_identifier};
use crate::recursion::{marked_element, marked_sequence, refers_to};
use crate::render::{rendered_reference, rendered_type, rendered_value};
use crate::sequence::{lemma_sub_type_parts, sequence_fields, sub_type_parts, SequenceView};
use crate::simple_content::{simple_content_base, simple_content_fields, SimpleContentView};
use crate::type_mapping::{declared_type, resolved_type};
use vstd::prelude::*;

verus! {

/// The name of a type depends on the name in the schema alone: the results
/// of two calls of `to_type_name` on one name, each of them the type
/// identifier of that name, are the same text.
pub proof fn lemma_type_name_depends_on_the_name_alone(
    name: Seq<char>,
    first: Seq<char>,
    second: Seq<char>,
)
    requires
        first == type_identifier(name),
        second == type_identifier(name),
    ensures
        first == second,
{
}

/// A complex type without sequence, simple content, complex content and
/// attributes gives a definition without fields and hoists nothing: an
/// empty type is no fault. It is emitted whenever its name gives an
/// identifier.
pub proof fn lemma_empty_type_has_no_fields(
    complex_type: ComplexTypeView,
    namespace: Option<NamespaceView>,
    prefix: Option<Seq<char>>,
    context: XsdContextView,
)
    requires
        complex_type.sequence is None,
        complex_type.simple_content is None,
        complex_type.complex_content is None,
        complex_type.attributes.len() == 0,
    ensures
        implementation_fields(complex_type, context, prefix) == Ok::<
            Seq<FieldView>,
            SchemaErrorView,
        >(Seq::empty()),
        is_identifier(type_identifier(complex_type.name)) ==> implementation(
            complex_type,
            namespace,
            prefix,
            context,
        ) == Ok::<DefinitionsView, SchemaErrorView>(
            DefinitionsView {
                primary: TypeDefinitionView {
                    name: type_identifier(complex_type.name),
                    documentation: documentation_of(complex_type.annotation),
                    namespace,
                    fields: Seq::empty(),
                },
                sub_types: Seq::empty(),
            },
        ),
{
    let none = Seq::<FieldView>::empty();
    assert(attribute_fields(complex_type.attributes, context) == Ok::<
        Seq<FieldView>,
        SchemaErrorView,
    >(none));
}

/// Where an element of the sequence of a complex type names that type as
/// its own type, the element is marked recursive before its field is made,
/// and the field, which stands at the element's place among the fields,
/// holds its value behind an indirection, whatever the bounds of the
/// element are: inside the wrapper of the cardinality stands a `Box`.
pub proof fn lemma_self_reference_is_indirected(
    complex_type: ComplexTypeView,
    namespace: Option<NamespaceView>,
    prefix: Option<Seq<char>>,
    context: XsdContextView,
    i: int,
)
    requires
        complex_type.sequence is Some,
        0 <= i < complex_type.sequence->0.elements.len(),
        refers_to(complex_type.sequence->0.elements[i], complex_type.name),
        implementation(complex_type, namespace, prefix, context) is Ok,
    ensures
        marked_sequence(complex_type.sequence->0, complex_type.name).elements[i].recursive,
        i < implementation(complex_type, namespace, prefix, context)->Ok_0.primary.fields.len(),
        ({
            let field = implementation(
                complex_type,
                namespace,
                prefix,
                context,
            )->Ok_0.primary.fields[i];
            &&& element_field(
                marked_element(complex_type.sequence->0.elements[i], complex_type.name),
                context,
                prefix,
            ) == Ok::<FieldView, SchemaErrorView>(field)
            &&& field.kind.indirected
            &&& rendered_value(field.kind) == "Box<"@ + rendered_reference(field.kind.base)
                + "> "@
        }),
{
    let marked = marked_sequence(complex_type.sequence->0, complex_type.name);
    let parts = Seq::new(
        marked.elements.len(),
        |j: int| single(element_field(marked.elements[j], context, prefix)),
    );
    lemma_gather_ok(parts);
    assert forall|j: int| 0 <= j < parts.len() implies (#[trigger] parts[j]) is Ok
        && parts[j]->Ok_0.len() == 1 by {}
    lemma_gather_singles(parts);
    assert(gather(parts)->Ok_0[i] == parts[i]->Ok_0[0]);
}

/// A complex type whose only content is a simple content gives one field
/// for the text of the element, of the base type of the content, and after
/// it only fields that are written as attributes: those declared with the
/// content, then those of the type. Held as a value, such a type is a
/// plain text.
pub proof fn lemma_simple_content_is_text_and_attributes(
    complex_type: ComplexTypeView,
    prefix: Option<Seq<char>>,
    context: XsdContextView,
    parent_name: Seq<char>,
)
    requires
        complex_type.sequence is None,
        complex_type.complex_content is None,
        complex_type.simple_content is Some,
    ensures
        integrated_type(complex_type, parent_name) == Ok::<TypeReferenceView, SchemaErrorView>(
            TypeReferenceView::Primitive(Primitive::Text),
        ),
        implementation_fields(complex_type, context, prefix) == followed_by(
            followed_by(
                single(simple_content_base(complex_type.simple_content->0, context)),
                attribute_fields(complex_type.simple_content->0.attributes, context),
            ),
            attribute_fields(complex_type.attributes, context),
        ),
        implementation_fields(complex_type, context, prefix) matches Ok(fields) ==> {
            &&& fields.len() >= 1
            &&& simple_content_base(complex_type.simple_content->0, context) == Ok::<
                FieldView,
                SchemaErrorView,
            >(fields[0])
            &&& fields[0].serialization == SerializationView::Text
            &&& forall|j: int|
                1 <= j < fields.len() ==> (#[trigger] fields[j]).serialization is Attribute
        },
{
    let content = complex_type.simple_content->0;
    let none = Seq::<FieldView>::empty();
    let member = single(simple_content_base(content, context));
    let declared = attribute_fields(content.attributes, context);
    assert(followed_by(Ok(none), followed_by(member, declared)) == followed_by(member, declared))
        by {
        if followed_by(member, declared) is Ok {
            assert(none + followed_by(member, declared)->Ok_0 =~= followed_by(
                member,
                declared,
            )->Ok_0);
        }
    }
    assert(followed_by(followed_by(member, declared), Ok(none)) == followed_by(member, declared))
        by {
        if followed_by(member, declared) is Ok {
            assert(followed_by(member, declared)->Ok_0 + none =~= followed_by(
                member,
                declared,
            )->Ok_0);
        }
    }
    if implementation_fields(complex_type, context, prefix) is Ok {
        lemma_attribute_fields_are_attributes(content.attributes, context);
        lemma_attribute_fields_are_attributes(complex_type.attributes, context);
    }
}

/// Every field that a list of attributes gives is written as an attribute.
pub proof fn lemma_attribute_fields_are_attributes(
    attributes: Seq<AttributeView>,
    context: XsdContextView,
)
    requires
        attribute_fields(attributes, context) is Ok,
    ensures
        forall|j: int|
            0 <= j < attribute_fields(attributes, context)->Ok_0.len() ==> (
            #[trigger] attribute_fields(attributes, context)->Ok_0[j]).serialization is Attribute,
{
    let parts = Seq::new(attributes.len(), |i: int| attribute_part(attributes[i], context));
    lemma_gather_all(parts, |field: FieldView| field.serialization is Attribute);
}

/// What a value of an emitted type writes on the wire, where `base` lists
/// the fields of the type of its flattened members: each flattened member
/// stands for those fields, every other field for itself.
pub open spec fn written_fields(fields: Seq<FieldView>, base: Seq<FieldView>) -> Seq<FieldView>
    decreases fields.len(),
{
    if fields.len() == 0 {
        Seq::empty()
    } else if fields.last().serialization == SerializationView::Flatten {
        written_fields(fields.drop_last(), base) + base
    } else {
        written_fields(fields.drop_last(), base).push(fields.last())
    }
}

/// Fields of which none is flattened stand for themselves.
pub proof fn lemma_plain_fields_are_written_as_they_are(
    fields: Seq<FieldView>,
    base: Seq<FieldView>,
)
    requires
        forall|j: int| 0 <= j < fields.len() ==> !((#[trigger] fields[j]).serialization is Flatten),
    ensures
        written_fields(fields, base) == fields,
    decreases fields.len(),
{
    if fields.len() > 0 {
        let front = fields.drop_last();
        lemma_plain_fields_are_written_as_they_are(front, base);
    }
}

/// Every field that a sequence gives is written as a child element.
pub proof fn lemma_sequence_fields_are_elements(
    sequence: SequenceView,
    context: XsdContextView,
    prefix: Option<Seq<char>>,
)
    requires
        sequence_fields(sequence, context, prefix) is Ok,
    ensures
        forall|j: int|
            0 <= j < sequence_fields(sequence, context, prefix)->Ok_0.len() ==> (
            #[trigger] sequence_fields(sequence, context, prefix)->Ok_0[j]).serialization
                is Element,
{
    let parts = Seq::new(
        sequence.elements.len(),
        |i: int| single(element_field(sequence.elements[i], context, prefix)),
    );
    lemma_gather_all(parts, |field: FieldView| field.serialization is Element);
}

/// What is written for two lists of fields, one after the other.
pub proof fn lemma_written_fields_concat(
    first: Seq<FieldView>,
    second: Seq<FieldView>,
    base: Seq<FieldView>,
)
    ensures
        written_fields(first + second, base) == written_fields(first, base) + written_fields(
            second,
            base,
        ),
    decreases second.len(),
{
    if second.len() == 0 {
        assert(written_fields(first, base) + Seq::<FieldView>::empty() =~= written_fields(
            first,
            base,
        ));
    } else {
        let whole = first + second;
        assert(whole.drop_last() =~= first + second.drop_last());
        lemma_written_fields_concat(first, second.drop_last(), base);
        if second.last().serialization == SerializationView::Flatten {
            assert(written_fields(whole, base) =~= written_fields(first, base) + written_fields(
                second,
                base,
            ));
        } else {
            assert(written_fields(whole, base) =~= written_fields(first, base) + written_fields(
                second,
                base,
            ));
        }
    }
}

/// A complex type with a complex content over the type `base_type` holds
/// that type as one member, flattened and not nested, between the fields
/// of its own sequence and simple content and its attributes: those that
/// the content adds, then its own. So what it writes on the wire is the
/// fields of the base type together with what it declares itself.
pub proof fn lemma_complex_content_flattens_base(
    complex_type: ComplexTypeView,
    base_type: ComplexTypeView,
    prefix: Option<Seq<char>>,
    context: XsdContextView,
)
    requires
        complex_type.complex_content is Some,
        resolved_type(context, complex_type.complex_content->0.base) == declared_type(
            base_type.name,
        ),
        implementation_fields(complex_type, context, prefix) is Ok,
        complex_type_fields(base_type, context, prefix) is Ok,
    ensures
        ({
            let content = complex_type.complex_content->0;
            let fields = implementation_fields(complex_type, context, prefix)->Ok_0;
            let inherited = complex_type_fields(base_type, context, prefix)->Ok_0;
            let before = followed_by(
                sequence_part(complex_type, context, prefix),
                simple_content_part(complex_type, context),
            );
            let added = attribute_fields(content.attributes, context);
            let own = attribute_fields(complex_type.attributes, context);
            let member = complex_content_base(content, context);
            &&& before is Ok
            &&& member is Ok
            &&& added is Ok
            &&& own is Ok
            &&& fields == before->Ok_0 + seq![member->Ok_0] + added->Ok_0 + own->Ok_0
            &&& member->Ok_0.serialization == SerializationView::Flatten
            &&& declared_type(base_type.name) == Ok::<TypeReferenceView, SchemaErrorView>(
                member->Ok_0.kind.base,
            )
            &&& written_fields(fields, inherited) == before->Ok_0 + inherited + added->Ok_0
                + own->Ok_0
        }),
{
    let content = complex_type.complex_content->0;
    let before = followed_by(
        sequence_part(complex_type, context, prefix),
        simple_content_part(complex_type, context),
    )->Ok_0;
    let member = seq![complex_content_base(content, context)->Ok_0];
    let added = attribute_fields(content.attributes, context)->Ok_0;
    let own = attribute_fields(complex_type.attributes, context)->Ok_0;
    let fields = implementation_fields(complex_type, context, prefix)->Ok_0;
    let inherited = complex_type_fields(base_type, context, prefix)->Ok_0;
    let none = Seq::<FieldView>::empty();
    assert(fields =~= before + member + added + own);
    assert forall|j: int| 0 <= j < before.len() implies !((
    #[trigger] before[j]).serialization is Flatten) by {
        if complex_type.sequence is Some {
            lemma_sequence_fields_are_elements(
                marked_sequence(complex_type.sequence->0, complex_type.name),
                context,
                prefix,
            );
        }
        if complex_type.simple_content is Some {
            lemma_attribute_fields_are_attributes(
                complex_type.simple_content->0.attributes,
                context,
            );
        }
    }
    lemma_attribute_fields_are_attributes(content.attributes, context);
    lemma_attribute_fields_are_attributes(complex_type.attributes, context);
    lemma_plain_fields_are_written_as_they_are(before, inherited);
    lemma_plain_fields_are_written_as_they_are(added, inherited);
    lemma_plain_fields_are_written_as_they_are(own, inherited);
    lemma_written_fields_concat(before, member, inherited);
    lemma_written_fields_concat(before + member, added, inherited);
    lemma_written_fields_concat(before + member + added, own, inherited);
    assert(written_fields(member, inherited) =~= inherited) by {
        assert(member.drop_last() =~= none);
        assert(written_fields(none, inherited) =~= none);
    }
}

/// The wrapper of a field follows the bounds of its element: an optional
/// value for none or one, a collection wherever more than one may occur,
/// the value itself where the schema gives no bound.
pub proof fn lemma_cardinality_follows_bounds(
    element: ElementView,
    context: XsdContextView,
    prefix: Option<Seq<char>>,
)
    requires
        element_field(element, context, prefix) is Ok,
    ensures
        ({
            let kind = element_field(element, context, prefix)->Ok_0.kind;
            let min = element.min_occurences;
            let max = element.max_occurences;
            &&& kind.cardinality == cardinality_of(min, max)
            &&& min == Some(0u64) && max == Some(MaxOccurences::Number(1)) ==> kind.cardinality
                == Cardinality::Optional && rendered_type(kind) == "Option<"@ + rendered_value(
                kind,
            ) + "> "@
            &&& (max matches Some(MaxOccurences::Number(n)) && n > 1) ==> kind.cardinality
                == Cardinality::Many && rendered_type(kind) == "Vec<"@ + rendered_value(kind)
                + "> "@
            &&& max == Some(MaxOccurences::Unbounded) ==> kind.cardinality == Cardinality::Many
            &&& min is None && max is None ==> kind.cardinality == Cardinality::One
                && rendered_type(kind) == rendered_value(kind)
        }),
{
}

/// The type of a field that stands for a complex type written in place has
/// a definition: where the field names a hoisted type, the first of the
/// definitions hoisted out of its element bears that name.
pub proof fn lemma_hoisted_type_is_defined(
    element: ElementView,
    namespace: Option<NamespaceView>,
    prefix: Option<Seq<char>>,
    context: XsdContextView,
)
    requires
        element_field(element, context, prefix) is Ok,
        element_field(element, context, prefix)->Ok_0.kind.base is Hoisted,
        element_sub_types(element, namespace, prefix, context) is Ok,
    ensures
        element.complex_type is Some,
        element_sub_types(element, namespace, prefix, context)->Ok_0.len() >= 1,
        TypeReferenceView::Hoisted(
            element_sub_types(element, namespace, prefix, context)->Ok_0[0].name,
        ) == element_field(element, context, prefix)->Ok_0.kind.base,
{
    lemma_resolved_type_is_not_hoisted(context);
}

/// No reference of the schema resolves to a hoisted type.
pub proof fn lemma_resolved_type_is_not_hoisted(context: XsdContextView)
    ensures
        forall|reference: Seq<char>|
            !(#[trigger] resolved_type(context, reference) matches Ok(
                TypeReferenceView::Hoisted(_),
            )),
{
}

/// An annotation never changes the shape of what is emitted: the fields
/// and the hoisted definitions of a type are the same under any other
/// annotation.
pub proof fn lemma_annotation_leaves_shape(
    complex_type: ComplexTypeView,
    annotation: Option<AnnotationView>,
    namespace: Option<NamespaceView>,
    prefix: Option<Seq<char>>,
    context: XsdContextView,
)
    ensures
        implementation_fields(ComplexTypeView { annotation, ..complex_type }, context, prefix)
            == implementation_fields(complex_type, context, prefix),
{
}

/// Whether a definition can stand in Rust source as far as its names go:
/// its own name and the name of each of its fields is an identifier.
pub open spec fn well_named(definition: TypeDefinitionView) -> bool {
    &&& is_identifier(definition.name)
    &&& forall|j: int|
        0 <= j < definition.fields.len() ==> is_identifier((#[trigger] definition.fields[j]).name)
}

/// Every field that a list of attributes gives is named by an identifier.
pub proof fn lemma_attribute_fields_are_named(
    attributes: Seq<AttributeView>,
    context: XsdContextView,
)
    requires
        attribute_fields(attributes, context) is Ok,
    ensures
        forall|j: int|
            0 <= j < attribute_fields(attributes, context)->Ok_0.len() ==> is_identifier(
                (#[trigger] attribute_fields(attributes, context)->Ok_0[j]).name,
            ),
{
    let parts = Seq::new(attributes.len(), |i: int| attribute_part(attributes[i], context));
    lemma_gather_all(parts, |field: FieldView| is_identifier(field.name));
}

/// Every field that a sequence gives is named by an identifier.
pub proof fn lemma_sequence_fields_are_named(
    sequence: SequenceView,
    context: XsdContextView,
    prefix: Option<Seq<char>>,
)
    requires
        sequence_fields(sequence, context, prefix) is Ok,
    ensures
        forall|j: int|
            0 <= j < sequence_fields(sequence, context, prefix)->Ok_0.len() ==> is_identifier(
                (#[trigger] sequence_fields(sequence, context, prefix)->Ok_0[j]).name,
            ),
{
    let parts = Seq::new(
        sequence.elements.len(),
        |i: int| single(element_field(sequence.elements[i], context, prefix)),
    );
    lemma_gather_all(parts, |field: FieldView| is_identifier(field.name));
}

/// Every field that a simple content gives is named by an identifier.
pub proof fn lemma_simple_content_fields_are_named(
    content: SimpleContentView,
    context: XsdContextView,
)
    requires
        simple_content_fields(content, context) is Ok,
    ensures
        forall|j: int|
            0 <= j < simple_content_fields(content, context)->Ok_0.len() ==> is_identifier(
                (#[trigger] simple_content_fields(content, context)->Ok_0[j]).name,
            ),
{
    reveal_strlit("content");
    lemma_attribute_fields_are_named(content.attributes, context);
}

/// Every field that a complex content gives is named by an identifier.
pub proof fn lemma_complex_content_fields_are_named(
    content: ComplexContentView,
    context: XsdContextView,
)
    requires
        complex_content_fields(content, context) is Ok,
    ensures
        forall|j: int|
            0 <= j < complex_content_fields(content, context)->Ok_0.len() ==> is_identifier(
                (#[trigger] complex_content_fields(content, context)->Ok_0[j]).name,
            ),
{
    reveal_strlit("base");
    lemma_attribute_fields_are_named(content.attributes, context);
}

/// Every definition hoisted out of an element can stand in Rust source as
/// far as its names go.
pub proof fn lemma_element_sub_types_are_named(
    element: ElementView,
    namespace: Option<NamespaceView>,
    prefix: Option<Seq<char>>,
    context: XsdContextView,
)
    requires
        element_sub_types(element, namespace, prefix, context) is Ok,
    ensures
        forall|k: int|
            0 <= k < element_sub_types(element, namespace, prefix, context)->Ok_0.len()
                ==> well_named(
                #[trigger] element_sub_types(element, namespace, prefix, context)->Ok_0[k],
            ),
    decreases element,
{
    if element.complex_type is Some {
        let complex_type = element.complex_type->0;
        let definition = hoisted_definition(
            element,
            complex_type,
            namespace,
            prefix,
            context,
        )->Ok_0;
        assert(well_named(definition)) by {
            if complex_type.sequence is Some {
                lemma_sequence_fields_are_named(complex_type.sequence->0, context, prefix);
            } else if complex_type.simple_content is Some {
                lemma_simple_content_fields_are_named(complex_type.simple_content->0, context);
            }
        }
        if complex_type.sequence is Some {
            let sequence = complex_type.sequence->0;
            let parts = sub_type_parts(sequence, namespace, prefix, context);
            lemma_sub_type_parts(sequence, namespace, prefix, context);
            assert forall|i: int, j: int|
                0 <= i < parts.len() && parts[i] is Ok && 0 <= j < parts[i]->Ok_0.len()
            implies well_named(
                #[trigger] parts[i]->Ok_0[j],
            ) by {
                lemma_element_sub_types_are_named(sequence.elements[i], namespace, prefix, context);
            }
            lemma_gather_all(parts, |definition: TypeDefinitionView| well_named(definition));
        }
    }
}

/// Whatever is emitted for a complex type can stand in Rust source as far
/// as its names go: the name of the type, of each hoisted type and of each
/// of their fields is an identifier.
pub proof fn lemma_emitted_names_are_identifiers(
    complex_type: ComplexTypeView,
    namespace: Option<NamespaceView>,
    prefix: Option<Seq<char>>,
    context: XsdContextView,
)
    requires
        implementation(complex_type, namespace, prefix, context) is Ok,
    ensures
        well_named(implementation(complex_type, namespace, prefix, context)->Ok_0.primary),
        forall|k: int|
            0 <= k < implementation(complex_type, namespace, prefix, context)->Ok_0.sub_types.len()
                ==> well_named(
                #[trigger] implementation(
                    complex_type,
                    namespace,
                    prefix,
                    context,
                )->Ok_0.sub_types[k],
            ),
{
    if complex_type.sequence is Some {
        let marked = marked_sequence(complex_type.sequence->0, complex_type.name);
        lemma_sequence_fields_are_named(marked, context, prefix);
        let parts = sub_type_parts(marked, namespace, prefix, context);
        lemma_sub_type_parts(marked, namespace, prefix, context);
        assert forall|i: int, j: int|
            0 <= i < parts.len() && parts[i] is Ok && 0 <= j < parts[i]->Ok_0.len()
            implies well_named(
            #[trigger] parts[i]->Ok_0[j],
        ) by {
            lemma_element_sub_types_are_named(marked.elements[i], namespace, prefix, context);
        }
        lemma_gather_all(parts, |definition: TypeDefinitionView| well_named(definition));
    }
    if complex_type.simple_content is Some {
        lemma_simple_content_fields_are_named(complex_type.simple_content->0, context);
    }
    if complex_type.complex_content is Some {
        lemma_complex_content_fields_are_named(complex_type.complex_content->0, context);
    }
    lemma_attribute_fields_are_named(complex_type.attributes, context);
}

/// However the name of a field is reshaped, the field is written under
/// the name that the schema gives: that of its element, or, for an element
/// without a name, the local part of the element that it refers to; and
/// that of its attribute.
pub proof fn lemma_fields_keep_their_wire_names(
    element: ElementView,
    attribute: AttributeView,
    context: XsdContextView,
    prefix: Option<Seq<char>>,
)
    ensures
        element_field(element, context, prefix) matches Ok(field) ==> {
            &&& element_name(element) is Ok
            &&& field.name == field_identifier(element_name(element)->Ok_0)
            &&& field.serialization == (SerializationView::Element {
                wire_name: element_name(element)->Ok_0,
                prefix,
            })
            &&& element.name.len() > 0 ==> element_name(element)->Ok_0 == element.name
        },
        attribute_field(attribute, context) matches Ok(Some(field)) ==> {
            &&& attribute.name is Some
            &&& field.name == field_identifier(attribute.name->0)
            &&& field.serialization == (SerializationView::Attribute {
                wire_name: attribute.name->0,
            })
        },
{
}

/// Every definition hoisted out of an element is bound to the namespace of
/// the invocation.
pub proof fn lemma_element_sub_types_share_the_namespace(
    element: ElementView,
    namespace: Option<NamespaceView>,
    prefix: Option<Seq<char>>,
    context: XsdContextView,
)
    requires
        element_sub_types(element, namespace, prefix, context) is Ok,
    ensures
        forall|k: int|
            0 <= k < element_sub_types(element, namespace, prefix, context)->Ok_0.len() ==> (
            #[trigger] element_sub_types(element, namespace, prefix, context)->Ok_0[k]).namespace
                == namespace,
    decreases element,
{
    if element.complex_type is Some && element.complex_type->0.sequence is Some {
        let sequence = element.complex_type->0.sequence->0;
        let parts = sub_type_parts(sequence, namespace, prefix, context);
        lemma_sub_type_parts(sequence, namespace, prefix, context);
        assert forall|i: int, j: int|
            0 <= i < parts.len() && parts[i] is Ok && 0 <= j < parts[i]->Ok_0.len() implies (
        #[trigger] parts[i]->Ok_0[j]).namespace == namespace by {
            lemma_element_sub_types_share_the_namespace(
                sequence.elements[i],
                namespace,
                prefix,
                context,
            );
        }
        lemma_gather_all(
            parts,
            |definition: TypeDefinitionView| definition.namespace == namespace,
        );
    }
}

/// The namespace is given once for the invocation and goes with every
/// emitted type: with the type itself and with each type hoisted out of it.
pub proof fn lemma_namespace_goes_with_every_type(
    complex_type: ComplexTypeView,
    namespace: Option<NamespaceView>,
    prefix: Option<Seq<char>>,
    context: XsdContextView,
)
    requires
        implementation(complex_type, namespace, prefix, context) is Ok,
    ensures
        implementation(complex_type, namespace, prefix, context)->Ok_0.primary.namespace
            == namespace,
        forall|k: int|
            0 <= k < implementation(complex_type, namespace, prefix, context)->Ok_0.sub_types.len()
                ==> (#[trigger] implementation(
                complex_type,
                namespace,
                prefix,
                context,
            )->Ok_0.sub_types[k]).namespace == namespace,
{
    if complex_type.sequence is Some {
        let marked = marked_sequence(complex_type.sequence->0, complex_type.name);
        let parts = sub_type_parts(marked, namespace, prefix, context);
        lemma_sub_type_parts(marked, namespace, prefix, context);
        assert forall|i: int, j: int|
            0 <= i < parts.len() && parts[i] is Ok && 0 <= j < parts[i]->Ok_0.len() implies (
        #[trigger] parts[i]->Ok_0[j]).namespace == namespace by {
            lemma_element_sub_types_share_the_namespace(
                marked.elements[i],
                namespace,
                prefix,
                context,
            );
        }
        lemma_gather_all(
            parts,
            |definition: TypeDefinitionView| definition.namespace == namespace,
        );
    }
}

} // verus!
