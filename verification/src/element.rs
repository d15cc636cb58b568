//! Elements of a sequence.

use crate::annotation::{documentation_of, implement_annotation, Annotation, AnnotationView};
use crate::binding::{
    copy_namespace, Cardinality, Field, FieldType, FieldTypeView, FieldView, Namespace,
    NamespaceView, Serialization, SerializationView, TypeDefinition, TypeDefinitionView,
    TypeReference, TypeReferenceView,
};
use crate::complex_type::{
    complex_type_fields, complex_type_view, copy_complex_type, integrated_type, ComplexType,
    ComplexTypeView,
};
use crate::context::{XsdContext, XsdContextView};
use crate::error::{outcome, SchemaError, SchemaErrorView};
use crate::gather::{followed_by, gather, single};
use crate::implementation::Implementation;
use crate::naming::{
    field_identifier, is_ascii_digit, is_identifier, is_valid_identifier, to_field_name,
    to_type_name, type_identifier,
};
use crate::sequence::sub_type_parts;
use crate::simple_type::{simple_type_reference, SimpleType, SimpleTypeView};
use crate::text::{copy_text, qualified_name, same_text, split_qualified_name};
use crate::type_mapping::{resolve_type, resolved_type};
use vstd::prelude::*;
use vstd::string::*;

verus! {

/// The upper bound on how often an element may occur.
#[derive(Clone, Copy, Debug, PartialEq, Eq)]
pub enum MaxOccurences {
    Unbounded,
    Number(u32),
}

/// An element: its name, its type by reference (`kind`, or `refers` to an
/// element declared elsewhere) or written in place (`simple_type`,
/// `complex_type`), and how often it may occur. `recursive` is not read
/// from the schema: it is set where the element refers to the type that
/// holds it.
#[derive(Debug, PartialEq, Eq)]
pub struct Element {
    pub name: String,
    pub annotation: Option<Annotation>,
    pub kind: Option<String>,
    pub simple_type: Option<SimpleType>,
    pub complex_type: Option<ComplexType>,
    pub refers: Option<String>,
    pub min_occurences: Option<u64>,
    pub max_occurences: Option<MaxOccurences>,
    pub recursive: bool,
}

/// The view of an element.
pub struct ElementView {
    pub name: Seq<char>,
    pub annotation: Option<AnnotationView>,
    pub kind: Option<Seq<char>>,
    pub simple_type: Option<SimpleTypeView>,
    pub complex_type: Option<ComplexTypeView>,
    pub refers: Option<Seq<char>>,
    pub min_occurences: Option<u64>,
    pub max_occurences: Option<MaxOccurences>,
    pub recursive: bool,
}

/// The view of an element, through the types nested in it.
pub open spec fn element_view(element: Element) -> ElementView
    decreases element,
{
    ElementView {
        name: element.name@,
        annotation: element.annotation.deep_view(),
        kind: element.kind.deep_view(),
        simple_type: element.simple_type.deep_view(),
        complex_type: match element.complex_type {
            Some(complex_type) => Some(complex_type_view(complex_type)),
            None => None,
        },
        refers: element.refers.deep_view(),
        min_occurences: element.min_occurences,
        max_occurences: element.max_occurences,
        recursive: element.recursive,
    }
}

impl View for Element {
    type V = ElementView;

    open spec fn view(&self) -> ElementView {
        element_view(*self)
    }
}

impl DeepView for Element {
    type V = ElementView;

    open spec fn deep_view(&self) -> ElementView {
        element_view(*self)
    }
}

/// A copy of an element, with all that is nested in it.
pub(crate) fn copy_element(element: &Element) -> (copy: Element)
    ensures
        copy@ == element@,
    decreases element,
{
    Element {
        name: element.name.clone(),
        annotation: match &element.annotation {
            Some(annotation) => Some(annotation.clone()),
            None => None,
        },
        kind: copy_text(&element.kind),
        simple_type: match &element.simple_type {
            Some(simple_type) => Some(simple_type.clone()),
            None => None,
        },
        complex_type: match &element.complex_type {
            Some(complex_type) => Some(copy_complex_type(complex_type)),
            None => None,
        },
        refers: copy_text(&element.refers),
        min_occurences: element.min_occurences,
        max_occurences: element.max_occurences,
        recursive: element.recursive,
    }
}

impl Default for Element {
    /// An element without a name and without a type, which occurs once.
    fn default() -> (empty: Self)
        ensures
            empty@ == (ElementView {
                name: Seq::empty(),
                annotation: None,
                kind: None,
                simple_type: None,
                complex_type: None,
                refers: None,
                min_occurences: None,
                max_occurences: None,
                recursive: false,
            }),
    {
        Element {
            name: String::new(),
            annotation: None,
            kind: None,
            simple_type: None,
            complex_type: None,
            refers: None,
            min_occurences: None,
            max_occurences: None,
            recursive: false,
        }
    }
}

impl Clone for Element {
    fn clone(&self) -> (copy: Self)
        ensures
            copy@ == self@,
    {
        copy_element(self)
    }
}

/// The name under which an element stands on the wire: its own, or, where
/// it has none, the local part of the element that it refers to.
pub open spec fn element_name(element: ElementView) -> Result<Seq<char>, SchemaErrorView> {
    if element.name.len() > 0 {
        Ok(element.name)
    } else {
        match element.refers {
            None => Ok(element.name),
            Some(reference) => match qualified_name(reference) {
                None => Err(SchemaErrorView::UnresolvedType { reference }),
                Some((_, local)) => Ok(local),
            },
        }
    }
}

/// The wrapper that the bounds of an element ask for: a collection where
/// more than one may occur, an optional value where none need occur, else
/// the value itself. A bound that the schema leaves out is one.
pub open spec fn cardinality_of(
    min_occurences: Option<u64>,
    max_occurences: Option<MaxOccurences>,
) -> Cardinality {
    if max_occurences == Some(MaxOccurences::Unbounded) || (max_occurences matches Some(
        MaxOccurences::Number(n),
    ) && n > 1) {
        Cardinality::Many
    } else if min_occurences == Some(0u64) {
        Cardinality::Optional
    } else {
        Cardinality::One
    }
}

/// The Rust type of one value of the element named `name`: what the type
/// written in it collapses to, or what its reference resolves to.
pub open spec fn element_type(
    element: ElementView,
    context: XsdContextView,
    name: Seq<char>,
) -> Result<TypeReferenceView, SchemaErrorView> {
    match element.complex_type {
        Some(complex_type) => integrated_type(complex_type, type_identifier(name)),
        None => match element.simple_type {
            Some(simple_type) => simple_type_reference(simple_type, context, name),
            None => match element.kind {
                Some(kind) => resolved_type(context, kind),
                None => match element.refers {
                    Some(reference) => resolved_type(context, reference),
                    None => Err(SchemaErrorView::MissingType { construct: name }),
                },
            },
        },
    }
}

/// The field of an element: named after the element, of the element's type
/// behind an indirection if the element is marked recursive, inside the
/// wrapper of its cardinality, and written as a child element under the
/// name that the schema gives it.
pub open spec fn element_field(
    element: ElementView,
    context: XsdContextView,
    prefix: Option<Seq<char>>,
) -> Result<FieldView, SchemaErrorView> {
    match element_name(element) {
        Err(fault) => Err(fault),
        Ok(name) => if !is_identifier(field_identifier(name)) {
            Err(SchemaErrorView::InvalidName { name })
        } else {
            match element_type(element, context, name) {
                Err(fault) => Err(fault),
                Ok(base) => Ok(
                    FieldView {
                        name: field_identifier(name),
                        kind: FieldTypeView {
                            base,
                            indirected: element.recursive,
                            cardinality: cardinality_of(
                                element.min_occurences,
                                element.max_occurences,
                            ),
                        },
                        serialization: SerializationView::Element { wire_name: name, prefix },
                    },
                ),
            }
        },
    }
}

/// The definition hoisted out of an element for the complex type written
/// in it: named after the element, with the fields of that type.
pub open spec fn hoisted_definition(
    element: ElementView,
    complex_type: ComplexTypeView,
    namespace: Option<NamespaceView>,
    prefix: Option<Seq<char>>,
    context: XsdContextView,
) -> Result<TypeDefinitionView, SchemaErrorView> {
    match element_name(element) {
        Err(fault) => Err(fault),
        Ok(name) => if !is_identifier(type_identifier(name)) {
            Err(SchemaErrorView::InvalidName { name })
        } else {
            match complex_type_fields(complex_type, context, prefix) {
                Err(fault) => Err(fault),
                Ok(fields) => Ok(
                    TypeDefinitionView {
                        name: type_identifier(name),
                        documentation: documentation_of(element.annotation),
                        namespace,
                        fields,
                    },
                ),
            }
        },
    }
}

/// The definitions hoisted out of an element: none where its type is
/// referenced by name; else that of the complex type written in it, and
/// then those hoisted out of the elements of that type's sequence.
pub open spec fn element_sub_types(
    element: ElementView,
    namespace: Option<NamespaceView>,
    prefix: Option<Seq<char>>,
    context: XsdContextView,
) -> Result<Seq<TypeDefinitionView>, SchemaErrorView>
    decreases element,
{
    match element.complex_type {
        None => Ok(Seq::empty()),
        Some(complex_type) => followed_by(
            single(hoisted_definition(element, complex_type, namespace, prefix, context)),
            match complex_type.sequence {
                Some(sequence) => gather(sub_type_parts(sequence, namespace, prefix, context)),
                None => Ok(Seq::empty()),
            },
        ),
    }
}

/// The number that a text of decimal digits writes.
pub open spec fn decimal_value(digits: Seq<char>) -> nat
    decreases digits.len(),
{
    if digits.len() == 0 {
        0
    } else {
        (decimal_value(digits.drop_last()) * 10 + (digits.last() as u32 - '0' as u32)) as nat
    }
}

/// Whether a text is one decimal digit or more, and nothing else.
pub open spec fn is_decimal(text: Seq<char>) -> bool {
    text.len() > 0 && forall|i: int| 0 <= i < text.len() ==> is_ascii_digit(#[trigger] text[i])
}

/// The upper bound that the text of a `maxOccurs` states: `unbounded`, or a
/// number in decimal digits that a `u32` can hold. Any other text states no
/// bound.
pub open spec fn stated_bound(text: Seq<char>) -> Option<MaxOccurences> {
    if text == "unbounded"@ {
        Some(MaxOccurences::Unbounded)
    } else if is_decimal(text) && decimal_value(text) <= u32::MAX {
        Some(MaxOccurences::Number(decimal_value(text) as u32))
    } else {
        None
    }
}

/// A number written in digits is no smaller than the number that its first
/// digits write.
pub proof fn lemma_decimal_value_grows(digits: Seq<char>, i: int)
    requires
        0 <= i <= digits.len(),
        forall|j: int| 0 <= j < digits.len() ==> is_ascii_digit(#[trigger] digits[j]),
    ensures
        decimal_value(digits.take(i)) <= decimal_value(digits),
    decreases digits.len() - i,
{
    if i == digits.len() {
        assert(digits.take(i) =~= digits);
    } else {
        assert(digits.take(i + 1).drop_last() =~= digits.take(i));
        lemma_decimal_value_grows(digits, i + 1);
    }
}

impl MaxOccurences {
    /// Reads the upper bound that the text of a `maxOccurs` states.
    pub fn parse(text: &str) -> (bound: Option<MaxOccurences>)
        ensures
            bound == stated_bound(text@),
    {
        if same_text(text, "unbounded") {
            return Some(MaxOccurences::Unbounded);
        }
        let n: usize = text.unicode_len();
        if n == 0 {
            return None;
        }
        let mut value: u32 = 0;
        let mut i: usize = 0;
        while i < n
            invariant
                i <= n,
                n == text@.len(),
                text@ != "unbounded"@,
                forall|j: int| 0 <= j < i ==> is_ascii_digit(#[trigger] text@[j]),
                value == decimal_value(text@.take(i as int)),
            decreases n - i,
        {
            let c = text.get_char(i);
            let code: u32 = c as u32;
            if code < 0x30 || code > 0x39 {
                return None;
            }
            let digit: u32 = code - 0x30;
            assert(text@.take(i + 1).drop_last() =~= text@.take(i as int));
            if value > (u32::MAX - digit) / 10 {
                proof {
                    if is_decimal(text@) {
                        lemma_decimal_value_grows(text@, i + 1);
                    }
                }
                return None;
            }
            value = value * 10 + digit;
            i += 1;
        }
        assert(text@.take(n as int) =~= text@);
        Some(MaxOccurences::Number(value))
    }

    fn more_than_one(bound: &Option<MaxOccurences>) -> (r: bool)
        ensures
            r == (*bound == Some(MaxOccurences::Unbounded) || (*bound matches Some(
                MaxOccurences::Number(n),
            ) && n > 1)),
    {
        match bound {
            Some(MaxOccurences::Unbounded) => true,
            Some(MaxOccurences::Number(n)) => *n > 1,
            None => false,
        }
    }
}

impl Element {
    fn wire_name(&self) -> (r: Result<String, SchemaError>)
        ensures
            outcome(r) == element_name(self@),
    {
        if !self.name.as_str().is_empty() {
            return Ok(self.name.clone());
        }
        match &self.refers {
            None => Ok(self.name.clone()),
            Some(reference) => match split_qualified_name(reference.as_str()) {
                None => Err(SchemaError::UnresolvedType { reference: reference.clone() }),
                Some((_, local)) => Ok(local.to_owned()),
            },
        }
    }

    fn cardinality(&self) -> (r: Cardinality)
        ensures
            r == cardinality_of(self@.min_occurences, self@.max_occurences),
    {
        if MaxOccurences::more_than_one(&self.max_occurences) {
            Cardinality::Many
        } else {
            match self.min_occurences {
                Some(min) => if min == 0 {
                    Cardinality::Optional
                } else {
                    Cardinality::One
                },
                None => Cardinality::One,
            }
        }
    }

    fn type_reference(&self, context: &XsdContext, name: &str) -> (r: Result<
        TypeReference,
        SchemaError,
    >)
        ensures
            outcome(r) == element_type(self@, context@, name@),
    {
        match &self.complex_type {
            Some(complex_type) => {
                let hoisted = to_type_name(name);
                complex_type.get_integrated_implementation(hoisted.as_str())
            },
            None => match &self.simple_type {
                Some(simple_type) => simple_type.get_type_implementation(context, name),
                None => match &self.kind {
                    Some(kind) => resolve_type(context, kind.as_str()),
                    None => match &self.refers {
                        Some(reference) => resolve_type(context, reference.as_str()),
                        None => Err(SchemaError::MissingType { construct: name.to_owned() }),
                    },
                },
            },
        }
    }

    /// Gives the field that stands for the element in the type that holds
    /// it.
    pub fn get_field_implementation(&self, context: &XsdContext, prefix: &Option<String>) -> (r:
        Result<Field, SchemaError>)
        ensures
            outcome(r) == element_field(self@, context@, prefix.deep_view()),
    {
        let wire_name = match self.wire_name() {
            Err(fault) => {
                return Err(fault);
            },
            Ok(wire_name) => wire_name,
        };
        let name = to_field_name(wire_name.as_str());
        if !is_valid_identifier(name.as_str()) {
            return Err(SchemaError::InvalidName { name: wire_name });
        }
        let base = match self.type_reference(context, wire_name.as_str()) {
            Err(fault) => {
                return Err(fault);
            },
            Ok(base) => base,
        };
        Ok(
            Field {
                name,
                kind: FieldType {
                    base,
                    indirected: self.recursive,
                    cardinality: self.cardinality(),
                },
                serialization: Serialization::Element { wire_name, prefix: copy_text(prefix) },
            },
        )
    }

    fn hoist(
        &self,
        complex_type: &ComplexType,
        namespace_definition: &Option<Namespace>,
        prefix: &Option<String>,
        context: &XsdContext,
    ) -> (r: Result<TypeDefinition, SchemaError>)
        ensures
            outcome(r) == hoisted_definition(
                self@,
                complex_type@,
                namespace_definition.deep_view(),
                prefix.deep_view(),
                context@,
            ),
    {
        let wire_name = match self.wire_name() {
            Err(fault) => {
                return Err(fault);
            },
            Ok(wire_name) => wire_name,
        };
        let name = to_type_name(wire_name.as_str());
        if !is_valid_identifier(name.as_str()) {
            return Err(SchemaError::InvalidName { name: wire_name });
        }
        let fields = match complex_type.get_field_implementation(context, prefix) {
            Err(fault) => {
                return Err(fault);
            },
            Ok(fields) => fields,
        };
        Ok(
            TypeDefinition {
                name,
                documentation: implement_annotation(&self.annotation),
                namespace: copy_namespace(namespace_definition),
                fields,
            },
        )
    }

    /// Gives the definitions to emit beside the type that holds the
    /// element.
    pub fn get_subtypes_implementation(
        &self,
        namespace_definition: &Option<Namespace>,
        prefix: &Option<String>,
        context: &XsdContext,
    ) -> (r: Result<Vec<TypeDefinition>, SchemaError>)
        ensures
            outcome(r) == element_sub_types(
                self@,
                namespace_definition.deep_view(),
                prefix.deep_view(),
                context@,
            ),
        decreases self,
    {
        let mut sub_types: Vec<TypeDefinition> = Vec::new();
        let complex_type = match &self.complex_type {
            None => {
                assert(sub_types.deep_view() =~= Seq::empty());
                return Ok(sub_types);
            },
            Some(complex_type) => complex_type,
        };
        let definition = match self.hoist(complex_type, namespace_definition, prefix, context) {
            Err(fault) => {
                return Err(fault);
            },
            Ok(definition) => definition,
        };
        sub_types.push(definition);
        assert(sub_types.deep_view() =~= seq![definition@]);
        match &complex_type.sequence {
            None => {
                assert(seq![definition@] + Seq::<TypeDefinitionView>::empty() =~= seq![
                    definition@,
                ]);
            },
            Some(sequence) => {
                let mut nested = match sequence.get_sub_types_implementation(
                    context,
                    namespace_definition,
                    prefix,
                ) {
                    Err(fault) => {
                        return Err(fault);
                    },
                    Ok(nested) => nested,
                };
                let ghost tail = nested.deep_view();
                sub_types.append(&mut nested);
                assert(sub_types.deep_view() =~= seq![definition@] + tail);
            },
        }
        Ok(sub_types)
    }
}

impl Implementation for Element {
    type Fragment = Field;

    /// The field of the element.
    open spec fn fragment(
        &self,
        namespace: Option<NamespaceView>,
        prefix: Option<Seq<char>>,
        context: XsdContextView,
    ) -> Result<FieldView, SchemaErrorView> {
        element_field(self@, context, prefix)
    }

    fn implement(
        &self,
        namespace_definition: &Option<Namespace>,
        prefix: &Option<String>,
        context: &XsdContext,
    ) -> (r: Result<Field, SchemaError>)
        ensures
            outcome(r) == element_field(self@, context@, prefix.deep_view()),
    {
        self.get_field_implementation(context, prefix)
    }
}

} // verus!
