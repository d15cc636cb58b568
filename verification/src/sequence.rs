//! Sequences: the ordered content of a complex type.

use crate::binding::{
    Field, FieldView, Namespace, NamespaceView, TypeDefinition, TypeDefinitionView,
};
use crate::context::{XsdContext, XsdContextView};
use crate::element::{
    copy_element, element_field, element_sub_types, element_view, Element, ElementView,
};
use crate::error::{outcome, SchemaError, SchemaErrorView};
use crate::gather::{gather, lemma_gather_fault, lemma_gather_next, single};
use crate::implementation::Implementation;
use vstd::prelude::*;

verus! {

/// An ordered list of elements.
#[derive(Debug, PartialEq, Eq)]
pub struct Sequence {
    pub elements: Vec<Element>,
}

/// The view of a sequence.
pub struct SequenceView {
    pub elements: Seq<ElementView>,
}

/// The view of a sequence: the views of its elements, in their order.
pub open spec fn sequence_view(sequence: Sequence) -> SequenceView
    decreases sequence,
{
    SequenceView {
        elements: Seq::new(
            sequence.elements@.len(),
            |i: int|
                if 0 <= i < sequence.elements@.len() {
                    element_view(sequence.elements@[i])
                } else {
                    arbitrary()
                },
        ),
    }
}

impl View for Sequence {
    type V = SequenceView;

    open spec fn view(&self) -> SequenceView {
        sequence_view(*self)
    }
}

impl DeepView for Sequence {
    type V = SequenceView;

    open spec fn deep_view(&self) -> SequenceView {
        sequence_view(*self)
    }
}

/// The view of a sequence holds the views of its elements.
pub proof fn lemma_sequence_view(sequence: Sequence)
    ensures
        sequence@.elements == sequence.elements.deep_view(),
        sequence@.elements.len() == sequence.elements@.len(),
        forall|i: int|
            0 <= i < sequence.elements@.len() ==> #[trigger] sequence@.elements[i]
                == sequence.elements@[i]@,
{
}

/// A copy of a sequence, with all that is nested in it.
pub(crate) fn copy_sequence(sequence: &Sequence) -> (copy: Sequence)
    ensures
        copy@ == sequence@,
    decreases sequence,
{
    let mut elements: Vec<Element> = Vec::new();
    let mut i: usize = 0;
    while i < sequence.elements.len()
        invariant
            i <= sequence.elements.len(),
            elements.len() == i,
            forall|j: int| 0 <= j < i ==> elements@[j]@ == sequence.elements@[j]@,
        decreases sequence.elements.len() - i,
    {
        elements.push(copy_element(&sequence.elements[i]));
        i += 1;
    }
    let copy = Sequence { elements };
    proof {
        lemma_sequence_view(copy);
        lemma_sequence_view(*sequence);
        assert(copy@.elements =~= sequence@.elements);
    }
    copy
}

impl Default for Sequence {
    /// A sequence without elements.
    fn default() -> (empty: Self)
        ensures
            empty@ == (SequenceView { elements: Seq::empty() }),
    {
        let empty = Sequence { elements: Vec::new() };
        assert(empty@.elements =~= Seq::empty());
        empty
    }
}

impl Clone for Sequence {
    fn clone(&self) -> (copy: Self)
        ensures
            copy@ == self@,
    {
        copy_sequence(self)
    }
}

/// The fields of a sequence: one for each element, in the order of the
/// elements.
pub open spec fn sequence_fields(
    sequence: SequenceView,
    context: XsdContextView,
    prefix: Option<Seq<char>>,
) -> Result<Seq<FieldView>, SchemaErrorView> {
    gather(
        Seq::new(
            sequence.elements.len(),
            |i: int| single(element_field(sequence.elements[i], context, prefix)),
        ),
    )
}

/// What each element of a sequence gives to hoist, in the order of the
/// elements.
pub open spec fn sub_type_parts(
    sequence: SequenceView,
    namespace: Option<NamespaceView>,
    prefix: Option<Seq<char>>,
    context: XsdContextView,
) -> Seq<Result<Seq<TypeDefinitionView>, SchemaErrorView>>
    decreases sequence,
{
    Seq::new(
        sequence.elements.len(),
        |i: int|
            if 0 <= i < sequence.elements.len() {
                element_sub_types(sequence.elements[i], namespace, prefix, context)
            } else {
                arbitrary()
            },
    )
}

/// The definitions hoisted out of the elements of a sequence, in the order
/// of the elements.
pub open spec fn sequence_sub_types(
    sequence: SequenceView,
    namespace: Option<NamespaceView>,
    prefix: Option<Seq<char>>,
    context: XsdContextView,
) -> Result<Seq<TypeDefinitionView>, SchemaErrorView> {
    gather(sub_type_parts(sequence, namespace, prefix, context))
}

/// Each part of what a sequence gives to hoist is what the element at its
/// place gives.
pub proof fn lemma_sub_type_parts(
    sequence: SequenceView,
    namespace: Option<NamespaceView>,
    prefix: Option<Seq<char>>,
    context: XsdContextView,
)
    ensures
        sub_type_parts(sequence, namespace, prefix, context).len() == sequence.elements.len(),
        forall|i: int|
            0 <= i < sequence.elements.len() ==> #[trigger] sub_type_parts(
                sequence,
                namespace,
                prefix,
                context,
            )[i] == element_sub_types(sequence.elements[i], namespace, prefix, context),
{
}

impl Sequence {
    /// Gives the fields that the sequence adds to the type that holds it.
    pub fn get_field_implementation(&self, context: &XsdContext, prefix: &Option<String>) -> (r:
        Result<Vec<Field>, SchemaError>)
        ensures
            outcome(r) == sequence_fields(self@, context@, prefix.deep_view()),
    {
        let ghost parts = Seq::new(
            self@.elements.len(),
            |i: int| single(element_field(self@.elements[i], context@, prefix.deep_view())),
        );
        let mut fields: Vec<Field> = Vec::new();
        let mut i: usize = 0;
        proof {
            lemma_sequence_view(*self);
            assert(fields.deep_view() =~= Seq::empty());
        }
        while i < self.elements.len()
            invariant
                i <= self.elements.len(),
                parts.len() == self.elements.len(),
                parts == Seq::new(
                    self@.elements.len(),
                    |i: int| single(element_field(self@.elements[i], context@, prefix.deep_view())),
                ),
                gather(parts.take(i as int)) == Ok::<Seq<FieldView>, SchemaErrorView>(
                    fields.deep_view(),
                ),
            decreases self.elements.len() - i,
        {
            proof {
                lemma_sequence_view(*self);
                lemma_gather_next(parts, i as int);
            }
            let ghost before = fields.deep_view();
            match self.elements[i].get_field_implementation(context, prefix) {
                Err(fault) => {
                    proof {
                        lemma_gather_fault(parts, i + 1);
                    }
                    return Err(fault);
                },
                Ok(field) => {
                    fields.push(field);
                    assert(fields.deep_view() =~= before + seq![field@]);
                },
            }
            i += 1;
        }
        assert(parts.take(self.elements.len() as int) =~= parts);
        Ok(fields)
    }

    /// Gives the definitions to emit beside the type that holds the
    /// sequence: those hoisted out of its elements.
    pub fn get_sub_types_implementation(
        &self,
        context: &XsdContext,
        namespace_definition: &Option<Namespace>,
        prefix: &Option<String>,
    ) -> (r: Result<Vec<TypeDefinition>, SchemaError>)
        ensures
            outcome(r) == sequence_sub_types(
                self@,
                namespace_definition.deep_view(),
                prefix.deep_view(),
                context@,
            ),
        decreases self,
    {
        let ghost parts = sub_type_parts(
            self@,
            namespace_definition.deep_view(),
            prefix.deep_view(),
            context@,
        );
        let mut sub_types: Vec<TypeDefinition> = Vec::new();
        let mut i: usize = 0;
        proof {
            lemma_sequence_view(*self);
            lemma_sub_type_parts(
                self@,
                namespace_definition.deep_view(),
                prefix.deep_view(),
                context@,
            );
            assert(sub_types.deep_view() =~= Seq::empty());
        }
        while i < self.elements.len()
            invariant
                i <= self.elements.len(),
                parts.len() == self.elements.len(),
                parts == sub_type_parts(
                    self@,
                    namespace_definition.deep_view(),
                    prefix.deep_view(),
                    context@,
                ),
                gather(parts.take(i as int)) == Ok::<Seq<TypeDefinitionView>, SchemaErrorView>(
                    sub_types.deep_view(),
                ),
            decreases self.elements.len() - i,
        {
            proof {
                lemma_sequence_view(*self);
                lemma_sub_type_parts(
                    self@,
                    namespace_definition.deep_view(),
                    prefix.deep_view(),
                    context@,
                );
                lemma_gather_next(parts, i as int);
            }
            let ghost before = sub_types.deep_view();
            match self.elements[i].get_subtypes_implementation(
                namespace_definition,
                prefix,
                context,
            ) {
                Err(fault) => {
                    proof {
                        lemma_gather_fault(parts, i + 1);
                    }
                    return Err(fault);
                },
                Ok(hoisted) => {
                    let mut hoisted = hoisted;
                    let ghost tail = hoisted.deep_view();
                    sub_types.append(&mut hoisted);
                    assert(sub_types.deep_view() =~= before + tail);
                },
            }
            i += 1;
        }
        assert(parts.take(self.elements.len() as int) =~= parts);
        Ok(sub_types)
    }
}

impl Implementation for Sequence {
    type Fragment = Vec<Field>;

    /// The fields of the sequence.
    open spec fn fragment(
        &self,
        namespace: Option<NamespaceView>,
        prefix: Option<Seq<char>>,
        context: XsdContextView,
    ) -> Result<Seq<FieldView>, SchemaErrorView> {
        sequence_fields(self@, context, prefix)
    }

    fn implement(
        &self,
        namespace_definition: &Option<Namespace>,
        prefix: &Option<String>,
        context: &XsdContext,
    ) -> (r: Result<Vec<Field>, SchemaError>)
        ensures
            outcome(r) == sequence_fields(self@, context@, prefix.deep_view()),
    {
        self.get_field_implementation(context, prefix)
    }
}

} // verus!
