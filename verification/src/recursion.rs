//! Finding the elements of a type that refer to the type itself.

use crate::element::{Element, ElementView};
use crate::sequence::{lemma_sequence_view, Sequence, SequenceView};
use crate::text::same_text;
use vstd::prelude::*;

verus! {

/// Whether an element refers, by the name of its type, to the type named
/// `name`. Only the name is looked at: a cycle through another type is not
/// found.
pub open spec fn refers_to(element: ElementView, name: Seq<char>) -> bool {
    element.kind == Some(name)
}

/// The element, marked recursive if it refers to the type named `name`.
pub open spec fn marked_element(element: ElementView, name: Seq<char>) -> ElementView {
    if refers_to(element, name) {
        ElementView { recursive: true, ..element }
    } else {
        element
    }
}

/// The sequence, with each element marked that refers to the type named
/// `name`.
pub open spec fn marked_sequence(sequence: SequenceView, name: Seq<char>) -> SequenceView {
    SequenceView {
        elements: Seq::new(
            sequence.elements.len(),
            |i: int| marked_element(sequence.elements[i], name),
        ),
    }
}

fn names_type(element: &Element, name: &str) -> (r: bool)
    ensures
        r == refers_to(element@, name@),
{
    match &element.kind {
        Some(kind) => same_text(kind.as_str(), name),
        None => false,
    }
}

/// Marks as recursive every element of the sequence of the type named
/// `name` whose type is that type itself. A field cannot hold a value of
/// the type that holds it: the field of a marked element is put behind an
/// indirection. Nothing else in the sequence changes, and no input makes
/// this fail.
pub fn mark_recursive(name: &str, sequence: &mut Sequence)
    ensures
        final(sequence)@ == marked_sequence(old(sequence)@, name@),
{
    let n: usize = sequence.elements.len();
    let mut i: usize = 0;
    while i < n
        invariant
            i <= n,
            n == sequence.elements.len(),
            n == old(sequence).elements.len(),
            forall|j: int|
                0 <= j < i ==> (#[trigger] sequence.elements@[j])@ == marked_element(
                    old(sequence).elements@[j]@,
                    name@,
                ),
            forall|j: int|
                i <= j < n ==> #[trigger] sequence.elements@[j] == old(sequence).elements@[j],
        decreases n - i,
    {
        if names_type(&sequence.elements[i], name) {
            sequence.elements[i].recursive = true;
        }
        i += 1;
    }
    proof {
        lemma_sequence_view(*sequence);
        lemma_sequence_view(*old(sequence));
        assert(sequence@.elements =~= marked_sequence(old(sequence)@, name@).elements);
    }
}

} // verus!
