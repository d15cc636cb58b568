//! Annotations: what the schema says of a construct in words.

use crate::binding::{Namespace, NamespaceView};
use crate::context::{XsdContext, XsdContextView};
use crate::error::{SchemaError, SchemaErrorView};
use crate::implementation::Implementation;
use crate::text::copy_texts;
use vstd::prelude::*;

verus! {

/// The documentation attached to a construct of the schema. It never changes
/// the shape of what is emitted.
#[derive(Debug, PartialEq, Eq)]
pub struct Annotation {
    pub documentation: Vec<String>,
}

/// The view of an annotation: its documentation as texts.
pub struct AnnotationView {
    pub documentation: Seq<Seq<char>>,
}

impl View for Annotation {
    type V = AnnotationView;

    open spec fn view(&self) -> AnnotationView {
        AnnotationView { documentation: self.documentation.deep_view() }
    }
}

impl DeepView for Annotation {
    type V = AnnotationView;

    open spec fn deep_view(&self) -> AnnotationView {
        self@
    }
}

impl Default for Annotation {
    /// An annotation without documentation.
    fn default() -> (empty: Self)
        ensures
            empty@ == (AnnotationView { documentation: Seq::empty() }),
    {
        let empty = Annotation { documentation: Vec::new() };
        assert(empty@.documentation =~= Seq::empty());
        empty
    }
}

impl Clone for Annotation {
    fn clone(&self) -> (copy: Self)
        ensures
            copy@ == self@,
    {
        Annotation { documentation: copy_texts(&self.documentation) }
    }
}

/// The documentation lines of an annotation that may be absent.
pub open spec fn documentation_of(annotation: Option<AnnotationView>) -> Seq<Seq<char>> {
    match annotation {
        Some(annotation) => annotation.documentation,
        None => Seq::empty(),
    }
}

/// Gives the documentation lines of an annotation that may be absent.
pub fn implement_annotation(annotation: &Option<Annotation>) -> (docs: Vec<String>)
    ensures
        docs.deep_view() == documentation_of(annotation.deep_view()),
{
    match annotation {
        Some(annotation) => copy_texts(&annotation.documentation),
        None => {
            let docs: Vec<String> = Vec::new();
            docs
        },
    }
}

impl Implementation for Annotation {
    type Fragment = Vec<String>;

    /// The documentation lines of the annotation, in their order: each
    /// becomes one doc comment of the emitted type.
    open spec fn fragment(
        &self,
        namespace: Option<NamespaceView>,
        prefix: Option<Seq<char>>,
        context: XsdContextView,
    ) -> Result<Seq<Seq<char>>, SchemaErrorView> {
        Ok(self@.documentation)
    }

    fn implement(
        &self,
        namespace_definition: &Option<Namespace>,
        prefix: &Option<String>,
        context: &XsdContext,
    ) -> (r: Result<Vec<String>, SchemaError>)
        ensures
            r matches Ok(docs) && docs.deep_view() == self@.documentation,
    {
        Ok(copy_texts(&self.documentation))
    }
}

} // verus!
