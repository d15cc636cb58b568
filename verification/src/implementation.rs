//! What every construct of the schema model can do: give its part of the
//! emitted definitions.

use crate::binding::{Namespace, NamespaceView};
use crate::context::{XsdContext, XsdContextView};
use crate::error::{outcome, SchemaError, SchemaErrorView};
use vstd::prelude::*;

verus! {

/// A construct of the schema that has a part in the emitted definitions.
/// The part is a function of the construct, of the namespace of the
/// emitted types, of the prefix under which fields are written on the wire,
/// and of the context of the schema, and of nothing else.
pub trait Implementation {
    /// What the construct gives: definitions, fields or documentation.
    type Fragment: DeepView;

    /// The part of the construct, or the fault found in it.
    spec fn fragment(
        &self,
        namespace: Option<NamespaceView>,
        prefix: Option<Seq<char>>,
        context: XsdContextView,
    ) -> Result<<Self::Fragment as DeepView>::V, SchemaErrorView>;

    /// Gives the part of the construct.
    fn implement(
        &self,
        namespace_definition: &Option<Namespace>,
        prefix: &Option<String>,
        context: &XsdContext,
    ) -> (r: Result<Self::Fragment, SchemaError>)
        ensures
            outcome(r) == self.fragment(
                namespace_definition.deep_view(),
                prefix.deep_view(),
                context@,
            ),
    ;
}

} // verus!
