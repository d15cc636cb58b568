//! The context of a schema: what its header binds.

use crate::error::ContextError;
use crate::text::same_text;
use vstd::prelude::*;

verus! {

/// A prefix bound to a namespace.
#[derive(Clone, Debug, PartialEq, Eq)]
pub struct NamespaceBinding {
    pub prefix: String,
    pub uri: String,
}

/// The view of a binding.
pub struct NamespaceBindingView {
    pub prefix: Seq<char>,
    pub uri: Seq<char>,
}

impl View for NamespaceBinding {
    type V = NamespaceBindingView;

    open spec fn view(&self) -> NamespaceBindingView {
        NamespaceBindingView { prefix: self.prefix@, uri: self.uri@ }
    }
}

impl DeepView for NamespaceBinding {
    type V = NamespaceBindingView;

    open spec fn deep_view(&self) -> NamespaceBindingView {
        self@
    }
}

/// The start of an element of the schema document: its name, taken apart,
/// and the bindings in force at it.
#[derive(Clone, Debug, PartialEq, Eq)]
pub struct StartElement {
    pub prefix: Option<String>,
    pub namespace: Option<String>,
    pub local_name: String,
    pub bindings: Vec<NamespaceBinding>,
}

/// The view of the start of an element.
pub struct StartElementView {
    pub prefix: Option<Seq<char>>,
    pub namespace: Option<Seq<char>>,
    pub local_name: Seq<char>,
    pub bindings: Seq<NamespaceBindingView>,
}

impl View for StartElement {
    type V = StartElementView;

    open spec fn view(&self) -> StartElementView {
        StartElementView {
            prefix: self.prefix.deep_view(),
            namespace: self.namespace.deep_view(),
            local_name: self.local_name@,
            bindings: self.bindings.deep_view(),
        }
    }
}

impl DeepView for StartElement {
    type V = StartElementView;

    open spec fn deep_view(&self) -> StartElementView {
        self@
    }
}

/// What is read once from the header of a schema and then only looked up:
/// the prefix that the document gives to XML Schema itself, and the
/// bindings of its root element.
#[derive(Clone, Debug, PartialEq, Eq)]
pub struct XsdContext {
    pub xml_schema_prefix: Option<String>,
    pub namespaces: Vec<NamespaceBinding>,
}

/// The view of a context.
pub struct XsdContextView {
    pub xml_schema_prefix: Option<Seq<char>>,
    pub namespaces: Seq<NamespaceBindingView>,
}

impl View for XsdContext {
    type V = XsdContextView;

    open spec fn view(&self) -> XsdContextView {
        XsdContextView {
            xml_schema_prefix: self.xml_schema_prefix.deep_view(),
            namespaces: self.namespaces.deep_view(),
        }
    }
}

impl DeepView for XsdContext {
    type V = XsdContextView;

    open spec fn deep_view(&self) -> XsdContextView {
        self@
    }
}

/// The namespace of XML Schema.
pub open spec fn xml_schema_namespace() -> Seq<char> {
    "http://www.w3.org/2001/XMLSchema"@
}

/// Whether an element is the root of a schema: `schema`, in the namespace
/// of XML Schema.
pub open spec fn is_schema_root(element: StartElementView) -> bool {
    element.namespace == Some(xml_schema_namespace()) && element.local_name == "schema"@
}

/// The context that a root element gives.
pub open spec fn context_of(root: StartElementView) -> XsdContextView {
    XsdContextView { xml_schema_prefix: root.prefix, namespaces: root.bindings }
}

/// The namespace bound to `prefix` by the first of `bindings` that binds it.
pub open spec fn bound_namespace(bindings: Seq<NamespaceBindingView>, prefix: Seq<char>) -> Option<
    Seq<char>,
> {
    if exists|i: int| 0 <= i < bindings.len() && bindings[i].prefix == prefix {
        let first = choose|i: int|
            0 <= i < bindings.len() && bindings[i].prefix == prefix && forall|j: int|
                0 <= j < i ==> bindings[j].prefix != prefix;
        Some(bindings[first].uri)
    } else {
        None
    }
}

fn schema_root(element: &StartElement) -> (r: bool)
    ensures
        r == is_schema_root(element@),
{
    match &element.namespace {
        Some(namespace) => same_text(namespace.as_str(), "http://www.w3.org/2001/XMLSchema")
            && same_text(element.local_name.as_str(), "schema"),
        None => false,
    }
}

fn copy_bindings(bindings: &Vec<NamespaceBinding>) -> (copy: Vec<NamespaceBinding>)
    ensures
        copy.deep_view() == bindings.deep_view(),
{
    let mut copy: Vec<NamespaceBinding> = Vec::new();
    let mut i: usize = 0;
    while i < bindings.len()
        invariant
            i <= bindings.len(),
            copy.len() == i,
            forall|j: int| 0 <= j < i ==> copy@[j]@ == bindings@[j]@,
        decreases bindings.len() - i,
    {
        copy.push(
            NamespaceBinding { prefix: bindings[i].prefix.clone(), uri: bindings[i].uri.clone() },
        );
        i += 1;
    }
    copy
}

impl XsdContext {
    /// Makes the context from the elements that the schema document opens,
    /// in their order: that of the first one that is a schema root. Without
    /// such an element there is no context.
    pub fn new(elements: &Vec<StartElement>) -> (r: Result<XsdContext, ContextError>)
        ensures
            r is Ok <==> exists|i: int|
                0 <= i < elements.len() && is_schema_root(#[trigger] elements@[i]@),
            r matches Ok(context) ==> exists|i: int|
                0 <= i < elements.len() && is_schema_root(#[trigger] elements@[i]@) && context@
                    == context_of(elements@[i]@) && forall|j: int|
                    0 <= j < i ==> !is_schema_root(#[trigger] elements@[j]@),
            r matches Err(fault) ==> fault == ContextError::MissingSchemaElement,
    {
        let mut i: usize = 0;
        while i < elements.len()
            invariant
                i <= elements.len(),
                forall|j: int| 0 <= j < i ==> !is_schema_root(#[trigger] elements@[j]@),
            decreases elements.len() - i,
        {
            if schema_root(&elements[i]) {
                let element = &elements[i];
                let context = XsdContext {
                    xml_schema_prefix: match &element.prefix {
                        Some(prefix) => Some(prefix.clone()),
                        None => None,
                    },
                    namespaces: copy_bindings(&element.bindings),
                };
                return Ok(context);
            }
            i += 1;
        }
        Err(ContextError::MissingSchemaElement)
    }

    /// Tells whether the document gives XML Schema a prefix.
    pub fn has_xml_schema_prefix(&self) -> (r: bool)
        ensures
            r == self@.xml_schema_prefix.is_some(),
    {
        self.xml_schema_prefix.is_some()
    }

    /// Tells whether `value` is the prefix that the document gives to XML
    /// Schema.
    pub fn match_xml_schema_prefix(&self, value: &str) -> (r: bool)
        ensures
            r == (self@.xml_schema_prefix == Some(value@)),
    {
        match &self.xml_schema_prefix {
            Some(prefix) => same_text(prefix.as_str(), value),
            None => false,
        }
    }

    /// Looks up the namespace that the header binds to `prefix`.
    pub fn namespace_of(&self, prefix: &str) -> (uri: Option<String>)
        ensures
            uri.deep_view() == bound_namespace(self@.namespaces, prefix@),
    {
        let mut i: usize = 0;
        while i < self.namespaces.len()
            invariant
                i <= self.namespaces.len(),
                forall|j: int| 0 <= j < i ==> self.namespaces@[j]@.prefix != prefix@,
            decreases self.namespaces.len() - i,
        {
            if same_text(self.namespaces[i].prefix.as_str(), prefix) {
                let uri = self.namespaces[i].uri.clone();
                proof {
                    let bindings = self@.namespaces;
                    assert(bindings[i as int] == self.namespaces@[i as int]@);
                }
                return Some(uri);
            }
            i += 1;
        }
        None
    }
}

} // verus!
