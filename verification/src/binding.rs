//! The emitted definitions: types, their fields, and how each field is
//! written on the wire.

use vstd::prelude::*;

verus! {

/// A Rust type that stands for a built-in type of XML Schema.
#[derive(Clone, Copy, Debug, PartialEq, Eq)]
pub enum Primitive {
    Text,
    Boolean,
    I8,
    U8,
    I16,
    U16,
    I32,
    U32,
    I64,
    U64,
    Single,
    Double,
}

/// The type of one value of a field, before any wrapper.
#[derive(Clone, Debug, PartialEq, Eq)]
pub enum TypeReference {
    Primitive(Primitive),
    /// A named type of the schema, by its Rust name.
    Declared(String),
    /// A definition emitted beside the type that holds the field.
    Hoisted(String),
}

/// The view of a type reference.
pub enum TypeReferenceView {
    Primitive(Primitive),
    Declared(Seq<char>),
    Hoisted(Seq<char>),
}

impl View for TypeReference {
    type V = TypeReferenceView;

    open spec fn view(&self) -> TypeReferenceView {
        match *self {
            TypeReference::Primitive(p) => TypeReferenceView::Primitive(p),
            TypeReference::Declared(name) => TypeReferenceView::Declared(name@),
            TypeReference::Hoisted(name) => TypeReferenceView::Hoisted(name@),
        }
    }
}

impl DeepView for TypeReference {
    type V = TypeReferenceView;

    open spec fn deep_view(&self) -> TypeReferenceView {
        self@
    }
}

/// How many values a field holds.
#[derive(Clone, Copy, Debug, PartialEq, Eq)]
pub enum Cardinality {
    /// Exactly one: the type itself.
    One,
    /// None or one: an optional wrapper.
    Optional,
    /// Any number: an ordered collection.
    Many,
}

/// The type of a field: a reference, behind an owned indirection where the
/// field refers to the type that holds it, inside the wrapper that its
/// cardinality asks for.
#[derive(Clone, Debug, PartialEq, Eq)]
pub struct FieldType {
    pub base: TypeReference,
    pub indirected: bool,
    pub cardinality: Cardinality,
}

/// The view of the type of a field.
pub struct FieldTypeView {
    pub base: TypeReferenceView,
    pub indirected: bool,
    pub cardinality: Cardinality,
}

impl View for FieldType {
    type V = FieldTypeView;

    open spec fn view(&self) -> FieldTypeView {
        FieldTypeView {
            base: self.base@,
            indirected: self.indirected,
            cardinality: self.cardinality,
        }
    }
}

impl DeepView for FieldType {
    type V = FieldTypeView;

    open spec fn deep_view(&self) -> FieldTypeView {
        self@
    }
}

/// How a field is written on the wire.
#[derive(Clone, Debug, PartialEq, Eq)]
pub enum Serialization {
    /// A child element, under the name that the schema gives it, with the
    /// prefix of the invocation if there is one.
    Element { wire_name: String, prefix: Option<String> },
    /// An attribute, under the name that the schema gives it.
    Attribute { wire_name: String },
    /// The text of the element itself.
    Text,
    /// The fields of the value are written as fields of the holder.
    Flatten,
}

/// The view of the way a field is written on the wire.
pub enum SerializationView {
    Element { wire_name: Seq<char>, prefix: Option<Seq<char>> },
    Attribute { wire_name: Seq<char> },
    Text,
    Flatten,
}

impl View for Serialization {
    type V = SerializationView;

    open spec fn view(&self) -> SerializationView {
        match *self {
            Serialization::Element { wire_name, prefix } => SerializationView::Element {
                wire_name: wire_name@,
                prefix: prefix.deep_view(),
            },
            Serialization::Attribute { wire_name } => SerializationView::Attribute {
                wire_name: wire_name@,
            },
            Serialization::Text => SerializationView::Text,
            Serialization::Flatten => SerializationView::Flatten,
        }
    }
}

impl DeepView for Serialization {
    type V = SerializationView;

    open spec fn deep_view(&self) -> SerializationView {
        self@
    }
}

/// One field of an emitted type.
#[derive(Clone, Debug, PartialEq, Eq)]
pub struct Field {
    pub name: String,
    pub kind: FieldType,
    pub serialization: Serialization,
}

/// The view of a field.
pub struct FieldView {
    pub name: Seq<char>,
    pub kind: FieldTypeView,
    pub serialization: SerializationView,
}

impl View for Field {
    type V = FieldView;

    open spec fn view(&self) -> FieldView {
        FieldView { name: self.name@, kind: self.kind@, serialization: self.serialization@ }
    }
}

impl DeepView for Field {
    type V = FieldView;

    open spec fn deep_view(&self) -> FieldView {
        self@
    }
}

/// The namespace that the emitted types are bound to.
#[derive(Clone, Debug, PartialEq, Eq)]
pub struct Namespace {
    pub prefix: String,
    pub uri: String,
}

/// The view of a namespace.
pub struct NamespaceView {
    pub prefix: Seq<char>,
    pub uri: Seq<char>,
}

impl View for Namespace {
    type V = NamespaceView;

    open spec fn view(&self) -> NamespaceView {
        NamespaceView { prefix: self.prefix@, uri: self.uri@ }
    }
}

impl DeepView for Namespace {
    type V = NamespaceView;

    open spec fn deep_view(&self) -> NamespaceView {
        self@
    }
}

/// A copy of a namespace that may be absent.
pub(crate) fn copy_namespace(namespace: &Option<Namespace>) -> (copy: Option<Namespace>)
    ensures
        copy.deep_view() == namespace.deep_view(),
{
    match namespace {
        Some(namespace) => Some(
            Namespace { prefix: namespace.prefix.clone(), uri: namespace.uri.clone() },
        ),
        None => None,
    }
}

/// What every emitted type can do.
#[derive(Clone, Copy, Debug, PartialEq, Eq)]
pub enum Capability {
    Clone,
    Debug,
    Default,
    PartialEq,
    Deserialize,
    Serialize,
}

/// One emitted type.
#[derive(Clone, Debug, PartialEq, Eq)]
pub struct TypeDefinition {
    pub name: String,
    pub documentation: Vec<String>,
    pub namespace: Option<Namespace>,
    pub fields: Vec<Field>,
}

/// The view of an emitted type.
pub struct TypeDefinitionView {
    pub name: Seq<char>,
    pub documentation: Seq<Seq<char>>,
    pub namespace: Option<NamespaceView>,
    pub fields: Seq<FieldView>,
}

impl View for TypeDefinition {
    type V = TypeDefinitionView;

    open spec fn view(&self) -> TypeDefinitionView {
        TypeDefinitionView {
            name: self.name@,
            documentation: self.documentation.deep_view(),
            namespace: self.namespace.deep_view(),
            fields: self.fields.deep_view(),
        }
    }
}

impl DeepView for TypeDefinition {
    type V = TypeDefinitionView;

    open spec fn deep_view(&self) -> TypeDefinitionView {
        self@
    }
}

/// What one complex type gives: its own definition, then those of the
/// anonymous types nested in it.
#[derive(Clone, Debug, PartialEq, Eq)]
pub struct Definitions {
    pub primary: TypeDefinition,
    pub sub_types: Vec<TypeDefinition>,
}

/// The view of what one complex type gives.
pub struct DefinitionsView {
    pub primary: TypeDefinitionView,
    pub sub_types: Seq<TypeDefinitionView>,
}

impl View for Definitions {
    type V = DefinitionsView;

    open spec fn view(&self) -> DefinitionsView {
        DefinitionsView { primary: self.primary@, sub_types: self.sub_types.deep_view() }
    }
}

impl DeepView for Definitions {
    type V = DefinitionsView;

    open spec fn deep_view(&self) -> DefinitionsView {
        self@
    }
}

/// The capabilities of an emitted type, in the order in which they are
/// written.
pub open spec fn derived_capabilities() -> Seq<Capability> {
    seq![
        Capability::Clone,
        Capability::Debug,
        Capability::Default,
        Capability::PartialEq,
        Capability::Deserialize,
        Capability::Serialize,
    ]
}

impl TypeDefinition {
    /// A copy, equality and a default value, besides reading from and
    /// writing to XML: the same for every emitted type.
    pub fn capabilities(&self) -> (list: Vec<Capability>)
        ensures
            list@ == derived_capabilities(),
    {
        let mut list: Vec<Capability> = Vec::new();
        list.push(Capability::Clone);
        list.push(Capability::Debug);
        list.push(Capability::Default);
        list.push(Capability::PartialEq);
        list.push(Capability::Deserialize);
        list.push(Capability::Serialize);
        list
    }
}

} // verus!
