//! The emitted definitions as Rust source text.

use crate::binding::{
    derived_capabilities, Capability, Cardinality, Definitions, DefinitionsView, Field, FieldType,
    FieldTypeView, FieldView, Namespace, NamespaceView, Primitive, Serialization,
    SerializationView, TypeDefinition, TypeDefinitionView, TypeReference, TypeReferenceView,
};
use crate::text::same_text;
use vstd::prelude::*;
use vstd::string::*;

verus! {

/// How one character stands inside a string literal: a quote, a backslash,
/// a line feed, a carriage return and a tab are escaped, every other
/// character stands for itself.
pub open spec fn escaped_char(c: char) -> Seq<char> {
    if c == '"' {
        "\\\""@
    } else if c == '\\' {
        "\\\\"@
    } else if c == '\n' {
        "\\n"@
    } else if c == '\r' {
        "\\r"@
    } else if c == '\t' {
        "\\t"@
    } else {
        seq![c]
    }
}

/// The characters of a text as they stand inside a string literal.
pub open spec fn escaped(text: Seq<char>) -> Seq<char>
    decreases text.len(),
{
    if text.len() == 0 {
        Seq::empty()
    } else {
        escaped(text.drop_last()) + escaped_char(text.last())
    }
}

/// The string literal that denotes a text.
pub open spec fn string_literal(text: Seq<char>) -> Seq<char> {
    "\""@ + escaped(text) + "\""@
}

/// The character that an escape stands for, by the character after the
/// backslash.
pub open spec fn escape_denotes(c: char) -> Option<char> {
    if c == '"' {
        Some('"')
    } else if c == '\\' {
        Some('\\')
    } else if c == 'n' {
        Some('\n')
    } else if c == 'r' {
        Some('\r')
    } else if c == 't' {
        Some('\t')
    } else {
        None
    }
}

/// The text that the inside of a string literal denotes, read from the
/// front: an escape gives its character, any other character itself. A bare
/// quote, a bare carriage return, and a backslash without a known escape
/// after it denote nothing.
pub open spec fn denoted(body: Seq<char>) -> Option<Seq<char>>
    decreases body.len(),
{
    if body.len() == 0 {
        Some(Seq::empty())
    } else if body[0] == '\\' {
        if body.len() >= 2 && escape_denotes(body[1]) is Some {
            match denoted(body.skip(2)) {
                Some(rest) => Some(seq![escape_denotes(body[1])->0] + rest),
                None => None,
            }
        } else {
            None
        }
    } else if body[0] == '"' || body[0] == '\r' {
        None
    } else {
        match denoted(body.skip(1)) {
            Some(rest) => Some(seq![body[0]] + rest),
            None => None,
        }
    }
}

/// What two pieces denote, one after the other, where the first denotes a
/// text by itself.
pub proof fn lemma_denoted_concat(first: Seq<char>, second: Seq<char>)
    requires
        denoted(first) is Some,
    ensures
        denoted(first + second) == match denoted(second) {
            Some(rest) => Some(denoted(first)->0 + rest),
            None => None,
        },
    decreases first.len(),
{
    let whole = first + second;
    if first.len() == 0 {
    } else if first[0] == '\\' {
        assert(whole.skip(2) =~= first.skip(2) + second);
        lemma_denoted_concat(first.skip(2), second);
        if denoted(second) is Some {
            let head = seq![escape_denotes(first[1])->0];
            assert(head + (denoted(first.skip(2))->0 + denoted(second)->0) =~= (head + denoted(
                first.skip(2),
            )->0) + denoted(second)->0);
        }
    } else {
        assert(whole.skip(1) =~= first.skip(1) + second);
        lemma_denoted_concat(first.skip(1), second);
        if denoted(second) is Some {
            let head = seq![first[0]];
            assert(head + (denoted(first.skip(1))->0 + denoted(second)->0) =~= (head + denoted(
                first.skip(1),
            )->0) + denoted(second)->0);
        }
    }
}

/// One character, as it stands inside a string literal, denotes itself.
pub proof fn lemma_escaped_char_denotes_itself(c: char)
    ensures
        denoted(escaped_char(c)) == Some(seq![c]),
{
    reveal_strlit("\\\"");
    reveal_strlit("\\\\");
    reveal_strlit("\\n");
    reveal_strlit("\\r");
    reveal_strlit("\\t");
    reveal_with_fuel(denoted, 3);
}

/// A string literal denotes the text that it was written for: read back,
/// the characters between its quotes give that text, whatever quotes,
/// backslashes and line ends the text holds.
pub proof fn lemma_literal_denotes_its_text(text: Seq<char>)
    ensures
        denoted(escaped(text)) == Some(text),
    decreases text.len(),
{
    if text.len() > 0 {
        lemma_literal_denotes_its_text(text.drop_last());
        lemma_escaped_char_denotes_itself(text.last());
        lemma_denoted_concat(escaped(text.drop_last()), escaped_char(text.last()));
    }
}

/// The Rust name of a primitive.
pub open spec fn rendered_primitive(primitive: Primitive) -> Seq<char> {
    match primitive {
        Primitive::Text => "String"@,
        Primitive::Boolean => "bool"@,
        Primitive::I8 => "i8"@,
        Primitive::U8 => "u8"@,
        Primitive::I16 => "i16"@,
        Primitive::U16 => "u16"@,
        Primitive::I32 => "i32"@,
        Primitive::U32 => "u32"@,
        Primitive::I64 => "i64"@,
        Primitive::U64 => "u64"@,
        Primitive::Single => "f32"@,
        Primitive::Double => "f64"@,
    }
}

/// A named type of the schema is looked for in the module
/// `xml_schema_types`; a hoisted definition stands beside the type that
/// names it.
pub open spec fn rendered_reference(reference: TypeReferenceView) -> Seq<char> {
    match reference {
        TypeReferenceView::Primitive(primitive) => rendered_primitive(primitive),
        TypeReferenceView::Declared(name) => "xml_schema_types::"@ + name,
        TypeReferenceView::Hoisted(name) => name,
    }
}

/// The reference, in a `Box` where the field is indirected. A closing
/// angle bracket is followed by a space, so that it stays a token of its
/// own before another bracket or a comma.
pub open spec fn rendered_value(kind: FieldTypeView) -> Seq<char> {
    if kind.indirected {
        "Box<"@ + rendered_reference(kind.base) + "> "@
    } else {
        rendered_reference(kind.base)
    }
}

/// The type of a field: the value, in an `Option` or a `Vec` as its
/// cardinality asks.
pub open spec fn rendered_type(kind: FieldTypeView) -> Seq<char> {
    match kind.cardinality {
        Cardinality::One => rendered_value(kind),
        Cardinality::Optional => "Option<"@ + rendered_value(kind) + "> "@,
        Cardinality::Many => "Vec<"@ + rendered_value(kind) + "> "@,
    }
}

/// What the attribute `yaserde` of a field named `name` holds.
pub open spec fn rendered_serialization(serialization: SerializationView, name: Seq<char>) -> Seq<
    char,
> {
    match serialization {
        SerializationView::Element { wire_name, prefix } => match prefix {
            Some(prefix) => "rename = "@ + string_literal(wire_name) + ", prefix = "@
                + string_literal(prefix),
            None => "rename = "@ + string_literal(wire_name),
        },
        SerializationView::Attribute { wire_name } => if wire_name == name {
            "attribute"@
        } else {
            "attribute, rename = "@ + string_literal(wire_name)
        },
        SerializationView::Text => "text"@,
        SerializationView::Flatten => "flatten"@,
    }
}

/// One field: the attribute that says how it is written on the wire, then
/// its declaration.
pub open spec fn rendered_field(field: FieldView) -> Seq<char> {
    "#[yaserde("@ + rendered_serialization(field.serialization, field.name) + ")]\npub "@
        + field.name + ": "@ + rendered_type(field.kind) + ",\n"@
}

/// The fields, each on its lines, in their order.
pub open spec fn rendered_fields(fields: Seq<FieldView>) -> Seq<char>
    decreases fields.len(),
{
    if fields.len() == 0 {
        Seq::empty()
    } else {
        rendered_fields(fields.drop_last()) + rendered_field(fields.last())
    }
}

/// The documentation: one `doc` attribute for each line.
pub open spec fn rendered_documentation(lines: Seq<Seq<char>>) -> Seq<char>
    decreases lines.len(),
{
    if lines.len() == 0 {
        Seq::empty()
    } else {
        rendered_documentation(lines.drop_last()) + "#[doc = "@ + string_literal(lines.last())
            + "]\n"@
    }
}

/// The path of what an emitted type derives for a capability.
pub open spec fn rendered_capability(capability: Capability) -> Seq<char> {
    match capability {
        Capability::Clone => "Clone"@,
        Capability::Debug => "Debug"@,
        Capability::Default => "Default"@,
        Capability::PartialEq => "PartialEq"@,
        Capability::Deserialize => "yaserde_derive::YaDeserialize"@,
        Capability::Serialize => "yaserde_derive::YaSerialize"@,
    }
}

/// The capabilities, with a comma between one and the next.
pub open spec fn rendered_capabilities(capabilities: Seq<Capability>) -> Seq<char>
    decreases capabilities.len(),
{
    if capabilities.len() == 0 {
        Seq::empty()
    } else if capabilities.len() == 1 {
        rendered_capability(capabilities.last())
    } else {
        rendered_capabilities(capabilities.drop_last()) + ", "@ + rendered_capability(
            capabilities.last(),
        )
    }
}

/// The attribute that binds an emitted type to its namespace; nothing
/// without a namespace.
pub open spec fn rendered_namespace(namespace: Option<NamespaceView>) -> Seq<char> {
    match namespace {
        Some(namespace) => "#[yaserde(prefix = "@ + string_literal(namespace.prefix)
            + ", namespace = "@ + string_literal(namespace.prefix + ": "@ + namespace.uri)
            + ")]\n"@,
        None => Seq::empty(),
    }
}

/// One definition: its documentation, what it derives, its namespace, and
/// the struct with its fields in their order.
pub open spec fn rendered_definition(definition: TypeDefinitionView) -> Seq<char> {
    rendered_documentation(definition.documentation) + "#[derive("@ + rendered_capabilities(
        derived_capabilities(),
    ) + ")]\n"@ + rendered_namespace(definition.namespace) + "pub struct "@ + definition.name
        + " {\n"@ + rendered_fields(definition.fields) + "}\n"@
}

/// The definitions, one after the other.
pub open spec fn rendered_definitions(definitions: Seq<TypeDefinitionView>) -> Seq<char>
    decreases definitions.len(),
{
    if definitions.len() == 0 {
        Seq::empty()
    } else {
        rendered_definitions(definitions.drop_last()) + rendered_definition(definitions.last())
    }
}

/// The definition of a type, and then those hoisted out of it.
pub open spec fn rendered(definitions: DefinitionsView) -> Seq<char> {
    rendered_definition(definitions.primary) + rendered_definitions(definitions.sub_types)
}

fn write_literal(out: &mut String, text: &str)
    ensures
        final(out)@ == old(out)@ + string_literal(text@),
{
    out.append("\"");
    let n: usize = text.unicode_len();
    let mut i: usize = 0;
    while i < n
        invariant
            i <= n,
            n == text@.len(),
            out@ == old(out)@ + "\""@ + escaped(text@.take(i as int)),
        decreases n - i,
    {
        let c = text.get_char(i);
        assert(text@.take(i + 1).drop_last() =~= text@.take(i as int));
        if c == '"' {
            out.append("\\\"");
        } else if c == '\\' {
            out.append("\\\\");
        } else if c == '\n' {
            out.append("\\n");
        } else if c == '\r' {
            out.append("\\r");
        } else if c == '\t' {
            out.append("\\t");
        } else {
            out.append(text.substring_char(i, i + 1));
        }
        i += 1;
    }
    assert(text@.take(n as int) =~= text@);
    out.append("\"");
}

fn primitive_text(primitive: Primitive) -> (text: &'static str)
    ensures
        text@ == rendered_primitive(primitive),
{
    match primitive {
        Primitive::Text => "String",
        Primitive::Boolean => "bool",
        Primitive::I8 => "i8",
        Primitive::U8 => "u8",
        Primitive::I16 => "i16",
        Primitive::U16 => "u16",
        Primitive::I32 => "i32",
        Primitive::U32 => "u32",
        Primitive::I64 => "i64",
        Primitive::U64 => "u64",
        Primitive::Single => "f32",
        Primitive::Double => "f64",
    }
}

fn capability_text(capability: Capability) -> (text: &'static str)
    ensures
        text@ == rendered_capability(capability),
{
    match capability {
        Capability::Clone => "Clone",
        Capability::Debug => "Debug",
        Capability::Default => "Default",
        Capability::PartialEq => "PartialEq",
        Capability::Deserialize => "yaserde_derive::YaDeserialize",
        Capability::Serialize => "yaserde_derive::YaSerialize",
    }
}

fn write_reference(out: &mut String, reference: &TypeReference)
    ensures
        final(out)@ == old(out)@ + rendered_reference(reference@),
{
    match reference {
        TypeReference::Primitive(primitive) => {
            out.append(primitive_text(*primitive));
        },
        TypeReference::Declared(name) => {
            out.append("xml_schema_types::");
            out.append(name.as_str());
        },
        TypeReference::Hoisted(name) => {
            out.append(name.as_str());
        },
    }
}

fn write_value(out: &mut String, kind: &FieldType)
    ensures
        final(out)@ == old(out)@ + rendered_value(kind@),
{
    if kind.indirected {
        out.append("Box<");
        write_reference(out, &kind.base);
        out.append("> ");
    } else {
        write_reference(out, &kind.base);
    }
}

fn write_type(out: &mut String, kind: &FieldType)
    ensures
        final(out)@ == old(out)@ + rendered_type(kind@),
{
    match kind.cardinality {
        Cardinality::One => {
            write_value(out, kind);
        },
        Cardinality::Optional => {
            out.append("Option<");
            write_value(out, kind);
            out.append("> ");
        },
        Cardinality::Many => {
            out.append("Vec<");
            write_value(out, kind);
            out.append("> ");
        },
    }
}

fn write_serialization(out: &mut String, serialization: &Serialization, name: &str)
    ensures
        final(out)@ == old(out)@ + rendered_serialization(serialization@, name@),
{
    match serialization {
        Serialization::Element { wire_name, prefix } => {
            out.append("rename = ");
            write_literal(out, wire_name.as_str());
            match prefix {
                Some(prefix) => {
                    out.append(", prefix = ");
                    write_literal(out, prefix.as_str());
                },
                None => {},
            }
        },
        Serialization::Attribute { wire_name } => {
            if same_text(wire_name.as_str(), name) {
                out.append("attribute");
            } else {
                out.append("attribute, rename = ");
                write_literal(out, wire_name.as_str());
            }
        },
        Serialization::Text => {
            out.append("text");
        },
        Serialization::Flatten => {
            out.append("flatten");
        },
    }
}

fn write_field(out: &mut String, field: &Field)
    ensures
        final(out)@ == old(out)@ + rendered_field(field@),
{
    out.append("#[yaserde(");
    write_serialization(out, &field.serialization, field.name.as_str());
    out.append(")]\npub ");
    out.append(field.name.as_str());
    out.append(": ");
    write_type(out, &field.kind);
    out.append(",\n");
}

fn write_fields(out: &mut String, fields: &Vec<Field>)
    ensures
        final(out)@ == old(out)@ + rendered_fields(fields.deep_view()),
{
    let ghost views = fields.deep_view();
    let mut i: usize = 0;
    while i < fields.len()
        invariant
            i <= fields.len(),
            views == fields.deep_view(),
            out@ == old(out)@ + rendered_fields(views.take(i as int)),
        decreases fields.len() - i,
    {
        assert(views.take(i + 1).drop_last() =~= views.take(i as int));
        write_field(out, &fields[i]);
        i += 1;
    }
    assert(views.take(fields.len() as int) =~= views);
}

fn write_documentation(out: &mut String, lines: &Vec<String>)
    ensures
        final(out)@ == old(out)@ + rendered_documentation(lines.deep_view()),
{
    let ghost views = lines.deep_view();
    let mut i: usize = 0;
    while i < lines.len()
        invariant
            i <= lines.len(),
            views == lines.deep_view(),
            out@ == old(out)@ + rendered_documentation(views.take(i as int)),
        decreases lines.len() - i,
    {
        assert(views.take(i + 1).drop_last() =~= views.take(i as int));
        out.append("#[doc = ");
        write_literal(out, lines[i].as_str());
        out.append("]\n");
        i += 1;
    }
    assert(views.take(lines.len() as int) =~= views);
}

fn write_capabilities(out: &mut String, capabilities: &Vec<Capability>)
    ensures
        final(out)@ == old(out)@ + rendered_capabilities(capabilities@),
{
    let mut i: usize = 0;
    while i < capabilities.len()
        invariant
            i <= capabilities.len(),
            out@ == old(out)@ + rendered_capabilities(capabilities@.take(i as int)),
        decreases capabilities.len() - i,
    {
        assert(capabilities@.take(i + 1).drop_last() =~= capabilities@.take(i as int));
        if i > 0 {
            out.append(", ");
        }
        out.append(capability_text(capabilities[i]));
        i += 1;
    }
    assert(capabilities@.take(capabilities.len() as int) =~= capabilities@);
}

fn write_namespace(out: &mut String, namespace: &Option<Namespace>)
    ensures
        final(out)@ == old(out)@ + rendered_namespace(namespace.deep_view()),
{
    match namespace {
        Some(namespace) => {
            let mut bound = namespace.prefix.clone();
            bound.append(": ");
            bound.append(namespace.uri.as_str());
            out.append("#[yaserde(prefix = ");
            write_literal(out, namespace.prefix.as_str());
            out.append(", namespace = ");
            write_literal(out, bound.as_str());
            out.append(")]\n");
        },
        None => {
        },
    }
}

fn write_definition(out: &mut String, definition: &TypeDefinition)
    ensures
        final(out)@ == old(out)@ + rendered_definition(definition@),
{
    write_documentation(out, &definition.documentation);
    out.append("#[derive(");
    let capabilities = definition.capabilities();
    write_capabilities(out, &capabilities);
    out.append(")]\n");
    write_namespace(out, &definition.namespace);
    out.append("pub struct ");
    out.append(definition.name.as_str());
    out.append(" {\n");
    write_fields(out, &definition.fields);
    out.append("}\n");
}

impl TypeDefinition {
    /// Writes the definition as Rust source text.
    pub fn render(&self) -> (text: String)
        ensures
            text@ == rendered_definition(self@),
    {
        let mut text = String::new();
        write_definition(&mut text, self);
        text
    }
}

impl Definitions {
    /// Writes the definition of the type, and then those hoisted out of
    /// it, as Rust source text.
    pub fn render(&self) -> (text: String)
        ensures
            text@ == rendered(self@),
    {
        let mut text = String::new();
        write_definition(&mut text, &self.primary);
        let ghost views = self.sub_types.deep_view();
        let ghost first = rendered_definition(self.primary@);
        let mut i: usize = 0;
        while i < self.sub_types.len()
            invariant
                i <= self.sub_types.len(),
                views == self.sub_types.deep_view(),
                text@ == first + rendered_definitions(views.take(i as int)),
            decreases self.sub_types.len() - i,
        {
            assert(views.take(i + 1).drop_last() =~= views.take(i as int));
            write_definition(&mut text, &self.sub_types[i]);
            i += 1;
        }
        assert(views.take(self.sub_types.len() as int) =~= views);
        text
    }
}

} // verus!
