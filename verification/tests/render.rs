use xml_schema_model::binding::{
    Capability, Cardinality, Definitions, Field, FieldType, Namespace, Primitive, Serialization,
    TypeDefinition, TypeReference,
};

fn field(name: &str, kind: FieldType, serialization: Serialization) -> Field {
    Field { name: name.to_string(), kind, serialization }
}

fn kind(base: TypeReference, indirected: bool, cardinality: Cardinality) -> FieldType {
    FieldType { base, indirected, cardinality }
}

fn definition(name: &str, fields: Vec<Field>) -> TypeDefinition {
    TypeDefinition { name: name.to_string(), documentation: vec![], namespace: None, fields }
}

const DERIVE: &str = "#[derive(Clone, Debug, Default, PartialEq, yaserde_derive::YaDeserialize, yaserde_derive::YaSerialize)]\n";

#[test]
fn every_type_has_the_same_capabilities() {
    assert_eq!(
        definition("A", vec![]).capabilities(),
        vec![
            Capability::Clone,
            Capability::Debug,
            Capability::Default,
            Capability::PartialEq,
            Capability::Deserialize,
            Capability::Serialize,
        ]
    );
}

#[test]
fn definition_is_written_line_by_line() {
    let order = TypeDefinition {
        name: "Order".to_string(),
        documentation: vec!["An order.".to_string(), "Second line.".to_string()],
        namespace: Some(Namespace {
            prefix: "tns".to_string(),
            uri: "http://example.com/order".to_string(),
        }),
        fields: vec![
            field(
                "item",
                kind(TypeReference::Declared("Item".to_string()), false, Cardinality::Many),
                Serialization::Element {
                    wire_name: "item".to_string(),
                    prefix: Some("tns".to_string()),
                },
            ),
            field(
                "id",
                kind(TypeReference::Primitive(Primitive::Text), false, Cardinality::One),
                Serialization::Attribute { wire_name: "id".to_string() },
            ),
            field(
                "unit_price",
                kind(TypeReference::Primitive(Primitive::Double), false, Cardinality::Optional),
                Serialization::Attribute { wire_name: "unitPrice".to_string() },
            ),
        ],
    };
    let expected = String::new()
        + "#[doc = \"An order.\"]\n"
        + "#[doc = \"Second line.\"]\n"
        + DERIVE
        + "#[yaserde(prefix = \"tns\", namespace = \"tns: http://example.com/order\")]\n"
        + "pub struct Order {\n"
        + "#[yaserde(rename = \"item\", prefix = \"tns\")]\n"
        + "pub item: Vec<xml_schema_types::Item> ,\n"
        + "#[yaserde(attribute)]\n"
        + "pub id: String,\n"
        + "#[yaserde(attribute, rename = \"unitPrice\")]\n"
        + "pub unit_price: Option<f64> ,\n"
        + "}\n";
    assert_eq!(order.render(), expected);
}

#[test]
fn each_primitive_has_its_rust_name() {
    let names = [
        (Primitive::Text, "String"),
        (Primitive::Boolean, "bool"),
        (Primitive::I8, "i8"),
        (Primitive::U8, "u8"),
        (Primitive::I16, "i16"),
        (Primitive::U16, "u16"),
        (Primitive::I32, "i32"),
        (Primitive::U32, "u32"),
        (Primitive::I64, "i64"),
        (Primitive::U64, "u64"),
        (Primitive::Single, "f32"),
        (Primitive::Double, "f64"),
    ];
    for (primitive, name) in names {
        let text = definition(
            "A",
            vec![field(
                "content",
                kind(TypeReference::Primitive(primitive), false, Cardinality::One),
                Serialization::Text,
            )],
        )
        .render();
        let expected = String::new()
            + DERIVE
            + "pub struct A {\n#[yaserde(text)]\npub content: "
            + name
            + ",\n}\n";
        assert_eq!(text, expected);
    }
}

#[test]
fn wrappers_nest_in_their_order() {
    let cases = [
        (false, Cardinality::One, "Node"),
        (true, Cardinality::One, "Box<Node> "),
        (false, Cardinality::Optional, "Option<Node> "),
        (true, Cardinality::Optional, "Option<Box<Node> > "),
        (false, Cardinality::Many, "Vec<Node> "),
        (true, Cardinality::Many, "Vec<Box<Node> > "),
    ];
    for (indirected, cardinality, written) in cases {
        let text = definition(
            "Node",
            vec![field(
                "next",
                kind(TypeReference::Hoisted("Node".to_string()), indirected, cardinality),
                Serialization::Flatten,
            )],
        )
        .render();
        let expected = String::new()
            + DERIVE
            + "pub struct Node {\n#[yaserde(flatten)]\npub next: "
            + written
            + ",\n}\n";
        assert_eq!(text, expected);
    }
}

#[test]
fn texts_are_escaped_inside_literals() {
    let text = TypeDefinition {
        name: "A".to_string(),
        documentation: vec!["say \"hi\"\\now\n\ttab\rend 'q' é".to_string()],
        namespace: None,
        fields: vec![],
    }
    .render();
    let expected = String::new()
        + "#[doc = \"say \\\"hi\\\"\\\\now\\n\\ttab\\rend 'q' é\"]\n"
        + DERIVE
        + "pub struct A {\n}\n";
    assert_eq!(text, expected);
}

#[test]
fn written_text_is_a_struct_with_the_same_texts() {
    let documentation = "say \"hi\"\\now\n\ttab\rend 'q' é #[x] */ {}";
    let wire_name = "we\"ird\\name";
    let text = TypeDefinition {
        name: "Odd".to_string(),
        documentation: vec![documentation.to_string()],
        namespace: Some(Namespace { prefix: "p\"".to_string(), uri: "urn:\\x".to_string() }),
        fields: vec![field(
            "weird",
            kind(TypeReference::Primitive(Primitive::U8), true, Cardinality::Many),
            Serialization::Element { wire_name: wire_name.to_string(), prefix: None },
        )],
    }
    .render();
    let parsed: syn::DeriveInput = syn::parse_str(&text).unwrap();
    assert_eq!(parsed.ident.to_string(), "Odd");
    assert_eq!(parsed.attrs.len(), 3);
    let doc = match &parsed.attrs[0].meta {
        syn::Meta::NameValue(pair) => match &pair.value {
            syn::Expr::Lit(syn::ExprLit { lit: syn::Lit::Str(s), .. }) => s.value(),
            _ => panic!("no literal"),
        },
        _ => panic!("no name and value"),
    };
    assert_eq!(doc, documentation);
    let mut namespace = Vec::new();
    parsed.attrs[2]
        .parse_nested_meta(|meta| {
            let value: syn::LitStr = meta.value()?.parse()?;
            namespace.push((meta.path.get_ident().unwrap().to_string(), value.value()));
            Ok(())
        })
        .unwrap();
    assert_eq!(
        namespace,
        vec![
            ("prefix".to_string(), "p\"".to_string()),
            ("namespace".to_string(), "p\": urn:\\x".to_string())
        ]
    );
    let fields = match parsed.data {
        syn::Data::Struct(data) => data.fields,
        _ => panic!("no struct"),
    };
    assert_eq!(fields.len(), 1);
    let weird = fields.iter().next().unwrap();
    assert_eq!(weird.ident.as_ref().unwrap().to_string(), "weird");
    let mut rename = Vec::new();
    weird.attrs[0]
        .parse_nested_meta(|meta| {
            let value: syn::LitStr = meta.value()?.parse()?;
            rename.push((meta.path.get_ident().unwrap().to_string(), value.value()));
            Ok(())
        })
        .unwrap();
    assert_eq!(rename, vec![("rename".to_string(), wire_name.to_string())]);
}

#[test]
fn definitions_are_written_one_after_the_other() {
    let first = definition("First", vec![]);
    let second = definition("Second", vec![]);
    let third = definition("Third", vec![]);
    let all = Definitions {
        primary: first.clone(),
        sub_types: vec![second.clone(), third.clone()],
    };
    assert_eq!(all.render(), first.render() + &second.render() + &third.render());
    let alone = Definitions { primary: first.clone(), sub_types: vec![] };
    assert_eq!(alone.render(), first.render());
    assert_eq!(first.render(), String::new() + DERIVE + "pub struct First {\n}\n");
}
