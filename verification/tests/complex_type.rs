use std::str::FromStr;

use proc_macro2::TokenStream;
use xml::reader::{EventReader, XmlEvent};
use xml_schema_model::complex_type::ComplexType;
use xml_schema_model::context::{NamespaceBinding, StartElement, XsdContext};
use xml_schema_model::element::Element;
use xml_schema_model::error::ContextError;
use xml_schema_model::implementation::Implementation;
use xml_schema_model::sequence::Sequence;

fn schema_context(content: &str) -> Result<XsdContext, ContextError> {
    let mut elements = Vec::new();
    for event in EventReader::new(content.as_bytes()) {
        match event {
            Ok(XmlEvent::StartElement { name, namespace, .. }) => elements.push(StartElement {
                prefix: name.prefix,
                namespace: name.namespace,
                local_name: name.local_name,
                bindings: namespace
                    .0
                    .into_iter()
                    .map(|(prefix, uri)| NamespaceBinding { prefix, uri })
                    .collect(),
            }),
            Err(_) => break,
            _ => {}
        }
    }
    XsdContext::new(&elements)
}

#[test]
fn recursive() {
    let st = ComplexType {
        name: "recursive".to_string(),
        annotation: None,
        attributes: vec![],
        complex_content: None,
        simple_content: None,
        sequence: Some(Sequence {
            elements: vec![Element {
                name: "next".to_string(),
                annotation: None,
                kind: Some("recursive".to_string()),
                simple_type: None,
                complex_type: None,
                refers: None,
                min_occurences: None,
                max_occurences: None,
                recursive: false, // set by the complex type
            }],
        }),
    };

    let context =
        schema_context(r#"<xs:schema xmlns:xs="http://www.w3.org/2001/XMLSchema"></xs:schema>"#)
            .unwrap();

    let implementation = st.implement(&None, &None, &context).unwrap();
    let implementation = TokenStream::from_str(&implementation.render()).unwrap();

    let expected = TokenStream::from_str(
        "
        # [derive (Clone , Debug , Default , PartialEq , yaserde_derive :: YaDeserialize , yaserde_derive :: YaSerialize)]
        pub struct Recursive {
          # [yaserde (rename = \"next\")]
          pub next : Box< xml_schema_types :: Recursive > ,
        }
      ",
    )
    .unwrap();

    assert_eq!(implementation.to_string(), expected.to_string());
}

use xml_schema_model::annotation::Annotation;
use xml_schema_model::attribute::{Attribute, Required};
use xml_schema_model::binding::{
    Cardinality, Definitions, Field, FieldType, Namespace, Primitive, Serialization,
    TypeDefinition, TypeReference,
};
use xml_schema_model::complex_content::ComplexContent;
use xml_schema_model::element::MaxOccurences;
use xml_schema_model::error::SchemaError;
use xml_schema_model::simple_content::SimpleContent;

fn xs_context() -> XsdContext {
    XsdContext { xml_schema_prefix: Some("xs".to_string()), namespaces: vec![] }
}

fn complex_type(name: &str) -> ComplexType {
    ComplexType {
        name: name.to_string(),
        attributes: vec![],
        sequence: None,
        simple_content: None,
        complex_content: None,
        annotation: None,
    }
}

fn element(name: &str, kind: Option<&str>) -> Element {
    Element {
        name: name.to_string(),
        annotation: None,
        kind: kind.map(str::to_string),
        simple_type: None,
        complex_type: None,
        refers: None,
        min_occurences: None,
        max_occurences: None,
        recursive: false,
    }
}

fn attribute(name: &str, kind: &str, required: Required) -> Attribute {
    Attribute {
        name: Some(name.to_string()),
        kind: Some(kind.to_string()),
        reference: None,
        simple_type: None,
        required,
        default: None,
    }
}

fn element_field(name: &str, base: TypeReference) -> Field {
    Field {
        name: name.to_string(),
        kind: FieldType { base, indirected: false, cardinality: Cardinality::One },
        serialization: Serialization::Element { wire_name: name.to_string(), prefix: None },
    }
}

fn attribute_field(name: &str, base: TypeReference, cardinality: Cardinality) -> Field {
    Field {
        name: name.to_string(),
        kind: FieldType { base, indirected: false, cardinality },
        serialization: Serialization::Attribute { wire_name: name.to_string() },
    }
}

fn tokens(text: &str) -> String {
    TokenStream::from_str(text).unwrap().to_string()
}

#[test]
fn type_without_content_has_no_fields() {
    let definitions = complex_type("empty").implement(&None, &None, &xs_context()).unwrap();
    assert_eq!(
        definitions,
        Definitions {
            primary: TypeDefinition {
                name: "Empty".to_string(),
                documentation: vec![],
                namespace: None,
                fields: vec![],
            },
            sub_types: vec![],
        }
    );
    assert_eq!(
        tokens(&definitions.render()),
        tokens(
            "#[derive(Clone, Debug, Default, PartialEq, yaserde_derive::YaDeserialize, yaserde_derive::YaSerialize)]
             pub struct Empty {}"
        )
    );
}

#[test]
fn self_reference_is_marked_on_a_copy_and_boxed() {
    let mut st = complex_type("recursive");
    st.sequence = Some(Sequence { elements: vec![element("next", Some("recursive"))] });
    let definitions = st.implement(&None, &None, &xs_context()).unwrap();
    assert_eq!(
        definitions.primary.fields,
        vec![Field {
            name: "next".to_string(),
            kind: FieldType {
                base: TypeReference::Declared("Recursive".to_string()),
                indirected: true,
                cardinality: Cardinality::One,
            },
            serialization: Serialization::Element { wire_name: "next".to_string(), prefix: None },
        }]
    );
    assert!(!st.sequence.unwrap().elements[0].recursive);
}

#[test]
fn self_reference_is_boxed_inside_the_wrapper_of_its_bounds() {
    let mut optional = element("next", Some("node"));
    optional.min_occurences = Some(0);
    optional.max_occurences = Some(MaxOccurences::Number(1));
    let mut many = element("children", Some("node"));
    many.max_occurences = Some(MaxOccurences::Unbounded);
    let mut other = element("label", Some("tns:node"));
    other.min_occurences = Some(0);
    let mut st = complex_type("node");
    st.sequence = Some(Sequence { elements: vec![optional, many, other] });
    let definitions = st.implement(&None, &Some("tns".to_string()), &xs_context()).unwrap();
    let kinds: Vec<(bool, Cardinality)> =
        definitions.primary.fields.iter().map(|f| (f.kind.indirected, f.kind.cardinality)).collect();
    assert_eq!(
        kinds,
        vec![
            (true, Cardinality::Optional),
            (true, Cardinality::Many),
            (false, Cardinality::Optional)
        ]
    );
    assert_eq!(
        tokens(&definitions.render()),
        tokens(
            "#[derive(Clone, Debug, Default, PartialEq, yaserde_derive::YaDeserialize, yaserde_derive::YaSerialize)]
             pub struct Node {
               #[yaserde(rename = \"next\", prefix = \"tns\")]
               pub next: Option<Box<xml_schema_types::Node> > ,
               #[yaserde(rename = \"children\", prefix = \"tns\")]
               pub children: Vec<Box<xml_schema_types::Node> > ,
               #[yaserde(rename = \"label\", prefix = \"tns\")]
               pub label: Option<xml_schema_types::Node> ,
             }"
        )
    );
}

#[test]
fn simple_content_gives_a_text_and_attributes() {
    let mut st = complex_type("price");
    st.simple_content = Some(SimpleContent {
        base: "xs:decimal".to_string(),
        attributes: vec![attribute("currency", "xs:string", Required::Required)],
    });
    st.attributes = vec![attribute("approved", "xs:boolean", Required::Optional)];
    let definitions = st.implement(&None, &None, &xs_context()).unwrap();
    assert_eq!(
        definitions.primary.fields,
        vec![
            Field {
                name: "content".to_string(),
                kind: FieldType {
                    base: TypeReference::Primitive(Primitive::Double),
                    indirected: false,
                    cardinality: Cardinality::One,
                },
                serialization: Serialization::Text,
            },
            attribute_field("currency", TypeReference::Primitive(Primitive::Text), Cardinality::One),
            attribute_field(
                "approved",
                TypeReference::Primitive(Primitive::Boolean),
                Cardinality::Optional
            ),
        ]
    );
    assert_eq!(definitions.sub_types, vec![]);
    assert_eq!(
        st.get_integrated_implementation("Holder"),
        Ok(TypeReference::Primitive(Primitive::Text))
    );
    assert_eq!(
        st.get_field_implementation(&xs_context(), &None).unwrap(),
        definitions.primary.fields[..2].to_vec()
    );
}

#[test]
fn complex_content_flattens_its_base() {
    let mut st = complex_type("express-order");
    st.complex_content = Some(ComplexContent {
        base: "tns:order".to_string(),
        attributes: vec![attribute("priority", "xs:int", Required::Required)],
    });
    st.attributes = vec![attribute("courier", "xs:string", Required::Optional)];
    let definitions = st.implement(&None, &None, &xs_context()).unwrap();
    assert_eq!(
        definitions.primary.fields,
        vec![
            Field {
                name: "base".to_string(),
                kind: FieldType {
                    base: TypeReference::Declared("Order".to_string()),
                    indirected: false,
                    cardinality: Cardinality::One,
                },
                serialization: Serialization::Flatten,
            },
            attribute_field("priority", TypeReference::Primitive(Primitive::I32), Cardinality::One),
            attribute_field(
                "courier",
                TypeReference::Primitive(Primitive::Text),
                Cardinality::Optional
            ),
        ]
    );
    assert_eq!(
        tokens(&definitions.render()),
        tokens(
            "#[derive(Clone, Debug, Default, PartialEq, yaserde_derive::YaDeserialize, yaserde_derive::YaSerialize)]
             pub struct ExpressOrder {
               #[yaserde(flatten)]
               pub base: xml_schema_types::Order,
               #[yaserde(attribute)]
               pub priority: i32,
               #[yaserde(attribute)]
               pub courier: Option<String> ,
             }"
        )
    );
    assert_eq!(st.get_field_implementation(&xs_context(), &None), Ok(vec![]));
}

#[test]
fn fields_stand_in_the_order_of_the_content_models() {
    let mut st = complex_type("all");
    st.attributes = vec![attribute("z", "xs:int", Required::Required)];
    st.complex_content = Some(ComplexContent { base: "tns:b".to_string(), attributes: vec![] });
    st.simple_content = Some(SimpleContent { base: "xs:string".to_string(), attributes: vec![] });
    st.sequence = Some(Sequence { elements: vec![element("y", Some("xs:int"))] });
    let definitions = st.implement(&None, &None, &xs_context()).unwrap();
    let names: Vec<&str> = definitions.primary.fields.iter().map(|f| f.name.as_str()).collect();
    assert_eq!(names, vec!["y", "content", "base", "z"]);
    assert_eq!(
        st.get_field_implementation(&xs_context(), &None),
        Ok(vec![element_field("y", TypeReference::Primitive(Primitive::I32))])
    );
    assert_eq!(
        st.get_integrated_implementation("Holder"),
        Ok(TypeReference::Primitive(Primitive::Text))
    );
}

#[test]
fn annotation_and_namespace_go_with_the_type() {
    let mut st = complex_type("order");
    st.annotation = Some(Annotation {
        documentation: vec!["An order.".to_string(), "With \"quotes\".".to_string()],
    });
    st.sequence = Some(Sequence { elements: vec![element("id", Some("xs:int"))] });
    let namespace = Some(Namespace { prefix: "tns".to_string(), uri: "urn:order".to_string() });
    let definitions = st.implement(&namespace, &None, &xs_context()).unwrap();
    assert_eq!(
        definitions.primary.documentation,
        vec!["An order.".to_string(), "With \"quotes\".".to_string()]
    );
    assert_eq!(definitions.primary.namespace, namespace);

    let mut plain = complex_type("order");
    plain.sequence = st.sequence.clone();
    let undocumented = plain.implement(&namespace, &None, &xs_context()).unwrap();
    assert_eq!(undocumented.primary.fields, definitions.primary.fields);
    assert_eq!(undocumented.sub_types, definitions.sub_types);
    assert_eq!(undocumented.primary.documentation, Vec::<String>::new());
}

#[test]
fn hoisted_types_follow_the_type_that_holds_them() {
    let mut item = element("item", None);
    item.max_occurences = Some(MaxOccurences::Unbounded);
    item.complex_type = Some(ComplexType {
        name: "".to_string(),
        attributes: vec![],
        sequence: Some(Sequence { elements: vec![element("sku", Some("xs:string"))] }),
        simple_content: None,
        complex_content: None,
        annotation: None,
    });
    let mut st = complex_type("order");
    st.sequence = Some(Sequence { elements: vec![item] });
    let definitions = st.implement(&None, &None, &xs_context()).unwrap();
    assert_eq!(
        definitions.primary.fields[0].kind,
        FieldType {
            base: TypeReference::Hoisted("Item".to_string()),
            indirected: false,
            cardinality: Cardinality::Many,
        }
    );
    assert_eq!(definitions.sub_types.len(), 1);
    assert_eq!(definitions.sub_types[0].name, "Item");
    assert_eq!(
        tokens(&definitions.render()),
        tokens(
            "#[derive(Clone, Debug, Default, PartialEq, yaserde_derive::YaDeserialize, yaserde_derive::YaSerialize)]
             pub struct Order {
               #[yaserde(rename = \"item\")]
               pub item: Vec<Item> ,
             }
             #[derive(Clone, Debug, Default, PartialEq, yaserde_derive::YaDeserialize, yaserde_derive::YaSerialize)]
             pub struct Item {
               #[yaserde(rename = \"sku\")]
               pub sku: String,
             }"
        )
    );
}

#[test]
fn integrated_type_of_each_content_model() {
    let mut list = complex_type("");
    list.sequence = Some(Sequence { elements: vec![] });
    assert_eq!(
        list.get_integrated_implementation("Holder"),
        Ok(TypeReference::Hoisted("Holder".to_string()))
    );
    assert_eq!(
        list.get_integrated_implementation("not an identifier"),
        Err(SchemaError::InvalidName { name: "not an identifier".to_string() })
    );
    assert_eq!(
        complex_type("").get_integrated_implementation("Holder"),
        Ok(TypeReference::Primitive(Primitive::Text))
    );
    assert_eq!(
        complex_type("").get_integrated_implementation(""),
        Ok(TypeReference::Primitive(Primitive::Text))
    );
}

#[test]
fn type_faults() {
    let context = xs_context();
    assert_eq!(
        complex_type("").implement(&None, &None, &context),
        Err(SchemaError::InvalidName { name: "".to_string() })
    );
    assert_eq!(
        complex_type("2nd").implement(&None, &None, &context),
        Err(SchemaError::InvalidName { name: "2nd".to_string() })
    );

    let mut st = complex_type("order");
    st.attributes = vec![attribute("a", "x:y:z", Required::Required)];
    st.sequence = Some(Sequence { elements: vec![element("item", None)] });
    assert_eq!(
        st.implement(&None, &None, &context),
        Err(SchemaError::MissingType { construct: "item".to_string() })
    );
    st.sequence = None;
    assert_eq!(
        st.implement(&None, &None, &context),
        Err(SchemaError::UnresolvedType { reference: "x:y:z".to_string() })
    );
    st.simple_content = Some(SimpleContent { base: "tns:7".to_string(), attributes: vec![] });
    assert_eq!(
        st.implement(&None, &None, &context),
        Err(SchemaError::InvalidName { name: "7".to_string() })
    );
}

#[test]
fn complex_type_copies_are_equal() {
    let mut st = complex_type("order");
    st.attributes = vec![attribute("a", "xs:int", Required::Required)];
    st.sequence = Some(Sequence { elements: vec![element("item", Some("tns:item"))] });
    st.simple_content = Some(SimpleContent {
        base: "xs:string".to_string(),
        attributes: vec![attribute("b", "xs:int", Required::Optional)],
    });
    st.complex_content = Some(ComplexContent { base: "tns:b".to_string(), attributes: vec![] });
    st.annotation = Some(Annotation { documentation: vec!["doc".to_string()] });
    assert_eq!(st.clone(), st);
}

#[test]
fn default_values_are_empty() {
    assert_eq!(ComplexType::default(), complex_type(""));
    assert_eq!(Element::default(), element("", None));
    assert_eq!(Sequence::default(), Sequence { elements: vec![] });
    assert_eq!(
        Attribute::default(),
        Attribute {
            name: None,
            kind: None,
            reference: None,
            simple_type: None,
            required: Required::Optional,
            default: None,
        }
    );
    assert_eq!(Annotation::default(), Annotation { documentation: vec![] });
    assert_eq!(
        SimpleContent::default(),
        SimpleContent { base: "".to_string(), attributes: vec![] }
    );
    assert_eq!(
        ComplexContent::default(),
        ComplexContent { base: "".to_string(), attributes: vec![] }
    );
    assert_eq!(
        ComplexType::default().implement(&None, &None, &xs_context()),
        Err(SchemaError::InvalidName { name: "".to_string() })
    );
}

#[test]
fn every_construct_gives_its_part() {
    let context = xs_context();
    let annotation = Annotation { documentation: vec!["a".to_string(), "b".to_string()] };
    assert_eq!(
        annotation.implement(&None, &None, &context),
        Ok(vec!["a".to_string(), "b".to_string()])
    );
    let content = SimpleContent {
        base: "xs:int".to_string(),
        attributes: vec![attribute("unit", "xs:string", Required::Required)],
    };
    assert_eq!(
        content.implement(&None, &None, &context),
        content.get_field_implementation(&context)
    );
    assert_eq!(content.implement(&None, &None, &context).unwrap().len(), 2);
    let base = ComplexContent {
        base: "tns:order".to_string(),
        attributes: vec![attribute("unit", "xs:string", Required::Required)],
    };
    assert_eq!(base.implement(&None, &None, &context), base.get_field_implementation(&context));
    assert_eq!(base.implement(&None, &None, &context).unwrap().len(), 2);
    let item = element("item", Some("xs:int"));
    assert_eq!(
        item.implement(&None, &None, &context),
        Ok(element_field("item", TypeReference::Primitive(Primitive::I32)))
    );
    let one = attribute("unit", "xs:string", Required::Required);
    assert_eq!(
        one.implement(&None, &Some("p".to_string()), &context),
        Ok(Some(attribute_field(
            "unit",
            TypeReference::Primitive(Primitive::Text),
            Cardinality::One
        )))
    );
}
