use xml_schema_model::attribute::{implement_attributes, Attribute, Required};
use xml_schema_model::binding::{
    Cardinality, Field, FieldType, Primitive, Serialization, TypeReference,
};
use xml_schema_model::context::XsdContext;
use xml_schema_model::error::SchemaError;
use xml_schema_model::implementation::Implementation;
use xml_schema_model::simple_type::SimpleType;

fn xs_context() -> XsdContext {
    XsdContext { xml_schema_prefix: Some("xs".to_string()), namespaces: vec![] }
}

fn attribute(name: Option<&str>, kind: Option<&str>, required: Required) -> Attribute {
    Attribute {
        name: name.map(str::to_string),
        kind: kind.map(str::to_string),
        reference: None,
        simple_type: None,
        required,
        default: None,
    }
}

fn attribute_field(name: &str, wire_name: &str, base: TypeReference, cardinality: Cardinality) -> Field {
    Field {
        name: name.to_string(),
        kind: FieldType { base, indirected: false, cardinality },
        serialization: Serialization::Attribute { wire_name: wire_name.to_string() },
    }
}

#[test]
fn required_attribute_is_a_plain_value() {
    let field = attribute(Some("id"), Some("xs:string"), Required::Required)
        .implement(&None, &None, &xs_context())
        .unwrap();
    assert_eq!(
        field,
        Some(attribute_field(
            "id",
            "id",
            TypeReference::Primitive(Primitive::Text),
            Cardinality::One
        ))
    );
}

#[test]
fn optional_attribute_is_an_optional_value() {
    let field = attribute(Some("unitPrice"), Some("xs:decimal"), Required::Optional)
        .implement(&None, &None, &xs_context())
        .unwrap();
    assert_eq!(
        field,
        Some(attribute_field(
            "unit_price",
            "unitPrice",
            TypeReference::Primitive(Primitive::Double),
            Cardinality::Optional
        ))
    );
}

#[test]
fn attribute_without_a_name_gives_no_field() {
    let field = attribute(None, Some("xs:string"), Required::Required).implement(&None, &None, &xs_context());
    assert_eq!(field, Ok(None));
    let field = attribute(None, None, Required::Optional).implement(&None, &None, &xs_context());
    assert_eq!(field, Ok(None));
}

#[test]
fn attribute_type_by_reference_or_in_place() {
    let mut by_reference = attribute(Some("lang"), None, Required::Required);
    by_reference.reference = Some("tns:lang".to_string());
    assert_eq!(
        by_reference.implement(&None, &None, &xs_context()).unwrap().unwrap().kind.base,
        TypeReference::Declared("Lang".to_string())
    );

    let mut in_place = attribute(Some("count"), None, Required::Required);
    in_place.simple_type =
        Some(SimpleType { name: "".to_string(), base: Some("xs:unsignedInt".to_string()) });
    assert_eq!(
        in_place.implement(&None, &None, &xs_context()).unwrap().unwrap().kind.base,
        TypeReference::Primitive(Primitive::U32)
    );

    let mut both = attribute(Some("count"), Some("xs:long"), Required::Required);
    both.reference = Some("tns:count".to_string());
    assert_eq!(
        both.implement(&None, &None, &xs_context()).unwrap().unwrap().kind.base,
        TypeReference::Primitive(Primitive::I64)
    );
}

#[test]
fn attribute_faults() {
    let context = xs_context();
    assert_eq!(
        attribute(Some("id"), None, Required::Required).get_field_implementation(&context),
        Err(SchemaError::MissingType { construct: "id".to_string() })
    );
    let mut in_place = attribute(Some("id"), None, Required::Required);
    in_place.simple_type = Some(SimpleType { name: "".to_string(), base: None });
    assert_eq!(
        in_place.get_field_implementation(&context),
        Err(SchemaError::MissingType { construct: "id".to_string() })
    );
    assert_eq!(
        attribute(Some("1"), Some("xs:string"), Required::Required).get_field_implementation(&context),
        Err(SchemaError::InvalidName { name: "1".to_string() })
    );
    assert_eq!(
        attribute(Some(""), Some("xs:string"), Required::Required).get_field_implementation(&context),
        Err(SchemaError::InvalidName { name: "".to_string() })
    );
    assert_eq!(
        attribute(Some("id"), Some("a:b:c"), Required::Required).get_field_implementation(&context),
        Err(SchemaError::UnresolvedType { reference: "a:b:c".to_string() })
    );
    assert_eq!(
        attribute(Some("id"), Some("tns:9"), Required::Required).get_field_implementation(&context),
        Err(SchemaError::InvalidName { name: "9".to_string() })
    );
}

#[test]
fn attributes_keep_their_order_and_skip_the_nameless() {
    let attributes = vec![
        attribute(Some("b"), Some("xs:int"), Required::Required),
        attribute(None, Some("xs:int"), Required::Required),
        attribute(Some("a"), Some("xs:boolean"), Required::Optional),
    ];
    let fields = implement_attributes(&attributes, &xs_context()).unwrap();
    assert_eq!(
        fields,
        vec![
            attribute_field("b", "b", TypeReference::Primitive(Primitive::I32), Cardinality::One),
            attribute_field(
                "a",
                "a",
                TypeReference::Primitive(Primitive::Boolean),
                Cardinality::Optional
            ),
        ]
    );
    assert_eq!(implement_attributes(&vec![], &xs_context()), Ok(vec![]));
}

#[test]
fn attributes_stop_at_the_first_fault() {
    let attributes = vec![
        attribute(Some("a"), Some("xs:int"), Required::Required),
        attribute(Some("b"), None, Required::Required),
        attribute(Some("c"), Some("x:y:z"), Required::Required),
    ];
    assert_eq!(
        implement_attributes(&attributes, &xs_context()),
        Err(SchemaError::MissingType { construct: "b".to_string() })
    );
}

#[test]
fn attribute_copies_are_equal() {
    let mut first = attribute(Some("lang"), Some("xs:string"), Required::Optional);
    first.default = Some("en".to_string());
    first.simple_type =
        Some(SimpleType { name: "n".to_string(), base: Some("xs:string".to_string()) });
    assert_eq!(first.clone(), first);
}

#[test]
fn use_is_read_from_its_text() {
    assert_eq!(Required::parse("required"), Required::Required);
    assert_eq!(Required::parse("optional"), Required::Optional);
    assert_eq!(Required::parse("prohibited"), Required::Optional);
    assert_eq!(Required::parse(""), Required::Optional);
    assert_eq!(Required::parse("Required"), Required::Optional);
    assert_eq!(Required::default(), Required::Optional);
}
