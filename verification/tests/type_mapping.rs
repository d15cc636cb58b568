use xml_schema_model::binding::{Primitive, TypeReference};
use xml_schema_model::context::XsdContext;
use xml_schema_model::error::SchemaError;
use xml_schema_model::text::{same_text, split_qualified_name};
use xml_schema_model::type_mapping::{primitive_for, resolve_type};

fn xs_context() -> XsdContext {
    XsdContext { xml_schema_prefix: Some("xs".to_string()), namespaces: vec![] }
}

#[test]
fn texts_are_compared_by_their_characters() {
    assert!(same_text("", ""));
    assert!(same_text("schema", "schema"));
    assert!(!same_text("schema", "Schema"));
    assert!(!same_text("schema", "schem"));
    assert!(!same_text("", "a"));
}

#[test]
fn names_are_taken_apart_at_the_colon() {
    assert_eq!(split_qualified_name("recursive"), Some((None, "recursive")));
    assert_eq!(split_qualified_name("xs:string"), Some((Some("xs"), "string")));
    assert_eq!(split_qualified_name(""), Some((None, "")));
    assert_eq!(split_qualified_name(":"), Some((Some(""), "")));
    assert_eq!(split_qualified_name("a:"), Some((Some("a"), "")));
    assert_eq!(split_qualified_name(":b"), Some((Some(""), "b")));
    assert_eq!(split_qualified_name("é:ß"), Some((Some("é"), "ß")));
    assert_eq!(split_qualified_name("a:b:c"), None);
    assert_eq!(split_qualified_name("::"), None);
}

#[test]
fn built_in_types_have_their_rust_types() {
    assert_eq!(primitive_for("string"), Primitive::Text);
    assert_eq!(primitive_for("boolean"), Primitive::Boolean);
    assert_eq!(primitive_for("byte"), Primitive::I8);
    assert_eq!(primitive_for("unsignedByte"), Primitive::U8);
    assert_eq!(primitive_for("short"), Primitive::I16);
    assert_eq!(primitive_for("unsignedShort"), Primitive::U16);
    assert_eq!(primitive_for("int"), Primitive::I32);
    assert_eq!(primitive_for("unsignedInt"), Primitive::U32);
    assert_eq!(primitive_for("long"), Primitive::I64);
    assert_eq!(primitive_for("integer"), Primitive::I64);
    assert_eq!(primitive_for("unsignedLong"), Primitive::U64);
    assert_eq!(primitive_for("nonNegativeInteger"), Primitive::U64);
    assert_eq!(primitive_for("positiveInteger"), Primitive::U64);
    assert_eq!(primitive_for("float"), Primitive::Single);
    assert_eq!(primitive_for("double"), Primitive::Double);
    assert_eq!(primitive_for("decimal"), Primitive::Double);
    assert_eq!(primitive_for("date"), Primitive::Text);
    assert_eq!(primitive_for("anyURI"), Primitive::Text);
    assert_eq!(primitive_for("Boolean"), Primitive::Text);
    assert_eq!(primitive_for(""), Primitive::Text);
}

#[test]
fn references_resolve_by_their_prefix() {
    let context = xs_context();
    assert_eq!(
        resolve_type(&context, "xs:string"),
        Ok(TypeReference::Primitive(Primitive::Text))
    );
    assert_eq!(resolve_type(&context, "xs:int"), Ok(TypeReference::Primitive(Primitive::I32)));
    assert_eq!(
        resolve_type(&context, "recursive"),
        Ok(TypeReference::Declared("Recursive".to_string()))
    );
    assert_eq!(
        resolve_type(&context, "tns:my.type"),
        Ok(TypeReference::Declared("MyType".to_string()))
    );
    assert_eq!(
        resolve_type(&context, "string"),
        Ok(TypeReference::Declared("String".to_string()))
    );
    assert_eq!(
        resolve_type(&context, "xsd:int"),
        Ok(TypeReference::Declared("Int".to_string()))
    );
}

#[test]
fn references_without_a_schema_prefix_are_named_types() {
    let context = XsdContext { xml_schema_prefix: None, namespaces: vec![] };
    assert_eq!(
        resolve_type(&context, "xs:string"),
        Ok(TypeReference::Declared("String".to_string()))
    );
    assert_eq!(resolve_type(&context, ":int"), Ok(TypeReference::Declared("Int".to_string())));
}

#[test]
fn references_that_do_not_resolve() {
    let context = xs_context();
    assert_eq!(
        resolve_type(&context, "a:b:c"),
        Err(SchemaError::UnresolvedType { reference: "a:b:c".to_string() })
    );
    assert_eq!(
        resolve_type(&context, "xs:xs:string"),
        Err(SchemaError::UnresolvedType { reference: "xs:xs:string".to_string() })
    );
    assert_eq!(
        resolve_type(&context, "tns:1x"),
        Err(SchemaError::InvalidName { name: "1x".to_string() })
    );
    assert_eq!(resolve_type(&context, ""), Err(SchemaError::InvalidName { name: "".to_string() }));
    assert_eq!(
        resolve_type(&context, "tns:"),
        Err(SchemaError::InvalidName { name: "".to_string() })
    );
    assert_eq!(
        resolve_type(&context, "---"),
        Err(SchemaError::InvalidName { name: "---".to_string() })
    );
}
