use asyncapi::schema::{
    AdditionalProperties, AnySchema, ArrayType, IntegerFormat, IntegerType, NumberFormat,
    NumberType, ObjectType, SchemaData, SchemaKind, StringFormat, StringType, Type,
};
use asyncapi::{
    ExternalDocumentation, Number, Properties, ReferenceOr, Schema, Value,
    VariantOrUnknownOrEmpty,
};

fn object(entries: Vec<(&str, Value)>) -> Value {
    Value::Object(entries.into_iter().map(|(k, v)| (k.to_string(), v)).collect())
}

fn text(s: &str) -> Value {
    Value::String(s.to_string())
}

fn count(n: u64) -> Value {
    Value::Number(Number::PosInt(n))
}

fn plain(kind: SchemaKind) -> Schema {
    Schema { schema_data: SchemaData::default(), schema_kind: kind }
}

fn reread(schema: &Schema) -> Schema {
    assert_eq!(schema.round_trips(), schema.is_well_formed());
    Schema::from_value(&schema.to_value()).expect("what was written is read back")
}

#[test]
fn string_schema_is_written_field_by_field() {
    let schema = Schema {
        schema_data: SchemaData { title: Some("name".to_string()), ..Default::default() },
        schema_kind: SchemaKind::Type(Type::String(StringType {
            format: VariantOrUnknownOrEmpty::Item(StringFormat::DateTime),
            pattern: Some("^a".to_string()),
            enumeration: vec![Some("a".to_string()), None],
            min_length: Some(1),
            max_length: Some(7),
        })),
    };
    let value = schema.to_value();
    assert_eq!(
        value,
        object(vec![
            ("title", text("name")),
            ("type", text("string")),
            ("format", text("date-time")),
            ("pattern", text("^a")),
            ("enum", Value::Array(vec![text("a"), Value::Null])),
            ("minLength", count(1)),
            ("maxLength", count(7)),
        ])
    );
    assert_eq!(Schema::from_value(&value), Ok(schema));
}

#[test]
fn every_data_field_is_read_back() {
    let schema = Schema {
        schema_data: SchemaData {
            nullable: Some(true),
            read_only: Some(false),
            write_only: Some(true),
            deprecated: Some(false),
            external_docs: Some(ExternalDocumentation {
                description: Some("more".to_string()),
                url: "https://example.com".to_string(),
            }),
            example: Some(Value::Array(vec![count(1), Value::Null])),
            title: Some("t".to_string()),
            description: Some("d".to_string()),
            discriminator: Some("kind".to_string()),
            default: Some(Value::Null),
        },
        schema_kind: SchemaKind::Type(Type::Boolean {}),
    };
    let value = schema.to_value();
    assert_eq!(
        value,
        object(vec![
            ("nullable", Value::Bool(true)),
            ("readOnly", Value::Bool(false)),
            ("writeOnly", Value::Bool(true)),
            ("deprecated", Value::Bool(false)),
            (
                "externalDocs",
                object(vec![("description", text("more")), ("url", text("https://example.com"))])
            ),
            ("example", Value::Array(vec![count(1), Value::Null])),
            ("title", text("t")),
            ("description", text("d")),
            ("discriminator", text("kind")),
            ("default", Value::Null),
            ("type", text("boolean")),
        ])
    );
    assert_eq!(Schema::from_value(&value), Ok(schema));
}

#[test]
fn absent_fields_are_left_out() {
    let schema = plain(SchemaKind::Any(AnySchema::default()));
    assert_eq!(schema.to_value(), Value::Object(vec![]));
    assert_eq!(Schema::from_value(&Value::Object(vec![])), Ok(schema));
}

#[test]
fn number_schema_keeps_its_numbers() {
    let half = Number::Float { bits: 0.5f64.to_bits() };
    let schema = plain(SchemaKind::Type(Type::Number(NumberType {
        format: VariantOrUnknownOrEmpty::Item(NumberFormat::Double),
        multiple_of: Some(half),
        exclusive_minimum: Some(Number::Float { bits: 3.5f64.to_bits() }),
        exclusive_maximum: Some(Number::PosInt(9)),
        minimum: Some(Number::NegInt(-4)),
        maximum: Some(Number::PosInt(10)),
        enumeration: vec![half, Number::PosInt(2)],
    })));
    let value = schema.to_value();
    assert_eq!(
        value,
        object(vec![
            ("type", text("number")),
            ("format", text("double")),
            ("multipleOf", Value::Number(half)),
            ("exclusiveMinimum", Value::Number(Number::Float { bits: 3.5f64.to_bits() })),
            ("exclusiveMaximum", count(9)),
            ("minimum", Value::Number(Number::NegInt(-4))),
            ("maximum", count(10)),
            ("enum", Value::Array(vec![Value::Number(half), count(2)])),
        ])
    );
    assert_eq!(reread(&schema), schema);
}

#[test]
fn integer_schema_writes_signs_apart() {
    let schema = plain(SchemaKind::Type(Type::Integer(IntegerType {
        format: VariantOrUnknownOrEmpty::Item(IntegerFormat::Int64),
        multiple_of: Some(3),
        exclusive_minimum: Some(i64::MIN),
        exclusive_maximum: Some(i64::MAX),
        minimum: Some(-1),
        maximum: Some(0),
        enumeration: vec![-7, 7],
    })));
    let value = schema.to_value();
    assert_eq!(
        value,
        object(vec![
            ("type", text("integer")),
            ("format", text("int64")),
            ("multipleOf", count(3)),
            ("exclusiveMinimum", Value::Number(Number::NegInt(i64::MIN))),
            ("exclusiveMaximum", count(i64::MAX as u64)),
            ("minimum", Value::Number(Number::NegInt(-1))),
            ("maximum", count(0)),
            ("enum", Value::Array(vec![Value::Number(Number::NegInt(-7)), count(7)])),
        ])
    );
    assert_eq!(reread(&schema), schema);
}

#[test]
fn object_schema_with_nested_properties_is_read_back() {
    let mut inner = Properties::new();
    inner.insert(
        "id".to_string(),
        ReferenceOr::Item(Box::new(plain(SchemaKind::Type(Type::Integer(IntegerType::default()))))),
    );
    let mut properties = Properties::new();
    properties.insert(
        "child".to_string(),
        ReferenceOr::Item(Box::new(plain(SchemaKind::Type(Type::Object(ObjectType {
            properties: inner,
            ..Default::default()
        }))))),
    );
    properties.insert("other".to_string(), ReferenceOr::ref_("#/components/schemas/Other"));
    let schema = plain(SchemaKind::Type(Type::Object(ObjectType {
        properties,
        required: vec!["child".to_string()],
        additional_properties: Some(AdditionalProperties::Schema(Box::new(ReferenceOr::Item(
            plain(SchemaKind::Type(Type::Boolean {})),
        )))),
        min_properties: Some(1),
        max_properties: Some(2),
    })));
    let value = schema.to_value();
    assert_eq!(
        value,
        object(vec![
            ("type", text("object")),
            (
                "properties",
                object(vec![
                    (
                        "child",
                        object(vec![
                            ("type", text("object")),
                            ("properties", object(vec![("id", object(vec![("type", text("integer"))]))])),
                        ])
                    ),
                    ("other", object(vec![("$ref", text("#/components/schemas/Other"))])),
                ])
            ),
            ("required", Value::Array(vec![text("child")])),
            ("additionalProperties", object(vec![("type", text("boolean"))])),
            ("minProperties", count(1)),
            ("maxProperties", count(2)),
        ])
    );
    assert_eq!(reread(&schema), schema);
}

#[test]
fn additional_properties_flag_is_read_back() {
    let schema = plain(SchemaKind::Type(Type::Object(ObjectType {
        additional_properties: Some(AdditionalProperties::Any(false)),
        ..Default::default()
    })));
    assert_eq!(
        schema.to_value(),
        object(vec![("type", text("object")), ("additionalProperties", Value::Bool(false))])
    );
    assert_eq!(reread(&schema), schema);
}

#[test]
fn array_schema_is_read_back() {
    let schema = plain(SchemaKind::Type(Type::Array(ArrayType {
        items: Some(ReferenceOr::Item(Box::new(plain(SchemaKind::Type(Type::String(
            StringType::default(),
        )))))),
        min_items: Some(0),
        max_items: Some(3),
        unique_items: true,
    })));
    assert_eq!(
        schema.to_value(),
        object(vec![
            ("type", text("array")),
            ("items", object(vec![("type", text("string"))])),
            ("minItems", count(0)),
            ("maxItems", count(3)),
            ("uniqueItems", Value::Bool(true)),
        ])
    );
    assert_eq!(reread(&schema), schema);
}

#[test]
fn unique_items_is_left_out_when_false() {
    let schema = plain(SchemaKind::Type(Type::Array(ArrayType::default())));
    assert_eq!(schema.to_value(), object(vec![("type", text("array"))]));
    assert_eq!(reread(&schema), schema);
}

#[test]
fn compositions_are_read_back() {
    let members = || {
        vec![
            ReferenceOr::ref_("#/components/schemas/A"),
            ReferenceOr::Item(plain(SchemaKind::Type(Type::Boolean {}))),
        ]
    };
    let written = Value::Array(vec![
        object(vec![("$ref", text("#/components/schemas/A"))]),
        object(vec![("type", text("boolean"))]),
    ]);
    let one_of = plain(SchemaKind::OneOf { one_of: members() });
    assert_eq!(one_of.to_value(), object(vec![("oneOf", written.clone())]));
    assert_eq!(reread(&one_of), one_of);
    let all_of = plain(SchemaKind::AllOf { all_of: members() });
    assert_eq!(all_of.to_value(), object(vec![("allOf", written.clone())]));
    assert_eq!(reread(&all_of), all_of);
    let any_of = plain(SchemaKind::AnyOf { any_of: members() });
    assert_eq!(any_of.to_value(), object(vec![("anyOf", written)]));
    assert_eq!(reread(&any_of), any_of);
}

#[test]
fn empty_composition_is_read_back() {
    let schema = plain(SchemaKind::OneOf { one_of: vec![] });
    assert_eq!(schema.to_value(), object(vec![("oneOf", Value::Array(vec![]))]));
    assert_eq!(reread(&schema), schema);
}

#[test]
fn open_shape_with_every_field_is_read_back() {
    let mut properties = Properties::new();
    properties.insert("p".to_string(), ReferenceOr::ref_("#/p"));
    let schema = plain(SchemaKind::Any(AnySchema {
        pattern: Some("x+".to_string()),
        multiple_of: Some(Number::PosInt(2)),
        exclusive_minimum: Some(true),
        exclusive_maximum: Some(false),
        minimum: Some(Number::NegInt(-1)),
        maximum: Some(Number::Float { bits: 1.5f64.to_bits() }),
        properties,
        required: vec!["p".to_string()],
        additional_properties: Some(AdditionalProperties::Any(true)),
        min_properties: Some(1),
        max_properties: Some(1),
        items: Some(ReferenceOr::ref_("#/i")),
        min_items: Some(2),
        max_items: Some(3),
        unique_items: Some(false),
        format: Some("anything".to_string()),
    }));
    let value = schema.to_value();
    assert_eq!(
        value,
        object(vec![
            ("pattern", text("x+")),
            ("multipleOf", count(2)),
            ("exclusiveMinimum", Value::Bool(true)),
            ("exclusiveMaximum", Value::Bool(false)),
            ("minimum", Value::Number(Number::NegInt(-1))),
            ("maximum", Value::Number(Number::Float { bits: 1.5f64.to_bits() })),
            ("properties", object(vec![("p", object(vec![("$ref", text("#/p"))]))])),
            ("required", Value::Array(vec![text("p")])),
            ("additionalProperties", Value::Bool(true)),
            ("minProperties", count(1)),
            ("maxProperties", count(1)),
            ("items", object(vec![("$ref", text("#/i"))])),
            ("minItems", count(2)),
            ("maxItems", count(3)),
            ("uniqueItems", Value::Bool(false)),
            ("format", text("anything")),
        ])
    );
    assert_eq!(reread(&schema), schema);
}

#[test]
fn unknown_text_that_names_a_format_is_not_well_formed() {
    let schema = plain(SchemaKind::Type(Type::String(StringType {
        format: VariantOrUnknownOrEmpty::Unknown("date".to_string()),
        ..Default::default()
    })));
    assert!(!schema.is_well_formed());
    assert!(!schema.round_trips());
    let read = reread(&schema);
    assert_eq!(
        read,
        plain(SchemaKind::Type(Type::String(StringType {
            format: VariantOrUnknownOrEmpty::Item(StringFormat::Date),
            ..Default::default()
        })))
    );
    assert!(read.is_well_formed());
}

#[test]
fn well_formedness_looks_into_children() {
    let bad = plain(SchemaKind::Type(Type::Number(NumberType {
        format: VariantOrUnknownOrEmpty::Unknown("float".to_string()),
        ..Default::default()
    })));
    let good = plain(SchemaKind::Type(Type::Number(NumberType {
        format: VariantOrUnknownOrEmpty::Unknown("decimal".to_string()),
        ..Default::default()
    })));
    assert!(good.is_well_formed());
    let mut properties = Properties::new();
    properties.insert("n".to_string(), ReferenceOr::Item(Box::new(bad.clone())));
    let object = plain(SchemaKind::Type(Type::Object(ObjectType {
        properties,
        ..Default::default()
    })));
    assert!(!object.is_well_formed());
    let array = plain(SchemaKind::Type(Type::Array(ArrayType {
        items: Some(ReferenceOr::Item(Box::new(bad.clone()))),
        ..Default::default()
    })));
    assert!(!array.is_well_formed());
    let all_of = plain(SchemaKind::AllOf {
        all_of: vec![ReferenceOr::Item(good.clone()), ReferenceOr::Item(bad)],
    });
    assert!(!all_of.is_well_formed());
    let any_of = plain(SchemaKind::AnyOf { any_of: vec![ReferenceOr::Item(good)] });
    assert!(any_of.is_well_formed());
}

#[test]
fn clone_gives_an_equal_schema() {
    let mut properties = Properties::new();
    properties.insert("b".to_string(), ReferenceOr::ref_("#/b"));
    properties.insert(
        "a".to_string(),
        ReferenceOr::Item(Box::new(plain(SchemaKind::Type(Type::Boolean {})))),
    );
    let schema = Schema {
        schema_data: SchemaData {
            example: Some(object(vec![("k", Value::Array(vec![Value::Null]))])),
            description: Some("d".to_string()),
            ..Default::default()
        },
        schema_kind: SchemaKind::Type(Type::Object(ObjectType {
            properties,
            required: vec!["a".to_string()],
            ..Default::default()
        })),
    };
    let copy = schema.clone();
    assert_eq!(copy, schema);
    assert_eq!(copy.to_value(), schema.to_value());
}
