use asyncapi::schema::{
    AnySchema, IntegerType, NumberType, ObjectType, SchemaData, SchemaKind, StringFormat,
    StringType, Type,
};
use asyncapi::{
    ErrorKind, Number, ParseError, PathSegment, ReferenceOr, Schema, Value,
    VariantOrUnknownOrEmpty,
};

fn object(entries: Vec<(&str, Value)>) -> Value {
    Value::Object(entries.into_iter().map(|(k, v)| (k.to_string(), v)).collect())
}

fn text(s: &str) -> Value {
    Value::String(s.to_string())
}

fn count(n: u64) -> Value {
    Value::Number(Number::PosInt(n))
}

fn plain(kind: SchemaKind) -> Schema {
    Schema { schema_data: SchemaData::default(), schema_kind: kind }
}

fn key(s: &str) -> PathSegment {
    PathSegment::Key(s.to_string())
}

fn failure(kind: ErrorKind, path: Vec<PathSegment>) -> ParseError {
    ParseError { kind, path }
}

#[test]
fn type_tag_wins_over_composition_keyword() {
    let value = object(vec![
        ("anyOf", Value::Array(vec![object(vec![("type", text("string"))])])),
        ("type", text("object")),
    ]);
    let schema = Schema::from_value(&value).unwrap();
    assert_eq!(schema, plain(SchemaKind::Type(Type::Object(ObjectType::default()))));
    assert_eq!(schema.to_value(), object(vec![("type", text("object"))]));
}

#[test]
fn one_of_wins_over_all_of_and_any_of() {
    let value = object(vec![
        ("anyOf", Value::Array(vec![])),
        ("allOf", Value::Array(vec![])),
        ("oneOf", Value::Array(vec![object(vec![])])),
    ]);
    assert_eq!(
        Schema::from_value(&value),
        Ok(plain(SchemaKind::OneOf {
            one_of: vec![ReferenceOr::Item(plain(SchemaKind::Any(AnySchema::default())))]
        }))
    );
}

#[test]
fn all_of_wins_over_any_of() {
    let value = object(vec![("anyOf", Value::Array(vec![])), ("allOf", Value::Array(vec![]))]);
    assert_eq!(Schema::from_value(&value), Ok(plain(SchemaKind::AllOf { all_of: vec![] })));
}

#[test]
fn unrecognised_type_gives_the_open_shape() {
    let value = object(vec![("type", text("null")), ("pattern", text("a"))]);
    assert_eq!(
        Schema::from_value(&value),
        Ok(plain(SchemaKind::Any(AnySchema { pattern: Some("a".to_string()), ..Default::default() })))
    );
    let value = object(vec![("type", count(3))]);
    assert_eq!(Schema::from_value(&value), Ok(plain(SchemaKind::Any(AnySchema::default()))));
}

#[test]
fn each_primitive_name_gives_its_shape() {
    for (name, kind) in [
        ("string", Type::String(StringType::default())),
        ("number", Type::Number(NumberType::default())),
        ("integer", Type::Integer(IntegerType::default())),
        ("object", Type::Object(ObjectType::default())),
        ("array", Type::Array(Default::default())),
        ("boolean", Type::Boolean {}),
    ] {
        let value = object(vec![("type", text(name))]);
        assert_eq!(Schema::from_value(&value), Ok(plain(SchemaKind::Type(kind))));
    }
}

#[test]
fn unknown_format_is_kept_as_written() {
    let value = object(vec![("type", text("string")), ("format", text("custom-unknown"))]);
    let schema = Schema::from_value(&value).unwrap();
    assert_eq!(
        schema,
        plain(SchemaKind::Type(Type::String(StringType {
            format: VariantOrUnknownOrEmpty::Unknown("custom-unknown".to_string()),
            ..Default::default()
        })))
    );
    assert_eq!(schema.to_value(), value);
}

#[test]
fn known_format_is_recognised() {
    let value = object(vec![("type", text("string")), ("format", text("byte"))]);
    let schema = Schema::from_value(&value).unwrap();
    assert_eq!(
        schema,
        plain(SchemaKind::Type(Type::String(StringType {
            format: VariantOrUnknownOrEmpty::Item(StringFormat::Byte),
            ..Default::default()
        })))
    );
    assert_eq!(schema.to_value(), value);
}

#[test]
fn absent_format_is_empty_and_stays_absent() {
    let value = object(vec![("type", text("string"))]);
    let schema = Schema::from_value(&value).unwrap();
    match &schema.schema_kind {
        SchemaKind::Type(Type::String(t)) => {
            assert!(t.format.is_empty());
            assert_eq!(t.format, VariantOrUnknownOrEmpty::Empty);
        }
        other => panic!("not a string shape: {:?}", other),
    }
    let written = schema.to_value();
    assert_eq!(written, value);
    match written {
        Value::Object(entries) => assert!(entries.iter().all(|(k, _)| k != "format")),
        other => panic!("not an object: {:?}", other),
    }
}

#[test]
fn reference_and_inline_are_told_apart() {
    let reference = object(vec![("$ref", text("#/components/schemas/Foo"))]);
    assert_eq!(
        asyncapi::reader::ref_from_value(&reference),
        Ok(ReferenceOr::Reference { reference: "#/components/schemas/Foo".to_string() })
    );
    let inline = object(vec![("type", text("string"))]);
    assert_eq!(
        asyncapi::reader::ref_from_value(&inline),
        Ok(ReferenceOr::Item(plain(SchemaKind::Type(Type::String(StringType::default())))))
    );
}

#[test]
fn reference_is_written_with_its_keyword_alone() {
    let r: ReferenceOr<Schema> = ReferenceOr::ref_("#/components/schemas/Foo");
    assert_eq!(
        asyncapi::writer::ref_to_value(&r),
        object(vec![("$ref", text("#/components/schemas/Foo"))])
    );
    let boxed: ReferenceOr<Box<Schema>> =
        ReferenceOr::Item(Box::new(plain(SchemaKind::Type(Type::Boolean {}))));
    assert_eq!(
        asyncapi::writer::boxed_ref_to_value(&boxed),
        object(vec![("type", text("boolean"))])
    );
}

#[test]
fn properties_keep_their_order() {
    let value = object(vec![
        ("type", text("object")),
        (
            "properties",
            object(vec![
                ("b", object(vec![("type", text("string"))])),
                ("a", object(vec![("type", text("integer"))])),
                ("c", object(vec![("$ref", text("#/c"))])),
            ]),
        ),
    ]);
    let schema = Schema::from_value(&value).unwrap();
    match &schema.schema_kind {
        SchemaKind::Type(Type::Object(o)) => {
            assert_eq!(o.properties.len(), 3);
            let names: Vec<&str> = (0..3)
                .map(|i| o.properties.get_index(i).unwrap().0.as_str())
                .collect();
            assert_eq!(names, vec!["b", "a", "c"]);
        }
        other => panic!("not an object shape: {:?}", other),
    }
    assert_eq!(schema.to_value(), value);
}

#[test]
fn repeated_property_keeps_its_place_and_takes_the_later_value() {
    let value = object(vec![
        ("type", text("object")),
        (
            "properties",
            object(vec![
                ("b", object(vec![("type", text("string"))])),
                ("a", object(vec![("type", text("integer"))])),
                ("b", object(vec![("type", text("boolean"))])),
            ]),
        ),
    ]);
    let schema = Schema::from_value(&value).unwrap();
    assert_eq!(
        schema.to_value(),
        object(vec![
            ("type", text("object")),
            (
                "properties",
                object(vec![
                    ("b", object(vec![("type", text("boolean"))])),
                    ("a", object(vec![("type", text("integer"))])),
                ]),
            ),
        ])
    );
}

#[test]
fn number_bound_and_flag_bound_are_not_confused() {
    let bound = Number::Float { bits: 3.5f64.to_bits() };
    let number = object(vec![("type", text("number")), ("exclusiveMinimum", Value::Number(bound))]);
    let schema = Schema::from_value(&number).unwrap();
    assert_eq!(
        schema,
        plain(SchemaKind::Type(Type::Number(NumberType {
            exclusive_minimum: Some(bound),
            ..Default::default()
        })))
    );
    assert_eq!(schema.to_value(), number);
    let open = object(vec![("exclusiveMinimum", Value::Bool(true))]);
    let schema = Schema::from_value(&open).unwrap();
    assert_eq!(
        schema,
        plain(SchemaKind::Any(AnySchema { exclusive_minimum: Some(true), ..Default::default() }))
    );
    assert_eq!(schema.to_value(), open);
    let flag_in_number =
        object(vec![("type", text("number")), ("exclusiveMinimum", Value::Bool(true))]);
    assert_eq!(
        Schema::from_value(&flag_in_number),
        Err(failure(ErrorKind::MalformedScalar, vec![key("exclusiveMinimum")]))
    );
    let number_in_open = object(vec![("exclusiveMaximum", Value::Number(bound))]);
    assert_eq!(
        Schema::from_value(&number_in_open),
        Err(failure(ErrorKind::MalformedScalar, vec![key("exclusiveMaximum")]))
    );
}

#[test]
fn keywords_of_other_shapes_are_passed_over() {
    let value = object(vec![
        ("type", text("boolean")),
        ("minLength", text("not a number")),
        ("x-extension", Value::Null),
    ]);
    assert_eq!(Schema::from_value(&value), Ok(plain(SchemaKind::Type(Type::Boolean {}))));
}

#[test]
fn null_is_read_as_absent_but_kept_as_an_example() {
    let value = object(vec![
        ("title", Value::Null),
        ("nullable", Value::Null),
        ("example", Value::Null),
        ("type", text("string")),
        ("format", Value::Null),
        ("enum", Value::Null),
        ("minLength", Value::Null),
    ]);
    assert_eq!(
        Schema::from_value(&value),
        Ok(Schema {
            schema_data: SchemaData { example: Some(Value::Null), ..Default::default() },
            schema_kind: SchemaKind::Type(Type::String(StringType::default())),
        })
    );
}

#[test]
fn later_entry_of_a_repeated_key_is_read() {
    let value = object(vec![("title", text("first")), ("title", text("second"))]);
    let schema = Schema::from_value(&value).unwrap();
    assert_eq!(schema.schema_data.title, Some("second".to_string()));
}

#[test]
fn value_that_is_no_object_is_a_structural_mismatch() {
    for value in [Value::Null, Value::Bool(true), count(1), text("s"), Value::Array(vec![])] {
        assert_eq!(
            Schema::from_value(&value),
            Err(failure(ErrorKind::StructuralMismatch, vec![]))
        );
        assert_eq!(
            asyncapi::reader::ref_from_value(&value),
            Err(failure(ErrorKind::StructuralMismatch, vec![]))
        );
    }
}

#[test]
fn composition_that_is_no_array_is_a_structural_mismatch() {
    let value = object(vec![("oneOf", object(vec![]))]);
    assert_eq!(
        Schema::from_value(&value),
        Err(failure(ErrorKind::StructuralMismatch, vec![key("oneOf")]))
    );
    let value = object(vec![("allOf", Value::Null)]);
    assert_eq!(
        Schema::from_value(&value),
        Err(failure(ErrorKind::StructuralMismatch, vec![key("allOf")]))
    );
}

#[test]
fn failure_names_the_path_to_the_offending_value() {
    let value = object(vec![(
        "anyOf",
        Value::Array(vec![
            object(vec![]),
            object(vec![
                ("type", text("object")),
                (
                    "properties",
                    object(vec![(
                        "size",
                        object(vec![
                            ("type", text("array")),
                            ("items", object(vec![("type", text("string")), ("maxLength", text("7"))])),
                        ]),
                    )]),
                ),
            ]),
        ]),
    )]);
    assert_eq!(
        Schema::from_value(&value),
        Err(failure(
            ErrorKind::MalformedScalar,
            vec![
                key("anyOf"),
                PathSegment::Index(1),
                key("properties"),
                key("size"),
                key("items"),
                key("maxLength"),
            ]
        ))
    );
}

#[test]
fn first_failure_in_field_order_is_reported() {
    let value = object(vec![
        ("type", text("string")),
        ("maxLength", text("x")),
        ("pattern", count(1)),
        ("title", count(2)),
        ("nullable", text("yes")),
    ]);
    assert_eq!(
        Schema::from_value(&value),
        Err(failure(ErrorKind::MalformedScalar, vec![key("nullable")]))
    );
    let value = object(vec![("type", text("string")), ("maxLength", text("x")), ("pattern", count(1))]);
    assert_eq!(
        Schema::from_value(&value),
        Err(failure(ErrorKind::MalformedScalar, vec![key("pattern")]))
    );
}

#[test]
fn malformed_scalars_are_rejected() {
    let cases = vec![
        (object(vec![("nullable", count(1))]), "nullable"),
        (object(vec![("title", Value::Bool(true))]), "title"),
        (object(vec![("type", text("string")), ("format", count(1))]), "format"),
        (object(vec![("type", text("string")), ("minLength", Value::Number(Number::NegInt(-1)))]), "minLength"),
        (
            object(vec![
                ("type", text("string")),
                ("maxLength", Value::Number(Number::Float { bits: 2.0f64.to_bits() })),
            ]),
            "maxLength",
        ),
        (
            object(vec![
                ("type", text("integer")),
                ("minimum", Value::Number(Number::Float { bits: 2.0f64.to_bits() })),
            ]),
            "minimum",
        ),
        (object(vec![("type", text("integer")), ("maximum", count(u64::MAX))]), "maximum"),
        (object(vec![("type", text("number")), ("multipleOf", text("2"))]), "multipleOf"),
        (object(vec![("type", text("array")), ("uniqueItems", text("no"))]), "uniqueItems"),
        (object(vec![("uniqueItems", count(0))]), "uniqueItems"),
        (object(vec![("format", Value::Bool(false))]), "format"),
    ];
    for (value, at) in cases {
        assert_eq!(
            Schema::from_value(&value),
            Err(failure(ErrorKind::MalformedScalar, vec![key(at)])),
            "{:?}",
            value
        );
    }
}

#[test]
fn largest_signed_integer_is_accepted() {
    let value = object(vec![("type", text("integer")), ("maximum", count(i64::MAX as u64))]);
    assert_eq!(
        Schema::from_value(&value),
        Ok(plain(SchemaKind::Type(Type::Integer(IntegerType {
            maximum: Some(i64::MAX),
            ..Default::default()
        }))))
    );
    let value = object(vec![("type", text("integer")), ("maximum", count(i64::MAX as u64 + 1))]);
    assert_eq!(
        Schema::from_value(&value),
        Err(failure(ErrorKind::MalformedScalar, vec![key("maximum")]))
    );
}

#[test]
fn malformed_list_members_are_rejected_with_their_position() {
    let value = object(vec![
        ("type", text("object")),
        ("required", Value::Array(vec![text("a"), count(1), Value::Null])),
    ]);
    assert_eq!(
        Schema::from_value(&value),
        Err(failure(ErrorKind::MalformedScalar, vec![key("required"), PathSegment::Index(1)]))
    );
    let value = object(vec![("type", text("object")), ("required", text("a"))]);
    assert_eq!(
        Schema::from_value(&value),
        Err(failure(ErrorKind::StructuralMismatch, vec![key("required")]))
    );
    let value = object(vec![
        ("type", text("integer")),
        ("enum", Value::Array(vec![count(1), Value::Number(Number::Float { bits: 0 })])),
    ]);
    assert_eq!(
        Schema::from_value(&value),
        Err(failure(ErrorKind::MalformedScalar, vec![key("enum"), PathSegment::Index(1)]))
    );
    let value = object(vec![("type", text("number")), ("enum", Value::Array(vec![text("1")]))]);
    assert_eq!(
        Schema::from_value(&value),
        Err(failure(ErrorKind::MalformedScalar, vec![key("enum"), PathSegment::Index(0)]))
    );
    let value = object(vec![
        ("type", text("string")),
        ("enum", Value::Array(vec![Value::Null, Value::Bool(true)])),
    ]);
    assert_eq!(
        Schema::from_value(&value),
        Err(failure(ErrorKind::MalformedScalar, vec![key("enum"), PathSegment::Index(1)]))
    );
}

#[test]
fn malformed_reference_is_rejected() {
    let value = object(vec![("type", text("array")), ("items", object(vec![("$ref", count(1))]))]);
    assert_eq!(
        Schema::from_value(&value),
        Err(failure(ErrorKind::MalformedScalar, vec![key("items"), key("$ref")]))
    );
    let value = object(vec![("type", text("array")), ("items", text("#/x"))]);
    assert_eq!(
        Schema::from_value(&value),
        Err(failure(ErrorKind::StructuralMismatch, vec![key("items")]))
    );
}

#[test]
fn malformed_properties_and_additional_properties_are_rejected() {
    let value = object(vec![("type", text("object")), ("properties", Value::Array(vec![]))]);
    assert_eq!(
        Schema::from_value(&value),
        Err(failure(ErrorKind::StructuralMismatch, vec![key("properties")]))
    );
    let value = object(vec![("type", text("object")), ("properties", object(vec![("p", count(1))]))]);
    assert_eq!(
        Schema::from_value(&value),
        Err(failure(ErrorKind::StructuralMismatch, vec![key("properties"), key("p")]))
    );
    let value = object(vec![("type", text("object")), ("additionalProperties", count(1))]);
    assert_eq!(
        Schema::from_value(&value),
        Err(failure(ErrorKind::StructuralMismatch, vec![key("additionalProperties")]))
    );
}

#[test]
fn external_documentation_needs_its_url() {
    let value = object(vec![("externalDocs", object(vec![("description", text("d"))]))]);
    assert_eq!(
        Schema::from_value(&value),
        Err(failure(ErrorKind::StructuralMismatch, vec![key("externalDocs")]))
    );
    let value = object(vec![("externalDocs", object(vec![("url", count(1))]))]);
    assert_eq!(
        Schema::from_value(&value),
        Err(failure(ErrorKind::MalformedScalar, vec![key("externalDocs"), key("url")]))
    );
    let value = object(vec![("externalDocs", text("https://example.com"))]);
    assert_eq!(
        Schema::from_value(&value),
        Err(failure(ErrorKind::StructuralMismatch, vec![key("externalDocs")]))
    );
    let value = object(vec![("externalDocs", object(vec![("description", count(1)), ("url", text("u"))]))]);
    assert_eq!(
        Schema::from_value(&value),
        Err(failure(ErrorKind::MalformedScalar, vec![key("externalDocs"), key("description")]))
    );
}

#[test]
fn what_is_read_is_well_formed() {
    let value = object(vec![
        ("type", text("object")),
        (
            "properties",
            object(vec![
                ("a", object(vec![("type", text("string")), ("format", text("date"))])),
                ("a", object(vec![("type", text("number")), ("format", text("money"))])),
            ]),
        ),
    ]);
    let schema = Schema::from_value(&value).unwrap();
    assert!(schema.is_well_formed());
    assert_eq!(Schema::from_value(&schema.to_value()), Ok(schema));
}
