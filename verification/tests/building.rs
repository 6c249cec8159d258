use asyncapi::property::{
    integer_pair_property, integer_property, number_pair_property, number_property,
    string_property,
};
use asyncapi::schema::{
    ArrayType, IntegerFormat, IntegerType, NumberFormat, NumberType, ObjectType, SchemaData,
    SchemaKind, StringFormat, StringType, Type, XValue,
};
use asyncapi::{Number, Properties, ReferenceOr, Schema, Value, VariantOrUnknownOrEmpty};
use vek::Vec2;

fn object(entries: Vec<(&str, Value)>) -> Value {
    Value::Object(entries.into_iter().map(|(k, v)| (k.to_string(), v)).collect())
}

fn text(s: &str) -> Value {
    Value::String(s.to_string())
}

fn plain(kind: SchemaKind) -> Schema {
    Schema { schema_data: SchemaData::default(), schema_kind: kind }
}

fn integer(format: IntegerFormat) -> SchemaKind {
    SchemaKind::Type(Type::Integer(IntegerType {
        format: VariantOrUnknownOrEmpty::Item(format),
        ..Default::default()
    }))
}

fn number(format: NumberFormat) -> SchemaKind {
    SchemaKind::Type(Type::Number(NumberType {
        format: VariantOrUnknownOrEmpty::Item(format),
        ..Default::default()
    }))
}

fn string(format: StringFormat) -> SchemaKind {
    SchemaKind::Type(Type::String(StringType {
        format: VariantOrUnknownOrEmpty::Item(format),
        ..Default::default()
    }))
}

fn described(kind: SchemaKind, example: Option<&str>, description: &str) -> ReferenceOr<Box<Schema>> {
    ReferenceOr::Item(Box::new(Schema {
        schema_data: SchemaData {
            description: Some(description.to_string()),
            example: example.map(text),
            ..Default::default()
        },
        schema_kind: kind,
    }))
}

fn list(item: SchemaKind) -> SchemaKind {
    SchemaKind::Type(Type::Array(ArrayType {
        items: Some(ReferenceOr::Item(Box::new(plain(item)))),
        ..Default::default()
    }))
}

fn pair(x: SchemaKind, y: SchemaKind) -> SchemaKind {
    let mut properties = Properties::new();
    properties.insert("x".to_string(), ReferenceOr::Item(Box::new(plain(x))));
    properties.insert("y".to_string(), ReferenceOr::Item(Box::new(plain(y))));
    SchemaKind::Type(Type::Object(ObjectType { properties, ..Default::default() }))
}

fn names(p: &Properties) -> Vec<String> {
    (0..p.len()).map(|i| p.get_index(i).unwrap().0.clone()).collect()
}

fn s(x: &str) -> String {
    x.to_string()
}

#[test]
fn scalar_types_give_their_formats() {
    assert_eq!(
        <i32 as XValue>::CreatePropertie(s("t"), s("12"), s("an int")),
        described(integer(IntegerFormat::Int32), Some("12"), "an int")
    );
    assert_eq!(
        <u32 as XValue>::CreatePropertie(s("t"), s("12"), s("a count")),
        described(integer(IntegerFormat::UInt32), Some("12"), "a count")
    );
    assert_eq!(
        <i64 as XValue>::CreatePropertie(s("t"), s("-5"), s("a long")),
        described(integer(IntegerFormat::Int64), Some("-5"), "a long")
    );
    assert_eq!(
        <String as XValue>::CreatePropertie(s("t"), s("abc"), s("a text")),
        described(string(StringFormat::Byte), Some("abc"), "a text")
    );
}

#[test]
fn empty_example_is_left_out() {
    assert_eq!(
        <i32 as XValue>::CreatePropertie(s("t"), s(""), s("d")),
        described(integer(IntegerFormat::Int32), None, "d")
    );
    assert_eq!(
        <String as XValue>::CreatePropertie(s(""), s(""), s("")),
        described(string(StringFormat::Byte), None, "")
    );
    assert_eq!(
        number_property(NumberFormat::Float, s(""), s("d")),
        described(number(NumberFormat::Float), None, "d")
    );
}

#[test]
fn list_types_describe_their_items() {
    assert_eq!(
        <Vec<String> as XValue>::CreatePropertie(s("t"), s("ignored"), s("texts")),
        described(list(string(StringFormat::Byte)), None, "texts")
    );
    assert_eq!(
        <Vec<i32> as XValue>::CreatePropertie(s("t"), s("ignored"), s("ints")),
        described(list(integer(IntegerFormat::Int32)), None, "ints")
    );
    assert_eq!(
        <Vec<u32> as XValue>::CreatePropertie(s("t"), s("ignored"), s("counts")),
        described(list(integer(IntegerFormat::UInt32)), None, "counts")
    );
}

#[test]
fn pair_types_have_x_then_y() {
    let got = <Vec2<i32> as XValue>::CreatePropertie(s("t"), s("ignored"), s("a point"));
    assert_eq!(
        got,
        described(pair(integer(IntegerFormat::Int32), integer(IntegerFormat::Int32)), None, "a point")
    );
    match &got {
        ReferenceOr::Item(schema) => match &schema.schema_kind {
            SchemaKind::Type(Type::Object(o)) => assert_eq!(names(&o.properties), vec!["x", "y"]),
            other => panic!("not an object shape: {:?}", other),
        },
        other => panic!("not inline: {:?}", other),
    }
    assert_eq!(
        <Vec2<u32> as XValue>::CreatePropertie(s("t"), s(""), s("a size")),
        described(pair(integer(IntegerFormat::UInt32), integer(IntegerFormat::UInt32)), None, "a size")
    );
    assert_eq!(
        integer_pair_property(IntegerFormat::Int64, s("p")),
        described(pair(integer(IntegerFormat::Int64), integer(IntegerFormat::Int64)), None, "p")
    );
    assert_eq!(
        number_pair_property(NumberFormat::Float, s("a vector")),
        described(pair(number(NumberFormat::Float), number(NumberFormat::Float)), None, "a vector")
    );
}

#[test]
fn pair_property_is_written_in_order() {
    let got = <Vec2<i32> as XValue>::CreatePropertie(s("t"), s(""), s("a point"));
    let member = object(vec![("type", text("integer")), ("format", text("int32"))]);
    assert_eq!(
        asyncapi::writer::boxed_ref_to_value(&got),
        object(vec![
            ("description", text("a point")),
            ("type", text("object")),
            ("properties", object(vec![("x", member.clone()), ("y", member)])),
        ])
    );
}

#[test]
fn named_builders_give_the_asked_format() {
    assert_eq!(
        integer_property(IntegerFormat::UInt64, s("9"), s("d")),
        described(integer(IntegerFormat::UInt64), Some("9"), "d")
    );
    assert_eq!(
        number_property(NumberFormat::Double, s("1.5"), s("d")),
        described(number(NumberFormat::Double), Some("1.5"), "d")
    );
    assert_eq!(
        string_property(StringFormat::Password, s("x"), s("d")),
        described(string(StringFormat::Password), Some("x"), "d")
    );
}

#[test]
fn byte_string_property_always_has_its_example() {
    assert_eq!(
        ObjectType::CreatePropertie2(s("abc"), s("bytes")),
        described(string(StringFormat::Byte), Some("abc"), "bytes")
    );
    assert_eq!(
        ObjectType::CreatePropertie2(s(""), s("bytes")),
        described(string(StringFormat::Byte), Some(""), "bytes")
    );
}

#[test]
fn built_properties_are_well_formed_and_read_back() {
    let built = vec![
        <i32 as XValue>::CreatePropertie(s("t"), s("1"), s("d")),
        <Vec<String> as XValue>::CreatePropertie(s("t"), s(""), s("d")),
        <Vec2<u32> as XValue>::CreatePropertie(s("t"), s(""), s("d")),
        ObjectType::CreatePropertie2(s("v"), s("d")),
        number_pair_property(NumberFormat::Float, s("d")),
    ];
    for property in built {
        match property {
            ReferenceOr::Item(schema) => {
                assert!(schema.is_well_formed());
                assert_eq!(Schema::from_value(&schema.to_value()), Ok(*schema));
            }
            other => panic!("not inline: {:?}", other),
        }
    }
}

#[test]
fn defaults_are_empty() {
    assert_eq!(
        SchemaData::default(),
        SchemaData {
            nullable: None,
            read_only: None,
            write_only: None,
            deprecated: None,
            external_docs: None,
            example: None,
            title: None,
            description: None,
            discriminator: None,
            default: None,
        }
    );
    assert_eq!(
        NumberType::default(),
        NumberType {
            format: VariantOrUnknownOrEmpty::Empty,
            multiple_of: None::<Number>,
            exclusive_minimum: None,
            exclusive_maximum: None,
            minimum: None,
            maximum: None,
            enumeration: vec![],
        }
    );
    assert_eq!(
        ArrayType::default(),
        ArrayType { items: None, min_items: None, max_items: None, unique_items: false }
    );
    assert!(ObjectType::default().properties.is_empty());
    assert!(asyncapi::schema::AnySchema::default().properties.is_empty());
    assert!(VariantOrUnknownOrEmpty::<StringFormat>::default().is_empty());
}
