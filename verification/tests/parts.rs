use asyncapi::decode::TypeTag;
use asyncapi::reader::{count_from_number, int_from_number, tag_from_text};
use asyncapi::writer::number_of_int;
use asyncapi::keys::{get_entry, put_entry, Key};
use asyncapi::schema::{IntegerFormat, NumberFormat, SchemaData, SchemaKind, StringFormat, Type};
use asyncapi::text::{owned, str_eq};
use asyncapi::value::find;
use asyncapi::variant_or::KnownVariant;
use asyncapi::wellformed::format_is_well_formed;
use asyncapi::{
    ErrorKind, Number, ParseError, PathSegment, Properties, ReferenceOr, Schema, Value,
    VariantOrUnknown, VariantOrUnknownOrEmpty,
};

fn text(s: &str) -> Value {
    Value::String(s.to_string())
}

fn boolean() -> ReferenceOr<Box<Schema>> {
    ReferenceOr::Item(Box::new(Schema {
        schema_data: SchemaData::default(),
        schema_kind: SchemaKind::Type(Type::Boolean {}),
    }))
}

#[test]
fn strings_are_compared_by_their_characters() {
    assert!(str_eq("", ""));
    assert!(str_eq("type", "type"));
    assert!(!str_eq("type", "typo"));
    assert!(!str_eq("type", "types"));
    assert!(!str_eq("é", "e"));
    assert!(str_eq("héllo", "héllo"));
    assert_eq!(owned("abc"), "abc".to_string());
}

#[test]
fn last_entry_of_a_key_is_found() {
    let entries = vec![
        ("a".to_string(), text("1")),
        ("b".to_string(), text("2")),
        ("a".to_string(), text("3")),
    ];
    assert_eq!(find(&entries, "a"), Some(&text("3")));
    assert_eq!(find(&entries, "b"), Some(&text("2")));
    assert_eq!(find(&entries, "c"), None);
    assert_eq!(find(&vec![], "a"), None);
}

#[test]
fn entries_are_put_and_got_by_keyword() {
    let mut entries = Vec::new();
    put_entry(&mut entries, Key::Title, Some(text("t")));
    put_entry(&mut entries, Key::Description, None);
    put_entry(&mut entries, Key::Ref, Some(text("#/r")));
    assert_eq!(
        entries,
        vec![("title".to_string(), text("t")), ("$ref".to_string(), text("#/r"))]
    );
    assert_eq!(get_entry(&entries, Key::Title), Some(&text("t")));
    assert_eq!(get_entry(&entries, Key::Description), None);
    assert_eq!(get_entry(&entries, Key::Ref), Some(&text("#/r")));
}

#[test]
fn keywords_are_written_as_the_format_names_them() {
    let names = [
        (Key::Nullable, "nullable"),
        (Key::ReadOnly, "readOnly"),
        (Key::WriteOnly, "writeOnly"),
        (Key::Deprecated, "deprecated"),
        (Key::ExternalDocs, "externalDocs"),
        (Key::Example, "example"),
        (Key::Title, "title"),
        (Key::Description, "description"),
        (Key::Discriminator, "discriminator"),
        (Key::Default, "default"),
        (Key::Type, "type"),
        (Key::OneOf, "oneOf"),
        (Key::AllOf, "allOf"),
        (Key::AnyOf, "anyOf"),
        (Key::Format, "format"),
        (Key::Pattern, "pattern"),
        (Key::Enum, "enum"),
        (Key::MinLength, "minLength"),
        (Key::MaxLength, "maxLength"),
        (Key::MultipleOf, "multipleOf"),
        (Key::ExclusiveMinimum, "exclusiveMinimum"),
        (Key::ExclusiveMaximum, "exclusiveMaximum"),
        (Key::Minimum, "minimum"),
        (Key::Maximum, "maximum"),
        (Key::Properties, "properties"),
        (Key::Required, "required"),
        (Key::AdditionalProperties, "additionalProperties"),
        (Key::MinProperties, "minProperties"),
        (Key::MaxProperties, "maxProperties"),
        (Key::Items, "items"),
        (Key::MinItems, "minItems"),
        (Key::MaxItems, "maxItems"),
        (Key::UniqueItems, "uniqueItems"),
        (Key::Ref, "$ref"),
        (Key::Url, "url"),
    ];
    for (key, name) in names {
        assert_eq!(key.name(), name);
    }
}

#[test]
fn format_names_are_read_and_written() {
    let strings = [
        (StringFormat::Date, "date"),
        (StringFormat::DateTime, "date-time"),
        (StringFormat::Password, "password"),
        (StringFormat::Byte, "byte"),
        (StringFormat::Binary, "binary"),
    ];
    for (format, name) in strings {
        assert_eq!(format.as_text(), name);
        assert_eq!(StringFormat::from_text(name), Some(format));
    }
    let numbers = [(NumberFormat::Float, "float"), (NumberFormat::Double, "double")];
    for (format, name) in numbers {
        assert_eq!(format.as_text(), name);
        assert_eq!(NumberFormat::from_text(name), Some(format));
    }
    let integers = [
        (IntegerFormat::UInt32, "uint32"),
        (IntegerFormat::UInt64, "uint64"),
        (IntegerFormat::Int32, "int32"),
        (IntegerFormat::Int64, "int64"),
    ];
    for (format, name) in integers {
        assert_eq!(format.as_text(), name);
        assert_eq!(IntegerFormat::from_text(name), Some(format));
    }
    assert_eq!(StringFormat::from_text("Date"), None);
    assert_eq!(StringFormat::from_text("datetime"), None);
    assert_eq!(NumberFormat::from_text("int32"), None);
    assert_eq!(IntegerFormat::from_text(""), None);
}

#[test]
fn open_enumeration_keeps_unknown_text() {
    assert_eq!(
        VariantOrUnknown::<StringFormat>::from_text("date"),
        VariantOrUnknown::Item(StringFormat::Date)
    );
    assert_eq!(
        VariantOrUnknown::<StringFormat>::from_text("custom-unknown"),
        VariantOrUnknown::Unknown("custom-unknown".to_string())
    );
    assert_eq!(VariantOrUnknown::<StringFormat>::from_text("custom-unknown").to_text(), "custom-unknown");
    assert_eq!(VariantOrUnknown::Item(IntegerFormat::UInt64).to_text(), "uint64");
    assert_eq!(
        VariantOrUnknownOrEmpty::<NumberFormat>::from_text("double"),
        VariantOrUnknownOrEmpty::Item(NumberFormat::Double)
    );
    assert_eq!(
        VariantOrUnknownOrEmpty::<NumberFormat>::from_text(""),
        VariantOrUnknownOrEmpty::Unknown(String::new())
    );
    assert_eq!(
        VariantOrUnknownOrEmpty::<NumberFormat>::from_text("decimal").to_text(),
        Some("decimal".to_string())
    );
    assert_eq!(VariantOrUnknownOrEmpty::Item(NumberFormat::Float).to_text(), Some("float".to_string()));
    assert_eq!(VariantOrUnknownOrEmpty::<NumberFormat>::Empty.to_text(), None);
    assert!(VariantOrUnknownOrEmpty::<NumberFormat>::Empty.is_empty());
    assert!(!VariantOrUnknownOrEmpty::Item(NumberFormat::Float).is_empty());
    assert!(!VariantOrUnknownOrEmpty::<NumberFormat>::Unknown(String::new()).is_empty());
}

#[test]
fn format_well_formedness() {
    assert!(format_is_well_formed(&VariantOrUnknownOrEmpty::<StringFormat>::Empty));
    assert!(format_is_well_formed(&VariantOrUnknownOrEmpty::Item(StringFormat::Date)));
    assert!(format_is_well_formed(&VariantOrUnknownOrEmpty::<StringFormat>::Unknown("x".to_string())));
    assert!(!format_is_well_formed(&VariantOrUnknownOrEmpty::<StringFormat>::Unknown("binary".to_string())));
}

#[test]
fn numbers_convert_within_their_ranges() {
    assert_eq!(number_of_int(0), Number::PosInt(0));
    assert_eq!(number_of_int(5), Number::PosInt(5));
    assert_eq!(number_of_int(-5), Number::NegInt(-5));
    assert_eq!(number_of_int(i64::MAX), Number::PosInt(i64::MAX as u64));
    assert_eq!(int_from_number(Number::PosInt(5)), Some(5));
    assert_eq!(int_from_number(Number::NegInt(-5)), Some(-5));
    assert_eq!(int_from_number(Number::PosInt(i64::MAX as u64 + 1)), None);
    assert_eq!(int_from_number(Number::Float { bits: 1.0f64.to_bits() }), None);
    assert_eq!(count_from_number(Number::PosInt(7)), Some(7));
    assert_eq!(count_from_number(Number::PosInt(usize::MAX as u64)), Some(usize::MAX));
    assert_eq!(count_from_number(Number::NegInt(-7)), None);
    assert_eq!(count_from_number(Number::Float { bits: 7.0f64.to_bits() }), None);
}

#[test]
fn type_names_are_recognised() {
    assert_eq!(tag_from_text("string"), Some(TypeTag::String));
    assert_eq!(tag_from_text("number"), Some(TypeTag::Number));
    assert_eq!(tag_from_text("integer"), Some(TypeTag::Integer));
    assert_eq!(tag_from_text("object"), Some(TypeTag::Object));
    assert_eq!(tag_from_text("array"), Some(TypeTag::Array));
    assert_eq!(tag_from_text("boolean"), Some(TypeTag::Boolean));
    assert_eq!(tag_from_text("null"), None);
    assert_eq!(tag_from_text("String"), None);
}

#[test]
fn property_map_keeps_insertion_order() {
    let mut p = Properties::new();
    assert!(p.is_empty());
    assert_eq!(p.len(), 0);
    assert_eq!(p.get_index(0), None);
    p.insert("b".to_string(), ReferenceOr::ref_("#/b"));
    p.insert("a".to_string(), boolean());
    p.insert("c".to_string(), ReferenceOr::ref_("#/c"));
    assert!(!p.is_empty());
    assert_eq!(p.len(), 3);
    assert_eq!(p.get_index(0), Some((&"b".to_string(), &ReferenceOr::ref_("#/b"))));
    assert_eq!(p.get_index(1), Some((&"a".to_string(), &boolean())));
    assert_eq!(p.get_index(2), Some((&"c".to_string(), &ReferenceOr::ref_("#/c"))));
    assert_eq!(p.get_index(3), None);
    assert_eq!(p.get("a"), Some(&boolean()));
    assert_eq!(p.get("d"), None);
    p.names_once();
}

#[test]
fn property_map_replaces_in_place() {
    let mut p = Properties::new();
    p.insert("b".to_string(), ReferenceOr::ref_("#/b"));
    p.insert("a".to_string(), ReferenceOr::ref_("#/a"));
    p.insert("b".to_string(), boolean());
    assert_eq!(p.len(), 2);
    assert_eq!(p.get_index(0), Some((&"b".to_string(), &boolean())));
    assert_eq!(p.get_index(1), Some((&"a".to_string(), &ReferenceOr::ref_("#/a"))));
    let copy = p.clone();
    assert_eq!(copy.len(), 2);
    assert_eq!(copy.get_index(0), Some((&"b".to_string(), &boolean())));
    assert_eq!(copy.get_index(1), Some((&"a".to_string(), &ReferenceOr::ref_("#/a"))));
    assert_eq!(Properties::default().len(), 0);
}

#[test]
fn reference_or_is_built_and_boxed() {
    let r: ReferenceOr<u8> = ReferenceOr::ref_("#/x");
    assert_eq!(r, ReferenceOr::Reference { reference: "#/x".to_string() });
    assert_eq!(ReferenceOr::Item(7u8).boxed(), ReferenceOr::Item(Box::new(7)));
    assert_eq!(
        ReferenceOr::<u8>::ref_("#/x").boxed(),
        ReferenceOr::Reference { reference: "#/x".to_string() }
    );
    assert_ne!(ReferenceOr::Item(7u8), ReferenceOr::Item(8u8));
    assert_ne!(ReferenceOr::Item(7u8), ReferenceOr::ref_("7"));
}

#[test]
fn failures_are_built_outwards() {
    let e = ParseError::new(ErrorKind::MalformedScalar);
    assert_eq!(e, ParseError { kind: ErrorKind::MalformedScalar, path: vec![] });
    let e = e.under_index(2).under_key(Key::OneOf);
    assert_eq!(
        e,
        ParseError {
            kind: ErrorKind::MalformedScalar,
            path: vec![PathSegment::Key("oneOf".to_string()), PathSegment::Index(2)],
        }
    );
    let e = e.under(PathSegment::Key("p".to_string()));
    assert_eq!(e.path.len(), 3);
    assert_eq!(e.path[0], PathSegment::Key("p".to_string()));
    assert_eq!(e.clone(), e);
    assert_eq!(
        ParseError::at(ErrorKind::StructuralMismatch, Key::Items),
        ParseError {
            kind: ErrorKind::StructuralMismatch,
            path: vec![PathSegment::Key("items".to_string())],
        }
    );
}

#[test]
fn values_are_duplicated_deeply() {
    let value = Value::Object(vec![
        ("a".to_string(), Value::Array(vec![Value::Null, Value::Bool(true), text("x")])),
        ("b".to_string(), Value::Number(Number::Float { bits: 2.5f64.to_bits() })),
        ("c".to_string(), Value::Object(vec![("d".to_string(), Value::Number(Number::NegInt(-1)))])),
    ]);
    assert_eq!(value.duplicate(), value);
    assert_eq!(value.clone(), value);
}

#[test]
fn equality_is_structural_and_minds_the_order_of_properties() {
    let mut first = Properties::new();
    first.insert("a".to_string(), ReferenceOr::ref_("#/a"));
    first.insert("b".to_string(), ReferenceOr::ref_("#/b"));
    let mut second = Properties::new();
    second.insert("b".to_string(), ReferenceOr::ref_("#/b"));
    second.insert("a".to_string(), ReferenceOr::ref_("#/a"));
    assert_ne!(first, second);
    let mut third = Properties::new();
    third.insert("a".to_string(), ReferenceOr::ref_("#/a"));
    assert_ne!(first, third);
    third.insert("b".to_string(), ReferenceOr::ref_("#/b"));
    assert_eq!(first, third);
    third.insert("b".to_string(), boolean());
    assert_ne!(first, third);
    assert_eq!(boolean(), boolean());
    assert_ne!(boolean(), ReferenceOr::ref_("#/a"));
    assert_ne!(
        Value::Number(Number::PosInt(1)),
        Value::Number(Number::Float { bits: 1.0f64.to_bits() })
    );
    assert_ne!(Value::Array(vec![Value::Null]), Value::Array(vec![]));
    assert_ne!(
        Value::Object(vec![("a".to_string(), Value::Null)]),
        Value::Object(vec![("b".to_string(), Value::Null)])
    );
}
