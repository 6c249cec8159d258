//! Reading a document value as a schema tree: the functions that do it,
//! each held to what the model of reading says.

use vstd::prelude::*;
use crate::decode::{
    additional_field, bool_field, count_field, count_of, docs_field, flag_field, format_field,
    int_field, int_of, int_reader, items_field, lemma_list_failure, lemma_props_failure,
    lemma_refs_failure, list_field, list_of, number_field, number_reader, parse_any, parse_array,
    parse_data, parse_docs, parse_integer, parse_kind, parse_number, parse_object, parse_props,
    parse_ref, parse_refs, parse_schema, parse_string, parse_type, properties_field, refs_field,
    tag_of, text_field, text_or_null_reader, text_reader, type_tag, TypeTag,
};
use crate::error::{
    under, under_index, under_key, ErrorKind, ParseError, ParseErrorView, PathSegment,
};
use crate::keys::{get, get_entry, key_name, opt_view, Key};
use crate::model::{
    additional_opt_view, docs_opt_view, items_view, lemma_refs_view, ref_wf, refs_view, schema_wf,
    text_opt_view, text_opts_view, texts_view, AdditionalPropertiesView, AnySchemaView,
    ArrayTypeView, ExternalDocumentationView, IntegerTypeView, NumberTypeView, ObjectTypeView,
    PropertiesView, SchemaDataView, SchemaKindView, SchemaRefView, SchemaView, StringTypeView,
    TypeView,
};
use crate::properties::Properties;
use crate::reference::ReferenceOr;
use crate::schema::{
    AdditionalProperties, AnySchema, ArrayType, ExternalDocumentation, IntegerFormat, IntegerType,
    NumberFormat, NumberType, ObjectType, Schema, SchemaData, SchemaKind, StringFormat, StringType,
    Type,
};
use crate::text::str_eq;
use crate::value::{
    entries_view, lemma_array_view, lemma_lookup_decreases, lemma_object_view, values_view, Number,
    Value, ValueView,
};
use crate::variant_or::{KnownVariant, VariantOrUnknownOrEmpty, VariantOrUnknownOrEmptyView};

verus! {

/// The primitive shape that `s` names, if any.
pub fn tag_from_text(s: &str) -> (tag: Option<TypeTag>)
    ensures
        tag == tag_of(s@),
{
    if str_eq(s, "string") {
        Some(TypeTag::String)
    } else if str_eq(s, "number") {
        Some(TypeTag::Number)
    } else if str_eq(s, "integer") {
        Some(TypeTag::Integer)
    } else if str_eq(s, "object") {
        Some(TypeTag::Object)
    } else if str_eq(s, "array") {
        Some(TypeTag::Array)
    } else if str_eq(s, "boolean") {
        Some(TypeTag::Boolean)
    } else {
        None
    }
}

fn fetch_type_tag(es: &Vec<(String, Value)>) -> (tag: Option<TypeTag>)
    ensures
        tag == type_tag(entries_view(es@)),
{
    match get_entry(es, Key::Type) {
        Some(Value::String(s)) => tag_from_text(s.as_str()),
        _ => None,
    }
}

fn fetch_bool(es: &Vec<(String, Value)>, k: Key) -> (r: Result<Option<bool>, ParseError>)
    ensures
        r is Ok ==> bool_field(entries_view(es@), k) == Ok::<Option<bool>, ParseErrorView>(
            r->Ok_0,
        ),
        r is Err ==> bool_field(entries_view(es@), k) == Err::<Option<bool>, ParseErrorView>(
            r->Err_0@,
        ),
{
    match get_entry(es, k) {
        None => Ok(None),
        Some(Value::Null) => Ok(None),
        Some(Value::Bool(b)) => Ok(Some(*b)),
        Some(_) => Err(ParseError::at(ErrorKind::MalformedScalar, k)),
    }
}

fn fetch_flag(es: &Vec<(String, Value)>, k: Key) -> (r: Result<bool, ParseError>)
    ensures
        r is Ok ==> flag_field(entries_view(es@), k) == Ok::<bool, ParseErrorView>(r->Ok_0),
        r is Err ==> flag_field(entries_view(es@), k) == Err::<bool, ParseErrorView>(r->Err_0@),
{
    match fetch_bool(es, k) {
        Ok(Some(b)) => Ok(b),
        Ok(None) => Ok(false),
        Err(e) => Err(e),
    }
}

fn fetch_text(es: &Vec<(String, Value)>, k: Key) -> (r: Result<Option<String>, ParseError>)
    ensures
        r is Ok ==> text_field(entries_view(es@), k) == Ok::<Option<Seq<char>>, ParseErrorView>(
            text_opt_view(r->Ok_0),
        ),
        r is Err ==> text_field(entries_view(es@), k) == Err::<
            Option<Seq<char>>,
            ParseErrorView,
        >(r->Err_0@),
{
    match get_entry(es, k) {
        None => Ok(None),
        Some(Value::Null) => Ok(None),
        Some(Value::String(s)) => Ok(Some(s.clone())),
        Some(_) => Err(ParseError::at(ErrorKind::MalformedScalar, k)),
    }
}

/// The count that a number stands for, if any.
pub fn count_from_number(n: Number) -> (c: Option<usize>)
    ensures
        c == count_of(n),
{
    match n {
        Number::PosInt(u) => {
            if u <= usize::MAX as u64 {
                Some(u as usize)
            } else {
                None
            }
        },
        _ => None,
    }
}

/// The signed integer that a number stands for, if any.
pub fn int_from_number(n: Number) -> (i: Option<i64>)
    ensures
        i == int_of(n),
{
    match n {
        Number::PosInt(u) => {
            if u <= i64::MAX as u64 {
                Some(u as i64)
            } else {
                None
            }
        },
        Number::NegInt(i) => Some(i),
        Number::Float { .. } => None,
    }
}

fn fetch_count(es: &Vec<(String, Value)>, k: Key) -> (r: Result<Option<usize>, ParseError>)
    ensures
        r is Ok ==> count_field(entries_view(es@), k) == Ok::<Option<usize>, ParseErrorView>(
            r->Ok_0,
        ),
        r is Err ==> count_field(entries_view(es@), k) == Err::<Option<usize>, ParseErrorView>(
            r->Err_0@,
        ),
{
    match get_entry(es, k) {
        None => Ok(None),
        Some(Value::Null) => Ok(None),
        Some(Value::Number(n)) => match count_from_number(*n) {
            Some(c) => Ok(Some(c)),
            None => Err(ParseError::at(ErrorKind::MalformedScalar, k)),
        },
        Some(_) => Err(ParseError::at(ErrorKind::MalformedScalar, k)),
    }
}

fn fetch_int(es: &Vec<(String, Value)>, k: Key) -> (r: Result<Option<i64>, ParseError>)
    ensures
        r is Ok ==> int_field(entries_view(es@), k) == Ok::<Option<i64>, ParseErrorView>(r->Ok_0),
        r is Err ==> int_field(entries_view(es@), k) == Err::<Option<i64>, ParseErrorView>(
            r->Err_0@,
        ),
{
    match get_entry(es, k) {
        None => Ok(None),
        Some(Value::Null) => Ok(None),
        Some(Value::Number(n)) => match int_from_number(*n) {
            Some(i) => Ok(Some(i)),
            None => Err(ParseError::at(ErrorKind::MalformedScalar, k)),
        },
        Some(_) => Err(ParseError::at(ErrorKind::MalformedScalar, k)),
    }
}

fn fetch_number(es: &Vec<(String, Value)>, k: Key) -> (r: Result<Option<Number>, ParseError>)
    ensures
        r is Ok ==> number_field(entries_view(es@), k) == Ok::<Option<Number>, ParseErrorView>(
            r->Ok_0,
        ),
        r is Err ==> number_field(entries_view(es@), k) == Err::<Option<Number>, ParseErrorView>(
            r->Err_0@,
        ),
{
    match get_entry(es, k) {
        None => Ok(None),
        Some(Value::Null) => Ok(None),
        Some(Value::Number(n)) => Ok(Some(*n)),
        Some(_) => Err(ParseError::at(ErrorKind::MalformedScalar, k)),
    }
}

fn fetch_any(es: &Vec<(String, Value)>, k: Key) -> (r: Option<Value>)
    ensures
        opt_view(r) == get(entries_view(es@), k),
{
    match get_entry(es, k) {
        None => None,
        Some(v) => Some(v.duplicate()),
    }
}

fn fetch_format<T: KnownVariant>(es: &Vec<(String, Value)>, k: Key) -> (r: Result<
    VariantOrUnknownOrEmpty<T>,
    ParseError,
>)
    ensures
        r is Ok ==> format_field::<T>(entries_view(es@), k) == Ok::<
            VariantOrUnknownOrEmptyView<T>,
            ParseErrorView,
        >(r->Ok_0@),
        r is Err ==> format_field::<T>(entries_view(es@), k) == Err::<
            VariantOrUnknownOrEmptyView<T>,
            ParseErrorView,
        >(r->Err_0@),
{
    match get_entry(es, k) {
        None => Ok(VariantOrUnknownOrEmpty::Empty),
        Some(Value::Null) => Ok(VariantOrUnknownOrEmpty::Empty),
        Some(Value::String(s)) => Ok(VariantOrUnknownOrEmpty::from_text(s.as_str())),
        Some(_) => Err(ParseError::at(ErrorKind::MalformedScalar, k)),
    }
}

/// The list under the keyword `k`, each member a text.
fn fetch_texts(es: &Vec<(String, Value)>, k: Key) -> (r: Result<Vec<String>, ParseError>)
    ensures
        r is Ok ==> list_field(entries_view(es@), k, text_reader()) == Ok::<
            Seq<Seq<char>>,
            ParseErrorView,
        >(texts_view(r->Ok_0@)),
        r is Err ==> list_field(entries_view(es@), k, text_reader()) == Err::<
            Seq<Seq<char>>,
            ParseErrorView,
        >(r->Err_0@),
{
    match get_entry(es, k) {
        None => {
            let out: Vec<String> = Vec::new();
            assert(texts_view(out@) =~= Seq::empty());
            Ok(out)
        },
        Some(Value::Null) => {
            let out: Vec<String> = Vec::new();
            assert(texts_view(out@) =~= Seq::empty());
            Ok(out)
        },
        Some(Value::Array(items)) => {
            let ghost iv = values_view(items@);
            proof {
                lemma_array_view(*items);
            }
            let mut out: Vec<String> = Vec::new();
            assert(texts_view(out@) =~= Seq::empty());
            let mut i: usize = 0;
            while i < items.len()
                invariant
                    i <= items.len(),
                    iv == values_view(items@),
                    get(entries_view(es@), k) == Some(ValueView::Array(iv)),
                    list_of(iv, i as nat, text_reader()) == Ok::<Seq<Seq<char>>, ParseErrorView>(
                        texts_view(out@),
                    ),
                decreases items.len() - i,
            {
                let ghost before = texts_view(out@);
                match &items[i] {
                    Value::String(t) => {
                        out.push(t.clone());
                        assert(texts_view(out@) =~= before.push(t@));
                    },
                    _ => {
                        proof {
                            assert(iv[i as int] == items[i as int]@);
                            assert(list_of(iv, (i + 1) as nat, text_reader()) is Err);
                            lemma_list_failure(iv, (i + 1) as nat, iv.len(), text_reader());
                        }
                        return Err(
                            ParseError::new(ErrorKind::MalformedScalar).under_index(i).under_key(
                                k,
                            ),
                        );
                    },
                }
                i += 1;
            }
            Ok(out)
        },
        Some(_) => Err(ParseError::at(ErrorKind::StructuralMismatch, k)),
    }
}

/// The list under the keyword `k`, each member a text or null.
fn fetch_text_opts(es: &Vec<(String, Value)>, k: Key) -> (r: Result<Vec<Option<String>>, ParseError>)
    ensures
        r is Ok ==> list_field(entries_view(es@), k, text_or_null_reader()) == Ok::<
            Seq<Option<Seq<char>>>,
            ParseErrorView,
        >(text_opts_view(r->Ok_0@)),
        r is Err ==> list_field(entries_view(es@), k, text_or_null_reader()) == Err::<
            Seq<Option<Seq<char>>>,
            ParseErrorView,
        >(r->Err_0@),
{
    match get_entry(es, k) {
        None => {
            let out: Vec<Option<String>> = Vec::new();
            assert(text_opts_view(out@) =~= Seq::empty());
            Ok(out)
        },
        Some(Value::Null) => {
            let out: Vec<Option<String>> = Vec::new();
            assert(text_opts_view(out@) =~= Seq::empty());
            Ok(out)
        },
        Some(Value::Array(items)) => {
            let ghost iv = values_view(items@);
            proof {
                lemma_array_view(*items);
            }
            let mut out: Vec<Option<String>> = Vec::new();
            assert(text_opts_view(out@) =~= Seq::empty());
            let mut i: usize = 0;
            while i < items.len()
                invariant
                    i <= items.len(),
                    iv == values_view(items@),
                    get(entries_view(es@), k) == Some(ValueView::Array(iv)),
                    list_of(iv, i as nat, text_or_null_reader()) == Ok::<Seq<Option<Seq<char>>>, ParseErrorView>(
                        text_opts_view(out@),
                    ),
                decreases items.len() - i,
            {
                let ghost before = text_opts_view(out@);
                match &items[i] {
                    Value::String(t) => {
                        out.push(Some(t.clone()));
                        assert(text_opts_view(out@) =~= before.push(Some(t@)));
                    },
                    Value::Null => {
                        out.push(None);
                        assert(text_opts_view(out@) =~= before.push(None));
                    },
                    _ => {
                        proof {
                            assert(iv[i as int] == items[i as int]@);
                            assert(list_of(iv, (i + 1) as nat, text_or_null_reader()) is Err);
                            lemma_list_failure(iv, (i + 1) as nat, iv.len(), text_or_null_reader());
                        }
                        return Err(
                            ParseError::new(ErrorKind::MalformedScalar).under_index(i).under_key(
                                k,
                            ),
                        );
                    },
                }
                i += 1;
            }
            Ok(out)
        },
        Some(_) => Err(ParseError::at(ErrorKind::StructuralMismatch, k)),
    }
}

/// The list under the keyword `k`, each member a number.
fn fetch_numbers(es: &Vec<(String, Value)>, k: Key) -> (r: Result<Vec<Number>, ParseError>)
    ensures
        r is Ok ==> list_field(entries_view(es@), k, number_reader()) == Ok::<
            Seq<Number>,
            ParseErrorView,
        >(r->Ok_0@),
        r is Err ==> list_field(entries_view(es@), k, number_reader()) == Err::<
            Seq<Number>,
            ParseErrorView,
        >(r->Err_0@),
{
    match get_entry(es, k) {
        None => {
            let out: Vec<Number> = Vec::new();
            assert(out@ =~= Seq::empty());
            Ok(out)
        },
        Some(Value::Null) => {
            let out: Vec<Number> = Vec::new();
            assert(out@ =~= Seq::empty());
            Ok(out)
        },
        Some(Value::Array(items)) => {
            let ghost iv = values_view(items@);
            proof {
                lemma_array_view(*items);
            }
            let mut out: Vec<Number> = Vec::new();
            assert(out@ =~= Seq::empty());
            let mut i: usize = 0;
            while i < items.len()
                invariant
                    i <= items.len(),
                    iv == values_view(items@),
                    get(entries_view(es@), k) == Some(ValueView::Array(iv)),
                    list_of(iv, i as nat, number_reader()) == Ok::<Seq<Number>, ParseErrorView>(
                        out@,
                    ),
                decreases items.len() - i,
            {
                let ghost before = out@;
                match &items[i] {
                    Value::Number(n) => {
                        out.push(*n);
                        assert(out@ =~= before.push(*n));
                    },
                    _ => {
                        proof {
                            assert(iv[i as int] == items[i as int]@);
                            assert(list_of(iv, (i + 1) as nat, number_reader()) is Err);
                            lemma_list_failure(iv, (i + 1) as nat, iv.len(), number_reader());
                        }
                        return Err(
                            ParseError::new(ErrorKind::MalformedScalar).under_index(i).under_key(
                                k,
                            ),
                        );
                    },
                }
                i += 1;
            }
            Ok(out)
        },
        Some(_) => Err(ParseError::at(ErrorKind::StructuralMismatch, k)),
    }
}

/// The list under the keyword `k`, each member a signed integer.
fn fetch_ints(es: &Vec<(String, Value)>, k: Key) -> (r: Result<Vec<i64>, ParseError>)
    ensures
        r is Ok ==> list_field(entries_view(es@), k, int_reader()) == Ok::<
            Seq<i64>,
            ParseErrorView,
        >(r->Ok_0@),
        r is Err ==> list_field(entries_view(es@), k, int_reader()) == Err::<
            Seq<i64>,
            ParseErrorView,
        >(r->Err_0@),
{
    match get_entry(es, k) {
        None => Ok(Vec::new()),
        Some(Value::Null) => Ok(Vec::new()),
        Some(Value::Array(items)) => {
            let ghost iv = values_view(items@);
            proof {
                lemma_array_view(*items);
            }
            let mut out: Vec<i64> = Vec::new();
            let mut i: usize = 0;
            while i < items.len()
                invariant
                    i <= items.len(),
                    iv == values_view(items@),
                    get(entries_view(es@), k) == Some(ValueView::Array(iv)),
                    list_of(iv, i as nat, int_reader()) == Ok::<Seq<i64>, ParseErrorView>(out@),
                decreases items.len() - i,
            {
                let ghost before = out@;
                let member = match &items[i] {
                    Value::Number(n) => int_from_number(*n),
                    _ => None,
                };
                match member {
                    Some(x) => {
                        out.push(x);
                        assert(out@ =~= before.push(x));
                    },
                    None => {
                        proof {
                            assert(iv[i as int] == items[i as int]@);
                            assert(list_of(iv, (i + 1) as nat, int_reader()) is Err);
                            lemma_list_failure(iv, (i + 1) as nat, iv.len(), int_reader());
                        }
                        return Err(
                            ParseError::new(ErrorKind::MalformedScalar).under_index(i).under_key(
                                k,
                            ),
                        );
                    },
                }
                i += 1;
            }
            Ok(out)
        },
        Some(_) => Err(ParseError::at(ErrorKind::StructuralMismatch, k)),
    }
}

fn read_docs(ds: &Vec<(String, Value)>) -> (r: Result<ExternalDocumentation, ParseError>)
    ensures
        r is Ok ==> parse_docs(entries_view(ds@)) == Ok::<
            ExternalDocumentationView,
            ParseErrorView,
        >(r->Ok_0@),
        r is Err ==> parse_docs(entries_view(ds@)) == Err::<
            ExternalDocumentationView,
            ParseErrorView,
        >(r->Err_0@),
{
    let description = fetch_text(ds, Key::Description)?;
    match get_entry(ds, Key::Url) {
        Some(Value::String(url)) => Ok(ExternalDocumentation { description, url: url.clone() }),
        Some(_) => Err(ParseError::at(ErrorKind::MalformedScalar, Key::Url)),
        None => Err(ParseError::new(ErrorKind::StructuralMismatch)),
    }
}

fn fetch_docs(es: &Vec<(String, Value)>, k: Key) -> (r: Result<
    Option<ExternalDocumentation>,
    ParseError,
>)
    ensures
        r is Ok ==> docs_field(entries_view(es@), k) == Ok::<
            Option<ExternalDocumentationView>,
            ParseErrorView,
        >(docs_opt_view(r->Ok_0)),
        r is Err ==> docs_field(entries_view(es@), k) == Err::<
            Option<ExternalDocumentationView>,
            ParseErrorView,
        >(r->Err_0@),
{
    match get_entry(es, k) {
        None => Ok(None),
        Some(Value::Null) => Ok(None),
        Some(Value::Object(ds)) => {
            proof {
                lemma_object_view(*ds);
            }
            match read_docs(ds) {
                Ok(d) => Ok(Some(d)),
                Err(e) => Err(e.under_key(k)),
            }
        },
        Some(_) => Err(ParseError::at(ErrorKind::StructuralMismatch, k)),
    }
}

#[verifier::rlimit(50)]
fn read_data(es: &Vec<(String, Value)>) -> (r: Result<SchemaData, ParseError>)
    ensures
        r is Ok ==> parse_data(entries_view(es@)) == Ok::<SchemaDataView, ParseErrorView>(
            r->Ok_0@,
        ),
        r is Err ==> parse_data(entries_view(es@)) == Err::<SchemaDataView, ParseErrorView>(
            r->Err_0@,
        ),
{
    let nullable = fetch_bool(es, Key::Nullable)?;
    let read_only = fetch_bool(es, Key::ReadOnly)?;
    let write_only = fetch_bool(es, Key::WriteOnly)?;
    let deprecated = fetch_bool(es, Key::Deprecated)?;
    let external_docs = fetch_docs(es, Key::ExternalDocs)?;
    let title = fetch_text(es, Key::Title)?;
    let description = fetch_text(es, Key::Description)?;
    let discriminator = fetch_text(es, Key::Discriminator)?;
    let example = fetch_any(es, Key::Example);
    let default = fetch_any(es, Key::Default);
    Ok(
        SchemaData {
            nullable,
            read_only,
            write_only,
            deprecated,
            external_docs,
            example,
            title,
            description,
            discriminator,
            default,
        },
    )
}

fn read_string(es: &Vec<(String, Value)>) -> (r: Result<StringType, ParseError>)
    ensures
        r is Ok ==> parse_string(entries_view(es@)) == Ok::<StringTypeView, ParseErrorView>(
            r->Ok_0@,
        ),
        r is Err ==> parse_string(entries_view(es@)) == Err::<StringTypeView, ParseErrorView>(
            r->Err_0@,
        ),
{
    let format = fetch_format::<StringFormat>(es, Key::Format)?;
    let pattern = fetch_text(es, Key::Pattern)?;
    let enumeration = fetch_text_opts(es, Key::Enum)?;
    let min_length = fetch_count(es, Key::MinLength)?;
    let max_length = fetch_count(es, Key::MaxLength)?;
    Ok(StringType { format, pattern, enumeration, min_length, max_length })
}

fn read_number(es: &Vec<(String, Value)>) -> (r: Result<NumberType, ParseError>)
    ensures
        r is Ok ==> parse_number(entries_view(es@)) == Ok::<NumberTypeView, ParseErrorView>(
            r->Ok_0@,
        ),
        r is Err ==> parse_number(entries_view(es@)) == Err::<NumberTypeView, ParseErrorView>(
            r->Err_0@,
        ),
{
    let format = fetch_format::<NumberFormat>(es, Key::Format)?;
    let multiple_of = fetch_number(es, Key::MultipleOf)?;
    let exclusive_minimum = fetch_number(es, Key::ExclusiveMinimum)?;
    let exclusive_maximum = fetch_number(es, Key::ExclusiveMaximum)?;
    let minimum = fetch_number(es, Key::Minimum)?;
    let maximum = fetch_number(es, Key::Maximum)?;
    let enumeration = fetch_numbers(es, Key::Enum)?;
    Ok(
        NumberType {
            format,
            multiple_of,
            exclusive_minimum,
            exclusive_maximum,
            minimum,
            maximum,
            enumeration,
        },
    )
}

fn read_integer(es: &Vec<(String, Value)>) -> (r: Result<IntegerType, ParseError>)
    ensures
        r is Ok ==> parse_integer(entries_view(es@)) == Ok::<IntegerTypeView, ParseErrorView>(
            r->Ok_0@,
        ),
        r is Err ==> parse_integer(entries_view(es@)) == Err::<IntegerTypeView, ParseErrorView>(
            r->Err_0@,
        ),
{
    let format = fetch_format::<IntegerFormat>(es, Key::Format)?;
    let multiple_of = fetch_int(es, Key::MultipleOf)?;
    let exclusive_minimum = fetch_int(es, Key::ExclusiveMinimum)?;
    let exclusive_maximum = fetch_int(es, Key::ExclusiveMaximum)?;
    let minimum = fetch_int(es, Key::Minimum)?;
    let maximum = fetch_int(es, Key::Maximum)?;
    let enumeration = fetch_ints(es, Key::Enum)?;
    Ok(
        IntegerType {
            format,
            multiple_of,
            exclusive_minimum,
            exclusive_maximum,
            minimum,
            maximum,
            enumeration,
        },
    )
}

impl Schema {
    /// Reads a document value as a schema.
    pub fn from_value(v: &Value) -> (r: Result<Schema, ParseError>)
        ensures
            r is Ok ==> parse_schema(v@) == Ok::<SchemaView, ParseErrorView>(r->Ok_0@),
            r is Err ==> parse_schema(v@) == Err::<SchemaView, ParseErrorView>(r->Err_0@),
            r is Ok ==> schema_wf(r->Ok_0@),
        decreases v@, 0nat, 0nat,
    {
        match v {
            Value::Object(es) => {
                proof {
                    lemma_object_view(*es);
                    assert(decreases_to!(v@ => v@->Object_0));
                }
                let schema_data = read_data(es)?;
                let schema_kind = read_kind(es)?;
                proof {
                    crate::laws::lemma_read_schema_wf(v@);
                }
                Ok(Schema { schema_data, schema_kind })
            },
            _ => Err(ParseError::new(ErrorKind::StructuralMismatch)),
        }
    }
}

/// Reads a document value as a schema or a reference to one.
pub fn ref_from_value(v: &Value) -> (r: Result<ReferenceOr<Schema>, ParseError>)
    ensures
        r is Ok ==> parse_ref(v@) == Ok::<SchemaRefView, ParseErrorView>(r->Ok_0@),
        r is Err ==> parse_ref(v@) == Err::<SchemaRefView, ParseErrorView>(r->Err_0@),
        r is Ok ==> ref_wf(r->Ok_0@),
    decreases v@, 0nat, 1nat,
{
    proof {
        if parse_ref(v@) is Ok {
            crate::laws::lemma_read_ref_wf(v@);
        }
    }
    match v {
        Value::Object(es) => {
            proof {
                lemma_object_view(*es);
            }
            match get_entry(es, Key::Ref) {
                Some(Value::String(reference)) => Ok(
                    ReferenceOr::Reference { reference: reference.clone() },
                ),
                Some(_) => Err(ParseError::at(ErrorKind::MalformedScalar, Key::Ref)),
                None => match Schema::from_value(v) {
                    Ok(s) => Ok(ReferenceOr::Item(s)),
                    Err(e) => Err(e),
                },
            }
        },
        _ => Err(ParseError::new(ErrorKind::StructuralMismatch)),
    }
}

fn read_refs(es: &Vec<(String, Value)>, k: Key) -> (r: Result<
    Vec<ReferenceOr<Schema>>,
    ParseError,
>)
    ensures
        r is Ok ==> refs_field(entries_view(es@), k) == Ok::<Seq<SchemaRefView>, ParseErrorView>(
            refs_view(r->Ok_0),
        ),
        r is Err ==> refs_field(entries_view(es@), k) == Err::<
            Seq<SchemaRefView>,
            ParseErrorView,
        >(r->Err_0@),
    decreases entries_view(es@), 0nat, 0nat,
{
    match get_entry(es, k) {
        Some(Value::Array(items)) => {
            let ghost ev = entries_view(es@);
            let ghost iv = values_view(items@);
            proof {
                lemma_array_view(*items);
                lemma_lookup_decreases(ev, key_name(k));
                assert(decreases_to!(ev => ValueView::Array(iv)));
                assert(decreases_to!(ValueView::Array(iv) => iv));
            }
            let mut out: Vec<ReferenceOr<Schema>> = Vec::new();
            proof {
                lemma_refs_view(out);
                assert(refs_view(out) =~= Seq::empty());
            }
            let mut i: usize = 0;
            while i < items.len()
                invariant
                    i <= items.len(),
                    ev == entries_view(es@),
                    iv == values_view(items@),
                    get(ev, k) == Some(ValueView::Array(iv)),
                    decreases_to!(ev => iv),
                    parse_refs(iv, i as nat) == Ok::<Seq<SchemaRefView>, ParseErrorView>(
                        refs_view(out),
                    ),
                decreases items.len() - i,
            {
                let ghost before = refs_view(out);
                proof {
                    assert(iv[i as int] == items[i as int]@);
                    assert(decreases_to!(iv => iv[i as int]));
                }
                match ref_from_value(&items[i]) {
                    Ok(x) => {
                        let ghost xv = x@;
                        let ghost old_out = out;
                        out.push(x);
                        proof {
                            lemma_refs_view(old_out);
                            lemma_refs_view(out);
                            assert(refs_view(out) =~= before.push(xv));
                        }
                    },
                    Err(e) => {
                        proof {
                            assert(parse_refs(iv, (i + 1) as nat) is Err);
                            lemma_refs_failure(iv, (i + 1) as nat, iv.len());
                        }
                        return Err(e.under_index(i).under_key(k));
                    },
                }
                i += 1;
            }
            Ok(out)
        },
        _ => Err(ParseError::at(ErrorKind::StructuralMismatch, k)),
    }
}

fn read_properties(es: &Vec<(String, Value)>) -> (r: Result<Properties, ParseError>)
    ensures
        r is Ok ==> properties_field(entries_view(es@)) == Ok::<PropertiesView, ParseErrorView>(
            r->Ok_0@,
        ),
        r is Err ==> properties_field(entries_view(es@)) == Err::<
            PropertiesView,
            ParseErrorView,
        >(r->Err_0@),
    decreases entries_view(es@), 0nat, 0nat,
{
    match get_entry(es, Key::Properties) {
        None => {
            let p = Properties::new();
            assert(p@ =~= Seq::empty());
            Ok(p)
        },
        Some(Value::Null) => {
            let p = Properties::new();
            assert(p@ =~= Seq::empty());
            Ok(p)
        },
        Some(Value::Object(ps)) => {
            let ghost ev = entries_view(es@);
            let ghost pv = entries_view(ps@);
            proof {
                lemma_object_view(*ps);
                lemma_lookup_decreases(ev, key_name(Key::Properties));
                assert(decreases_to!(ev => ValueView::Object(pv)));
                assert(decreases_to!(ValueView::Object(pv) => pv));
            }
            let mut out = Properties::new();
            assert(out@ =~= Seq::empty());
            let mut i: usize = 0;
            while i < ps.len()
                invariant
                    i <= ps.len(),
                    ev == entries_view(es@),
                    pv == entries_view(ps@),
                    get(ev, Key::Properties) == Some(ValueView::Object(pv)),
                    decreases_to!(ev => pv),
                    parse_props(pv, i as nat) == Ok::<PropertiesView, ParseErrorView>(out@),
                decreases ps.len() - i,
            {
                proof {
                    assert(pv[i as int] == (ps[i as int].0@, ps[i as int].1@));
                    assert(decreases_to!(pv => pv[i as int]));
                    assert(decreases_to!(pv[i as int] => pv[i as int].1));
                }
                match ref_from_value(&ps[i].1) {
                    Ok(x) => {
                        out.insert(ps[i].0.clone(), x.boxed());
                    },
                    Err(e) => {
                        proof {
                            assert(parse_props(pv, (i + 1) as nat) is Err);
                            lemma_props_failure(pv, (i + 1) as nat, pv.len());
                        }
                        return Err(
                            e.under(PathSegment::Key(ps[i].0.clone())).under_key(Key::Properties),
                        );
                    },
                }
                i += 1;
            }
            Ok(out)
        },
        Some(_) => Err(ParseError::at(ErrorKind::StructuralMismatch, Key::Properties)),
    }
}

fn read_items(es: &Vec<(String, Value)>) -> (r: Result<
    Option<ReferenceOr<Box<Schema>>>,
    ParseError,
>)
    ensures
        r is Ok ==> items_field(entries_view(es@)) == Ok::<Option<SchemaRefView>, ParseErrorView>(
            items_view(r->Ok_0),
        ),
        r is Err ==> items_field(entries_view(es@)) == Err::<
            Option<SchemaRefView>,
            ParseErrorView,
        >(r->Err_0@),
    decreases entries_view(es@), 0nat, 0nat,
{
    match get_entry(es, Key::Items) {
        None => Ok(None),
        Some(Value::Null) => Ok(None),
        Some(v) => {
            proof {
                lemma_lookup_decreases(entries_view(es@), key_name(Key::Items));
            }
            match ref_from_value(v) {
                Ok(x) => Ok(Some(x.boxed())),
                Err(e) => Err(e.under_key(Key::Items)),
            }
        },
    }
}

fn read_additional(es: &Vec<(String, Value)>) -> (r: Result<
    Option<AdditionalProperties>,
    ParseError,
>)
    ensures
        r is Ok ==> additional_field(entries_view(es@)) == Ok::<
            Option<AdditionalPropertiesView>,
            ParseErrorView,
        >(additional_opt_view(r->Ok_0)),
        r is Err ==> additional_field(entries_view(es@)) == Err::<
            Option<AdditionalPropertiesView>,
            ParseErrorView,
        >(r->Err_0@),
    decreases entries_view(es@), 0nat, 0nat,
{
    match get_entry(es, Key::AdditionalProperties) {
        None => Ok(None),
        Some(Value::Null) => Ok(None),
        Some(Value::Bool(b)) => Ok(Some(AdditionalProperties::Any(*b))),
        Some(v) => {
            proof {
                lemma_lookup_decreases(entries_view(es@), key_name(Key::AdditionalProperties));
            }
            match ref_from_value(v) {
                Ok(x) => Ok(Some(AdditionalProperties::Schema(Box::new(x)))),
                Err(e) => Err(e.under_key(Key::AdditionalProperties)),
            }
        },
    }
}

#[verifier::rlimit(50)]
fn read_object(es: &Vec<(String, Value)>) -> (r: Result<ObjectType, ParseError>)
    ensures
        r is Ok ==> parse_object(entries_view(es@)) == Ok::<ObjectTypeView, ParseErrorView>(
            r->Ok_0@,
        ),
        r is Err ==> parse_object(entries_view(es@)) == Err::<ObjectTypeView, ParseErrorView>(
            r->Err_0@,
        ),
    decreases entries_view(es@), 1nat, 0nat,
{
    let properties = read_properties(es)?;
    let required = fetch_texts(es, Key::Required)?;
    let additional_properties = read_additional(es)?;
    let min_properties = fetch_count(es, Key::MinProperties)?;
    let max_properties = fetch_count(es, Key::MaxProperties)?;
    Ok(ObjectType { properties, required, additional_properties, min_properties, max_properties })
}

fn read_array(es: &Vec<(String, Value)>) -> (r: Result<ArrayType, ParseError>)
    ensures
        r is Ok ==> parse_array(entries_view(es@)) == Ok::<ArrayTypeView, ParseErrorView>(
            r->Ok_0@,
        ),
        r is Err ==> parse_array(entries_view(es@)) == Err::<ArrayTypeView, ParseErrorView>(
            r->Err_0@,
        ),
    decreases entries_view(es@), 1nat, 0nat,
{
    let items = read_items(es)?;
    let min_items = fetch_count(es, Key::MinItems)?;
    let max_items = fetch_count(es, Key::MaxItems)?;
    let unique_items = fetch_flag(es, Key::UniqueItems)?;
    Ok(ArrayType { items, min_items, max_items, unique_items })
}

#[verifier::rlimit(50)]
fn read_any(es: &Vec<(String, Value)>) -> (r: Result<AnySchema, ParseError>)
    ensures
        r is Ok ==> parse_any(entries_view(es@)) == Ok::<AnySchemaView, ParseErrorView>(r->Ok_0@),
        r is Err ==> parse_any(entries_view(es@)) == Err::<AnySchemaView, ParseErrorView>(
            r->Err_0@,
        ),
    decreases entries_view(es@), 1nat, 0nat,
{
    let pattern = fetch_text(es, Key::Pattern)?;
    let multiple_of = fetch_number(es, Key::MultipleOf)?;
    let exclusive_minimum = fetch_bool(es, Key::ExclusiveMinimum)?;
    let exclusive_maximum = fetch_bool(es, Key::ExclusiveMaximum)?;
    let minimum = fetch_number(es, Key::Minimum)?;
    let maximum = fetch_number(es, Key::Maximum)?;
    let properties = read_properties(es)?;
    let required = fetch_texts(es, Key::Required)?;
    let additional_properties = read_additional(es)?;
    let min_properties = fetch_count(es, Key::MinProperties)?;
    let max_properties = fetch_count(es, Key::MaxProperties)?;
    let items = read_items(es)?;
    let min_items = fetch_count(es, Key::MinItems)?;
    let max_items = fetch_count(es, Key::MaxItems)?;
    let unique_items = fetch_bool(es, Key::UniqueItems)?;
    let format = fetch_text(es, Key::Format)?;
    Ok(
        AnySchema {
            pattern,
            multiple_of,
            exclusive_minimum,
            exclusive_maximum,
            minimum,
            maximum,
            properties,
            required,
            additional_properties,
            min_properties,
            max_properties,
            items,
            min_items,
            max_items,
            unique_items,
            format,
        },
    )
}

fn read_type(es: &Vec<(String, Value)>, tag: TypeTag) -> (r: Result<Type, ParseError>)
    ensures
        r is Ok ==> parse_type(entries_view(es@), tag) == Ok::<TypeView, ParseErrorView>(r->Ok_0@),
        r is Err ==> parse_type(entries_view(es@), tag) == Err::<TypeView, ParseErrorView>(
            r->Err_0@,
        ),
    decreases entries_view(es@), 2nat, 0nat,
{
    match tag {
        TypeTag::String => match read_string(es) {
            Ok(t) => Ok(Type::String(t)),
            Err(e) => Err(e),
        },
        TypeTag::Number => match read_number(es) {
            Ok(t) => Ok(Type::Number(t)),
            Err(e) => Err(e),
        },
        TypeTag::Integer => match read_integer(es) {
            Ok(t) => Ok(Type::Integer(t)),
            Err(e) => Err(e),
        },
        TypeTag::Object => match read_object(es) {
            Ok(t) => Ok(Type::Object(t)),
            Err(e) => Err(e),
        },
        TypeTag::Array => match read_array(es) {
            Ok(t) => Ok(Type::Array(t)),
            Err(e) => Err(e),
        },
        TypeTag::Boolean => Ok(Type::Boolean {  }),
    }
}

#[verifier::rlimit(50)]
fn read_kind(es: &Vec<(String, Value)>) -> (r: Result<SchemaKind, ParseError>)
    ensures
        r is Ok ==> parse_kind(entries_view(es@)) == Ok::<SchemaKindView, ParseErrorView>(
            r->Ok_0@,
        ),
        r is Err ==> parse_kind(entries_view(es@)) == Err::<SchemaKindView, ParseErrorView>(
            r->Err_0@,
        ),
    decreases entries_view(es@), 3nat, 0nat,
{
    match fetch_type_tag(es) {
        Some(tag) => match read_type(es, tag) {
            Ok(t) => Ok(SchemaKind::Type(t)),
            Err(e) => Err(e),
        },
        None => {
            if get_entry(es, Key::OneOf).is_some() {
                match read_refs(es, Key::OneOf) {
                    Ok(one_of) => Ok(SchemaKind::OneOf { one_of }),
                    Err(e) => Err(e),
                }
            } else if get_entry(es, Key::AllOf).is_some() {
                match read_refs(es, Key::AllOf) {
                    Ok(all_of) => Ok(SchemaKind::AllOf { all_of }),
                    Err(e) => Err(e),
                }
            } else if get_entry(es, Key::AnyOf).is_some() {
                match read_refs(es, Key::AnyOf) {
                    Ok(any_of) => Ok(SchemaKind::AnyOf { any_of }),
                    Err(e) => Err(e),
                }
            } else {
                match read_any(es) {
                    Ok(a) => Ok(SchemaKind::Any(a)),
                    Err(e) => Err(e),
                }
            }
        },
    }
}

} // verus!
