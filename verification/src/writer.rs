//! Writing a schema tree as a document value: the functions that do it,
//! each held to what the model of writing says.

use vstd::prelude::*;
use crate::encode::{
    additional_value, bool_value, count_value, docs_value, flag_value, format_value, int_number,
    int_value, ints_value, items_value, number_value, numbers_value, properties_value, put_any,
    put_array, put_data, put_integer, put_kind, put_number, put_object, put_string, put_type,
    ref_value, refs_value, schema_value, text_opts_value, text_or_null, text_value, texts_value,
    type_text,
};
use crate::keys::{key_name, opt_view, put_entry, Key};
use crate::model::{docs_opt_view, text_opt_view, text_opts_view, texts_view, SchemaKindView};
use crate::properties::Properties;
use crate::reference::ReferenceOr;
use crate::schema::{
    AdditionalProperties, AnySchema, ArrayType, ExternalDocumentation, IntegerType, NumberType,
    ObjectType, Schema, SchemaData, SchemaKind, StringType, Type,
};
use crate::text::owned;
use crate::value::{
    entries_view, lemma_array_view, lemma_object_view, values_view, Number, Value, ValueView,
};
use crate::variant_or::{KnownVariant, VariantOrUnknownOrEmpty};

verus! {

/// The number that stands for a signed integer.
pub fn number_of_int(i: i64) -> (n: Number)
    ensures
        n == int_number(i),
{
    if i >= 0 {
        Number::PosInt(i as u64)
    } else {
        Number::NegInt(i)
    }
}

fn bool_to_value(o: &Option<bool>) -> (v: Option<Value>)
    ensures
        opt_view(v) == bool_value(*o),
{
    match o {
        Some(b) => Some(Value::Bool(*b)),
        None => None,
    }
}

fn text_to_value(o: &Option<String>) -> (v: Option<Value>)
    ensures
        opt_view(v) == text_value(text_opt_view(*o)),
{
    match o {
        Some(s) => Some(Value::String(s.clone())),
        None => None,
    }
}

fn count_to_value(o: &Option<usize>) -> (v: Option<Value>)
    ensures
        opt_view(v) == count_value(*o),
{
    match o {
        Some(n) => Some(Value::Number(Number::PosInt(*n as u64))),
        None => None,
    }
}

fn int_to_value(o: &Option<i64>) -> (v: Option<Value>)
    ensures
        opt_view(v) == int_value(*o),
{
    match o {
        Some(i) => Some(Value::Number(number_of_int(*i))),
        None => None,
    }
}

fn number_to_value(o: &Option<Number>) -> (v: Option<Value>)
    ensures
        opt_view(v) == number_value(*o),
{
    match o {
        Some(n) => Some(Value::Number(*n)),
        None => None,
    }
}

fn flag_to_value(b: bool) -> (v: Option<Value>)
    ensures
        opt_view(v) == flag_value(b),
{
    if b {
        Some(Value::Bool(true))
    } else {
        None
    }
}

fn any_to_value(o: &Option<Value>) -> (v: Option<Value>)
    ensures
        opt_view(v) == opt_view(*o),
{
    match o {
        Some(x) => Some(x.duplicate()),
        None => None,
    }
}

fn texts_to_value(s: &Vec<String>) -> (v: Option<Value>)
    ensures
        opt_view(v) == texts_value(texts_view(s@)),
{
    if s.len() == 0 {
        return None;
    }
    let mut out: Vec<Value> = Vec::new();
    let mut i: usize = 0;
    while i < s.len()
        invariant
            i <= s.len(),
            out.len() == i,
            forall|j: int| 0 <= j < i ==> out@[j]@ == ValueView::String(s@[j]@),
        decreases s.len() - i,
    {
        out.push(Value::String(s[i].clone()));
        i += 1;
    }
    proof {
        lemma_array_view(out);
        assert(values_view(out@) =~= texts_value(texts_view(s@))->Some_0->Array_0);
    }
    Some(Value::Array(out))
}

fn text_opts_to_value(s: &Vec<Option<String>>) -> (v: Option<Value>)
    ensures
        opt_view(v) == text_opts_value(text_opts_view(s@)),
{
    if s.len() == 0 {
        return None;
    }
    let mut out: Vec<Value> = Vec::new();
    let mut i: usize = 0;
    while i < s.len()
        invariant
            i <= s.len(),
            out.len() == i,
            forall|j: int| 0 <= j < i ==> out@[j]@ == text_or_null(text_opt_view(s@[j])),
        decreases s.len() - i,
    {
        let item = match &s[i] {
            Some(t) => Value::String(t.clone()),
            None => Value::Null,
        };
        out.push(item);
        i += 1;
    }
    proof {
        lemma_array_view(out);
        assert(values_view(out@) =~= text_opts_value(text_opts_view(s@))->Some_0->Array_0);
    }
    Some(Value::Array(out))
}

fn numbers_to_value(s: &Vec<Number>) -> (v: Option<Value>)
    ensures
        opt_view(v) == numbers_value(s@),
{
    if s.len() == 0 {
        return None;
    }
    let mut out: Vec<Value> = Vec::new();
    let mut i: usize = 0;
    while i < s.len()
        invariant
            i <= s.len(),
            out.len() == i,
            forall|j: int| 0 <= j < i ==> out@[j]@ == ValueView::Number(s@[j]),
        decreases s.len() - i,
    {
        out.push(Value::Number(s[i]));
        i += 1;
    }
    proof {
        lemma_array_view(out);
        assert(values_view(out@) =~= numbers_value(s@)->Some_0->Array_0);
    }
    Some(Value::Array(out))
}

fn ints_to_value(s: &Vec<i64>) -> (v: Option<Value>)
    ensures
        opt_view(v) == ints_value(s@),
{
    if s.len() == 0 {
        return None;
    }
    let mut out: Vec<Value> = Vec::new();
    let mut i: usize = 0;
    while i < s.len()
        invariant
            i <= s.len(),
            out.len() == i,
            forall|j: int| 0 <= j < i ==> out@[j]@ == ValueView::Number(int_number(s@[j])),
        decreases s.len() - i,
    {
        out.push(Value::Number(number_of_int(s[i])));
        i += 1;
    }
    proof {
        lemma_array_view(out);
        assert(values_view(out@) =~= ints_value(s@)->Some_0->Array_0);
    }
    Some(Value::Array(out))
}

fn format_to_value<T: KnownVariant>(f: &VariantOrUnknownOrEmpty<T>) -> (v: Option<Value>)
    ensures
        opt_view(v) == format_value(f@),
{
    match f.to_text() {
        Some(s) => Some(Value::String(s)),
        None => None,
    }
}

fn docs_to_value(o: &Option<ExternalDocumentation>) -> (v: Option<Value>)
    ensures
        opt_view(v) == docs_value(docs_opt_view(*o)),
{
    match o {
        Some(d) => {
            let mut out: Vec<(String, Value)> = Vec::new();
            assert(entries_view(out@) =~= Seq::empty());
            put_entry(&mut out, Key::Description, text_to_value(&d.description));
            put_entry(&mut out, Key::Url, Some(Value::String(d.url.clone())));
            proof {
                lemma_object_view(out);
            }
            Some(Value::Object(out))
        },
        None => None,
    }
}

#[verifier::rlimit(50)]
fn write_data(out: &mut Vec<(String, Value)>, d: &SchemaData)
    ensures
        entries_view(final(out)@) == put_data(entries_view(old(out)@), d@),
{
    put_entry(out, Key::Nullable, bool_to_value(&d.nullable));
    put_entry(out, Key::ReadOnly, bool_to_value(&d.read_only));
    put_entry(out, Key::WriteOnly, bool_to_value(&d.write_only));
    put_entry(out, Key::Deprecated, bool_to_value(&d.deprecated));
    put_entry(out, Key::ExternalDocs, docs_to_value(&d.external_docs));
    put_entry(out, Key::Example, any_to_value(&d.example));
    put_entry(out, Key::Title, text_to_value(&d.title));
    put_entry(out, Key::Description, text_to_value(&d.description));
    put_entry(out, Key::Discriminator, text_to_value(&d.discriminator));
    put_entry(out, Key::Default, any_to_value(&d.default));
}

fn write_string(out: &mut Vec<(String, Value)>, t: &StringType)
    ensures
        entries_view(final(out)@) == put_string(entries_view(old(out)@), t@),
{
    put_entry(out, Key::Format, format_to_value(&t.format));
    put_entry(out, Key::Pattern, text_to_value(&t.pattern));
    put_entry(out, Key::Enum, text_opts_to_value(&t.enumeration));
    put_entry(out, Key::MinLength, count_to_value(&t.min_length));
    put_entry(out, Key::MaxLength, count_to_value(&t.max_length));
}

fn write_number(out: &mut Vec<(String, Value)>, t: &NumberType)
    ensures
        entries_view(final(out)@) == put_number(entries_view(old(out)@), t@),
{
    put_entry(out, Key::Format, format_to_value(&t.format));
    put_entry(out, Key::MultipleOf, number_to_value(&t.multiple_of));
    put_entry(out, Key::ExclusiveMinimum, number_to_value(&t.exclusive_minimum));
    put_entry(out, Key::ExclusiveMaximum, number_to_value(&t.exclusive_maximum));
    put_entry(out, Key::Minimum, number_to_value(&t.minimum));
    put_entry(out, Key::Maximum, number_to_value(&t.maximum));
    put_entry(out, Key::Enum, numbers_to_value(&t.enumeration));
}

fn write_integer(out: &mut Vec<(String, Value)>, t: &IntegerType)
    ensures
        entries_view(final(out)@) == put_integer(entries_view(old(out)@), t@),
{
    put_entry(out, Key::Format, format_to_value(&t.format));
    put_entry(out, Key::MultipleOf, int_to_value(&t.multiple_of));
    put_entry(out, Key::ExclusiveMinimum, int_to_value(&t.exclusive_minimum));
    put_entry(out, Key::ExclusiveMaximum, int_to_value(&t.exclusive_maximum));
    put_entry(out, Key::Minimum, int_to_value(&t.minimum));
    put_entry(out, Key::Maximum, int_to_value(&t.maximum));
    put_entry(out, Key::Enum, ints_to_value(&t.enumeration));
}

impl Schema {
    /// The document value that stands for this schema.
    pub fn to_value(&self) -> (v: Value)
        ensures
            v@ == schema_value(self@),
        decreases self@, 0nat,
    {
        let mut out: Vec<(String, Value)> = Vec::new();
        assert(entries_view(out@) =~= Seq::empty());
        write_data(&mut out, &self.schema_data);
        write_kind(&mut out, &self.schema_kind);
        proof {
            lemma_object_view(out);
        }
        Value::Object(out)
    }
}

/// The document value that stands for a schema or a reference to one.
pub fn ref_to_value(r: &ReferenceOr<Schema>) -> (v: Value)
    ensures
        v@ == ref_value(r@),
    decreases r@, 0nat,
{
    match r {
        ReferenceOr::Reference { reference } => reference_to_value(reference),
        ReferenceOr::Item(s) => s.to_value(),
    }
}

/// The document value that stands for a schema or a reference to one.
pub fn boxed_ref_to_value(r: &ReferenceOr<Box<Schema>>) -> (v: Value)
    ensures
        v@ == ref_value(r@),
    decreases r@, 0nat,
{
    match r {
        ReferenceOr::Reference { reference } => reference_to_value(reference),
        ReferenceOr::Item(s) => s.to_value(),
    }
}

fn reference_to_value(reference: &String) -> (v: Value)
    ensures
        v@ == ValueView::Object(seq![(key_name(Key::Ref), ValueView::String(reference@))]),
{
    let mut out: Vec<(String, Value)> = Vec::new();
    out.push((owned(Key::Ref.name()), Value::String(reference.clone())));
    proof {
        lemma_object_view(out);
        assert(entries_view(out@) =~= seq![(key_name(Key::Ref), ValueView::String(reference@))]);
    }
    Value::Object(out)
}

fn refs_to_value(rs: &Vec<ReferenceOr<Schema>>) -> (v: Value)
    ensures
        v@ == refs_value(crate::model::refs_view(*rs)),
    decreases crate::model::refs_view(*rs), 0nat,
{
    let ghost all = crate::model::refs_view(*rs);
    let mut out: Vec<Value> = Vec::new();
    let mut i: usize = 0;
    while i < rs.len()
        invariant
            i <= rs.len(),
            out.len() == i,
            all == crate::model::refs_view(*rs),
            forall|j: int| 0 <= j < i ==> out@[j]@ == ref_value(all[j]),
        decreases rs.len() - i,
    {
        proof {
            assert(all[i as int] == rs@[i as int]@);
            assert(decreases_to!(all => all[i as int]));
        }
        out.push(ref_to_value(&rs[i]));
        i += 1;
    }
    proof {
        lemma_array_view(out);
        assert(values_view(out@) =~= refs_value(all)->Array_0);
    }
    Value::Array(out)
}

fn properties_to_value(p: &Properties) -> (v: Option<Value>)
    ensures
        opt_view(v) == properties_value(p@),
    decreases p@, 0nat,
{
    let n = p.len();
    if n == 0 {
        return None;
    }
    let mut out: Vec<(String, Value)> = Vec::new();
    let mut i: usize = 0;
    while i < n
        invariant
            i <= n,
            n == p@.len(),
            out.len() == i,
            forall|j: int|
                0 <= j < i ==> out@[j].0@ == p@[j].0 && out@[j].1@ == ref_value(p@[j].1),
        decreases n - i,
    {
        match p.get_index(i) {
            Some((name, r)) => {
                proof {
                    assert(decreases_to!(p@ => p@[i as int]));
                    assert(decreases_to!(p@[i as int] => p@[i as int].1));
                    assert(decreases_to!(p@ => r@));
                }
                out.push((name.clone(), boxed_ref_to_value(r)));
            },
            None => {
                assert(false);
            },
        }
        i += 1;
    }
    proof {
        lemma_object_view(out);
        assert(entries_view(out@) =~= properties_value(p@)->Some_0->Object_0);
    }
    Some(Value::Object(out))
}

fn items_to_value(o: &Option<ReferenceOr<Box<Schema>>>) -> (v: Option<Value>)
    ensures
        opt_view(v) == items_value(crate::model::items_view(*o)),
    decreases crate::model::items_view(*o), 0nat,
{
    match o {
        Some(r) => Some(boxed_ref_to_value(r)),
        None => None,
    }
}

fn additional_to_value(o: &Option<AdditionalProperties>) -> (v: Option<Value>)
    ensures
        opt_view(v) == additional_value(crate::model::additional_opt_view(*o)),
    decreases crate::model::additional_opt_view(*o), 0nat,
{
    match o {
        Some(AdditionalProperties::Any(b)) => Some(Value::Bool(*b)),
        Some(AdditionalProperties::Schema(r)) => Some(ref_to_value(r)),
        None => None,
    }
}

fn write_object(out: &mut Vec<(String, Value)>, t: &ObjectType)
    ensures
        entries_view(final(out)@) == put_object(entries_view(old(out)@), t@),
    decreases t@, 0nat,
{
    proof {
        assert(decreases_to!(t@ => t@.properties));
        assert(decreases_to!(t@ => t@.additional_properties));
    }
    put_entry(out, Key::Properties, properties_to_value(&t.properties));
    put_entry(out, Key::Required, texts_to_value(&t.required));
    put_entry(out, Key::AdditionalProperties, additional_to_value(&t.additional_properties));
    put_entry(out, Key::MinProperties, count_to_value(&t.min_properties));
    put_entry(out, Key::MaxProperties, count_to_value(&t.max_properties));
}

fn write_array(out: &mut Vec<(String, Value)>, t: &ArrayType)
    ensures
        entries_view(final(out)@) == put_array(entries_view(old(out)@), t@),
    decreases t@, 0nat,
{
    proof {
        assert(decreases_to!(t@ => t@.items));
    }
    put_entry(out, Key::Items, items_to_value(&t.items));
    put_entry(out, Key::MinItems, count_to_value(&t.min_items));
    put_entry(out, Key::MaxItems, count_to_value(&t.max_items));
    put_entry(out, Key::UniqueItems, flag_to_value(t.unique_items));
}

#[verifier::rlimit(50)]
fn write_any(out: &mut Vec<(String, Value)>, t: &AnySchema)
    ensures
        entries_view(final(out)@) == put_any(entries_view(old(out)@), t@),
    decreases t@, 0nat,
{
    proof {
        assert(decreases_to!(t@ => t@.properties));
        assert(decreases_to!(t@ => t@.additional_properties));
        assert(decreases_to!(t@ => t@.items));
    }
    put_entry(out, Key::Pattern, text_to_value(&t.pattern));
    put_entry(out, Key::MultipleOf, number_to_value(&t.multiple_of));
    put_entry(out, Key::ExclusiveMinimum, bool_to_value(&t.exclusive_minimum));
    put_entry(out, Key::ExclusiveMaximum, bool_to_value(&t.exclusive_maximum));
    put_entry(out, Key::Minimum, number_to_value(&t.minimum));
    put_entry(out, Key::Maximum, number_to_value(&t.maximum));
    put_entry(out, Key::Properties, properties_to_value(&t.properties));
    put_entry(out, Key::Required, texts_to_value(&t.required));
    put_entry(out, Key::AdditionalProperties, additional_to_value(&t.additional_properties));
    put_entry(out, Key::MinProperties, count_to_value(&t.min_properties));
    put_entry(out, Key::MaxProperties, count_to_value(&t.max_properties));
    put_entry(out, Key::Items, items_to_value(&t.items));
    put_entry(out, Key::MinItems, count_to_value(&t.min_items));
    put_entry(out, Key::MaxItems, count_to_value(&t.max_items));
    put_entry(out, Key::UniqueItems, bool_to_value(&t.unique_items));
    put_entry(out, Key::Format, text_to_value(&t.format));
}

/// The text of the `type` keyword for a primitive shape.
fn type_word(t: &Type) -> (s: &'static str)
    ensures
        s@ == type_text(t@),
{
    match t {
        Type::String(_) => "string",
        Type::Number(_) => "number",
        Type::Integer(_) => "integer",
        Type::Object(_) => "object",
        Type::Array(_) => "array",
        Type::Boolean {  } => "boolean",
    }
}

fn write_type(out: &mut Vec<(String, Value)>, t: &Type)
    ensures
        entries_view(final(out)@) == put_type(entries_view(old(out)@), t@),
    decreases t@, 1nat,
{
    put_entry(out, Key::Type, Some(Value::String(owned(type_word(t)))));
    proof {
        if t@ is Object {
            assert(decreases_to!(t@ => t@->Object_0));
        }
        if t@ is Array {
            assert(decreases_to!(t@ => t@->Array_0));
        }
    }
    match t {
        Type::String(x) => write_string(out, x),
        Type::Number(x) => write_number(out, x),
        Type::Integer(x) => write_integer(out, x),
        Type::Object(x) => write_object(out, x),
        Type::Array(x) => write_array(out, x),
        Type::Boolean {  } => {},
    }
}

fn write_kind(out: &mut Vec<(String, Value)>, k: &SchemaKind)
    ensures
        entries_view(final(out)@) == put_kind(entries_view(old(out)@), k@),
    decreases k@, 2nat,
{
    proof {
        match k@ {
            SchemaKindView::Type(_) => {
                assert(decreases_to!(k@ => k@->Type_0));
            },
            SchemaKindView::OneOf { .. } => {
                assert(decreases_to!(k@ => k@->one_of));
            },
            SchemaKindView::AllOf { .. } => {
                assert(decreases_to!(k@ => k@->all_of));
            },
            SchemaKindView::AnyOf { .. } => {
                assert(decreases_to!(k@ => k@->any_of));
            },
            SchemaKindView::Any(_) => {
                assert(decreases_to!(k@ => k@->Any_0));
            },
        }
    }
    match k {
        SchemaKind::Type(t) => write_type(out, t),
        SchemaKind::OneOf { one_of } => put_entry(out, Key::OneOf, Some(refs_to_value(one_of))),
        SchemaKind::AllOf { all_of } => put_entry(out, Key::AllOf, Some(refs_to_value(all_of))),
        SchemaKind::AnyOf { any_of } => put_entry(out, Key::AnyOf, Some(refs_to_value(any_of))),
        SchemaKind::Any(a) => write_any(out, a),
    }
}

} // verus!
