//! Structural equality: two values are equal when their models are.

use vstd::prelude::*;
use vstd::std_specs::cmp::{PartialEqSpec, PartialEqSpecImpl};
use crate::error::{path_view, ParseError, PathSegment};
use crate::keys::opt_view;
use crate::model::{
    additional_opt_view, docs_opt_view, items_view, lemma_refs_view, refs_view, text_opt_view,
    text_opts_view, texts_view, SchemaKindView,
};
use crate::properties::Properties;
use crate::reference::ReferenceOr;
use crate::schema::{
    AdditionalProperties, AnySchema, ArrayType, ExternalDocumentation, IntegerType, NumberType,
    ObjectType, Schema, SchemaData, SchemaKind, StringType, Type,
};
use crate::text::str_eq;
use crate::value::{entries_view, lemma_array_view, lemma_object_view, values_view, Number, Value};
use crate::variant_or::{KnownVariant, VariantOrUnknown, VariantOrUnknownOrEmpty};

verus! {

fn same_number(a: &Number, b: &Number) -> (same: bool)
    ensures
        same == (*a == *b),
{
    *a == *b
}

/// Whether two values have the same model.
pub fn same_value(a: &Value, b: &Value) -> (same: bool)
    ensures
        same == (a@ == b@),
    decreases *a,
{
    match (a, b) {
        (Value::Null, Value::Null) => true,
        (Value::Bool(x), Value::Bool(y)) => *x == *y,
        (Value::Number(x), Value::Number(y)) => same_number(x, y),
        (Value::String(x), Value::String(y)) => *x == *y,
        (Value::Array(x), Value::Array(y)) => {
            proof {
                lemma_array_view(*x);
                lemma_array_view(*y);
            }
            if x.len() != y.len() {
                assert(values_view(x@).len() != values_view(y@).len());
                return false;
            }
            let mut i: usize = 0;
            while i < x.len()
                invariant
                    i <= x.len(),
                    x.len() == y.len(),
                    *a == Value::Array(*x),
                    a@ == crate::value::ValueView::Array(values_view(x@)),
                    b@ == crate::value::ValueView::Array(values_view(y@)),
                    forall|j: int| 0 <= j < i ==> x@[j]@ == y@[j]@,
                decreases x.len() - i,
            {
                proof {
                    assert(decreases_to!(*a => a->Array_0));
                    assert(decreases_to!(a->Array_0 => a->Array_0[i as int]));
                    assert(decreases_to!(*a => x[i as int]));
                }
                if !same_value(&x[i], &y[i]) {
                    assert(values_view(x@)[i as int] != values_view(y@)[i as int]);
                    return false;
                }
                i += 1;
            }
            assert(values_view(x@) =~= values_view(y@));
            true
        },
        (Value::Object(x), Value::Object(y)) => {
            proof {
                lemma_object_view(*x);
                lemma_object_view(*y);
            }
            if x.len() != y.len() {
                assert(entries_view(x@).len() != entries_view(y@).len());
                return false;
            }
            let mut i: usize = 0;
            while i < x.len()
                invariant
                    i <= x.len(),
                    x.len() == y.len(),
                    *a == Value::Object(*x),
                    a@ == crate::value::ValueView::Object(entries_view(x@)),
                    b@ == crate::value::ValueView::Object(entries_view(y@)),
                    forall|j: int| 0 <= j < i ==> x@[j].0@ == y@[j].0@ && x@[j].1@ == y@[j].1@,
                decreases x.len() - i,
            {
                proof {
                    assert(decreases_to!(*a => a->Object_0));
                    assert(decreases_to!(a->Object_0 => a->Object_0[i as int]));
                    assert(decreases_to!(x[i as int] => x[i as int].1));
                    assert(decreases_to!(*a => x[i as int].1));
                }
                if !(x[i].0 == y[i].0) || !same_value(&x[i].1, &y[i].1) {
                    assert(entries_view(x@)[i as int] != entries_view(y@)[i as int]);
                    return false;
                }
                i += 1;
            }
            assert(entries_view(x@) =~= entries_view(y@));
            true
        },
        _ => false,
    }
}

impl PartialEq for Value {
    fn eq(&self, other: &Self) -> (same: bool) {
        same_value(self, other)
    }
}

impl PartialEqSpecImpl for Value {
    open spec fn obeys_eq_spec() -> bool {
        true
    }

    open spec fn eq_spec(&self, other: &Self) -> bool {
        self@ == other@
    }
}

fn same_flag(a: &Option<bool>, b: &Option<bool>) -> (same: bool)
    ensures
        same == (*a == *b),
{
    match (a, b) {
        (Some(x), Some(y)) => *x == *y,
        (None, None) => true,
        _ => false,
    }
}

fn same_count(a: &Option<usize>, b: &Option<usize>) -> (same: bool)
    ensures
        same == (*a == *b),
{
    match (a, b) {
        (Some(x), Some(y)) => *x == *y,
        (None, None) => true,
        _ => false,
    }
}

fn same_int(a: &Option<i64>, b: &Option<i64>) -> (same: bool)
    ensures
        same == (*a == *b),
{
    match (a, b) {
        (Some(x), Some(y)) => *x == *y,
        (None, None) => true,
        _ => false,
    }
}

fn same_number_opt(a: &Option<Number>, b: &Option<Number>) -> (same: bool)
    ensures
        same == (*a == *b),
{
    match (a, b) {
        (Some(x), Some(y)) => same_number(x, y),
        (None, None) => true,
        _ => false,
    }
}

fn same_text(a: &Option<String>, b: &Option<String>) -> (same: bool)
    ensures
        same == (text_opt_view(*a) == text_opt_view(*b)),
{
    match (a, b) {
        (Some(x), Some(y)) => *x == *y,
        (None, None) => true,
        _ => false,
    }
}

fn same_value_opt(a: &Option<Value>, b: &Option<Value>) -> (same: bool)
    ensures
        same == (opt_view(*a) == opt_view(*b)),
{
    match (a, b) {
        (Some(x), Some(y)) => same_value(x, y),
        (None, None) => true,
        _ => false,
    }
}

fn same_texts(a: &Vec<String>, b: &Vec<String>) -> (same: bool)
    ensures
        same == (texts_view(a@) == texts_view(b@)),
{
    if a.len() != b.len() {
        assert(texts_view(a@).len() != texts_view(b@).len());
        return false;
    }
    let mut i: usize = 0;
    while i < a.len()
        invariant
            i <= a.len(),
            a.len() == b.len(),
            forall|j: int| 0 <= j < i ==> a@[j]@ == b@[j]@,
        decreases a.len() - i,
    {
        if !(a[i] == b[i]) {
            assert(texts_view(a@)[i as int] != texts_view(b@)[i as int]);
            return false;
        }
        i += 1;
    }
    assert(texts_view(a@) =~= texts_view(b@));
    true
}

fn same_text_opts(a: &Vec<Option<String>>, b: &Vec<Option<String>>) -> (same: bool)
    ensures
        same == (text_opts_view(a@) == text_opts_view(b@)),
{
    if a.len() != b.len() {
        assert(text_opts_view(a@).len() != text_opts_view(b@).len());
        return false;
    }
    let mut i: usize = 0;
    while i < a.len()
        invariant
            i <= a.len(),
            a.len() == b.len(),
            forall|j: int| 0 <= j < i ==> text_opt_view(a@[j]) == text_opt_view(b@[j]),
        decreases a.len() - i,
    {
        if !(same_text(&a[i], &b[i])) {
            assert(text_opts_view(a@)[i as int] != text_opts_view(b@)[i as int]);
            return false;
        }
        i += 1;
    }
    assert(text_opts_view(a@) =~= text_opts_view(b@));
    true
}

fn same_numbers(a: &Vec<Number>, b: &Vec<Number>) -> (same: bool)
    ensures
        same == (a@ == b@),
{
    if a.len() != b.len() {
        assert(a@.len() != b@.len());
        return false;
    }
    let mut i: usize = 0;
    while i < a.len()
        invariant
            i <= a.len(),
            a.len() == b.len(),
            forall|j: int| 0 <= j < i ==> a@[j] == b@[j],
        decreases a.len() - i,
    {
        if !(same_number(&a[i], &b[i])) {
            assert(a@[i as int] != b@[i as int]);
            return false;
        }
        i += 1;
    }
    assert(a@ =~= b@);
    true
}

fn same_ints(a: &Vec<i64>, b: &Vec<i64>) -> (same: bool)
    ensures
        same == (a@ == b@),
{
    if a.len() != b.len() {
        assert(a@.len() != b@.len());
        return false;
    }
    let mut i: usize = 0;
    while i < a.len()
        invariant
            i <= a.len(),
            a.len() == b.len(),
            forall|j: int| 0 <= j < i ==> a@[j] == b@[j],
        decreases a.len() - i,
    {
        if !(a[i] == b[i]) {
            assert(a@[i as int] != b@[i as int]);
            return false;
        }
        i += 1;
    }
    assert(a@ =~= b@);
    true
}

fn same_format<T: KnownVariant>(
    a: &VariantOrUnknownOrEmpty<T>,
    b: &VariantOrUnknownOrEmpty<T>,
) -> (same: bool)
    ensures
        same == (a@ == b@),
{
    match (a, b) {
        (VariantOrUnknownOrEmpty::Item(x), VariantOrUnknownOrEmpty::Item(y)) => {
            proof {
                T::lemma_text(*x, x.text());
                T::lemma_text(*y, y.text());
            }
            str_eq(x.as_text(), y.as_text())
        },
        (VariantOrUnknownOrEmpty::Unknown(x), VariantOrUnknownOrEmpty::Unknown(y)) => *x == *y,
        (VariantOrUnknownOrEmpty::Empty, VariantOrUnknownOrEmpty::Empty) => true,
        _ => false,
    }
}

fn same_variant<T: KnownVariant>(a: &VariantOrUnknown<T>, b: &VariantOrUnknown<T>) -> (same: bool)
    ensures
        same == (a@ == b@),
{
    match (a, b) {
        (VariantOrUnknown::Item(x), VariantOrUnknown::Item(y)) => {
            proof {
                T::lemma_text(*x, x.text());
                T::lemma_text(*y, y.text());
            }
            str_eq(x.as_text(), y.as_text())
        },
        (VariantOrUnknown::Unknown(x), VariantOrUnknown::Unknown(y)) => *x == *y,
        _ => false,
    }
}

fn same_docs(a: &ExternalDocumentation, b: &ExternalDocumentation) -> (same: bool)
    ensures
        same == (a@ == b@),
{
    let description = same_text(&a.description, &b.description);
    let url = a.url == b.url;
    description && url
}

fn same_docs_opt(a: &Option<ExternalDocumentation>, b: &Option<ExternalDocumentation>) -> (same:
    bool)
    ensures
        same == (docs_opt_view(*a) == docs_opt_view(*b)),
{
    match (a, b) {
        (Some(x), Some(y)) => same_docs(x, y),
        (None, None) => true,
        _ => false,
    }
}

#[verifier::rlimit(50)]
fn same_data(a: &SchemaData, b: &SchemaData) -> (same: bool)
    ensures
        same == (a@ == b@),
{
    let f0 = same_flag(&a.nullable, &b.nullable);
    let f1 = same_flag(&a.read_only, &b.read_only);
    let f2 = same_flag(&a.write_only, &b.write_only);
    let f3 = same_flag(&a.deprecated, &b.deprecated);
    let f4 = same_docs_opt(&a.external_docs, &b.external_docs);
    let f5 = same_value_opt(&a.example, &b.example);
    let f6 = same_text(&a.title, &b.title);
    let f7 = same_text(&a.description, &b.description);
    let f8 = same_text(&a.discriminator, &b.discriminator);
    let f9 = same_value_opt(&a.default, &b.default);
    f0 && f1 && f2 && f3 && f4 && f5 && f6 && f7 && f8 && f9
}

fn same_string(a: &StringType, b: &StringType) -> (same: bool)
    ensures
        same == (a@ == b@),
{
    let f0 = same_format(&a.format, &b.format);
    let f1 = same_text(&a.pattern, &b.pattern);
    let f2 = same_text_opts(&a.enumeration, &b.enumeration);
    let f3 = same_count(&a.min_length, &b.min_length);
    let f4 = same_count(&a.max_length, &b.max_length);
    f0 && f1 && f2 && f3 && f4
}

fn same_number_type(a: &NumberType, b: &NumberType) -> (same: bool)
    ensures
        same == (a@ == b@),
{
    let f0 = same_format(&a.format, &b.format);
    let f1 = same_number_opt(&a.multiple_of, &b.multiple_of);
    let f2 = same_number_opt(&a.exclusive_minimum, &b.exclusive_minimum);
    let f3 = same_number_opt(&a.exclusive_maximum, &b.exclusive_maximum);
    let f4 = same_number_opt(&a.minimum, &b.minimum);
    let f5 = same_number_opt(&a.maximum, &b.maximum);
    let f6 = same_numbers(&a.enumeration, &b.enumeration);
    f0 && f1 && f2 && f3 && f4 && f5 && f6
}

fn same_integer(a: &IntegerType, b: &IntegerType) -> (same: bool)
    ensures
        same == (a@ == b@),
{
    let f0 = same_format(&a.format, &b.format);
    let f1 = same_int(&a.multiple_of, &b.multiple_of);
    let f2 = same_int(&a.exclusive_minimum, &b.exclusive_minimum);
    let f3 = same_int(&a.exclusive_maximum, &b.exclusive_maximum);
    let f4 = same_int(&a.minimum, &b.minimum);
    let f5 = same_int(&a.maximum, &b.maximum);
    let f6 = same_ints(&a.enumeration, &b.enumeration);
    f0 && f1 && f2 && f3 && f4 && f5 && f6
}

/// Whether two schemas have the same model.
pub fn same_schema(a: &Schema, b: &Schema) -> (same: bool)
    ensures
        same == (a@ == b@),
    decreases a@, 0nat,
{
    proof {
        assert(decreases_to!(a@ => a@.schema_kind));
        assert(*a@.schema_kind == a.schema_kind@);
        assert(*b@.schema_kind == b.schema_kind@);
    }
    let data = same_data(&a.schema_data, &b.schema_data);
    let kind = same_kind(&a.schema_kind, &b.schema_kind);
    data && kind
}

fn same_kind(a: &SchemaKind, b: &SchemaKind) -> (same: bool)
    ensures
        same == (a@ == b@),
    decreases a@, 3nat,
{
    proof {
        match a@ {
            SchemaKindView::Type(_) => {
                assert(decreases_to!(a@ => a@->Type_0));
            },
            SchemaKindView::OneOf { .. } => {
                assert(decreases_to!(a@ => a@->one_of));
            },
            SchemaKindView::AllOf { .. } => {
                assert(decreases_to!(a@ => a@->all_of));
            },
            SchemaKindView::AnyOf { .. } => {
                assert(decreases_to!(a@ => a@->any_of));
            },
            SchemaKindView::Any(_) => {
                assert(decreases_to!(a@ => a@->Any_0));
            },
        }
    }
    match (a, b) {
        (SchemaKind::Type(x), SchemaKind::Type(y)) => same_type(x, y),
        (SchemaKind::OneOf { one_of: x }, SchemaKind::OneOf { one_of: y }) => same_refs(x, y),
        (SchemaKind::AllOf { all_of: x }, SchemaKind::AllOf { all_of: y }) => same_refs(x, y),
        (SchemaKind::AnyOf { any_of: x }, SchemaKind::AnyOf { any_of: y }) => same_refs(x, y),
        (SchemaKind::Any(x), SchemaKind::Any(y)) => same_any(x, y),
        _ => false,
    }
}

fn same_type(a: &Type, b: &Type) -> (same: bool)
    ensures
        same == (a@ == b@),
    decreases a@, 2nat,
{
    proof {
        if a@ is Object {
            assert(decreases_to!(a@ => a@->Object_0));
        }
        if a@ is Array {
            assert(decreases_to!(a@ => a@->Array_0));
        }
    }
    match (a, b) {
        (Type::String(x), Type::String(y)) => same_string(x, y),
        (Type::Number(x), Type::Number(y)) => same_number_type(x, y),
        (Type::Integer(x), Type::Integer(y)) => same_integer(x, y),
        (Type::Object(x), Type::Object(y)) => same_object(x, y),
        (Type::Array(x), Type::Array(y)) => same_array(x, y),
        (Type::Boolean {  }, Type::Boolean {  }) => true,
        _ => false,
    }
}

fn same_object(a: &ObjectType, b: &ObjectType) -> (same: bool)
    ensures
        same == (a@ == b@),
    decreases a@, 1nat,
{
    proof {
        assert(decreases_to!(a@ => a@.properties));
        assert(decreases_to!(a@ => a@.additional_properties));
    }
    let f0 = same_properties(&a.properties, &b.properties);
    let f1 = same_texts(&a.required, &b.required);
    let f2 = same_additional(&a.additional_properties, &b.additional_properties);
    let f3 = same_count(&a.min_properties, &b.min_properties);
    let f4 = same_count(&a.max_properties, &b.max_properties);
    f0 && f1 && f2 && f3 && f4
}

fn same_array(a: &ArrayType, b: &ArrayType) -> (same: bool)
    ensures
        same == (a@ == b@),
    decreases a@, 1nat,
{
    proof {
        assert(decreases_to!(a@ => a@.items));
    }
    let f0 = same_items(&a.items, &b.items);
    let f1 = same_count(&a.min_items, &b.min_items);
    let f2 = same_count(&a.max_items, &b.max_items);
    let f3 = a.unique_items == b.unique_items;
    f0 && f1 && f2 && f3
}

#[verifier::rlimit(50)]
fn same_any(a: &AnySchema, b: &AnySchema) -> (same: bool)
    ensures
        same == (a@ == b@),
    decreases a@, 1nat,
{
    proof {
        assert(decreases_to!(a@ => a@.properties));
        assert(decreases_to!(a@ => a@.additional_properties));
        assert(decreases_to!(a@ => a@.items));
    }
    let f0 = same_text(&a.pattern, &b.pattern);
    let f1 = same_number_opt(&a.multiple_of, &b.multiple_of);
    let f2 = same_flag(&a.exclusive_minimum, &b.exclusive_minimum);
    let f3 = same_flag(&a.exclusive_maximum, &b.exclusive_maximum);
    let f4 = same_number_opt(&a.minimum, &b.minimum);
    let f5 = same_number_opt(&a.maximum, &b.maximum);
    let f6 = same_properties(&a.properties, &b.properties);
    let f7 = same_texts(&a.required, &b.required);
    let f8 = same_additional(&a.additional_properties, &b.additional_properties);
    let f9 = same_count(&a.min_properties, &b.min_properties);
    let f10 = same_count(&a.max_properties, &b.max_properties);
    let f11 = same_items(&a.items, &b.items);
    let f12 = same_count(&a.min_items, &b.min_items);
    let f13 = same_count(&a.max_items, &b.max_items);
    let f14 = same_flag(&a.unique_items, &b.unique_items);
    let f15 = same_text(&a.format, &b.format);
    f0 && f1 && f2 && f3 && f4 && f5 && f6 && f7 && f8 && f9 && f10 && f11 && f12 && f13 && f14
        && f15
}

fn same_ref(a: &ReferenceOr<Schema>, b: &ReferenceOr<Schema>) -> (same: bool)
    ensures
        same == (a@ == b@),
    decreases a@, 1nat,
{
    proof {
        if a@ is Item {
            assert(decreases_to!(a@ => a@->Item_0));
        }
    }
    match (a, b) {
        (ReferenceOr::Reference { reference: x }, ReferenceOr::Reference { reference: y }) => *x
            == *y,
        (ReferenceOr::Item(x), ReferenceOr::Item(y)) => same_schema(x, y),
        _ => false,
    }
}

fn same_boxed_ref(a: &ReferenceOr<Box<Schema>>, b: &ReferenceOr<Box<Schema>>) -> (same: bool)
    ensures
        same == (a@ == b@),
    decreases a@, 1nat,
{
    proof {
        if a@ is Item {
            assert(decreases_to!(a@ => a@->Item_0));
        }
    }
    match (a, b) {
        (ReferenceOr::Reference { reference: x }, ReferenceOr::Reference { reference: y }) => *x
            == *y,
        (ReferenceOr::Item(x), ReferenceOr::Item(y)) => same_schema(x, y),
        _ => false,
    }
}

fn same_refs(a: &Vec<ReferenceOr<Schema>>, b: &Vec<ReferenceOr<Schema>>) -> (same: bool)
    ensures
        same == (refs_view(*a) == refs_view(*b)),
    decreases refs_view(*a), 0nat,
{
    let ghost av = refs_view(*a);
    let ghost bv = refs_view(*b);
    proof {
        lemma_refs_view(*a);
        lemma_refs_view(*b);
    }
    if a.len() != b.len() {
        return false;
    }
    let mut i: usize = 0;
    while i < a.len()
        invariant
            i <= a.len(),
            a.len() == b.len(),
            av == refs_view(*a),
            bv == refs_view(*b),
            av.len() == a@.len(),
            bv.len() == b@.len(),
            forall|j: int| 0 <= j < a@.len() ==> #[trigger] av[j] == a@[j]@,
            forall|j: int| 0 <= j < b@.len() ==> #[trigger] bv[j] == b@[j]@,
            forall|j: int| 0 <= j < i ==> av[j] == bv[j],
        decreases a.len() - i,
    {
        proof {
            assert(decreases_to!(av => av[i as int]));
        }
        if !same_ref(&a[i], &b[i]) {
            assert(av[i as int] != bv[i as int]);
            return false;
        }
        i += 1;
    }
    assert(av =~= bv);
    true
}

fn same_properties(a: &Properties, b: &Properties) -> (same: bool)
    ensures
        same == (a@ == b@),
    decreases a@, 0nat,
{
    let n = a.len();
    if n != b.len() {
        return false;
    }
    let mut i: usize = 0;
    while i < n
        invariant
            i <= n,
            n == a@.len(),
            n == b@.len(),
            forall|j: int| 0 <= j < i ==> a@[j] == b@[j],
        decreases n - i,
    {
        match (a.get_index(i), b.get_index(i)) {
            (Some((x_name, x)), Some((y_name, y))) => {
                proof {
                    assert(decreases_to!(a@ => a@[i as int]));
                    assert(decreases_to!(a@[i as int] => a@[i as int].1));
                    assert(decreases_to!(a@ => x@));
                }
                if !(*x_name == *y_name) || !same_boxed_ref(x, y) {
                    assert(a@[i as int] != b@[i as int]);
                    return false;
                }
            },
            _ => {},
        }
        i += 1;
    }
    assert(a@ =~= b@);
    true
}

fn same_items(a: &Option<ReferenceOr<Box<Schema>>>, b: &Option<ReferenceOr<Box<Schema>>>) -> (same:
    bool)
    ensures
        same == (items_view(*a) == items_view(*b)),
    decreases items_view(*a), 0nat,
{
    proof {
        let v = items_view(*a);
        if v is Some {
            assert(decreases_to!(v => v->Some_0));
        }
    }
    match (a, b) {
        (Some(x), Some(y)) => same_boxed_ref(x, y),
        (None, None) => true,
        _ => false,
    }
}

fn same_additional(a: &Option<AdditionalProperties>, b: &Option<AdditionalProperties>) -> (same:
    bool)
    ensures
        same == (additional_opt_view(*a) == additional_opt_view(*b)),
    decreases additional_opt_view(*a), 0nat,
{
    match (a, b) {
        (Some(AdditionalProperties::Any(x)), Some(AdditionalProperties::Any(y))) => *x == *y,
        (Some(AdditionalProperties::Schema(x)), Some(AdditionalProperties::Schema(y))) => {
            proof {
                let v = additional_opt_view(*a);
                assert(decreases_to!(v => v->Some_0));
                assert(decreases_to!(v->Some_0 => v->Some_0->Schema_0));
            }
            same_ref(x, y)
        },
        (None, None) => true,
        _ => false,
    }
}

fn same_step(a: &PathSegment, b: &PathSegment) -> (same: bool)
    ensures
        same == (a@ == b@),
{
    match (a, b) {
        (PathSegment::Key(x), PathSegment::Key(y)) => *x == *y,
        (PathSegment::Index(x), PathSegment::Index(y)) => *x == *y,
        _ => false,
    }
}

fn same_path(a: &Vec<PathSegment>, b: &Vec<PathSegment>) -> (same: bool)
    ensures
        same == (path_view(a@) == path_view(b@)),
{
    if a.len() != b.len() {
        assert(path_view(a@).len() != path_view(b@).len());
        return false;
    }
    let mut i: usize = 0;
    while i < a.len()
        invariant
            i <= a.len(),
            a.len() == b.len(),
            forall|j: int| 0 <= j < i ==> a@[j]@ == b@[j]@,
        decreases a.len() - i,
    {
        if !same_step(&a[i], &b[i]) {
            assert(path_view(a@)[i as int] != path_view(b@)[i as int]);
            return false;
        }
        i += 1;
    }
    assert(path_view(a@) =~= path_view(b@));
    true
}

impl PartialEq for ExternalDocumentation {
    fn eq(&self, other: &Self) -> (same: bool) {
        same_docs(self, other)
    }
}

impl PartialEqSpecImpl for ExternalDocumentation {
    open spec fn obeys_eq_spec() -> bool {
        true
    }

    open spec fn eq_spec(&self, other: &Self) -> bool {
        self@ == other@
    }
}

impl PartialEq for SchemaData {
    fn eq(&self, other: &Self) -> (same: bool) {
        same_data(self, other)
    }
}

impl PartialEqSpecImpl for SchemaData {
    open spec fn obeys_eq_spec() -> bool {
        true
    }

    open spec fn eq_spec(&self, other: &Self) -> bool {
        self@ == other@
    }
}

impl PartialEq for StringType {
    fn eq(&self, other: &Self) -> (same: bool) {
        same_string(self, other)
    }
}

impl PartialEqSpecImpl for StringType {
    open spec fn obeys_eq_spec() -> bool {
        true
    }

    open spec fn eq_spec(&self, other: &Self) -> bool {
        self@ == other@
    }
}

impl PartialEq for NumberType {
    fn eq(&self, other: &Self) -> (same: bool) {
        same_number_type(self, other)
    }
}

impl PartialEqSpecImpl for NumberType {
    open spec fn obeys_eq_spec() -> bool {
        true
    }

    open spec fn eq_spec(&self, other: &Self) -> bool {
        self@ == other@
    }
}

impl PartialEq for IntegerType {
    fn eq(&self, other: &Self) -> (same: bool) {
        same_integer(self, other)
    }
}

impl PartialEqSpecImpl for IntegerType {
    open spec fn obeys_eq_spec() -> bool {
        true
    }

    open spec fn eq_spec(&self, other: &Self) -> bool {
        self@ == other@
    }
}

impl PartialEq for Schema {
    fn eq(&self, other: &Self) -> (same: bool) {
        same_schema(self, other)
    }
}

impl PartialEqSpecImpl for Schema {
    open spec fn obeys_eq_spec() -> bool {
        true
    }

    open spec fn eq_spec(&self, other: &Self) -> bool {
        self@ == other@
    }
}

impl PartialEq for SchemaKind {
    fn eq(&self, other: &Self) -> (same: bool) {
        same_kind(self, other)
    }
}

impl PartialEqSpecImpl for SchemaKind {
    open spec fn obeys_eq_spec() -> bool {
        true
    }

    open spec fn eq_spec(&self, other: &Self) -> bool {
        self@ == other@
    }
}

impl PartialEq for Type {
    fn eq(&self, other: &Self) -> (same: bool) {
        same_type(self, other)
    }
}

impl PartialEqSpecImpl for Type {
    open spec fn obeys_eq_spec() -> bool {
        true
    }

    open spec fn eq_spec(&self, other: &Self) -> bool {
        self@ == other@
    }
}

impl PartialEq for ObjectType {
    fn eq(&self, other: &Self) -> (same: bool) {
        same_object(self, other)
    }
}

impl PartialEqSpecImpl for ObjectType {
    open spec fn obeys_eq_spec() -> bool {
        true
    }

    open spec fn eq_spec(&self, other: &Self) -> bool {
        self@ == other@
    }
}

impl PartialEq for ArrayType {
    fn eq(&self, other: &Self) -> (same: bool) {
        same_array(self, other)
    }
}

impl PartialEqSpecImpl for ArrayType {
    open spec fn obeys_eq_spec() -> bool {
        true
    }

    open spec fn eq_spec(&self, other: &Self) -> bool {
        self@ == other@
    }
}

impl PartialEq for AnySchema {
    fn eq(&self, other: &Self) -> (same: bool) {
        same_any(self, other)
    }
}

impl PartialEqSpecImpl for AnySchema {
    open spec fn obeys_eq_spec() -> bool {
        true
    }

    open spec fn eq_spec(&self, other: &Self) -> bool {
        self@ == other@
    }
}

impl PartialEq for Properties {
    fn eq(&self, other: &Self) -> (same: bool) {
        same_properties(self, other)
    }
}

impl PartialEqSpecImpl for Properties {
    open spec fn obeys_eq_spec() -> bool {
        true
    }

    open spec fn eq_spec(&self, other: &Self) -> bool {
        self@ == other@
    }
}

impl PartialEq for PathSegment {
    fn eq(&self, other: &Self) -> (same: bool) {
        same_step(self, other)
    }
}

impl PartialEqSpecImpl for PathSegment {
    open spec fn obeys_eq_spec() -> bool {
        true
    }

    open spec fn eq_spec(&self, other: &Self) -> bool {
        self@ == other@
    }
}

impl<T: KnownVariant> PartialEq for VariantOrUnknown<T> {
    fn eq(&self, other: &Self) -> (same: bool) {
        same_variant(self, other)
    }
}

impl<T: KnownVariant> PartialEqSpecImpl for VariantOrUnknown<T> {
    open spec fn obeys_eq_spec() -> bool {
        true
    }

    open spec fn eq_spec(&self, other: &Self) -> bool {
        self@ == other@
    }
}

impl<T: KnownVariant> PartialEq for VariantOrUnknownOrEmpty<T> {
    fn eq(&self, other: &Self) -> (same: bool) {
        same_format(self, other)
    }
}

impl<T: KnownVariant> PartialEqSpecImpl for VariantOrUnknownOrEmpty<T> {
    open spec fn obeys_eq_spec() -> bool {
        true
    }

    open spec fn eq_spec(&self, other: &Self) -> bool {
        self@ == other@
    }
}

impl<T: PartialEq> PartialEq for ReferenceOr<T> {
    fn eq(&self, other: &Self) -> (same: bool) {
        match (self, other) {
            (ReferenceOr::Reference { reference: x }, ReferenceOr::Reference { reference: y }) => *x
                == *y,
            (ReferenceOr::Item(x), ReferenceOr::Item(y)) => *x == *y,
            _ => false,
        }
    }
}

impl<T: PartialEq> PartialEqSpecImpl for ReferenceOr<T> {
    open spec fn obeys_eq_spec() -> bool {
        T::obeys_eq_spec()
    }

    open spec fn eq_spec(&self, other: &Self) -> bool {
        match (*self, *other) {
            (
                ReferenceOr::Reference { reference: x },
                ReferenceOr::Reference { reference: y },
            ) => x@ == y@,
            (ReferenceOr::Item(x), ReferenceOr::Item(y)) => x.eq_spec(&y),
            _ => false,
        }
    }
}

impl PartialEq for AdditionalProperties {
    fn eq(&self, other: &Self) -> (same: bool) {
        match (self, other) {
            (AdditionalProperties::Any(x), AdditionalProperties::Any(y)) => *x == *y,
            (AdditionalProperties::Schema(x), AdditionalProperties::Schema(y)) => same_ref(x, y),
            _ => false,
        }
    }
}

impl PartialEqSpecImpl for AdditionalProperties {
    open spec fn obeys_eq_spec() -> bool {
        true
    }

    open spec fn eq_spec(&self, other: &Self) -> bool {
        self@ == other@
    }
}

impl PartialEq for ParseError {
    fn eq(&self, other: &Self) -> (same: bool) {
        let kind = self.kind == other.kind;
        let path = same_path(&self.path, &other.path);
        kind && path
    }
}

impl PartialEqSpecImpl for ParseError {
    open spec fn obeys_eq_spec() -> bool {
        true
    }

    open spec fn eq_spec(&self, other: &Self) -> bool {
        self@ == other@
    }
}

} // verus!
