//! What stands under each keyword in the object written for a schema
//! node.

use vstd::prelude::*;
use crate::encode::{
    additional_value, bool_value, count_value, docs_value, flag_value, format_value, int_value,
    ints_value, items_value, number_value, numbers_value, properties_value, put_any, put_array,
    put_data, put_integer, put_kind, put_number, put_object, put_string, put_type, refs_value,
    text_opts_value, text_value, texts_value, type_text,
};
use crate::keys::{get, lemma_get_put, put, Key};
use crate::model::{
    AnySchemaView, ArrayTypeView, IntegerTypeView, NumberTypeView, ObjectTypeView, SchemaDataView,
    SchemaKindView, StringTypeView, TypeView,
};
use crate::value::{EntriesView, ValueView};

verus! {

/// The value `v` where there is one, else what was there before.
pub open spec fn over(v: Option<ValueView>, below: Option<ValueView>) -> Option<ValueView> {
    if v is Some {
        v
    } else {
        below
    }
}

/// Whether `q` is a keyword of what a node says whatever its shape.
pub open spec fn data_key(q: Key) -> bool {
    match q {
        Key::Nullable => true,
        Key::ReadOnly => true,
        Key::WriteOnly => true,
        Key::Deprecated => true,
        Key::ExternalDocs => true,
        Key::Example => true,
        Key::Title => true,
        Key::Description => true,
        Key::Discriminator => true,
        Key::Default => true,
        _ => false,
    }
}

/// What what a node says whatever its shape writes under the keyword `q`.
pub open spec fn data_slot(d: SchemaDataView, q: Key) -> Option<ValueView> {
    match q {
        Key::Nullable => bool_value(d.nullable),
        Key::ReadOnly => bool_value(d.read_only),
        Key::WriteOnly => bool_value(d.write_only),
        Key::Deprecated => bool_value(d.deprecated),
        Key::ExternalDocs => docs_value(d.external_docs),
        Key::Example => d.example,
        Key::Title => text_value(d.title),
        Key::Description => text_value(d.description),
        Key::Discriminator => text_value(d.discriminator),
        Key::Default => d.default,
        _ => None,
    }
}

/// Under each keyword, the entries written for what a node says whatever its shape hold what it writes
/// there, and else what was there before.
#[verifier::rlimit(50)]
pub proof fn lemma_get_data(acc: EntriesView, d: SchemaDataView, q: Key)
    ensures
        get(put_data(acc, d), q) == over(data_slot(d, q), get(acc, q)),
{
    lemma_get_put(acc, Key::Nullable, bool_value(d.nullable), q);
    let a0 = put(acc, Key::Nullable, bool_value(d.nullable));
    lemma_get_put(a0, Key::ReadOnly, bool_value(d.read_only), q);
    let a1 = put(a0, Key::ReadOnly, bool_value(d.read_only));
    lemma_get_put(a1, Key::WriteOnly, bool_value(d.write_only), q);
    let a2 = put(a1, Key::WriteOnly, bool_value(d.write_only));
    lemma_get_put(a2, Key::Deprecated, bool_value(d.deprecated), q);
    let a3 = put(a2, Key::Deprecated, bool_value(d.deprecated));
    lemma_get_put(a3, Key::ExternalDocs, docs_value(d.external_docs), q);
    let a4 = put(a3, Key::ExternalDocs, docs_value(d.external_docs));
    lemma_get_put(a4, Key::Example, d.example, q);
    let a5 = put(a4, Key::Example, d.example);
    lemma_get_put(a5, Key::Title, text_value(d.title), q);
    let a6 = put(a5, Key::Title, text_value(d.title));
    lemma_get_put(a6, Key::Description, text_value(d.description), q);
    let a7 = put(a6, Key::Description, text_value(d.description));
    lemma_get_put(a7, Key::Discriminator, text_value(d.discriminator), q);
    let a8 = put(a7, Key::Discriminator, text_value(d.discriminator));
    lemma_get_put(a8, Key::Default, d.default, q);
}

/// What a string shape writes under the keyword `q`.
pub open spec fn string_slot(t: StringTypeView, q: Key) -> Option<ValueView> {
    match q {
        Key::Format => format_value(t.format),
        Key::Pattern => text_value(t.pattern),
        Key::Enum => text_opts_value(t.enumeration),
        Key::MinLength => count_value(t.min_length),
        Key::MaxLength => count_value(t.max_length),
        _ => None,
    }
}

/// Under each keyword, the entries written for a string shape hold what it writes
/// there, and else what was there before.
pub proof fn lemma_get_string(acc: EntriesView, t: StringTypeView, q: Key)
    ensures
        get(put_string(acc, t), q) == over(string_slot(t, q), get(acc, q)),
{
    lemma_get_put(acc, Key::Format, format_value(t.format), q);
    let a0 = put(acc, Key::Format, format_value(t.format));
    lemma_get_put(a0, Key::Pattern, text_value(t.pattern), q);
    let a1 = put(a0, Key::Pattern, text_value(t.pattern));
    lemma_get_put(a1, Key::Enum, text_opts_value(t.enumeration), q);
    let a2 = put(a1, Key::Enum, text_opts_value(t.enumeration));
    lemma_get_put(a2, Key::MinLength, count_value(t.min_length), q);
    let a3 = put(a2, Key::MinLength, count_value(t.min_length));
    lemma_get_put(a3, Key::MaxLength, count_value(t.max_length), q);
}

/// What a number shape writes under the keyword `q`.
pub open spec fn number_slot(t: NumberTypeView, q: Key) -> Option<ValueView> {
    match q {
        Key::Format => format_value(t.format),
        Key::MultipleOf => number_value(t.multiple_of),
        Key::ExclusiveMinimum => number_value(t.exclusive_minimum),
        Key::ExclusiveMaximum => number_value(t.exclusive_maximum),
        Key::Minimum => number_value(t.minimum),
        Key::Maximum => number_value(t.maximum),
        Key::Enum => numbers_value(t.enumeration),
        _ => None,
    }
}

/// Under each keyword, the entries written for a number shape hold what it writes
/// there, and else what was there before.
pub proof fn lemma_get_number(acc: EntriesView, t: NumberTypeView, q: Key)
    ensures
        get(put_number(acc, t), q) == over(number_slot(t, q), get(acc, q)),
{
    lemma_get_put(acc, Key::Format, format_value(t.format), q);
    let a0 = put(acc, Key::Format, format_value(t.format));
    lemma_get_put(a0, Key::MultipleOf, number_value(t.multiple_of), q);
    let a1 = put(a0, Key::MultipleOf, number_value(t.multiple_of));
    lemma_get_put(a1, Key::ExclusiveMinimum, number_value(t.exclusive_minimum), q);
    let a2 = put(a1, Key::ExclusiveMinimum, number_value(t.exclusive_minimum));
    lemma_get_put(a2, Key::ExclusiveMaximum, number_value(t.exclusive_maximum), q);
    let a3 = put(a2, Key::ExclusiveMaximum, number_value(t.exclusive_maximum));
    lemma_get_put(a3, Key::Minimum, number_value(t.minimum), q);
    let a4 = put(a3, Key::Minimum, number_value(t.minimum));
    lemma_get_put(a4, Key::Maximum, number_value(t.maximum), q);
    let a5 = put(a4, Key::Maximum, number_value(t.maximum));
    lemma_get_put(a5, Key::Enum, numbers_value(t.enumeration), q);
}

/// What an integer shape writes under the keyword `q`.
pub open spec fn integer_slot(t: IntegerTypeView, q: Key) -> Option<ValueView> {
    match q {
        Key::Format => format_value(t.format),
        Key::MultipleOf => int_value(t.multiple_of),
        Key::ExclusiveMinimum => int_value(t.exclusive_minimum),
        Key::ExclusiveMaximum => int_value(t.exclusive_maximum),
        Key::Minimum => int_value(t.minimum),
        Key::Maximum => int_value(t.maximum),
        Key::Enum => ints_value(t.enumeration),
        _ => None,
    }
}

/// Under each keyword, the entries written for an integer shape hold what it writes
/// there, and else what was there before.
pub proof fn lemma_get_integer(acc: EntriesView, t: IntegerTypeView, q: Key)
    ensures
        get(put_integer(acc, t), q) == over(integer_slot(t, q), get(acc, q)),
{
    lemma_get_put(acc, Key::Format, format_value(t.format), q);
    let a0 = put(acc, Key::Format, format_value(t.format));
    lemma_get_put(a0, Key::MultipleOf, int_value(t.multiple_of), q);
    let a1 = put(a0, Key::MultipleOf, int_value(t.multiple_of));
    lemma_get_put(a1, Key::ExclusiveMinimum, int_value(t.exclusive_minimum), q);
    let a2 = put(a1, Key::ExclusiveMinimum, int_value(t.exclusive_minimum));
    lemma_get_put(a2, Key::ExclusiveMaximum, int_value(t.exclusive_maximum), q);
    let a3 = put(a2, Key::ExclusiveMaximum, int_value(t.exclusive_maximum));
    lemma_get_put(a3, Key::Minimum, int_value(t.minimum), q);
    let a4 = put(a3, Key::Minimum, int_value(t.minimum));
    lemma_get_put(a4, Key::Maximum, int_value(t.maximum), q);
    let a5 = put(a4, Key::Maximum, int_value(t.maximum));
    lemma_get_put(a5, Key::Enum, ints_value(t.enumeration), q);
}

/// What an object shape writes under the keyword `q`.
pub open spec fn object_slot(t: ObjectTypeView, q: Key) -> Option<ValueView> {
    match q {
        Key::Properties => properties_value(t.properties),
        Key::Required => texts_value(t.required),
        Key::AdditionalProperties => additional_value(t.additional_properties),
        Key::MinProperties => count_value(t.min_properties),
        Key::MaxProperties => count_value(t.max_properties),
        _ => None,
    }
}

/// Under each keyword, the entries written for an object shape hold what it writes
/// there, and else what was there before.
pub proof fn lemma_get_object(acc: EntriesView, t: ObjectTypeView, q: Key)
    ensures
        get(put_object(acc, t), q) == over(object_slot(t, q), get(acc, q)),
{
    lemma_get_put(acc, Key::Properties, properties_value(t.properties), q);
    let a0 = put(acc, Key::Properties, properties_value(t.properties));
    lemma_get_put(a0, Key::Required, texts_value(t.required), q);
    let a1 = put(a0, Key::Required, texts_value(t.required));
    lemma_get_put(a1, Key::AdditionalProperties, additional_value(t.additional_properties), q);
    let a2 = put(a1, Key::AdditionalProperties, additional_value(t.additional_properties));
    lemma_get_put(a2, Key::MinProperties, count_value(t.min_properties), q);
    let a3 = put(a2, Key::MinProperties, count_value(t.min_properties));
    lemma_get_put(a3, Key::MaxProperties, count_value(t.max_properties), q);
}

/// What an array shape writes under the keyword `q`.
pub open spec fn array_slot(t: ArrayTypeView, q: Key) -> Option<ValueView> {
    match q {
        Key::Items => items_value(t.items),
        Key::MinItems => count_value(t.min_items),
        Key::MaxItems => count_value(t.max_items),
        Key::UniqueItems => flag_value(t.unique_items),
        _ => None,
    }
}

/// Under each keyword, the entries written for an array shape hold what it writes
/// there, and else what was there before.
pub proof fn lemma_get_array(acc: EntriesView, t: ArrayTypeView, q: Key)
    ensures
        get(put_array(acc, t), q) == over(array_slot(t, q), get(acc, q)),
{
    lemma_get_put(acc, Key::Items, items_value(t.items), q);
    let a0 = put(acc, Key::Items, items_value(t.items));
    lemma_get_put(a0, Key::MinItems, count_value(t.min_items), q);
    let a1 = put(a0, Key::MinItems, count_value(t.min_items));
    lemma_get_put(a1, Key::MaxItems, count_value(t.max_items), q);
    let a2 = put(a1, Key::MaxItems, count_value(t.max_items));
    lemma_get_put(a2, Key::UniqueItems, flag_value(t.unique_items), q);
}

/// What the open shape writes under the keyword `q`.
pub open spec fn any_slot(t: AnySchemaView, q: Key) -> Option<ValueView> {
    match q {
        Key::Pattern => text_value(t.pattern),
        Key::MultipleOf => number_value(t.multiple_of),
        Key::ExclusiveMinimum => bool_value(t.exclusive_minimum),
        Key::ExclusiveMaximum => bool_value(t.exclusive_maximum),
        Key::Minimum => number_value(t.minimum),
        Key::Maximum => number_value(t.maximum),
        Key::Properties => properties_value(t.properties),
        Key::Required => texts_value(t.required),
        Key::AdditionalProperties => additional_value(t.additional_properties),
        Key::MinProperties => count_value(t.min_properties),
        Key::MaxProperties => count_value(t.max_properties),
        Key::Items => items_value(t.items),
        Key::MinItems => count_value(t.min_items),
        Key::MaxItems => count_value(t.max_items),
        Key::UniqueItems => bool_value(t.unique_items),
        Key::Format => text_value(t.format),
        _ => None,
    }
}

/// Under each keyword, the entries written for the open shape hold what it writes
/// there, and else what was there before.
#[verifier::rlimit(50)]
pub proof fn lemma_get_any(acc: EntriesView, t: AnySchemaView, q: Key)
    ensures
        get(put_any(acc, t), q) == over(any_slot(t, q), get(acc, q)),
{
    lemma_get_put(acc, Key::Pattern, text_value(t.pattern), q);
    let a0 = put(acc, Key::Pattern, text_value(t.pattern));
    lemma_get_put(a0, Key::MultipleOf, number_value(t.multiple_of), q);
    let a1 = put(a0, Key::MultipleOf, number_value(t.multiple_of));
    lemma_get_put(a1, Key::ExclusiveMinimum, bool_value(t.exclusive_minimum), q);
    let a2 = put(a1, Key::ExclusiveMinimum, bool_value(t.exclusive_minimum));
    lemma_get_put(a2, Key::ExclusiveMaximum, bool_value(t.exclusive_maximum), q);
    let a3 = put(a2, Key::ExclusiveMaximum, bool_value(t.exclusive_maximum));
    lemma_get_put(a3, Key::Minimum, number_value(t.minimum), q);
    let a4 = put(a3, Key::Minimum, number_value(t.minimum));
    lemma_get_put(a4, Key::Maximum, number_value(t.maximum), q);
    let a5 = put(a4, Key::Maximum, number_value(t.maximum));
    lemma_get_put(a5, Key::Properties, properties_value(t.properties), q);
    let a6 = put(a5, Key::Properties, properties_value(t.properties));
    lemma_get_put(a6, Key::Required, texts_value(t.required), q);
    let a7 = put(a6, Key::Required, texts_value(t.required));
    lemma_get_put(a7, Key::AdditionalProperties, additional_value(t.additional_properties), q);
    let a8 = put(a7, Key::AdditionalProperties, additional_value(t.additional_properties));
    lemma_get_put(a8, Key::MinProperties, count_value(t.min_properties), q);
    let a9 = put(a8, Key::MinProperties, count_value(t.min_properties));
    lemma_get_put(a9, Key::MaxProperties, count_value(t.max_properties), q);
    let a10 = put(a9, Key::MaxProperties, count_value(t.max_properties));
    lemma_get_put(a10, Key::Items, items_value(t.items), q);
    let a11 = put(a10, Key::Items, items_value(t.items));
    lemma_get_put(a11, Key::MinItems, count_value(t.min_items), q);
    let a12 = put(a11, Key::MinItems, count_value(t.min_items));
    lemma_get_put(a12, Key::MaxItems, count_value(t.max_items), q);
    let a13 = put(a12, Key::MaxItems, count_value(t.max_items));
    lemma_get_put(a13, Key::UniqueItems, bool_value(t.unique_items), q);
    let a14 = put(a13, Key::UniqueItems, bool_value(t.unique_items));
    lemma_get_put(a14, Key::Format, text_value(t.format), q);
}

/// What a primitive shape writes under the keyword `q`: its name under
/// `type`, and its fields under their keywords.
pub open spec fn type_slot(t: TypeView, q: Key) -> Option<ValueView> {
    if q == Key::Type {
        Some(ValueView::String(type_text(t)))
    } else {
        match t {
            TypeView::String(x) => string_slot(x, q),
            TypeView::Number(x) => number_slot(x, q),
            TypeView::Integer(x) => integer_slot(x, q),
            TypeView::Object(x) => object_slot(x, q),
            TypeView::Array(x) => array_slot(x, q),
            TypeView::Boolean => None,
        }
    }
}

/// Under each keyword, the entries written for a primitive shape hold what
/// it writes there, and else what was there before.
pub proof fn lemma_get_type(acc: EntriesView, t: TypeView, q: Key)
    ensures
        get(put_type(acc, t), q) == over(type_slot(t, q), get(acc, q)),
{
    let tagged = put(acc, Key::Type, Some(ValueView::String(type_text(t))));
    lemma_get_put(acc, Key::Type, Some(ValueView::String(type_text(t))), q);
    match t {
        TypeView::String(x) => lemma_get_string(tagged, x, q),
        TypeView::Number(x) => lemma_get_number(tagged, x, q),
        TypeView::Integer(x) => lemma_get_integer(tagged, x, q),
        TypeView::Object(x) => lemma_get_object(tagged, x, q),
        TypeView::Array(x) => lemma_get_array(tagged, x, q),
        TypeView::Boolean => {},
    }
}

/// What a shape writes under the keyword `q`.
pub open spec fn kind_slot(k: SchemaKindView, q: Key) -> Option<ValueView> {
    match k {
        SchemaKindView::Type(t) => type_slot(t, q),
        SchemaKindView::OneOf { one_of } => if q == Key::OneOf {
            Some(refs_value(one_of))
        } else {
            None
        },
        SchemaKindView::AllOf { all_of } => if q == Key::AllOf {
            Some(refs_value(all_of))
        } else {
            None
        },
        SchemaKindView::AnyOf { any_of } => if q == Key::AnyOf {
            Some(refs_value(any_of))
        } else {
            None
        },
        SchemaKindView::Any(a) => any_slot(a, q),
    }
}

/// Under each keyword, the entries written for a shape hold what it writes
/// there, and else what was there before.
pub proof fn lemma_get_kind(acc: EntriesView, k: SchemaKindView, q: Key)
    ensures
        get(put_kind(acc, k), q) == over(kind_slot(k, q), get(acc, q)),
{
    match k {
        SchemaKindView::Type(t) => lemma_get_type(acc, t, q),
        SchemaKindView::OneOf { one_of } => lemma_get_put(
            acc,
            Key::OneOf,
            Some(refs_value(one_of)),
            q,
        ),
        SchemaKindView::AllOf { all_of } => lemma_get_put(
            acc,
            Key::AllOf,
            Some(refs_value(all_of)),
            q,
        ),
        SchemaKindView::AnyOf { any_of } => lemma_get_put(
            acc,
            Key::AnyOf,
            Some(refs_value(any_of)),
            q,
        ),
        SchemaKindView::Any(a) => lemma_get_any(acc, a, q),
    }
}

/// No shape writes under a keyword of what a node says whatever its shape.
pub proof fn lemma_kind_apart(k: SchemaKindView, q: Key)
    requires
        data_key(q),
    ensures
        kind_slot(k, q) is None,
{
}

/// Under a keyword of its data, the entries written for a node hold what
/// the data writes there; under any other keyword, what the shape writes.
pub proof fn lemma_get_node(d: SchemaDataView, k: SchemaKindView, q: Key)
    ensures
        get(put_kind(put_data(Seq::empty(), d), k), q) == if data_key(q) {
            data_slot(d, q)
        } else {
            kind_slot(k, q)
        },
{
    lemma_get_data(Seq::empty(), d, q);
    lemma_get_kind(put_data(Seq::empty(), d), k, q);
    if data_key(q) {
        lemma_kind_apart(k, q);
    }
}

} // verus!
