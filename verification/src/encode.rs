//! Writing a schema tree as a document value.
//!
//! A schema node is written as one object: first what it says whatever its
//! shape, then its shape, each present field under its keyword and each
//! absent field left out.

use vstd::prelude::*;
use crate::keys::{key_name, put, Key};
use crate::model::{
    AdditionalPropertiesView, AnySchemaView, ArrayTypeView, ExternalDocumentationView,
    IntegerTypeView, NumberTypeView, ObjectTypeView, PropertiesView, SchemaDataView,
    SchemaKindView, SchemaRefView, SchemaView, StringTypeView, TypeView,
};
use crate::properties::Properties;
use crate::reference::ReferenceOrView;
use crate::schema::{AdditionalProperties, Schema, Type};
use crate::text::owned;
use crate::value::{EntriesView, Number, ValueView};
use crate::variant_or::{filled, written_text, KnownVariant, VariantOrUnknownOrEmptyView};

verus! {

/// The number that stands for a signed integer.
pub open spec fn int_number(i: i64) -> Number {
    if i >= 0 {
        Number::PosInt(i as u64)
    } else {
        Number::NegInt(i)
    }
}

/// What is written for an optional boolean.
pub open spec fn bool_value(o: Option<bool>) -> Option<ValueView> {
    match o {
        Some(b) => Some(ValueView::Bool(b)),
        None => None,
    }
}

/// What is written for an optional text.
pub open spec fn text_value(o: Option<Seq<char>>) -> Option<ValueView> {
    match o {
        Some(s) => Some(ValueView::String(s)),
        None => None,
    }
}

/// What is written for an optional count.
pub open spec fn count_value(o: Option<usize>) -> Option<ValueView> {
    match o {
        Some(n) => Some(ValueView::Number(Number::PosInt(n as u64))),
        None => None,
    }
}

/// What is written for an optional signed integer.
pub open spec fn int_value(o: Option<i64>) -> Option<ValueView> {
    match o {
        Some(i) => Some(ValueView::Number(int_number(i))),
        None => None,
    }
}

/// What is written for an optional number: the number as it is held.
pub open spec fn number_value(o: Option<Number>) -> Option<ValueView> {
    match o {
        Some(n) => Some(ValueView::Number(n)),
        None => None,
    }
}

/// A flag that is false where it is absent is written only where true.
pub open spec fn flag_value(b: bool) -> Option<ValueView> {
    if b {
        Some(ValueView::Bool(true))
    } else {
        None
    }
}

/// A list of texts is written as an array, and left out where empty.
pub open spec fn texts_value(s: Seq<Seq<char>>) -> Option<ValueView> {
    if s.len() == 0 {
        None
    } else {
        Some(ValueView::Array(Seq::new(s.len(), |i: int| ValueView::String(s[i]))))
    }
}

/// What stands for an optional text in an array: the text, or null.
pub open spec fn text_or_null(o: Option<Seq<char>>) -> ValueView {
    match o {
        Some(s) => ValueView::String(s),
        None => ValueView::Null,
    }
}

/// A string enumeration is written as an array, with null for the absent
/// value, and left out where empty.
pub open spec fn text_opts_value(s: Seq<Option<Seq<char>>>) -> Option<ValueView> {
    if s.len() == 0 {
        None
    } else {
        Some(ValueView::Array(Seq::new(s.len(), |i: int| text_or_null(s[i]))))
    }
}

/// A number enumeration is written as an array, and left out where empty.
pub open spec fn numbers_value(s: Seq<Number>) -> Option<ValueView> {
    if s.len() == 0 {
        None
    } else {
        Some(ValueView::Array(Seq::new(s.len(), |i: int| ValueView::Number(s[i]))))
    }
}

/// An integer enumeration is written as an array, and left out where empty.
pub open spec fn ints_value(s: Seq<i64>) -> Option<ValueView> {
    if s.len() == 0 {
        None
    } else {
        Some(ValueView::Array(Seq::new(s.len(), |i: int| ValueView::Number(int_number(s[i])))))
    }
}

/// A format is written as its text, and left out where empty.
pub open spec fn format_value<T: KnownVariant>(f: VariantOrUnknownOrEmptyView<T>) -> Option<
    ValueView,
> {
    match filled(f) {
        Some(v) => Some(ValueView::String(written_text(v))),
        None => None,
    }
}

/// The entries written for a link.
pub open spec fn docs_entries(d: ExternalDocumentationView) -> EntriesView {
    let acc = put(Seq::empty(), Key::Description, text_value(d.description));
    put(acc, Key::Url, Some(ValueView::String(d.url)))
}

/// What is written for an optional link.
pub open spec fn docs_value(o: Option<ExternalDocumentationView>) -> Option<ValueView> {
    match o {
        Some(d) => Some(ValueView::Object(docs_entries(d))),
        None => None,
    }
}

/// The entries of what a node says whatever its shape, added to `acc`.
pub open spec fn put_data(acc: EntriesView, d: SchemaDataView) -> EntriesView {
    let acc = put(acc, Key::Nullable, bool_value(d.nullable));
    let acc = put(acc, Key::ReadOnly, bool_value(d.read_only));
    let acc = put(acc, Key::WriteOnly, bool_value(d.write_only));
    let acc = put(acc, Key::Deprecated, bool_value(d.deprecated));
    let acc = put(acc, Key::ExternalDocs, docs_value(d.external_docs));
    let acc = put(acc, Key::Example, d.example);
    let acc = put(acc, Key::Title, text_value(d.title));
    let acc = put(acc, Key::Description, text_value(d.description));
    let acc = put(acc, Key::Discriminator, text_value(d.discriminator));
    put(acc, Key::Default, d.default)
}

/// The entries of a string shape's fields, added to `acc`.
pub open spec fn put_string(acc: EntriesView, t: StringTypeView) -> EntriesView {
    let acc = put(acc, Key::Format, format_value(t.format));
    let acc = put(acc, Key::Pattern, text_value(t.pattern));
    let acc = put(acc, Key::Enum, text_opts_value(t.enumeration));
    let acc = put(acc, Key::MinLength, count_value(t.min_length));
    put(acc, Key::MaxLength, count_value(t.max_length))
}

/// The entries of a number shape's fields, added to `acc`.
pub open spec fn put_number(acc: EntriesView, t: NumberTypeView) -> EntriesView {
    let acc = put(acc, Key::Format, format_value(t.format));
    let acc = put(acc, Key::MultipleOf, number_value(t.multiple_of));
    let acc = put(acc, Key::ExclusiveMinimum, number_value(t.exclusive_minimum));
    let acc = put(acc, Key::ExclusiveMaximum, number_value(t.exclusive_maximum));
    let acc = put(acc, Key::Minimum, number_value(t.minimum));
    let acc = put(acc, Key::Maximum, number_value(t.maximum));
    put(acc, Key::Enum, numbers_value(t.enumeration))
}

/// The entries of an integer shape's fields, added to `acc`.
pub open spec fn put_integer(acc: EntriesView, t: IntegerTypeView) -> EntriesView {
    let acc = put(acc, Key::Format, format_value(t.format));
    let acc = put(acc, Key::MultipleOf, int_value(t.multiple_of));
    let acc = put(acc, Key::ExclusiveMinimum, int_value(t.exclusive_minimum));
    let acc = put(acc, Key::ExclusiveMaximum, int_value(t.exclusive_maximum));
    let acc = put(acc, Key::Minimum, int_value(t.minimum));
    let acc = put(acc, Key::Maximum, int_value(t.maximum));
    put(acc, Key::Enum, ints_value(t.enumeration))
}

/// The text of the `type` keyword for a primitive shape.
pub open spec fn type_text(t: TypeView) -> Seq<char> {
    match t {
        TypeView::String(_) => "string"@,
        TypeView::Number(_) => "number"@,
        TypeView::Integer(_) => "integer"@,
        TypeView::Object(_) => "object"@,
        TypeView::Array(_) => "array"@,
        TypeView::Boolean => "boolean"@,
    }
}

/// The value that stands for a schema node: one object with the entries of
/// its data and then of its shape.
pub open spec fn schema_value(s: SchemaView) -> ValueView
    decreases s, 0nat,
{
    ValueView::Object(put_kind(put_data(Seq::empty(), s.schema_data), *s.schema_kind))
}

/// The value that stands for a schema or a reference: for a reference an
/// object with the reference keyword alone, for a schema its own value.
pub open spec fn ref_value(r: SchemaRefView) -> ValueView
    decreases r, 0nat,
{
    match r {
        ReferenceOrView::Reference { reference } => ValueView::Object(
            seq![(key_name(Key::Ref), ValueView::String(reference))],
        ),
        ReferenceOrView::Item(s) => schema_value(s),
    }
}

/// The members of a composition are written as an array, one value for each.
pub open spec fn refs_value(rs: Seq<SchemaRefView>) -> ValueView
    decreases rs, 0nat,
{
    ValueView::Array(
        Seq::new(
            rs.len(),
            |i: int|
                if 0 <= i < rs.len() {
                    ref_value(rs[i])
                } else {
                    ValueView::Null
                },
        ),
    )
}

/// The properties are written as an object with one entry for each, in
/// their order, and left out where there is none.
pub open spec fn properties_value(p: PropertiesView) -> Option<ValueView>
    decreases p, 0nat,
{
    if p.len() == 0 {
        None
    } else {
        Some(
            ValueView::Object(
                Seq::new(
                    p.len(),
                    |i: int|
                        if 0 <= i < p.len() {
                            (p[i].0, ref_value(p[i].1))
                        } else {
                            (Seq::empty(), ValueView::Null)
                        },
                ),
            ),
        )
    }
}

/// What is written for the schema of an array's items.
pub open spec fn items_value(o: Option<SchemaRefView>) -> Option<ValueView>
    decreases o, 0nat,
{
    match o {
        Some(r) => Some(ref_value(r)),
        None => None,
    }
}

/// What is written for what an object says of further properties: a boolean,
/// or the value of the schema that they must match.
pub open spec fn additional_value(o: Option<AdditionalPropertiesView>) -> Option<ValueView>
    decreases o, 0nat,
{
    match o {
        Some(AdditionalPropertiesView::Any(b)) => Some(ValueView::Bool(b)),
        Some(AdditionalPropertiesView::Schema(r)) => Some(ref_value(r)),
        None => None,
    }
}

/// The entries of an object shape's fields, added to `acc`.
pub open spec fn put_object(acc: EntriesView, t: ObjectTypeView) -> EntriesView
    decreases t, 0nat,
{
    let acc = put(acc, Key::Properties, properties_value(t.properties));
    let acc = put(acc, Key::Required, texts_value(t.required));
    let acc = put(acc, Key::AdditionalProperties, additional_value(t.additional_properties));
    let acc = put(acc, Key::MinProperties, count_value(t.min_properties));
    put(acc, Key::MaxProperties, count_value(t.max_properties))
}

/// The entries of an array shape's fields, added to `acc`.
pub open spec fn put_array(acc: EntriesView, t: ArrayTypeView) -> EntriesView
    decreases t, 0nat,
{
    let acc = put(acc, Key::Items, items_value(t.items));
    let acc = put(acc, Key::MinItems, count_value(t.min_items));
    let acc = put(acc, Key::MaxItems, count_value(t.max_items));
    put(acc, Key::UniqueItems, flag_value(t.unique_items))
}

/// The entries of the open shape's fields, added to `acc`.
pub open spec fn put_any(acc: EntriesView, t: AnySchemaView) -> EntriesView
    decreases t, 0nat,
{
    let acc = put(acc, Key::Pattern, text_value(t.pattern));
    let acc = put(acc, Key::MultipleOf, number_value(t.multiple_of));
    let acc = put(acc, Key::ExclusiveMinimum, bool_value(t.exclusive_minimum));
    let acc = put(acc, Key::ExclusiveMaximum, bool_value(t.exclusive_maximum));
    let acc = put(acc, Key::Minimum, number_value(t.minimum));
    let acc = put(acc, Key::Maximum, number_value(t.maximum));
    let acc = put(acc, Key::Properties, properties_value(t.properties));
    let acc = put(acc, Key::Required, texts_value(t.required));
    let acc = put(acc, Key::AdditionalProperties, additional_value(t.additional_properties));
    let acc = put(acc, Key::MinProperties, count_value(t.min_properties));
    let acc = put(acc, Key::MaxProperties, count_value(t.max_properties));
    let acc = put(acc, Key::Items, items_value(t.items));
    let acc = put(acc, Key::MinItems, count_value(t.min_items));
    let acc = put(acc, Key::MaxItems, count_value(t.max_items));
    let acc = put(acc, Key::UniqueItems, bool_value(t.unique_items));
    put(acc, Key::Format, text_value(t.format))
}

/// The entries of a primitive shape, added to `acc`: its name under `type`,
/// then its fields.
pub open spec fn put_type(acc: EntriesView, t: TypeView) -> EntriesView
    decreases t, 1nat,
{
    let acc = put(acc, Key::Type, Some(ValueView::String(type_text(t))));
    match t {
        TypeView::String(x) => put_string(acc, x),
        TypeView::Number(x) => put_number(acc, x),
        TypeView::Integer(x) => put_integer(acc, x),
        TypeView::Object(x) => put_object(acc, x),
        TypeView::Array(x) => put_array(acc, x),
        TypeView::Boolean => acc,
    }
}

/// The entries of a shape, added to `acc`: for a primitive shape the
/// `type` keyword and then its fields, for a composition its keyword
/// alone, for the open shape its fields.
pub open spec fn put_kind(acc: EntriesView, k: SchemaKindView) -> EntriesView
    decreases k, 2nat,
{
    match k {
        SchemaKindView::Type(t) => put_type(acc, t),
        SchemaKindView::OneOf { one_of } => put(acc, Key::OneOf, Some(refs_value(one_of))),
        SchemaKindView::AllOf { all_of } => put(acc, Key::AllOf, Some(refs_value(all_of))),
        SchemaKindView::AnyOf { any_of } => put(acc, Key::AnyOf, Some(refs_value(any_of))),
        SchemaKindView::Any(a) => put_any(acc, a),
    }
}

} // verus!
