//! Reading a document value as a schema tree.
//!
//! The shape of a node is decided by its keywords, in this order: a `type`
//! keyword with the name of a primitive shape; else `oneOf`; else `allOf`;
//! else `anyOf`; else the open shape. Keywords that the chosen shape does
//! not have are passed over. A field that is absent or null is read as
//! absent, except an example or a default, whose null is a value.

use vstd::prelude::*;
use crate::error::{
    failure, failure_at, under, under_index, under_key, ErrorKind, ParseErrorView, PathSegmentView,
};
use crate::keys::{get, key_name, Key};
use crate::model::{
    AdditionalPropertiesView, AnySchemaView, ArrayTypeView, ExternalDocumentationView,
    IntegerTypeView, NumberTypeView, ObjectTypeView, PropertiesView, SchemaDataView,
    SchemaKindView, SchemaRefView, SchemaView, StringTypeView, TypeView,
};
use crate::properties::{with_entry, Properties};
use crate::reference::ReferenceOrView;
use crate::schema::{AdditionalProperties, Schema, Type};
use crate::text::str_eq;
use crate::value::{lemma_lookup_decreases, EntriesView, Number, ValueView};
use crate::variant_or::{or_empty, read_text, KnownVariant, VariantOrUnknownOrEmptyView};

verus! {

/// The name of a primitive shape.
#[derive(Clone, Copy, Debug, PartialEq, Eq, Structural)]
pub enum TypeTag {
    String,
    Number,
    Integer,
    Object,
    Array,
    Boolean,
}

/// The primitive shape that `s` names, if any.
pub open spec fn tag_of(s: Seq<char>) -> Option<TypeTag> {
    if s == "string"@ {
        Some(TypeTag::String)
    } else if s == "number"@ {
        Some(TypeTag::Number)
    } else if s == "integer"@ {
        Some(TypeTag::Integer)
    } else if s == "object"@ {
        Some(TypeTag::Object)
    } else if s == "array"@ {
        Some(TypeTag::Array)
    } else if s == "boolean"@ {
        Some(TypeTag::Boolean)
    } else {
        None
    }
}

/// The primitive shape that the `type` keyword names, if it is there and
/// names one.
pub open spec fn type_tag(es: EntriesView) -> Option<TypeTag> {
    match get(es, Key::Type) {
        Some(ValueView::String(s)) => tag_of(s),
        _ => None,
    }
}

/// An optional boolean under the keyword `k`.
pub open spec fn bool_field(es: EntriesView, k: Key) -> Result<Option<bool>, ParseErrorView> {
    match get(es, k) {
        None => Ok(None),
        Some(ValueView::Null) => Ok(None),
        Some(ValueView::Bool(b)) => Ok(Some(b)),
        Some(_) => Err(failure_at(ErrorKind::MalformedScalar, k)),
    }
}

/// A flag that is false where it is absent.
pub open spec fn flag_field(es: EntriesView, k: Key) -> Result<bool, ParseErrorView> {
    match bool_field(es, k) {
        Ok(Some(b)) => Ok(b),
        Ok(None) => Ok(false),
        Err(e) => Err(e),
    }
}

/// An optional text under the keyword `k`.
pub open spec fn text_field(es: EntriesView, k: Key) -> Result<Option<Seq<char>>, ParseErrorView> {
    match get(es, k) {
        None => Ok(None),
        Some(ValueView::Null) => Ok(None),
        Some(ValueView::String(s)) => Ok(Some(s)),
        Some(_) => Err(failure_at(ErrorKind::MalformedScalar, k)),
    }
}

/// The count that a number stands for, if it is a non-negative integer
/// that the machine's word holds.
pub open spec fn count_of(n: Number) -> Option<usize> {
    match n {
        Number::PosInt(u) => if u <= usize::MAX {
            Some(u as usize)
        } else {
            None
        },
        _ => None,
    }
}

/// The signed integer that a number stands for, if it is an integer that
/// 64 bits hold with a sign.
pub open spec fn int_of(n: Number) -> Option<i64> {
    match n {
        Number::PosInt(u) => if u <= i64::MAX {
            Some(u as i64)
        } else {
            None
        },
        Number::NegInt(i) => Some(i),
        Number::Float { .. } => None,
    }
}

/// An optional count under the keyword `k`: a non-negative integer that the
/// machine's word holds.
pub open spec fn count_field(es: EntriesView, k: Key) -> Result<Option<usize>, ParseErrorView> {
    match get(es, k) {
        None => Ok(None),
        Some(ValueView::Null) => Ok(None),
        Some(ValueView::Number(n)) => match count_of(n) {
            Some(c) => Ok(Some(c)),
            None => Err(failure_at(ErrorKind::MalformedScalar, k)),
        },
        Some(_) => Err(failure_at(ErrorKind::MalformedScalar, k)),
    }
}

/// An optional signed integer under the keyword `k`.
pub open spec fn int_field(es: EntriesView, k: Key) -> Result<Option<i64>, ParseErrorView> {
    match get(es, k) {
        None => Ok(None),
        Some(ValueView::Null) => Ok(None),
        Some(ValueView::Number(n)) => match int_of(n) {
            Some(i) => Ok(Some(i)),
            None => Err(failure_at(ErrorKind::MalformedScalar, k)),
        },
        Some(_) => Err(failure_at(ErrorKind::MalformedScalar, k)),
    }
}

/// An optional number under the keyword `k`, kept as it was written.
pub open spec fn number_field(es: EntriesView, k: Key) -> Result<Option<Number>, ParseErrorView> {
    match get(es, k) {
        None => Ok(None),
        Some(ValueView::Null) => Ok(None),
        Some(ValueView::Number(n)) => Ok(Some(n)),
        Some(_) => Err(failure_at(ErrorKind::MalformedScalar, k)),
    }
}

/// An open enumeration never fails on a text: a text that stands for no
/// known variant is kept as it is.
pub open spec fn format_field<T: KnownVariant>(es: EntriesView, k: Key) -> Result<
    VariantOrUnknownOrEmptyView<T>,
    ParseErrorView,
> {
    match get(es, k) {
        None => Ok(VariantOrUnknownOrEmptyView::Empty),
        Some(ValueView::Null) => Ok(VariantOrUnknownOrEmptyView::Empty),
        Some(ValueView::String(s)) => Ok(or_empty(Some(read_text::<T>(s)))),
        Some(_) => Err(failure_at(ErrorKind::MalformedScalar, k)),
    }
}

/// The first `n` items of an array, each read by `item`: all of them, or
/// the failure at the first that cannot be read.
pub open spec fn list_of<T>(
    items: Seq<ValueView>,
    n: nat,
    item: spec_fn(ValueView) -> Option<T>,
) -> Result<Seq<T>, ParseErrorView>
    decreases n,
{
    if n == 0 {
        Ok(Seq::empty())
    } else {
        match list_of(items, (n - 1) as nat, item) {
            Err(e) => Err(e),
            Ok(acc) => match item(items[n - 1]) {
                Some(x) => Ok(acc.push(x)),
                None => Err(under_index(failure(ErrorKind::MalformedScalar), (n - 1) as nat)),
            },
        }
    }
}

/// A list that is empty where it is absent.
pub open spec fn list_field<T>(
    es: EntriesView,
    k: Key,
    item: spec_fn(ValueView) -> Option<T>,
) -> Result<Seq<T>, ParseErrorView> {
    match get(es, k) {
        None => Ok(Seq::empty()),
        Some(ValueView::Null) => Ok(Seq::empty()),
        Some(ValueView::Array(items)) => match list_of(items, items.len(), item) {
            Ok(s) => Ok(s),
            Err(e) => Err(under_key(e, k)),
        },
        Some(_) => Err(failure_at(ErrorKind::StructuralMismatch, k)),
    }
}

/// How a member of a list of texts is read.
pub open spec fn text_reader() -> spec_fn(ValueView) -> Option<Seq<char>> {
    |v: ValueView| as_text(v)
}

/// How a member of a string enumeration is read.
pub open spec fn text_or_null_reader() -> spec_fn(ValueView) -> Option<Option<Seq<char>>> {
    |v: ValueView| as_text_or_null(v)
}

/// How a member of a number enumeration is read.
pub open spec fn number_reader() -> spec_fn(ValueView) -> Option<Number> {
    |v: ValueView| as_number(v)
}

/// How a member of an integer enumeration is read.
pub open spec fn int_reader() -> spec_fn(ValueView) -> Option<i64> {
    |v: ValueView| as_int(v)
}

/// The text that a value is, if it is one.
pub open spec fn as_text(v: ValueView) -> Option<Seq<char>> {
    match v {
        ValueView::String(s) => Some(s),
        _ => None,
    }
}

/// A member of a string enumeration: a text, or null for the absent value.
pub open spec fn as_text_or_null(v: ValueView) -> Option<Option<Seq<char>>> {
    match v {
        ValueView::String(s) => Some(Some(s)),
        ValueView::Null => Some(None),
        _ => None,
    }
}

/// The number that a value is, if it is one.
pub open spec fn as_number(v: ValueView) -> Option<Number> {
    match v {
        ValueView::Number(n) => Some(n),
        _ => None,
    }
}

/// The signed integer that a value is, if it is one.
pub open spec fn as_int(v: ValueView) -> Option<i64> {
    match v {
        ValueView::Number(n) => int_of(n),
        _ => None,
    }
}

/// A link must be an object with a text under `url`.
pub open spec fn parse_docs(ds: EntriesView) -> Result<ExternalDocumentationView, ParseErrorView> {
    match text_field(ds, Key::Description) {
        Err(e) => Err(e),
        Ok(description) => match get(ds, Key::Url) {
            Some(ValueView::String(url)) => Ok(ExternalDocumentationView { description, url }),
            Some(_) => Err(failure_at(ErrorKind::MalformedScalar, Key::Url)),
            None => Err(failure(ErrorKind::StructuralMismatch)),
        },
    }
}

/// An optional link under the keyword `k`.
pub open spec fn docs_field(es: EntriesView, k: Key) -> Result<
    Option<ExternalDocumentationView>,
    ParseErrorView,
> {
    match get(es, k) {
        None => Ok(None),
        Some(ValueView::Null) => Ok(None),
        Some(ValueView::Object(ds)) => match parse_docs(ds) {
            Ok(d) => Ok(Some(d)),
            Err(e) => Err(under_key(e, k)),
        },
        Some(_) => Err(failure_at(ErrorKind::StructuralMismatch, k)),
    }
}

/// What a node says whatever its shape, read from the entries of its
/// object. The fields are read in the order of their declaration, and the
/// first failure is the result.
pub open spec fn parse_data(es: EntriesView) -> Result<SchemaDataView, ParseErrorView> {
    let nullable = bool_field(es, Key::Nullable);
    let read_only = bool_field(es, Key::ReadOnly);
    let write_only = bool_field(es, Key::WriteOnly);
    let deprecated = bool_field(es, Key::Deprecated);
    let external_docs = docs_field(es, Key::ExternalDocs);
    let title = text_field(es, Key::Title);
    let description = text_field(es, Key::Description);
    let discriminator = text_field(es, Key::Discriminator);
    if nullable is Err {
        Err(nullable->Err_0)
    } else if read_only is Err {
        Err(read_only->Err_0)
    } else if write_only is Err {
        Err(write_only->Err_0)
    } else if deprecated is Err {
        Err(deprecated->Err_0)
    } else if external_docs is Err {
        Err(external_docs->Err_0)
    } else if title is Err {
        Err(title->Err_0)
    } else if description is Err {
        Err(description->Err_0)
    } else if discriminator is Err {
        Err(discriminator->Err_0)
    } else {
        Ok(
            SchemaDataView {
                nullable: nullable->Ok_0,
                read_only: read_only->Ok_0,
                write_only: write_only->Ok_0,
                deprecated: deprecated->Ok_0,
                external_docs: external_docs->Ok_0,
                example: get(es, Key::Example),
                title: title->Ok_0,
                description: description->Ok_0,
                discriminator: discriminator->Ok_0,
                default: get(es, Key::Default),
            },
        )
    }
}

/// A string shape, read from the entries of a node. The fields are read in
/// the order of their declaration, and the first failure is the result.
pub open spec fn parse_string(es: EntriesView) -> Result<StringTypeView, ParseErrorView> {
    let format = format_field(es, Key::Format);
    let pattern = text_field(es, Key::Pattern);
    let enumeration = list_field(es, Key::Enum, text_or_null_reader());
    let min_length = count_field(es, Key::MinLength);
    let max_length = count_field(es, Key::MaxLength);
    if format is Err {
        Err(format->Err_0)
    } else if pattern is Err {
        Err(pattern->Err_0)
    } else if enumeration is Err {
        Err(enumeration->Err_0)
    } else if min_length is Err {
        Err(min_length->Err_0)
    } else if max_length is Err {
        Err(max_length->Err_0)
    } else {
        Ok(
            StringTypeView {
                format: format->Ok_0,
                pattern: pattern->Ok_0,
                enumeration: enumeration->Ok_0,
                min_length: min_length->Ok_0,
                max_length: max_length->Ok_0,
            },
        )
    }
}

/// A number shape, read from the entries of a node. Its exclusive bounds are
/// numbers.
pub open spec fn parse_number(es: EntriesView) -> Result<NumberTypeView, ParseErrorView> {
    let format = format_field(es, Key::Format);
    let multiple_of = number_field(es, Key::MultipleOf);
    let exclusive_minimum = number_field(es, Key::ExclusiveMinimum);
    let exclusive_maximum = number_field(es, Key::ExclusiveMaximum);
    let minimum = number_field(es, Key::Minimum);
    let maximum = number_field(es, Key::Maximum);
    let enumeration = list_field(es, Key::Enum, number_reader());
    if format is Err {
        Err(format->Err_0)
    } else if multiple_of is Err {
        Err(multiple_of->Err_0)
    } else if exclusive_minimum is Err {
        Err(exclusive_minimum->Err_0)
    } else if exclusive_maximum is Err {
        Err(exclusive_maximum->Err_0)
    } else if minimum is Err {
        Err(minimum->Err_0)
    } else if maximum is Err {
        Err(maximum->Err_0)
    } else if enumeration is Err {
        Err(enumeration->Err_0)
    } else {
        Ok(
            NumberTypeView {
                format: format->Ok_0,
                multiple_of: multiple_of->Ok_0,
                exclusive_minimum: exclusive_minimum->Ok_0,
                exclusive_maximum: exclusive_maximum->Ok_0,
                minimum: minimum->Ok_0,
                maximum: maximum->Ok_0,
                enumeration: enumeration->Ok_0,
            },
        )
    }
}

/// An integer shape, read from the entries of a node. Its numbers must be
/// integers that 64 bits hold with a sign.
pub open spec fn parse_integer(es: EntriesView) -> Result<IntegerTypeView, ParseErrorView> {
    let format = format_field(es, Key::Format);
    let multiple_of = int_field(es, Key::MultipleOf);
    let exclusive_minimum = int_field(es, Key::ExclusiveMinimum);
    let exclusive_maximum = int_field(es, Key::ExclusiveMaximum);
    let minimum = int_field(es, Key::Minimum);
    let maximum = int_field(es, Key::Maximum);
    let enumeration = list_field(es, Key::Enum, int_reader());
    if format is Err {
        Err(format->Err_0)
    } else if multiple_of is Err {
        Err(multiple_of->Err_0)
    } else if exclusive_minimum is Err {
        Err(exclusive_minimum->Err_0)
    } else if exclusive_maximum is Err {
        Err(exclusive_maximum->Err_0)
    } else if minimum is Err {
        Err(minimum->Err_0)
    } else if maximum is Err {
        Err(maximum->Err_0)
    } else if enumeration is Err {
        Err(enumeration->Err_0)
    } else {
        Ok(
            IntegerTypeView {
                format: format->Ok_0,
                multiple_of: multiple_of->Ok_0,
                exclusive_minimum: exclusive_minimum->Ok_0,
                exclusive_maximum: exclusive_maximum->Ok_0,
                minimum: minimum->Ok_0,
                maximum: maximum->Ok_0,
                enumeration: enumeration->Ok_0,
            },
        )
    }
}

/// A schema node is read from an object: what it says whatever its shape,
/// then its shape. Anything but an object is a structural mismatch.
pub open spec fn parse_schema(v: ValueView) -> Result<SchemaView, ParseErrorView>
    decreases v, 0nat, 0nat,
{
    match v {
        ValueView::Object(es) => match parse_data(es) {
            Err(e) => Err(e),
            Ok(schema_data) => match parse_kind(es) {
                Err(e) => Err(e),
                Ok(kind) => Ok(SchemaView { schema_data, schema_kind: Box::new(kind) }),
            },
        },
        _ => Err(failure(ErrorKind::StructuralMismatch)),
    }
}

/// A schema or a reference is read from an object: as a reference where
/// the object has the reference keyword, which must then hold a text, and
/// as a schema where it has not.
pub open spec fn parse_ref(v: ValueView) -> Result<SchemaRefView, ParseErrorView>
    decreases v, 0nat, 1nat,
{
    match v {
        ValueView::Object(es) => match get(es, Key::Ref) {
            Some(ValueView::String(reference)) => Ok(ReferenceOrView::Reference { reference }),
            Some(_) => Err(failure_at(ErrorKind::MalformedScalar, Key::Ref)),
            None => match parse_schema(v) {
                Ok(s) => Ok(ReferenceOrView::Item(s)),
                Err(e) => Err(e),
            },
        },
        _ => Err(failure(ErrorKind::StructuralMismatch)),
    }
}

/// The first `n` members of a composition, each read as a schema or a
/// reference: all of them, or the failure of the first that cannot be
/// read.
pub open spec fn parse_refs(items: Seq<ValueView>, n: nat) -> Result<
    Seq<SchemaRefView>,
    ParseErrorView,
>
    decreases items, n, 0nat,
{
    if n == 0 || n > items.len() {
        Ok(Seq::empty())
    } else {
        match parse_refs(items, (n - 1) as nat) {
            Err(e) => Err(e),
            Ok(acc) => match parse_ref(items[n - 1]) {
                Ok(r) => Ok(acc.push(r)),
                Err(e) => Err(under_index(e, (n - 1) as nat)),
            },
        }
    }
}

/// The members of the composition under the keyword `k`, which must hold
/// an array.
pub open spec fn refs_field(es: EntriesView, k: Key) -> Result<Seq<SchemaRefView>, ParseErrorView>
    decreases es, 0nat, 0nat,
{
    match get(es, k) {
        Some(ValueView::Array(items)) => {
            proof {
                lemma_lookup_decreases(es, key_name(k));
            }
            match parse_refs(items, items.len()) {
                Ok(rs) => Ok(rs),
                Err(e) => Err(under_key(e, k)),
            }
        },
        _ => Err(failure_at(ErrorKind::StructuralMismatch, k)),
    }
}

/// The first `n` entries of a properties object, each read as a schema or
/// a reference and mapped from its name in turn: a name that comes again
/// keeps its place and takes the later value.
pub open spec fn parse_props(ps: EntriesView, n: nat) -> Result<PropertiesView, ParseErrorView>
    decreases ps, n, 0nat,
{
    if n == 0 || n > ps.len() {
        Ok(Seq::empty())
    } else {
        match parse_props(ps, (n - 1) as nat) {
            Err(e) => Err(e),
            Ok(acc) => match parse_ref(ps[n - 1].1) {
                Ok(r) => Ok(with_entry(acc, ps[n - 1].0, r)),
                Err(e) => Err(under(e, PathSegmentView::Key(ps[n - 1].0))),
            },
        }
    }
}

/// The properties under their keyword: none where it is absent, else those
/// of the object that it must hold.
pub open spec fn properties_field(es: EntriesView) -> Result<PropertiesView, ParseErrorView>
    decreases es, 0nat, 0nat,
{
    match get(es, Key::Properties) {
        None => Ok(Seq::empty()),
        Some(ValueView::Null) => Ok(Seq::empty()),
        Some(ValueView::Object(ps)) => {
            proof {
                lemma_lookup_decreases(es, key_name(Key::Properties));
            }
            match parse_props(ps, ps.len()) {
                Ok(p) => Ok(p),
                Err(e) => Err(under_key(e, Key::Properties)),
            }
        },
        Some(_) => Err(failure_at(ErrorKind::StructuralMismatch, Key::Properties)),
    }
}

/// The schema of the items of an array, where there is one.
pub open spec fn items_field(es: EntriesView) -> Result<Option<SchemaRefView>, ParseErrorView>
    decreases es, 0nat, 0nat,
{
    match get(es, Key::Items) {
        None => Ok(None),
        Some(ValueView::Null) => Ok(None),
        Some(v) => {
            proof {
                lemma_lookup_decreases(es, key_name(Key::Items));
            }
            match parse_ref(v) {
                Ok(r) => Ok(Some(r)),
                Err(e) => Err(under_key(e, Key::Items)),
            }
        },
    }
}

/// Whether further properties are allowed: a boolean says so plainly,
/// anything else is read as the schema that they must match.
pub open spec fn additional_field(es: EntriesView) -> Result<
    Option<AdditionalPropertiesView>,
    ParseErrorView,
>
    decreases es, 0nat, 0nat,
{
    match get(es, Key::AdditionalProperties) {
        None => Ok(None),
        Some(ValueView::Null) => Ok(None),
        Some(ValueView::Bool(b)) => Ok(Some(AdditionalPropertiesView::Any(b))),
        Some(v) => {
            proof {
                lemma_lookup_decreases(es, key_name(Key::AdditionalProperties));
            }
            match parse_ref(v) {
                Ok(r) => Ok(Some(AdditionalPropertiesView::Schema(r))),
                Err(e) => Err(under_key(e, Key::AdditionalProperties)),
            }
        },
    }
}

/// An object shape, read from the entries of a node.
pub open spec fn parse_object(es: EntriesView) -> Result<ObjectTypeView, ParseErrorView>
    decreases es, 1nat, 0nat,
{
    let properties = properties_field(es);
    let required = list_field(es, Key::Required, text_reader());
    let additional_properties = additional_field(es);
    let min_properties = count_field(es, Key::MinProperties);
    let max_properties = count_field(es, Key::MaxProperties);
    if properties is Err {
        Err(properties->Err_0)
    } else if required is Err {
        Err(required->Err_0)
    } else if additional_properties is Err {
        Err(additional_properties->Err_0)
    } else if min_properties is Err {
        Err(min_properties->Err_0)
    } else if max_properties is Err {
        Err(max_properties->Err_0)
    } else {
        Ok(
            ObjectTypeView {
                properties: properties->Ok_0,
                required: required->Ok_0,
                additional_properties: additional_properties->Ok_0,
                min_properties: min_properties->Ok_0,
                max_properties: max_properties->Ok_0,
            },
        )
    }
}

/// An array shape, read from the entries of a node.
pub open spec fn parse_array(es: EntriesView) -> Result<ArrayTypeView, ParseErrorView>
    decreases es, 1nat, 0nat,
{
    let items = items_field(es);
    let min_items = count_field(es, Key::MinItems);
    let max_items = count_field(es, Key::MaxItems);
    let unique_items = flag_field(es, Key::UniqueItems);
    if items is Err {
        Err(items->Err_0)
    } else if min_items is Err {
        Err(min_items->Err_0)
    } else if max_items is Err {
        Err(max_items->Err_0)
    } else if unique_items is Err {
        Err(unique_items->Err_0)
    } else {
        Ok(
            ArrayTypeView {
                items: items->Ok_0,
                min_items: min_items->Ok_0,
                max_items: max_items->Ok_0,
                unique_items: unique_items->Ok_0,
            },
        )
    }
}

/// The open shape: any of its fields, none required. Its exclusive bounds
/// are flags and its format is a free text.
pub open spec fn parse_any(es: EntriesView) -> Result<AnySchemaView, ParseErrorView>
    decreases es, 1nat, 0nat,
{
    let pattern = text_field(es, Key::Pattern);
    let multiple_of = number_field(es, Key::MultipleOf);
    let exclusive_minimum = bool_field(es, Key::ExclusiveMinimum);
    let exclusive_maximum = bool_field(es, Key::ExclusiveMaximum);
    let minimum = number_field(es, Key::Minimum);
    let maximum = number_field(es, Key::Maximum);
    let properties = properties_field(es);
    let required = list_field(es, Key::Required, text_reader());
    let additional_properties = additional_field(es);
    let min_properties = count_field(es, Key::MinProperties);
    let max_properties = count_field(es, Key::MaxProperties);
    let items = items_field(es);
    let min_items = count_field(es, Key::MinItems);
    let max_items = count_field(es, Key::MaxItems);
    let unique_items = bool_field(es, Key::UniqueItems);
    let format = text_field(es, Key::Format);
    if pattern is Err {
        Err(pattern->Err_0)
    } else if multiple_of is Err {
        Err(multiple_of->Err_0)
    } else if exclusive_minimum is Err {
        Err(exclusive_minimum->Err_0)
    } else if exclusive_maximum is Err {
        Err(exclusive_maximum->Err_0)
    } else if minimum is Err {
        Err(minimum->Err_0)
    } else if maximum is Err {
        Err(maximum->Err_0)
    } else if properties is Err {
        Err(properties->Err_0)
    } else if required is Err {
        Err(required->Err_0)
    } else if additional_properties is Err {
        Err(additional_properties->Err_0)
    } else if min_properties is Err {
        Err(min_properties->Err_0)
    } else if max_properties is Err {
        Err(max_properties->Err_0)
    } else if items is Err {
        Err(items->Err_0)
    } else if min_items is Err {
        Err(min_items->Err_0)
    } else if max_items is Err {
        Err(max_items->Err_0)
    } else if unique_items is Err {
        Err(unique_items->Err_0)
    } else if format is Err {
        Err(format->Err_0)
    } else {
        Ok(
            AnySchemaView {
                pattern: pattern->Ok_0,
                multiple_of: multiple_of->Ok_0,
                exclusive_minimum: exclusive_minimum->Ok_0,
                exclusive_maximum: exclusive_maximum->Ok_0,
                minimum: minimum->Ok_0,
                maximum: maximum->Ok_0,
                properties: properties->Ok_0,
                required: required->Ok_0,
                additional_properties: additional_properties->Ok_0,
                min_properties: min_properties->Ok_0,
                max_properties: max_properties->Ok_0,
                items: items->Ok_0,
                min_items: min_items->Ok_0,
                max_items: max_items->Ok_0,
                unique_items: unique_items->Ok_0,
                format: format->Ok_0,
            },
        )
    }
}

/// The primitive shape named by `tag`, read from the entries of a node.
pub open spec fn parse_type(es: EntriesView, tag: TypeTag) -> Result<TypeView, ParseErrorView>
    decreases es, 2nat, 0nat,
{
    match tag {
        TypeTag::String => match parse_string(es) {
            Ok(t) => Ok(TypeView::String(t)),
            Err(e) => Err(e),
        },
        TypeTag::Number => match parse_number(es) {
            Ok(t) => Ok(TypeView::Number(t)),
            Err(e) => Err(e),
        },
        TypeTag::Integer => match parse_integer(es) {
            Ok(t) => Ok(TypeView::Integer(t)),
            Err(e) => Err(e),
        },
        TypeTag::Object => match parse_object(es) {
            Ok(t) => Ok(TypeView::Object(t)),
            Err(e) => Err(e),
        },
        TypeTag::Array => match parse_array(es) {
            Ok(t) => Ok(TypeView::Array(t)),
            Err(e) => Err(e),
        },
        TypeTag::Boolean => Ok(TypeView::Boolean),
    }
}

/// The shape of a node, decided by its keywords in a fixed order: a `type`
/// that names a primitive shape, then `oneOf`, `allOf`, `anyOf`, and the
/// open shape where none of them is there.
pub open spec fn parse_kind(es: EntriesView) -> Result<SchemaKindView, ParseErrorView>
    decreases es, 3nat, 0nat,
{
    match type_tag(es) {
        Some(tag) => match parse_type(es, tag) {
            Ok(t) => Ok(SchemaKindView::Type(t)),
            Err(e) => Err(e),
        },
        None => if get(es, Key::OneOf) is Some {
            match refs_field(es, Key::OneOf) {
                Ok(one_of) => Ok(SchemaKindView::OneOf { one_of }),
                Err(e) => Err(e),
            }
        } else if get(es, Key::AllOf) is Some {
            match refs_field(es, Key::AllOf) {
                Ok(all_of) => Ok(SchemaKindView::AllOf { all_of }),
                Err(e) => Err(e),
            }
        } else if get(es, Key::AnyOf) is Some {
            match refs_field(es, Key::AnyOf) {
                Ok(any_of) => Ok(SchemaKindView::AnyOf { any_of }),
                Err(e) => Err(e),
            }
        } else {
            match parse_any(es) {
                Ok(a) => Ok(SchemaKindView::Any(a)),
                Err(e) => Err(e),
            }
        },
    }
}

/// A failure among the first `m` items is the failure of any longer
/// prefix.
pub proof fn lemma_list_failure<T>(
    items: Seq<ValueView>,
    m: nat,
    n: nat,
    item: spec_fn(ValueView) -> Option<T>,
)
    requires
        m <= n,
        list_of(items, m, item) is Err,
    ensures
        list_of(items, n, item) == list_of(items, m, item),
    decreases n,
{
    if m < n {
        lemma_list_failure(items, m, (n - 1) as nat, item);
    }
}

/// A failure among the first `m` members is the failure of any longer
/// prefix.
pub proof fn lemma_refs_failure(items: Seq<ValueView>, m: nat, n: nat)
    requires
        m <= n <= items.len(),
        parse_refs(items, m) is Err,
    ensures
        parse_refs(items, n) == parse_refs(items, m),
    decreases n,
{
    if m < n {
        lemma_refs_failure(items, m, (n - 1) as nat);
    }
}

/// A failure among the first `m` properties is the failure of any longer
/// prefix.
pub proof fn lemma_props_failure(ps: EntriesView, m: nat, n: nat)
    requires
        m <= n <= ps.len(),
        parse_props(ps, m) is Err,
    ensures
        parse_props(ps, n) == parse_props(ps, m),
    decreases n,
{
    if m < n {
        lemma_props_failure(ps, m, (n - 1) as nat);
    }
}

} // verus!
