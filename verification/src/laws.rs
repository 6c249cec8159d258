//! Laws that relate writing a schema to reading it back.

use vstd::prelude::*;
use crate::decode::{
    flag_field, int_field, additional_field, bool_field, count_field, docs_field, format_field,
    int_reader, items_field, list_field, list_of, number_field, number_reader, parse_any,
    parse_array, parse_data, parse_docs, parse_integer, parse_kind, parse_number, parse_object,
    parse_props, parse_ref, parse_refs, parse_schema, parse_string, parse_type, properties_field,
    refs_field, tag_of, text_field, text_or_null_reader, text_reader, type_tag, TypeTag,
};
use crate::encode::{
    flag_value, int_value, additional_value, bool_value, count_value, docs_entries, docs_value,
    format_value, int_number, ints_value, items_value, number_value, numbers_value,
    properties_value, put_data, put_kind, ref_value, refs_value, schema_value, text_opts_value,
    text_value, texts_value, type_text,
};
use crate::error::ParseErrorView;
use crate::fields::{
    any_slot, array_slot, data_key, data_slot, integer_slot, kind_slot, lemma_get_node,
    number_slot, object_slot, string_slot, type_slot,
};
use crate::keys::{get, key_name, lemma_get_empty, lemma_get_put, put, Key};
use crate::model::{
    additional_wf, any_wf, format_wf, items_wf, kind_wf, object_wf, properties_wf, ref_wf, refs_wf,
    schema_wf, type_wf, AdditionalPropertiesView, AnySchemaView, ArrayTypeView,
    ExternalDocumentationView, IntegerTypeView, NumberTypeView, ObjectTypeView, PropertiesView,
    SchemaDataView, SchemaKindView, SchemaRefView, SchemaView, StringTypeView, TypeView,
};
use crate::properties::{distinct_names, position, with_entry};
use crate::reference::ReferenceOrView;
use crate::value::{EntriesView, Number, ValueView};
use crate::variant_or::{filled, lemma_value_read_back, KnownVariant, VariantOrUnknownOrEmptyView};

verus! {

/// Whether `q` is a keyword of a shape's own fields.
pub open spec fn shape_key(q: Key) -> bool {
    !data_key(q) && q != Key::Type
}

/// The name of the primitive shape `t`.
pub open spec fn tag_for(t: TypeView) -> TypeTag {
    match t {
        TypeView::String(_) => TypeTag::String,
        TypeView::Number(_) => TypeTag::Number,
        TypeView::Integer(_) => TypeTag::Integer,
        TypeView::Object(_) => TypeTag::Object,
        TypeView::Array(_) => TypeTag::Array,
        TypeView::Boolean => TypeTag::Boolean,
    }
}

/// The text written for a primitive shape is read as its name.
pub proof fn lemma_tag_kept(t: TypeView)
    ensures
        tag_of(type_text(t)) == Some(tag_for(t)),
{
    reveal_strlit("string");
    reveal_strlit("number");
    reveal_strlit("integer");
    reveal_strlit("object");
    reveal_strlit("array");
    reveal_strlit("boolean");
    assert("string"@.len() == 6 && "number"@.len() == 6 && "object"@.len() == 6);
    assert("integer"@.len() == 7 && "boolean"@.len() == 7 && "array"@.len() == 5);
    assert("string"@[0] == 's' && "number"@[0] == 'n' && "object"@[0] == 'o');
    assert("integer"@[0] == 'i' && "boolean"@[0] == 'b');
}

/// An optional boolean is read back from what is written for it.
pub proof fn lemma_bool_kept(es: EntriesView, k: Key, o: Option<bool>)
    requires
        get(es, k) == bool_value(o),
    ensures
        bool_field(es, k) == Ok::<Option<bool>, ParseErrorView>(o),
{
}

/// An optional text is read back from what is written for it.
pub proof fn lemma_text_kept(es: EntriesView, k: Key, o: Option<Seq<char>>)
    requires
        get(es, k) == text_value(o),
    ensures
        text_field(es, k) == Ok::<Option<Seq<char>>, ParseErrorView>(o),
{
}

/// An optional count is read back from what is written for it.
pub proof fn lemma_count_kept(es: EntriesView, k: Key, o: Option<usize>)
    requires
        get(es, k) == count_value(o),
    ensures
        count_field(es, k) == Ok::<Option<usize>, ParseErrorView>(o),
{
}

/// An optional signed integer is read back from what is written for it.
pub proof fn lemma_int_field_kept(es: EntriesView, k: Key, o: Option<i64>)
    requires
        get(es, k) == int_value(o),
    ensures
        int_field(es, k) == Ok::<Option<i64>, ParseErrorView>(o),
{
}

/// A flag is read back from what is written for it.
pub proof fn lemma_flag_kept(es: EntriesView, k: Key, b: bool)
    requires
        get(es, k) == flag_value(b),
    ensures
        flag_field(es, k) == Ok::<bool, ParseErrorView>(b),
{
}

/// An optional number is read back from what is written for it.
pub proof fn lemma_number_field_kept(es: EntriesView, k: Key, o: Option<Number>)
    requires
        get(es, k) == number_value(o),
    ensures
        number_field(es, k) == Ok::<Option<Number>, ParseErrorView>(o),
{
}

/// A list whose every member is read back from the value written for it
/// is read back whole.
pub proof fn lemma_list_kept<T>(
    s: Seq<T>,
    items: Seq<ValueView>,
    item: spec_fn(ValueView) -> Option<T>,
    n: nat,
)
    requires
        items.len() == s.len(),
        n <= s.len(),
        forall|i: int| 0 <= i < s.len() ==> item(#[trigger] items[i]) == Some(s[i]),
    ensures
        list_of(items, n, item) == Ok::<Seq<T>, ParseErrorView>(s.take(n as int)),
    decreases n,
{
    if n == 0 {
        assert(s.take(0) =~= Seq::empty());
    } else {
        lemma_list_kept(s, items, item, (n - 1) as nat);
        assert(s.take(n as int) =~= s.take(n - 1).push(s[n - 1]));
    }
}

/// A list of texts is read back from what is written for it.
pub proof fn lemma_texts_kept(es: EntriesView, k: Key, s: Seq<Seq<char>>)
    requires
        get(es, k) == texts_value(s),
    ensures
        list_field(es, k, text_reader()) == Ok::<Seq<Seq<char>>, ParseErrorView>(s),
{
    if s.len() == 0 {
        assert(s =~= Seq::empty());
    } else {
        let items = texts_value(s)->Some_0->Array_0;
        lemma_list_kept(s, items, text_reader(), s.len());
        assert(s.take(s.len() as int) =~= s);
    }
}

/// A string enumeration is read back from what is written for it.
pub proof fn lemma_text_opts_kept(es: EntriesView, k: Key, s: Seq<Option<Seq<char>>>)
    requires
        get(es, k) == text_opts_value(s),
    ensures
        list_field(es, k, text_or_null_reader()) == Ok::<Seq<Option<Seq<char>>>, ParseErrorView>(
            s,
        ),
{
    if s.len() == 0 {
        assert(s =~= Seq::empty());
    } else {
        let items = text_opts_value(s)->Some_0->Array_0;
        lemma_list_kept(s, items, text_or_null_reader(), s.len());
        assert(s.take(s.len() as int) =~= s);
    }
}

/// A number enumeration is read back from what is written for it.
pub proof fn lemma_numbers_kept(es: EntriesView, k: Key, s: Seq<Number>)
    requires
        get(es, k) == numbers_value(s),
    ensures
        list_field(es, k, number_reader()) == Ok::<Seq<Number>, ParseErrorView>(s),
{
    if s.len() == 0 {
        assert(s =~= Seq::empty());
    } else {
        let items = numbers_value(s)->Some_0->Array_0;
        lemma_list_kept(s, items, number_reader(), s.len());
        assert(s.take(s.len() as int) =~= s);
    }
}

/// An integer enumeration is read back from what is written for it.
pub proof fn lemma_ints_kept(es: EntriesView, k: Key, s: Seq<i64>)
    requires
        get(es, k) == ints_value(s),
    ensures
        list_field(es, k, int_reader()) == Ok::<Seq<i64>, ParseErrorView>(s),
{
    if s.len() == 0 {
        assert(s =~= Seq::empty());
    } else {
        let items = ints_value(s)->Some_0->Array_0;
        lemma_list_kept(s, items, int_reader(), s.len());
        assert(s.take(s.len() as int) =~= s);
    }
}

/// A well-formed format is read back from what is written for it.
pub proof fn lemma_format_kept<T: KnownVariant>(
    es: EntriesView,
    k: Key,
    f: VariantOrUnknownOrEmptyView<T>,
)
    requires
        format_wf(f),
        get(es, k) == format_value(f),
    ensures
        format_field::<T>(es, k) == Ok::<VariantOrUnknownOrEmptyView<T>, ParseErrorView>(f),
{
    match filled(f) {
        Some(v) => {
            lemma_value_read_back(v);
        },
        None => {},
    }
}

/// A link is read back from what is written for it.
pub proof fn lemma_docs_kept(es: EntriesView, k: Key, o: Option<ExternalDocumentationView>)
    requires
        get(es, k) == docs_value(o),
    ensures
        docs_field(es, k) == Ok::<Option<ExternalDocumentationView>, ParseErrorView>(o),
{
    if let Some(d) = o {
        let first = put(Seq::empty(), Key::Description, text_value(d.description));
        lemma_get_empty(Key::Description);
        lemma_get_empty(Key::Url);
        lemma_get_put(Seq::empty(), Key::Description, text_value(d.description), Key::Description);
        lemma_get_put(Seq::empty(), Key::Description, text_value(d.description), Key::Url);
        lemma_get_put(first, Key::Url, Some(ValueView::String(d.url)), Key::Description);
        lemma_get_put(first, Key::Url, Some(ValueView::String(d.url)), Key::Url);
        assert(parse_docs(docs_entries(d)) == Ok::<ExternalDocumentationView, ParseErrorView>(d));
    }
}

/// What a node says whatever its shape is read back from entries that
/// hold, under each of its keywords, what it writes there.
#[verifier::rlimit(50)]
pub proof fn lemma_data_kept(es: EntriesView, d: SchemaDataView)
    requires
        forall|q: Key| data_key(q) ==> #[trigger] get(es, q) == data_slot(d, q),
    ensures
        parse_data(es) == Ok::<SchemaDataView, ParseErrorView>(d),
{
    assert(data_key(Key::Nullable) && data_key(Key::ReadOnly) && data_key(Key::WriteOnly));
    assert(data_key(Key::Deprecated) && data_key(Key::ExternalDocs) && data_key(Key::Example));
    assert(data_key(Key::Title) && data_key(Key::Description) && data_key(Key::Discriminator));
    assert(data_key(Key::Default));
    lemma_bool_kept(es, Key::Nullable, d.nullable);
    lemma_bool_kept(es, Key::ReadOnly, d.read_only);
    lemma_bool_kept(es, Key::WriteOnly, d.write_only);
    lemma_bool_kept(es, Key::Deprecated, d.deprecated);
    lemma_docs_kept(es, Key::ExternalDocs, d.external_docs);
    lemma_text_kept(es, Key::Title, d.title);
    lemma_text_kept(es, Key::Description, d.description);
    lemma_text_kept(es, Key::Discriminator, d.discriminator);
}

/// A well-formed string shape is read back from entries that hold, under
/// each of its keywords, what it writes there.
#[verifier::rlimit(50)]
pub proof fn lemma_string_kept(es: EntriesView, t: StringTypeView)
    requires
        format_wf(t.format),
        forall|q: Key| shape_key(q) ==> #[trigger] get(es, q) == string_slot(t, q),
    ensures
        parse_string(es) == Ok::<StringTypeView, ParseErrorView>(t),
{
    assert(shape_key(Key::Format) && shape_key(Key::Pattern) && shape_key(Key::Enum));
    assert(shape_key(Key::MinLength) && shape_key(Key::MaxLength));
    lemma_format_kept(es, Key::Format, t.format);
    lemma_text_kept(es, Key::Pattern, t.pattern);
    lemma_text_opts_kept(es, Key::Enum, t.enumeration);
    lemma_count_kept(es, Key::MinLength, t.min_length);
    lemma_count_kept(es, Key::MaxLength, t.max_length);
}

/// A well-formed number shape is read back from entries that hold, under
/// each of its keywords, what it writes there.
#[verifier::rlimit(50)]
pub proof fn lemma_number_kept(es: EntriesView, t: NumberTypeView)
    requires
        format_wf(t.format),
        forall|q: Key| shape_key(q) ==> #[trigger] get(es, q) == number_slot(t, q),
    ensures
        parse_number(es) == Ok::<NumberTypeView, ParseErrorView>(t),
{
    assert(shape_key(Key::Format) && shape_key(Key::MultipleOf) && shape_key(Key::Enum));
    assert(shape_key(Key::ExclusiveMinimum) && shape_key(Key::ExclusiveMaximum));
    assert(shape_key(Key::Minimum) && shape_key(Key::Maximum));
    lemma_format_kept(es, Key::Format, t.format);
    lemma_number_field_kept(es, Key::MultipleOf, t.multiple_of);
    lemma_number_field_kept(es, Key::ExclusiveMinimum, t.exclusive_minimum);
    lemma_number_field_kept(es, Key::ExclusiveMaximum, t.exclusive_maximum);
    lemma_number_field_kept(es, Key::Minimum, t.minimum);
    lemma_number_field_kept(es, Key::Maximum, t.maximum);
    lemma_numbers_kept(es, Key::Enum, t.enumeration);
}

/// A well-formed integer shape is read back from entries that hold, under
/// each of its keywords, what it writes there.
#[verifier::rlimit(50)]
pub proof fn lemma_integer_kept(es: EntriesView, t: IntegerTypeView)
    requires
        format_wf(t.format),
        forall|q: Key| shape_key(q) ==> #[trigger] get(es, q) == integer_slot(t, q),
    ensures
        parse_integer(es) == Ok::<IntegerTypeView, ParseErrorView>(t),
{
    assert(shape_key(Key::Format) && shape_key(Key::MultipleOf) && shape_key(Key::Enum));
    assert(shape_key(Key::ExclusiveMinimum) && shape_key(Key::ExclusiveMaximum));
    assert(shape_key(Key::Minimum) && shape_key(Key::Maximum));
    lemma_format_kept(es, Key::Format, t.format);
    lemma_int_field_kept(es, Key::MultipleOf, t.multiple_of);
    lemma_int_field_kept(es, Key::ExclusiveMinimum, t.exclusive_minimum);
    lemma_int_field_kept(es, Key::ExclusiveMaximum, t.exclusive_maximum);
    lemma_int_field_kept(es, Key::Minimum, t.minimum);
    lemma_int_field_kept(es, Key::Maximum, t.maximum);
    lemma_ints_kept(es, Key::Enum, t.enumeration);
}

/// The entries written for a map of properties, one for each.
pub open spec fn properties_entries_value(p: PropertiesView) -> EntriesView {
    Seq::new(
        p.len(),
        |i: int|
            if 0 <= i < p.len() {
                (p[i].0, ref_value(p[i].1))
            } else {
                (Seq::empty(), ValueView::Null)
            },
    )
}

/// A name that no entry has is added at the end.
pub proof fn lemma_with_new_entry(p: PropertiesView, name: Seq<char>, r: SchemaRefView)
    requires
        forall|i: int| 0 <= i < p.len() ==> (#[trigger] p[i]).0 != name,
    ensures
        with_entry(p, name, r) == p.push((name, r)),
{
    assert(position(p, name) is None);
}

/// Round trip of a schema node: a well-formed schema is read back from
/// the value written for it.
#[verifier::rlimit(50)]
pub proof fn lemma_schema_kept(s: SchemaView)
    requires
        schema_wf(s),
    ensures
        parse_schema(schema_value(s)) == Ok::<SchemaView, ParseErrorView>(s),
    decreases s, 0nat,
{
    let d = s.schema_data;
    let k = *s.schema_kind;
    let es = put_kind(put_data(Seq::empty(), d), k);
    assert forall|q: Key| data_key(q) implies #[trigger] get(es, q) == data_slot(d, q) by {
        lemma_get_node(d, k, q);
    }
    assert forall|q: Key| !data_key(q) implies #[trigger] get(es, q) == kind_slot(k, q) by {
        lemma_get_node(d, k, q);
    }
    lemma_data_kept(es, d);
    lemma_kind_kept(es, k);
}

impl crate::schema::Schema {
    /// Whether this schema is read back, equal to itself, from the value
    /// written for it. A well-formed schema always is.
    pub fn round_trips(&self) -> (ok: bool)
        ensures
            ok == (parse_schema(schema_value(self@)) == Ok::<SchemaView, ParseErrorView>(self@)),
            schema_wf(self@) ==> ok,
    {
        proof {
            if schema_wf(self@) {
                lemma_schema_kept(self@);
            }
        }
        match crate::schema::Schema::from_value(&self.to_value()) {
            Ok(read) => read == *self,
            Err(_) => false,
        }
    }
}

/// A well-formed schema or reference is read back from the value written
/// for it.
pub proof fn lemma_ref_kept(r: SchemaRefView)
    requires
        ref_wf(r),
    ensures
        parse_ref(ref_value(r)) == Ok::<SchemaRefView, ParseErrorView>(r),
        ref_value(r) is Object,
    decreases r, 1nat,
{
    match r {
        ReferenceOrView::Reference { reference } => {
            let es = seq![(key_name(Key::Ref), ValueView::String(reference))];
            assert(es.last() == (key_name(Key::Ref), ValueView::String(reference)));
            assert(get(es, Key::Ref) == Some(ValueView::String(reference)));
        },
        ReferenceOrView::Item(s) => {
            lemma_get_node(s.schema_data, *s.schema_kind, Key::Ref);
            lemma_schema_kept(s);
        },
    }
}

/// The first `n` of a list of well-formed schemas or references are read
/// back from the values written for them.
pub proof fn lemma_refs_kept(rs: Seq<SchemaRefView>, n: nat)
    requires
        refs_wf(rs),
        n <= rs.len(),
    ensures
        parse_refs(refs_value(rs)->Array_0, n) == Ok::<Seq<SchemaRefView>, ParseErrorView>(
            rs.take(n as int),
        ),
    decreases rs, n,
{
    if n == 0 {
        assert(rs.take(0) =~= Seq::empty());
    } else {
        lemma_refs_kept(rs, (n - 1) as nat);
        lemma_ref_kept(rs[n - 1]);
        assert(rs.take(n as int) =~= rs.take(n - 1).push(rs[n - 1]));
    }
}

/// A composition of well-formed members is read back from entries that
/// hold, under its keyword, what is written for it.
pub proof fn lemma_composition_kept(es: EntriesView, k: Key, rs: Seq<SchemaRefView>)
    requires
        refs_wf(rs),
        get(es, k) == Some(refs_value(rs)),
    ensures
        refs_field(es, k) == Ok::<Seq<SchemaRefView>, ParseErrorView>(rs),
    decreases rs, rs.len() + 1,
{
    lemma_refs_kept(rs, rs.len());
    assert(rs.take(rs.len() as int) =~= rs);
}

/// The first `n` of a map of well-formed properties are read back from
/// the entries written for them.
pub proof fn lemma_props_kept(p: PropertiesView, n: nat)
    requires
        properties_wf(p),
        n <= p.len(),
    ensures
        parse_props(properties_entries_value(p), n) == Ok::<PropertiesView, ParseErrorView>(
            p.take(n as int),
        ),
    decreases p, n,
{
    if n == 0 {
        assert(p.take(0) =~= Seq::empty());
    } else {
        lemma_props_kept(p, (n - 1) as nat);
        assert(decreases_to!(p => p[n - 1]));
        assert(decreases_to!(p[n - 1] => p[n - 1].1));
        lemma_ref_kept(p[n - 1].1);
        let before = p.take(n - 1);
        assert forall|i: int| 0 <= i < before.len() implies (#[trigger] before[i]).0 != p[n
            - 1].0 by {
            assert(before[i] == p[i]);
        }
        lemma_with_new_entry(before, p[n - 1].0, p[n - 1].1);
        assert(p.take(n as int) =~= before.push(p[n - 1]));
    }
}

/// A map of well-formed properties is read back from entries that hold,
/// under its keyword, what is written for it.
pub proof fn lemma_properties_kept(es: EntriesView, p: PropertiesView)
    requires
        properties_wf(p),
        get(es, Key::Properties) == properties_value(p),
    ensures
        properties_field(es) == Ok::<PropertiesView, ParseErrorView>(p),
    decreases p, p.len() + 1,
{
    if p.len() == 0 {
        assert(p =~= Seq::empty());
    } else {
        lemma_props_kept(p, p.len());
        assert(p.take(p.len() as int) =~= p);
        assert(properties_value(p)->Some_0->Object_0 == properties_entries_value(p));
    }
}

/// The schema of an array's items is read back from entries that hold,
/// under its keyword, what is written for it.
pub proof fn lemma_items_kept(es: EntriesView, o: Option<SchemaRefView>)
    requires
        items_wf(o),
        get(es, Key::Items) == items_value(o),
    ensures
        items_field(es) == Ok::<Option<SchemaRefView>, ParseErrorView>(o),
    decreases o, 2nat,
{
    if let Some(r) = o {
        lemma_ref_kept(r);
    }
}

/// What an object says of further properties is read back from entries
/// that hold, under its keyword, what is written for it.
pub proof fn lemma_additional_kept(es: EntriesView, o: Option<AdditionalPropertiesView>)
    requires
        additional_wf(o),
        get(es, Key::AdditionalProperties) == additional_value(o),
    ensures
        additional_field(es) == Ok::<Option<AdditionalPropertiesView>, ParseErrorView>(o),
    decreases o, 2nat,
{
    if let Some(AdditionalPropertiesView::Schema(r)) = o {
        assert(decreases_to!(o => o->Some_0));
        assert(decreases_to!(o->Some_0 => o->Some_0->Schema_0));
        lemma_ref_kept(r);
    }
}

/// A well-formed object shape is read back from entries that hold, under
/// each of its keywords, what it writes there.
#[verifier::rlimit(50)]
pub proof fn lemma_object_kept(es: EntriesView, t: ObjectTypeView)
    requires
        object_wf(t),
        forall|q: Key| shape_key(q) ==> #[trigger] get(es, q) == object_slot(t, q),
    ensures
        parse_object(es) == Ok::<ObjectTypeView, ParseErrorView>(t),
    decreases t, 0nat,
{
    assert(shape_key(Key::Properties) && shape_key(Key::Required));
    assert(shape_key(Key::AdditionalProperties));
    assert(shape_key(Key::MinProperties) && shape_key(Key::MaxProperties));
    assert(decreases_to!(t => t.properties));
    assert(decreases_to!(t => t.additional_properties));
    lemma_properties_kept(es, t.properties);
    lemma_texts_kept(es, Key::Required, t.required);
    lemma_additional_kept(es, t.additional_properties);
    lemma_count_kept(es, Key::MinProperties, t.min_properties);
    lemma_count_kept(es, Key::MaxProperties, t.max_properties);
}

/// A well-formed array shape is read back from entries that hold, under
/// each of its keywords, what it writes there.
#[verifier::rlimit(50)]
pub proof fn lemma_array_kept(es: EntriesView, t: ArrayTypeView)
    requires
        items_wf(t.items),
        forall|q: Key| shape_key(q) ==> #[trigger] get(es, q) == array_slot(t, q),
    ensures
        parse_array(es) == Ok::<ArrayTypeView, ParseErrorView>(t),
    decreases t, 0nat,
{
    assert(shape_key(Key::Items) && shape_key(Key::MinItems) && shape_key(Key::MaxItems));
    assert(shape_key(Key::UniqueItems));
    assert(decreases_to!(t => t.items));
    lemma_items_kept(es, t.items);
    lemma_count_kept(es, Key::MinItems, t.min_items);
    lemma_count_kept(es, Key::MaxItems, t.max_items);
    lemma_flag_kept(es, Key::UniqueItems, t.unique_items);
}

/// A well-formed open shape is read back from entries that hold, under
/// each of its keywords, what it writes there.
#[verifier::rlimit(50)]
pub proof fn lemma_any_kept(es: EntriesView, t: AnySchemaView)
    requires
        any_wf(t),
        forall|q: Key| shape_key(q) ==> #[trigger] get(es, q) == any_slot(t, q),
    ensures
        parse_any(es) == Ok::<AnySchemaView, ParseErrorView>(t),
    decreases t, 0nat,
{
    assert(shape_key(Key::Pattern) && shape_key(Key::MultipleOf));
    assert(shape_key(Key::ExclusiveMinimum) && shape_key(Key::ExclusiveMaximum));
    assert(shape_key(Key::Minimum) && shape_key(Key::Maximum));
    assert(shape_key(Key::Properties) && shape_key(Key::Required));
    assert(shape_key(Key::AdditionalProperties));
    assert(shape_key(Key::MinProperties) && shape_key(Key::MaxProperties));
    assert(shape_key(Key::Items) && shape_key(Key::MinItems) && shape_key(Key::MaxItems));
    assert(shape_key(Key::UniqueItems) && shape_key(Key::Format));
    assert(decreases_to!(t => t.properties));
    assert(decreases_to!(t => t.additional_properties));
    assert(decreases_to!(t => t.items));
    lemma_text_kept(es, Key::Pattern, t.pattern);
    lemma_number_field_kept(es, Key::MultipleOf, t.multiple_of);
    lemma_bool_kept(es, Key::ExclusiveMinimum, t.exclusive_minimum);
    lemma_bool_kept(es, Key::ExclusiveMaximum, t.exclusive_maximum);
    lemma_number_field_kept(es, Key::Minimum, t.minimum);
    lemma_number_field_kept(es, Key::Maximum, t.maximum);
    lemma_properties_kept(es, t.properties);
    lemma_texts_kept(es, Key::Required, t.required);
    lemma_additional_kept(es, t.additional_properties);
    lemma_count_kept(es, Key::MinProperties, t.min_properties);
    lemma_count_kept(es, Key::MaxProperties, t.max_properties);
    lemma_items_kept(es, t.items);
    lemma_count_kept(es, Key::MinItems, t.min_items);
    lemma_count_kept(es, Key::MaxItems, t.max_items);
    lemma_bool_kept(es, Key::UniqueItems, t.unique_items);
    lemma_text_kept(es, Key::Format, t.format);
}

/// A well-formed primitive shape is read back, under its own name, from
/// entries that hold under each keyword what it writes there.
#[verifier::rlimit(50)]
pub proof fn lemma_type_kept(es: EntriesView, t: TypeView)
    requires
        type_wf(t),
        forall|q: Key| !data_key(q) ==> #[trigger] get(es, q) == type_slot(t, q),
    ensures
        type_tag(es) == Some(tag_for(t)),
        parse_type(es, tag_for(t)) == Ok::<TypeView, ParseErrorView>(t),
    decreases t, 1nat,
{
    lemma_tag_kept(t);
    assert(!data_key(Key::Type));
    assert(get(es, Key::Type) == Some(ValueView::String(type_text(t))));
    match t {
        TypeView::String(x) => {
            assert forall|q: Key| shape_key(q) implies #[trigger] get(es, q) == string_slot(
                x,
                q,
            ) by {}
            lemma_string_kept(es, x);
        },
        TypeView::Number(x) => {
            assert forall|q: Key| shape_key(q) implies #[trigger] get(es, q) == number_slot(
                x,
                q,
            ) by {}
            lemma_number_kept(es, x);
        },
        TypeView::Integer(x) => {
            assert forall|q: Key| shape_key(q) implies #[trigger] get(es, q) == integer_slot(
                x,
                q,
            ) by {}
            lemma_integer_kept(es, x);
        },
        TypeView::Object(x) => {
            assert forall|q: Key| shape_key(q) implies #[trigger] get(es, q) == object_slot(
                x,
                q,
            ) by {}
            lemma_object_kept(es, x);
        },
        TypeView::Array(x) => {
            assert forall|q: Key| shape_key(q) implies #[trigger] get(es, q) == array_slot(
                x,
                q,
            ) by {}
            lemma_array_kept(es, x);
        },
        TypeView::Boolean => {},
    }
}

/// A well-formed shape is read back from entries that hold, under each
/// keyword that is not of the node's data, what the shape writes there.
#[verifier::rlimit(50)]
pub proof fn lemma_kind_kept(es: EntriesView, k: SchemaKindView)
    requires
        kind_wf(k),
        forall|q: Key| !data_key(q) ==> #[trigger] get(es, q) == kind_slot(k, q),
    ensures
        parse_kind(es) == Ok::<SchemaKindView, ParseErrorView>(k),
    decreases k, 2nat,
{
    assert(!data_key(Key::Type) && !data_key(Key::OneOf) && !data_key(Key::AllOf));
    assert(!data_key(Key::AnyOf));
    match k {
        SchemaKindView::Type(t) => {
            lemma_type_kept(es, t);
        },
        SchemaKindView::OneOf { one_of } => {
            assert(get(es, Key::Type) is None);
            assert(get(es, Key::OneOf) == Some(refs_value(one_of)));
            lemma_composition_kept(es, Key::OneOf, one_of);
        },
        SchemaKindView::AllOf { all_of } => {
            assert(get(es, Key::Type) is None);
            assert(get(es, Key::OneOf) is None);
            assert(get(es, Key::AllOf) == Some(refs_value(all_of)));
            lemma_composition_kept(es, Key::AllOf, all_of);
        },
        SchemaKindView::AnyOf { any_of } => {
            assert(get(es, Key::Type) is None);
            assert(get(es, Key::OneOf) is None);
            assert(get(es, Key::AllOf) is None);
            assert(get(es, Key::AnyOf) == Some(refs_value(any_of)));
            lemma_composition_kept(es, Key::AnyOf, any_of);
        },
        SchemaKindView::Any(a) => {
            assert(get(es, Key::Type) is None);
            assert(get(es, Key::OneOf) is None);
            assert(get(es, Key::AllOf) is None);
            assert(get(es, Key::AnyOf) is None);
            assert forall|q: Key| shape_key(q) implies #[trigger] get(es, q) == any_slot(a, q) by {}
            lemma_any_kept(es, a);
        },
    }
}

/// Mapping a name in a map of distinct names leaves the names distinct.
pub proof fn lemma_with_entry_distinct(p: PropertiesView, name: Seq<char>, r: SchemaRefView)
    requires
        distinct_names(p),
    ensures
        distinct_names(with_entry(p, name, r)),
        with_entry(p, name, r).len() >= p.len(),
        forall|i: int|
            0 <= i < with_entry(p, name, r).len() ==> (#[trigger] with_entry(p, name, r)[i]).1 == r
                || (i < p.len() && with_entry(p, name, r)[i] == p[i]),
{
    let q = with_entry(p, name, r);
    match position(p, name) {
        Some(at) => {
            assert(0 <= at < p.len() && p[at].0 == name);
            assert forall|i: int, j: int| 0 <= i < j < q.len() implies #[trigger] q[i].0
                != #[trigger] q[j].0 by {
                assert(q[i].0 == p[i].0);
                assert(q[j].0 == p[j].0);
            }
        },
        None => {
            assert forall|i: int, j: int| 0 <= i < j < q.len() implies #[trigger] q[i].0
                != #[trigger] q[j].0 by {
                if j == p.len() {
                    assert(p[i].0 != name);
                } else {
                    assert(q[i].0 == p[i].0);
                    assert(q[j].0 == p[j].0);
                }
            }
        },
    }
}

/// What is read is well formed: a schema read from any value has no
/// unknown format text that stands for a known format, and no property
/// declared twice.
pub proof fn lemma_read_schema_wf(v: ValueView)
    requires
        parse_schema(v) is Ok,
    ensures
        schema_wf(parse_schema(v)->Ok_0),
    decreases v, 0nat, 0nat,
{
    let es = v->Object_0;
    lemma_read_kind_wf(es);
}

/// A schema or reference read from any value is well formed.
pub proof fn lemma_read_ref_wf(v: ValueView)
    requires
        parse_ref(v) is Ok,
    ensures
        ref_wf(parse_ref(v)->Ok_0),
    decreases v, 0nat, 1nat,
{
    if parse_ref(v)->Ok_0 is Item {
        lemma_read_schema_wf(v);
    }
}

/// The members read from the first `n` items of any array are well formed.
pub proof fn lemma_read_refs_wf(items: Seq<ValueView>, n: nat)
    requires
        parse_refs(items, n) is Ok,
    ensures
        refs_wf(parse_refs(items, n)->Ok_0),
    decreases items, n, 0nat,
{
    if n == 0 || n > items.len() {
    } else {
        lemma_read_refs_wf(items, (n - 1) as nat);
        lemma_read_ref_wf(items[n - 1]);
    }
}

/// The properties read from the first `n` entries of any object are well
/// formed.
pub proof fn lemma_read_props_wf(ps: EntriesView, n: nat)
    requires
        parse_props(ps, n) is Ok,
    ensures
        properties_wf(parse_props(ps, n)->Ok_0),
    decreases ps, n, 0nat,
{
    if n == 0 || n > ps.len() {
    } else {
        lemma_read_props_wf(ps, (n - 1) as nat);
        assert(decreases_to!(ps => ps[n - 1]));
        assert(decreases_to!(ps[n - 1] => ps[n - 1].1));
        lemma_read_ref_wf(ps[n - 1].1);
        let before = parse_props(ps, (n - 1) as nat)->Ok_0;
        let r = parse_ref(ps[n - 1].1)->Ok_0;
        lemma_with_entry_distinct(before, ps[n - 1].0, r);
        let after = with_entry(before, ps[n - 1].0, r);
        assert forall|i: int| 0 <= i < after.len() implies ref_wf((#[trigger] after[i]).1) by {
            if after[i].1 != r {
                assert(after[i] == before[i]);
            }
        }
    }
}

/// The members of a composition read from any entries are well formed.
pub proof fn lemma_read_composition_wf(es: EntriesView, k: Key)
    requires
        refs_field(es, k) is Ok,
    ensures
        refs_wf(refs_field(es, k)->Ok_0),
    decreases es, 0nat, 0nat,
{
    let items = get(es, k)->Some_0->Array_0;
    crate::value::lemma_lookup_decreases(es, key_name(k));
    lemma_read_refs_wf(items, items.len());
}

/// The properties read from any entries are well formed.
pub proof fn lemma_read_properties_wf(es: EntriesView)
    requires
        properties_field(es) is Ok,
    ensures
        properties_wf(properties_field(es)->Ok_0),
    decreases es, 0nat, 0nat,
{
    if let Some(ValueView::Object(ps)) = get(es, Key::Properties) {
        crate::value::lemma_lookup_decreases(es, key_name(Key::Properties));
        lemma_read_props_wf(ps, ps.len());
    }
}

/// The item schema read from any entries is well formed.
pub proof fn lemma_read_items_wf(es: EntriesView)
    requires
        items_field(es) is Ok,
    ensures
        items_wf(items_field(es)->Ok_0),
    decreases es, 0nat, 0nat,
{
    if items_field(es)->Ok_0 is Some {
        crate::value::lemma_lookup_decreases(es, key_name(Key::Items));
        lemma_read_ref_wf(get(es, Key::Items)->Some_0);
    }
}

/// What is read from any entries about further properties is well formed.
pub proof fn lemma_read_additional_wf(es: EntriesView)
    requires
        additional_field(es) is Ok,
    ensures
        additional_wf(additional_field(es)->Ok_0),
    decreases es, 0nat, 0nat,
{
    if additional_field(es)->Ok_0 matches Some(AdditionalPropertiesView::Schema(_)) {
        crate::value::lemma_lookup_decreases(es, key_name(Key::AdditionalProperties));
        lemma_read_ref_wf(get(es, Key::AdditionalProperties)->Some_0);
    }
}

/// A format read from any entries is well formed.
pub proof fn lemma_read_format_wf<T: KnownVariant>(es: EntriesView, k: Key)
    requires
        format_field::<T>(es, k) is Ok,
    ensures
        format_wf(format_field::<T>(es, k)->Ok_0),
{
    if let Some(ValueView::String(s)) = get(es, k) {
        crate::variant_or::lemma_text_written_back::<T>(s);
    }
}

/// The shape read from any entries is well formed.
#[verifier::rlimit(50)]
pub proof fn lemma_read_kind_wf(es: EntriesView)
    requires
        parse_kind(es) is Ok,
    ensures
        kind_wf(parse_kind(es)->Ok_0),
    decreases es, 3nat, 0nat,
{
    match type_tag(es) {
        Some(TypeTag::String) => {
            lemma_read_format_wf::<crate::schema::StringFormat>(es, Key::Format);
        },
        Some(TypeTag::Number) => {
            lemma_read_format_wf::<crate::schema::NumberFormat>(es, Key::Format);
        },
        Some(TypeTag::Integer) => {
            lemma_read_format_wf::<crate::schema::IntegerFormat>(es, Key::Format);
        },
        Some(TypeTag::Object) => {
            lemma_read_properties_wf(es);
            lemma_read_additional_wf(es);
        },
        Some(TypeTag::Array) => {
            lemma_read_items_wf(es);
        },
        Some(TypeTag::Boolean) => {},
        None => {
            if get(es, Key::OneOf) is Some {
                lemma_read_composition_wf(es, Key::OneOf);
            } else if get(es, Key::AllOf) is Some {
                lemma_read_composition_wf(es, Key::AllOf);
            } else if get(es, Key::AnyOf) is Some {
                lemma_read_composition_wf(es, Key::AnyOf);
            } else {
                lemma_read_properties_wf(es);
                lemma_read_additional_wf(es);
                lemma_read_items_wf(es);
            }
        },
    }
}

/// The reading of a value is kept by writing: the schema read from any
/// value is read again from the value written for it.
pub proof fn lemma_reading_kept(v: ValueView)
    requires
        parse_schema(v) is Ok,
    ensures
        parse_schema(schema_value(parse_schema(v)->Ok_0)) == parse_schema(v),
{
    lemma_read_schema_wf(v);
    lemma_schema_kept(parse_schema(v)->Ok_0);
}

/// The order in which the keywords decide the shape of a node: a `type`
/// that names a primitive shape comes first and gives that shape, whatever
/// else the node holds; then `oneOf`, `allOf` and `anyOf` in this order;
/// the open shape is what remains.
pub proof fn lemma_shape_order(es: EntriesView)
    requires
        parse_kind(es) is Ok,
    ensures
        match type_tag(es) {
            Some(tag) => parse_kind(es)->Ok_0 is Type && tag_for(parse_kind(es)->Ok_0->Type_0)
                == tag,
            None => if get(es, Key::OneOf) is Some {
                parse_kind(es)->Ok_0 is OneOf
            } else if get(es, Key::AllOf) is Some {
                parse_kind(es)->Ok_0 is AllOf
            } else if get(es, Key::AnyOf) is Some {
                parse_kind(es)->Ok_0 is AnyOf
            } else {
                parse_kind(es)->Ok_0 is Any
            },
        },
{
}

/// Any text under the format keyword is read without failure and written
/// back as it was, whether it stands for a known format or not.
pub proof fn lemma_format_text_kept<T: KnownVariant>(es: EntriesView, k: Key, s: Seq<char>)
    requires
        get(es, k) == Some(ValueView::String(s)),
    ensures
        format_field::<T>(es, k) is Ok,
        format_value(format_field::<T>(es, k)->Ok_0) == Some(ValueView::String(s)),
{
    crate::variant_or::lemma_text_written_back::<T>(s);
}

/// A format that is absent is read as the empty case, and the empty case
/// is written as nothing.
pub proof fn lemma_format_absent<T: KnownVariant>(es: EntriesView, k: Key)
    requires
        get(es, k) is None,
    ensures
        format_field::<T>(es, k) == Ok::<VariantOrUnknownOrEmptyView<T>, ParseErrorView>(
            VariantOrUnknownOrEmptyView::Empty,
        ),
        format_value::<T>(VariantOrUnknownOrEmptyView::Empty) is None,
{
}

/// A string shape read from an object without a format is written as an
/// object without a format.
pub proof fn lemma_format_stays_absent(v: ValueView)
    requires
        v is Object,
        type_tag(v->Object_0) == Some(TypeTag::String),
        get(v->Object_0, Key::Format) is None,
        parse_schema(v) is Ok,
    ensures
        schema_value(parse_schema(v)->Ok_0) is Object,
        get(schema_value(parse_schema(v)->Ok_0)->Object_0, Key::Format) is None,
{
    let s = parse_schema(v)->Ok_0;
    lemma_get_node(s.schema_data, *s.schema_kind, Key::Format);
}

/// The two meanings of an exclusive bound are never taken for one
/// another: a number shape does not read a flag as its bound, and the open
/// shape does not read a number as its flag.
pub proof fn lemma_exclusive_bounds_apart(es: EntriesView, k: Key)
    requires
        k == Key::ExclusiveMinimum || k == Key::ExclusiveMaximum,
    ensures
        get(es, k) is Some && get(es, k)->Some_0 is Bool ==> parse_number(es) is Err,
        get(es, k) is Some && get(es, k)->Some_0 is Number ==> parse_any(es) is Err,
        parse_number(es) is Ok ==> number_value(
            if k == Key::ExclusiveMinimum {
                parse_number(es)->Ok_0.exclusive_minimum
            } else {
                parse_number(es)->Ok_0.exclusive_maximum
            },
        ) == if get(es, k) == Some(ValueView::Null) {
            None
        } else {
            get(es, k)
        },
        parse_any(es) is Ok ==> bool_value(
            if k == Key::ExclusiveMinimum {
                parse_any(es)->Ok_0.exclusive_minimum
            } else {
                parse_any(es)->Ok_0.exclusive_maximum
            },
        ) == if get(es, k) == Some(ValueView::Null) {
            None
        } else {
            get(es, k)
        },
{
}

/// The names of a sequence of named entries, in their order.
pub open spec fn names<T>(entries: Seq<(Seq<char>, T)>) -> Seq<Seq<char>> {
    Seq::new(entries.len(), |i: int| entries[i].0)
}

/// The properties read from the first `n` entries of an object that names
/// none of them twice have the names of these entries, in their order.
pub proof fn lemma_props_order(ps: EntriesView, n: nat)
    requires
        names(ps).no_duplicates(),
        n <= ps.len(),
        parse_props(ps, n) is Ok,
    ensures
        names(parse_props(ps, n)->Ok_0) == names(ps).take(n as int),
    decreases n,
{
    if n == 0 {
        assert(names(parse_props(ps, n)->Ok_0) =~= names(ps).take(0));
    } else {
        lemma_props_order(ps, (n - 1) as nat);
        let before = parse_props(ps, (n - 1) as nat)->Ok_0;
        let r = parse_ref(ps[n - 1].1)->Ok_0;
        assert(names(before).len() == before.len());
        assert(before.len() == n - 1);
        assert forall|i: int| 0 <= i < before.len() implies (#[trigger] before[i]).0 != ps[n
            - 1].0 by {
            assert(names(before)[i] == names(ps).take(n - 1)[i]);
            assert(names(ps)[i] == ps[i].0);
            assert(names(ps)[n - 1] == ps[n - 1].0);
        }
        lemma_with_new_entry(before, ps[n - 1].0, r);
        assert(names(before.push((ps[n - 1].0, r))) =~= names(ps).take(n as int));
    }
}

/// Properties keep the order of their declaration: those read from an
/// object that names none twice have the names of its entries in their
/// order, and the entries written for them have these names in this order
/// again.
pub proof fn lemma_property_order(ps: EntriesView)
    requires
        names(ps).no_duplicates(),
        parse_props(ps, ps.len()) is Ok,
    ensures
        names(parse_props(ps, ps.len())->Ok_0) == names(ps),
        names(properties_entries_value(parse_props(ps, ps.len())->Ok_0)) == names(ps),
{
    lemma_props_order(ps, ps.len());
    assert(names(ps).take(ps.len() as int) =~= names(ps));
    let p = parse_props(ps, ps.len())->Ok_0;
    assert(names(properties_entries_value(p)) =~= names(p));
}

} // verus!
