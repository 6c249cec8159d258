//! The mathematical model of a schema tree: each type of the tree with
//! sequences of characters for its texts and sequences for its lists.

use vstd::prelude::*;
use crate::keys::opt_view;
use crate::properties::distinct_names;
use crate::reference::{ReferenceOr, ReferenceOrView};
use crate::schema::{
    AdditionalProperties, AnySchema, ArrayType, ExternalDocumentation, IntegerFormat, IntegerType,
    NumberFormat, NumberType, ObjectType, Schema, SchemaData, SchemaKind, StringFormat, StringType,
    Type,
};
use crate::value::{Number, ValueView};
use crate::variant_or::{canonical, filled, KnownVariant, VariantOrUnknownOrEmptyView};

verus! {

/// The model of an [`ExternalDocumentation`].
pub struct ExternalDocumentationView {
    pub description: Option<Seq<char>>,
    pub url: Seq<char>,
}

/// The model of a [`SchemaData`].
pub struct SchemaDataView {
    pub nullable: Option<bool>,
    pub read_only: Option<bool>,
    pub write_only: Option<bool>,
    pub deprecated: Option<bool>,
    pub external_docs: Option<ExternalDocumentationView>,
    pub example: Option<ValueView>,
    pub title: Option<Seq<char>>,
    pub description: Option<Seq<char>>,
    pub discriminator: Option<Seq<char>>,
    pub default: Option<ValueView>,
}

/// The model of a [`Schema`].
pub struct SchemaView {
    pub schema_data: SchemaDataView,
    pub schema_kind: Box<SchemaKindView>,
}

/// A schema or a reference to one.
pub type SchemaRefView = ReferenceOrView<SchemaView>;

/// The properties of an object shape, in their order.
pub type PropertiesView = Seq<(Seq<char>, SchemaRefView)>;

/// The model of a [`SchemaKind`].
pub enum SchemaKindView {
    Type(TypeView),
    OneOf { one_of: Seq<SchemaRefView> },
    AllOf { all_of: Seq<SchemaRefView> },
    AnyOf { any_of: Seq<SchemaRefView> },
    Any(AnySchemaView),
}

/// The model of a [`Type`].
pub enum TypeView {
    String(StringTypeView),
    Number(NumberTypeView),
    Integer(IntegerTypeView),
    Object(ObjectTypeView),
    Array(ArrayTypeView),
    Boolean,
}

/// The model of an [`AdditionalProperties`].
pub enum AdditionalPropertiesView {
    Any(bool),
    Schema(SchemaRefView),
}

/// The model of an [`AnySchema`].
pub struct AnySchemaView {
    pub pattern: Option<Seq<char>>,
    pub multiple_of: Option<Number>,
    pub exclusive_minimum: Option<bool>,
    pub exclusive_maximum: Option<bool>,
    pub minimum: Option<Number>,
    pub maximum: Option<Number>,
    pub properties: PropertiesView,
    pub required: Seq<Seq<char>>,
    pub additional_properties: Option<AdditionalPropertiesView>,
    pub min_properties: Option<usize>,
    pub max_properties: Option<usize>,
    pub items: Option<SchemaRefView>,
    pub min_items: Option<usize>,
    pub max_items: Option<usize>,
    pub unique_items: Option<bool>,
    pub format: Option<Seq<char>>,
}

/// The model of a [`StringType`].
pub struct StringTypeView {
    pub format: VariantOrUnknownOrEmptyView<StringFormat>,
    pub pattern: Option<Seq<char>>,
    pub enumeration: Seq<Option<Seq<char>>>,
    pub min_length: Option<usize>,
    pub max_length: Option<usize>,
}

/// The model of a [`NumberType`].
pub struct NumberTypeView {
    pub format: VariantOrUnknownOrEmptyView<NumberFormat>,
    pub multiple_of: Option<Number>,
    pub exclusive_minimum: Option<Number>,
    pub exclusive_maximum: Option<Number>,
    pub minimum: Option<Number>,
    pub maximum: Option<Number>,
    pub enumeration: Seq<Number>,
}

/// The model of an [`IntegerType`].
pub struct IntegerTypeView {
    pub format: VariantOrUnknownOrEmptyView<IntegerFormat>,
    pub multiple_of: Option<i64>,
    pub exclusive_minimum: Option<i64>,
    pub exclusive_maximum: Option<i64>,
    pub minimum: Option<i64>,
    pub maximum: Option<i64>,
    pub enumeration: Seq<i64>,
}

/// The model of an [`ObjectType`].
pub struct ObjectTypeView {
    pub properties: PropertiesView,
    pub required: Seq<Seq<char>>,
    pub additional_properties: Option<AdditionalPropertiesView>,
    pub min_properties: Option<usize>,
    pub max_properties: Option<usize>,
}

/// The model of an [`ArrayType`].
pub struct ArrayTypeView {
    pub items: Option<SchemaRefView>,
    pub min_items: Option<usize>,
    pub max_items: Option<usize>,
    pub unique_items: bool,
}

/// The model of an optional text.
pub open spec fn text_opt_view(o: Option<String>) -> Option<Seq<char>> {
    match o {
        Some(s) => Some(s@),
        None => None,
    }
}

/// The models of a sequence of texts, one for one.
pub open spec fn texts_view(v: Seq<String>) -> Seq<Seq<char>> {
    Seq::new(v.len(), |i: int| v[i]@)
}

/// The models of a sequence of optional texts, one for one.
pub open spec fn text_opts_view(v: Seq<Option<String>>) -> Seq<Option<Seq<char>>> {
    Seq::new(v.len(), |i: int| text_opt_view(v[i]))
}

impl View for ExternalDocumentation {
    type V = ExternalDocumentationView;

    open spec fn view(&self) -> ExternalDocumentationView {
        ExternalDocumentationView {
            description: text_opt_view(self.description),
            url: self.url@,
        }
    }
}

/// The model of an optional link.
pub open spec fn docs_opt_view(o: Option<ExternalDocumentation>) -> Option<
    ExternalDocumentationView,
> {
    match o {
        Some(d) => Some(d@),
        None => None,
    }
}

impl View for SchemaData {
    type V = SchemaDataView;

    open spec fn view(&self) -> SchemaDataView {
        SchemaDataView {
            nullable: self.nullable,
            read_only: self.read_only,
            write_only: self.write_only,
            deprecated: self.deprecated,
            external_docs: docs_opt_view(self.external_docs),
            example: opt_view(self.example),
            title: text_opt_view(self.title),
            description: text_opt_view(self.description),
            discriminator: text_opt_view(self.discriminator),
            default: opt_view(self.default),
        }
    }
}

impl View for StringType {
    type V = StringTypeView;

    open spec fn view(&self) -> StringTypeView {
        StringTypeView {
            format: self.format@,
            pattern: text_opt_view(self.pattern),
            enumeration: text_opts_view(self.enumeration@),
            min_length: self.min_length,
            max_length: self.max_length,
        }
    }
}

impl View for NumberType {
    type V = NumberTypeView;

    open spec fn view(&self) -> NumberTypeView {
        NumberTypeView {
            format: self.format@,
            multiple_of: self.multiple_of,
            exclusive_minimum: self.exclusive_minimum,
            exclusive_maximum: self.exclusive_maximum,
            minimum: self.minimum,
            maximum: self.maximum,
            enumeration: self.enumeration@,
        }
    }
}

impl View for IntegerType {
    type V = IntegerTypeView;

    open spec fn view(&self) -> IntegerTypeView {
        IntegerTypeView {
            format: self.format@,
            multiple_of: self.multiple_of,
            exclusive_minimum: self.exclusive_minimum,
            exclusive_maximum: self.exclusive_maximum,
            minimum: self.minimum,
            maximum: self.maximum,
            enumeration: self.enumeration@,
        }
    }
}

/// The model of a schema.
pub open spec fn schema_view(s: Schema) -> SchemaView
    decreases s,
{
    SchemaView { schema_data: s.schema_data@, schema_kind: Box::new(kind_view(s.schema_kind)) }
}

/// The model of a shape.
pub open spec fn kind_view(k: SchemaKind) -> SchemaKindView
    decreases k,
{
    match k {
        SchemaKind::Type(t) => SchemaKindView::Type(type_view(t)),
        SchemaKind::OneOf { one_of } => SchemaKindView::OneOf { one_of: refs_view(one_of) },
        SchemaKind::AllOf { all_of } => SchemaKindView::AllOf { all_of: refs_view(all_of) },
        SchemaKind::AnyOf { any_of } => SchemaKindView::AnyOf { any_of: refs_view(any_of) },
        SchemaKind::Any(a) => SchemaKindView::Any(any_view(a)),
    }
}

/// The models of a list of schemas or references, one for one.
pub open spec fn refs_view(v: Vec<ReferenceOr<Schema>>) -> Seq<SchemaRefView>
    decreases v,
{
    Seq::new(
        v@.len(),
        |i: int|
            if 0 <= i < v@.len() {
                ref_view(v@[i])
            } else {
                ReferenceOrView::Reference { reference: Seq::empty() }
            },
    )
}

/// The model of a schema or a reference.
pub open spec fn ref_view(r: ReferenceOr<Schema>) -> SchemaRefView
    decreases r,
{
    match r {
        ReferenceOr::Reference { reference } => ReferenceOrView::Reference {
            reference: reference@,
        },
        ReferenceOr::Item(s) => ReferenceOrView::Item(schema_view(s)),
    }
}

/// The model of a boxed schema or a reference: that of the schema in the
/// box.
pub open spec fn boxed_ref_view(r: ReferenceOr<Box<Schema>>) -> SchemaRefView
    decreases r,
{
    match r {
        ReferenceOr::Reference { reference } => ReferenceOrView::Reference {
            reference: reference@,
        },
        ReferenceOr::Item(s) => ReferenceOrView::Item(schema_view(*s)),
    }
}

/// The model of the optional schema of an array's items.
pub open spec fn items_view(o: Option<ReferenceOr<Box<Schema>>>) -> Option<SchemaRefView>
    decreases o,
{
    match o {
        Some(r) => Some(boxed_ref_view(r)),
        None => None,
    }
}

/// The model of what an object says of further properties.
pub open spec fn additional_view(a: AdditionalProperties) -> AdditionalPropertiesView
    decreases a,
{
    match a {
        AdditionalProperties::Any(b) => AdditionalPropertiesView::Any(b),
        AdditionalProperties::Schema(r) => AdditionalPropertiesView::Schema(ref_view(*r)),
    }
}

/// The model of what an object may say of further properties.
pub open spec fn additional_opt_view(o: Option<AdditionalProperties>) -> Option<
    AdditionalPropertiesView,
>
    decreases o,
{
    match o {
        Some(a) => Some(additional_view(a)),
        None => None,
    }
}

/// The model of a primitive shape.
pub open spec fn type_view(t: Type) -> TypeView
    decreases t,
{
    match t {
        Type::String(s) => TypeView::String(s@),
        Type::Number(n) => TypeView::Number(n@),
        Type::Integer(n) => TypeView::Integer(n@),
        Type::Object(o) => TypeView::Object(object_view(o)),
        Type::Array(a) => TypeView::Array(array_view(a)),
        Type::Boolean {  } => TypeView::Boolean,
    }
}

/// The model of an object shape.
pub open spec fn object_view(o: ObjectType) -> ObjectTypeView
    decreases o,
{
    ObjectTypeView {
        properties: o.properties@,
        required: texts_view(o.required@),
        additional_properties: additional_opt_view(o.additional_properties),
        min_properties: o.min_properties,
        max_properties: o.max_properties,
    }
}

/// The model of an array shape.
pub open spec fn array_view(a: ArrayType) -> ArrayTypeView
    decreases a,
{
    ArrayTypeView {
        items: items_view(a.items),
        min_items: a.min_items,
        max_items: a.max_items,
        unique_items: a.unique_items,
    }
}

/// The model of the open shape.
pub open spec fn any_view(a: AnySchema) -> AnySchemaView
    decreases a,
{
    AnySchemaView {
        pattern: text_opt_view(a.pattern),
        multiple_of: a.multiple_of,
        exclusive_minimum: a.exclusive_minimum,
        exclusive_maximum: a.exclusive_maximum,
        minimum: a.minimum,
        maximum: a.maximum,
        properties: a.properties@,
        required: texts_view(a.required@),
        additional_properties: additional_opt_view(a.additional_properties),
        min_properties: a.min_properties,
        max_properties: a.max_properties,
        items: items_view(a.items),
        min_items: a.min_items,
        max_items: a.max_items,
        unique_items: a.unique_items,
        format: text_opt_view(a.format),
    }
}

impl View for Schema {
    type V = SchemaView;

    open spec fn view(&self) -> SchemaView {
        schema_view(*self)
    }
}

impl View for SchemaKind {
    type V = SchemaKindView;

    open spec fn view(&self) -> SchemaKindView {
        kind_view(*self)
    }
}

impl View for Type {
    type V = TypeView;

    open spec fn view(&self) -> TypeView {
        type_view(*self)
    }
}

impl View for AdditionalProperties {
    type V = AdditionalPropertiesView;

    open spec fn view(&self) -> AdditionalPropertiesView {
        additional_view(*self)
    }
}

impl View for AnySchema {
    type V = AnySchemaView;

    open spec fn view(&self) -> AnySchemaView {
        any_view(*self)
    }
}

impl View for ObjectType {
    type V = ObjectTypeView;

    open spec fn view(&self) -> ObjectTypeView {
        object_view(*self)
    }
}

impl View for ArrayType {
    type V = ArrayTypeView;

    open spec fn view(&self) -> ArrayTypeView {
        array_view(*self)
    }
}

impl View for ReferenceOr<Schema> {
    type V = SchemaRefView;

    open spec fn view(&self) -> SchemaRefView {
        ref_view(*self)
    }
}

impl View for ReferenceOr<Box<Schema>> {
    type V = SchemaRefView;

    open spec fn view(&self) -> SchemaRefView {
        boxed_ref_view(*self)
    }
}

/// The model of a list of schemas is the list of their models.
pub proof fn lemma_refs_view(v: Vec<ReferenceOr<Schema>>)
    ensures
        refs_view(v).len() == v@.len(),
        forall|i: int| 0 <= i < v@.len() ==> #[trigger] refs_view(v)[i] == v@[i]@,
{
}

/// A format is well formed when its unknown text stands for no known
/// format.
pub open spec fn format_wf<T: KnownVariant>(f: VariantOrUnknownOrEmptyView<T>) -> bool {
    match filled(f) {
        Some(v) => canonical(v),
        None => true,
    }
}

/// A schema tree is well formed when, all through it, no unknown format
/// text stands for a known format and no object declares a property twice.
pub open spec fn schema_wf(s: SchemaView) -> bool
    decreases s,
{
    kind_wf(*s.schema_kind)
}

/// Whether a shape is well formed.
pub open spec fn kind_wf(k: SchemaKindView) -> bool
    decreases k,
{
    match k {
        SchemaKindView::Type(t) => type_wf(t),
        SchemaKindView::OneOf { one_of } => refs_wf(one_of),
        SchemaKindView::AllOf { all_of } => refs_wf(all_of),
        SchemaKindView::AnyOf { any_of } => refs_wf(any_of),
        SchemaKindView::Any(a) => any_wf(a),
    }
}

/// Whether a primitive shape is well formed.
pub open spec fn type_wf(t: TypeView) -> bool
    decreases t,
{
    match t {
        TypeView::String(x) => format_wf(x.format),
        TypeView::Number(x) => format_wf(x.format),
        TypeView::Integer(x) => format_wf(x.format),
        TypeView::Object(x) => object_wf(x),
        TypeView::Array(x) => items_wf(x.items),
        TypeView::Boolean => true,
    }
}

/// Whether an object shape is well formed.
pub open spec fn object_wf(o: ObjectTypeView) -> bool
    decreases o,
{
    properties_wf(o.properties) && additional_wf(o.additional_properties)
}

/// Whether the open shape is well formed.
pub open spec fn any_wf(a: AnySchemaView) -> bool
    decreases a,
{
    properties_wf(a.properties) && additional_wf(a.additional_properties) && items_wf(a.items)
}

/// Whether a schema or reference is well formed; a reference always is.
pub open spec fn ref_wf(r: SchemaRefView) -> bool
    decreases r,
{
    match r {
        ReferenceOrView::Reference { .. } => true,
        ReferenceOrView::Item(s) => schema_wf(s),
    }
}

/// Whether every member of a list is well formed.
pub open spec fn refs_wf(rs: Seq<SchemaRefView>) -> bool
    decreases rs,
{
    forall|i: int| 0 <= i < rs.len() ==> ref_wf(#[trigger] rs[i])
}

/// Whether a map of properties names none twice and holds well-formed
/// schemas only.
pub open spec fn properties_wf(p: PropertiesView) -> bool
    decreases p,
{
    &&& distinct_names(p)
    &&& forall|i: int| 0 <= i < p.len() ==> ref_wf((#[trigger] p[i]).1)
}

/// Whether the schema of an array's items, if there is one, is well formed.
pub open spec fn items_wf(o: Option<SchemaRefView>) -> bool
    decreases o,
{
    match o {
        Some(r) => ref_wf(r),
        None => true,
    }
}

/// Whether the schema for further properties, if there is one, is well
/// formed.
pub open spec fn additional_wf(o: Option<AdditionalPropertiesView>) -> bool
    decreases o,
{
    match o {
        Some(AdditionalPropertiesView::Schema(r)) => ref_wf(r),
        _ => true,
    }
}

} // verus!
