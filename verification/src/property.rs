//! Ready-made property schemas for values of common types.

use vstd::prelude::*;
use vek::vec::repr_c::vec2::Vec2;
use crate::model::{
    ArrayTypeView, ObjectTypeView, PropertiesView, SchemaDataView, SchemaKindView, SchemaRefView,
    SchemaView, TypeView,
};
use crate::model::{kind_wf, properties_wf, ref_wf};
use crate::properties::{distinct_names, position, Properties};
use crate::reference::{ReferenceOr, ReferenceOrView};
use crate::schema::{
    empty_array, empty_data, empty_integer, empty_number, empty_object, empty_string, ArrayType,
    IntegerFormat, IntegerType, NumberFormat, NumberType, ObjectType, Schema, SchemaData,
    SchemaKind, StringFormat, StringType, Type,
};
use crate::text::owned;
use crate::value::{Value, ValueView};
use crate::variant_or::{VariantOrUnknownOrEmpty, VariantOrUnknownOrEmptyView};

verus! {

/// The two-component vector of an outside crate, declared so that the
/// property schema of such a vector can be stated for it. Nothing is
/// claimed of its contents.
#[verifier::external_type_specification]
#[verifier::external_body]
#[verifier::reject_recursive_types(T)]
pub struct ExVec2<T>(Vec2<T>);

/// The shape of an integer of the given format, without other constraint.
pub open spec fn integer_kind(format: IntegerFormat) -> SchemaKindView {
    SchemaKindView::Type(
        TypeView::Integer(
            crate::model::IntegerTypeView {
                format: VariantOrUnknownOrEmptyView::Item(format),
                ..empty_integer()
            },
        ),
    )
}

/// The shape of a number of the given format, without other constraint.
pub open spec fn number_kind(format: NumberFormat) -> SchemaKindView {
    SchemaKindView::Type(
        TypeView::Number(
            crate::model::NumberTypeView {
                format: VariantOrUnknownOrEmptyView::Item(format),
                ..empty_number()
            },
        ),
    )
}

/// The shape of a string of the given format, without other constraint.
pub open spec fn string_kind(format: StringFormat) -> SchemaKindView {
    SchemaKindView::Type(
        TypeView::String(
            crate::model::StringTypeView {
                format: VariantOrUnknownOrEmptyView::Item(format),
                ..empty_string()
            },
        ),
    )
}

/// The schema of the given shape that says nothing else.
pub open spec fn plain(kind: SchemaKindView) -> SchemaView {
    SchemaView { schema_data: empty_data(), schema_kind: Box::new(kind) }
}

/// The example that a text gives: the text itself, and none where it is
/// empty.
pub open spec fn example_of(ex_value: Seq<char>) -> Option<ValueView> {
    if ex_value.len() > 0 {
        Some(ValueView::String(ex_value))
    } else {
        None
    }
}

/// The property of the given shape, with a description, and with an
/// example where there is one.
pub open spec fn described(
    kind: SchemaKindView,
    example: Option<ValueView>,
    description: Seq<char>,
) -> SchemaRefView {
    ReferenceOrView::Item(
        SchemaView {
            schema_data: SchemaDataView {
                description: Some(description),
                example,
                ..empty_data()
            },
            schema_kind: Box::new(kind),
        },
    )
}

/// The shape of an array whose items have the given shape.
pub open spec fn list_kind(item: SchemaKindView) -> SchemaKindView {
    SchemaKindView::Type(
        TypeView::Array(
            ArrayTypeView { items: Some(ReferenceOrView::Item(plain(item))), ..empty_array() },
        ),
    )
}

/// The shape of an object with the two properties `x` and `y`, in this
/// order, both of the given shape.
pub open spec fn pair_kind(item: SchemaKindView) -> SchemaKindView {
    SchemaKindView::Type(
        TypeView::Object(
            ObjectTypeView {
                properties: seq![
                    ("x"@, ReferenceOrView::Item(plain(item))),
                    ("y"@, ReferenceOrView::Item(plain(item))),
                ],
                ..empty_object()
            },
        ),
    )
}

/// The ready-made shapes are well formed, and so is a property described
/// over a well-formed shape.
pub proof fn lemma_built_wf(item: SchemaKindView)
    ensures
        forall|f: IntegerFormat| kind_wf(#[trigger] integer_kind(f)),
        forall|f: NumberFormat| kind_wf(#[trigger] number_kind(f)),
        forall|f: StringFormat| kind_wf(#[trigger] string_kind(f)),
        kind_wf(item) ==> kind_wf(list_kind(item)) && kind_wf(pair_kind(item)),
        forall|example: Option<ValueView>, description: Seq<char>|
            kind_wf(item) ==> ref_wf(#[trigger] described(item, example, description)),
{
    reveal_strlit("x");
    reveal_strlit("y");
    assert("x"@[0] == 'x' && "y"@[0] == 'y');
    if kind_wf(item) {
        let p = pair_kind(item)->Type_0->Object_0.properties;
        assert(p[0].0 == "x"@ && p[1].0 == "y"@);
        assert(distinct_names(p));
        assert(properties_wf(p));
    }
}

fn integer_shape(format: IntegerFormat) -> (k: SchemaKind)
    ensures
        k@ == integer_kind(format),
{
    let t = IntegerType {
        format: VariantOrUnknownOrEmpty::Item(format),
        enumeration: Vec::new(),
        ..Default::default()
    };
    SchemaKind::Type(Type::Integer(t))
}

fn number_shape(format: NumberFormat) -> (k: SchemaKind)
    ensures
        k@ == number_kind(format),
{
    let t = NumberType {
        format: VariantOrUnknownOrEmpty::Item(format),
        enumeration: Vec::new(),
        ..Default::default()
    };
    SchemaKind::Type(Type::Number(t))
}

fn string_shape(format: StringFormat) -> (k: SchemaKind)
    ensures
        k@ == string_kind(format),
{
    let t = StringType { format: VariantOrUnknownOrEmpty::Item(format), ..Default::default() };
    SchemaKind::Type(Type::String(t))
}

fn plain_schema(kind: SchemaKind) -> (s: Schema)
    ensures
        s@ == plain(kind@),
{
    Schema { schema_data: SchemaData { ..Default::default() }, schema_kind: kind }
}

fn list_shape(item: SchemaKind) -> (k: SchemaKind)
    ensures
        k@ == list_kind(item@),
{
    let items = ReferenceOr::Item(Box::new(plain_schema(item)));
    assert(items@ == ReferenceOrView::Item(plain(item@)));
    let t = ArrayType { items: Some(items), ..Default::default() };
    assert(t@ == ArrayTypeView { items: Some(ReferenceOrView::Item(plain(item@))), ..empty_array() });
    let k = SchemaKind::Type(Type::Array(t));
    assert(k@ == SchemaKindView::Type(TypeView::Array(t@)));
    k
}

fn pair_shape(x: SchemaKind, y: SchemaKind) -> (k: SchemaKind)
    requires
        x@ == y@,
    ensures
        k@ == pair_kind(x@),
{
    let mut properties = Properties::new();
    let ghost item = plain(x@);
    let ghost none: PropertiesView = Seq::empty();
    assert(properties@ =~= none);
    properties.insert(owned("x"), ReferenceOr::Item(Box::new(plain_schema(x))));
    proof {
        assert(position(none, "x"@) is None);
        assert(properties@ =~= seq![("x"@, ReferenceOrView::Item(item))]);
    }
    let ghost one = properties@;
    properties.insert(owned("y"), ReferenceOr::Item(Box::new(plain_schema(y))));
    proof {
        reveal_strlit("x");
        reveal_strlit("y");
        assert("x"@[0] == 'x' && "y"@[0] == 'y');
        assert(one[0].0 == "x"@);
        assert(position(one, "y"@) is None);
        assert(properties@ =~= seq![
            ("x"@, ReferenceOrView::Item(item)),
            ("y"@, ReferenceOrView::Item(item)),
        ]);
    }
    let t = ObjectType { properties, ..Default::default() };
    assert(t@.required =~= Seq::empty());
    SchemaKind::Type(Type::Object(t))
}

fn example_from(ex_value: String) -> (e: Option<Value>)
    ensures
        crate::keys::opt_view(e) == example_of(ex_value@),
{
    if ex_value.as_str().is_empty() {
        None
    } else {
        Some(Value::String(ex_value))
    }
}

fn describe(kind: SchemaKind, example: Option<Value>, description: String) -> (r: ReferenceOr<
    Box<Schema>,
>)
    ensures
        r@ == described(kind@, crate::keys::opt_view(example), description@),
{
    let schema = Schema {
        schema_data: SchemaData { description: Some(description), example, ..Default::default() },
        schema_kind: kind,
    };
    ReferenceOr::Item(Box::new(schema))
}

/// The property schema of an integer of the given format: described by
/// `description`, with `ex_value` as its example unless that is empty.
pub fn integer_property(format: IntegerFormat, ex_value: String, description: String) -> (r:
    ReferenceOr<Box<Schema>>)
    ensures
        r@ == described(integer_kind(format), example_of(ex_value@), description@),
        ref_wf(r@),
{
    proof {
        lemma_built_wf(integer_kind(format));
    }
    describe(integer_shape(format), example_from(ex_value), description)
}

/// The property schema of a number of the given format: described by
/// `description`, with `ex_value` as its example unless that is empty.
pub fn number_property(format: NumberFormat, ex_value: String, description: String) -> (r:
    ReferenceOr<Box<Schema>>)
    ensures
        r@ == described(number_kind(format), example_of(ex_value@), description@),
        ref_wf(r@),
{
    proof {
        lemma_built_wf(number_kind(format));
    }
    describe(number_shape(format), example_from(ex_value), description)
}

/// The property schema of a string of the given format: described by
/// `description`, with `ex_value` as its example unless that is empty.
pub fn string_property(format: StringFormat, ex_value: String, description: String) -> (r:
    ReferenceOr<Box<Schema>>)
    ensures
        r@ == described(string_kind(format), example_of(ex_value@), description@),
        ref_wf(r@),
{
    proof {
        lemma_built_wf(string_kind(format));
    }
    describe(string_shape(format), example_from(ex_value), description)
}

/// The property schema of a pair of numbers of the given format, named
/// `x` and `y`.
pub fn number_pair_property(format: NumberFormat, description: String) -> (r: ReferenceOr<
    Box<Schema>,
>)
    ensures
        r@ == described(pair_kind(number_kind(format)), None, description@),
        ref_wf(r@),
{
    proof {
        lemma_built_wf(number_kind(format));
        lemma_built_wf(pair_kind(number_kind(format)));
    }
    describe(pair_shape(number_shape(format), number_shape(format)), None, description)
}

/// The property schema of a pair of integers of the given format, named
/// `x` and `y`.
pub fn integer_pair_property(format: IntegerFormat, description: String) -> (r: ReferenceOr<
    Box<Schema>,
>)
    ensures
        r@ == described(pair_kind(integer_kind(format)), None, description@),
        ref_wf(r@),
{
    proof {
        lemma_built_wf(integer_kind(format));
        lemma_built_wf(pair_kind(integer_kind(format)));
    }
    describe(pair_shape(integer_shape(format), integer_shape(format)), None, description)
}

/// A type whose values have a ready-made property schema.
#[allow(non_snake_case)]
pub trait XValue {
    /// The property schema for values of this type, with the given
    /// description. Whether `ex_value` becomes its example is up to the
    /// type; `typ` is not looked at.
    fn CreatePropertie(typ: String, ex_value: String, description: String) -> (r: ReferenceOr<
        Box<Schema>,
    >)
        ensures
            r@ is Item,
            r@->Item_0.schema_data.description == Some(description@),
    ;
}

#[allow(non_snake_case)]
impl XValue for Vec<String> {
    fn CreatePropertie(_typ: String, _ex_value: String, description: String) -> (r: ReferenceOr<
        Box<Schema>,
    >)
        ensures
            r@ == described(list_kind(string_kind(StringFormat::Byte)), None, description@),
    {
        describe(list_shape(string_shape(StringFormat::Byte)), None, description)
    }
}

#[allow(non_snake_case)]
impl XValue for Vec<i32> {
    fn CreatePropertie(_typ: String, _ex_value: String, description: String) -> (r: ReferenceOr<
        Box<Schema>,
    >)
        ensures
            r@ == described(list_kind(integer_kind(IntegerFormat::Int32)), None, description@),
    {
        describe(list_shape(integer_shape(IntegerFormat::Int32)), None, description)
    }
}

#[allow(non_snake_case)]
impl XValue for Vec<u32> {
    fn CreatePropertie(_typ: String, _ex_value: String, description: String) -> (r: ReferenceOr<
        Box<Schema>,
    >)
        ensures
            r@ == described(list_kind(integer_kind(IntegerFormat::UInt32)), None, description@),
    {
        describe(list_shape(integer_shape(IntegerFormat::UInt32)), None, description)
    }
}

#[allow(non_snake_case)]
impl XValue for Vec2<i32> {
    fn CreatePropertie(_typ: String, _ex_value: String, description: String) -> (r: ReferenceOr<
        Box<Schema>,
    >)
        ensures
            r@ == described(pair_kind(integer_kind(IntegerFormat::Int32)), None, description@),
    {
        integer_pair_property(IntegerFormat::Int32, description)
    }
}

#[allow(non_snake_case)]
impl XValue for Vec2<u32> {
    fn CreatePropertie(_typ: String, _ex_value: String, description: String) -> (r: ReferenceOr<
        Box<Schema>,
    >)
        ensures
            r@ == described(pair_kind(integer_kind(IntegerFormat::UInt32)), None, description@),
    {
        integer_pair_property(IntegerFormat::UInt32, description)
    }
}

#[allow(non_snake_case)]
impl XValue for i32 {
    fn CreatePropertie(_typ: String, ex_value: String, description: String) -> (r: ReferenceOr<
        Box<Schema>,
    >)
        ensures
            r@ == described(
                integer_kind(IntegerFormat::Int32),
                example_of(ex_value@),
                description@,
            ),
    {
        integer_property(IntegerFormat::Int32, ex_value, description)
    }
}

#[allow(non_snake_case)]
impl XValue for u32 {
    fn CreatePropertie(_typ: String, ex_value: String, description: String) -> (r: ReferenceOr<
        Box<Schema>,
    >)
        ensures
            r@ == described(
                integer_kind(IntegerFormat::UInt32),
                example_of(ex_value@),
                description@,
            ),
    {
        integer_property(IntegerFormat::UInt32, ex_value, description)
    }
}

#[allow(non_snake_case)]
impl XValue for i64 {
    fn CreatePropertie(_typ: String, ex_value: String, description: String) -> (r: ReferenceOr<
        Box<Schema>,
    >)
        ensures
            r@ == described(
                integer_kind(IntegerFormat::Int64),
                example_of(ex_value@),
                description@,
            ),
    {
        integer_property(IntegerFormat::Int64, ex_value, description)
    }
}

#[allow(non_snake_case)]
impl XValue for String {
    fn CreatePropertie(_typ: String, ex_value: String, description: String) -> (r: ReferenceOr<
        Box<Schema>,
    >)
        ensures
            r@ == described(string_kind(StringFormat::Byte), example_of(ex_value@), description@),
    {
        string_property(StringFormat::Byte, ex_value, description)
    }
}

impl ObjectType {
    /// The property schema of a byte string with `v_str` as its example,
    /// empty or not, and with the given description.
    #[allow(non_snake_case)]
    pub fn CreatePropertie2(v_str: String, description: String) -> (r: ReferenceOr<Box<Schema>>)
        ensures
            r@ == described(
                string_kind(StringFormat::Byte),
                Some(ValueView::String(v_str@)),
                description@,
            ),
    {
        describe(string_shape(StringFormat::Byte), Some(Value::String(v_str)), description)
    }
}

} // verus!
