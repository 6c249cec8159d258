//! Copies of schema trees: every type of the tree can be cloned, and the
//! clone has the model of what was cloned.

use vstd::prelude::*;
use crate::error::{path_view, ParseError, PathSegment};
use crate::laws::lemma_with_new_entry;
use crate::model::{
    additional_opt_view, items_view, lemma_refs_view, refs_view, text_opt_view, text_opts_view,
    texts_view, SchemaKindView,
};
use crate::properties::{named_only_at, Properties};
use crate::reference::ReferenceOr;
use crate::schema::{
    AdditionalProperties, AnySchema, ArrayType, ExternalDocumentation, IntegerType, NumberType,
    ObjectType, Schema, SchemaData, SchemaKind, StringType, Type,
};
use crate::value::{Number, Value};
use crate::variant_or::{VariantOrUnknown, VariantOrUnknownOrEmpty};

verus! {

fn copy_text(o: &Option<String>) -> (c: Option<String>)
    ensures
        text_opt_view(c) == text_opt_view(*o),
{
    match o {
        Some(s) => Some(s.clone()),
        None => None,
    }
}

fn copy_value(o: &Option<Value>) -> (c: Option<Value>)
    ensures
        crate::keys::opt_view(c) == crate::keys::opt_view(*o),
{
    match o {
        Some(v) => Some(v.duplicate()),
        None => None,
    }
}

fn copy_texts(s: &Vec<String>) -> (c: Vec<String>)
    ensures
        texts_view(c@) == texts_view(s@),
{
    let mut out: Vec<String> = Vec::new();
    let mut i: usize = 0;
    while i < s.len()
        invariant
            i <= s.len(),
            out.len() == i,
            forall|j: int| 0 <= j < i ==> out@[j]@ == s@[j]@,
        decreases s.len() - i,
    {
        out.push(s[i].clone());
        i += 1;
    }
    assert(texts_view(out@) =~= texts_view(s@));
    out
}

fn copy_text_opts(s: &Vec<Option<String>>) -> (c: Vec<Option<String>>)
    ensures
        text_opts_view(c@) == text_opts_view(s@),
{
    let mut out: Vec<Option<String>> = Vec::new();
    let mut i: usize = 0;
    while i < s.len()
        invariant
            i <= s.len(),
            out.len() == i,
            forall|j: int| 0 <= j < i ==> text_opt_view(out@[j]) == text_opt_view(s@[j]),
        decreases s.len() - i,
    {
        out.push(copy_text(&s[i]));
        i += 1;
    }
    assert(text_opts_view(out@) =~= text_opts_view(s@));
    out
}

fn copy_numbers(s: &Vec<Number>) -> (c: Vec<Number>)
    ensures
        c@ == s@,
{
    let mut out: Vec<Number> = Vec::new();
    let mut i: usize = 0;
    while i < s.len()
        invariant
            i <= s.len(),
            out.len() == i,
            forall|j: int| 0 <= j < i ==> out@[j] == s@[j],
        decreases s.len() - i,
    {
        out.push(s[i]);
        i += 1;
    }
    assert(out@ =~= s@);
    out
}

fn copy_ints(s: &Vec<i64>) -> (c: Vec<i64>)
    ensures
        c@ == s@,
{
    let mut out: Vec<i64> = Vec::new();
    let mut i: usize = 0;
    while i < s.len()
        invariant
            i <= s.len(),
            out.len() == i,
            forall|j: int| 0 <= j < i ==> out@[j] == s@[j],
        decreases s.len() - i,
    {
        out.push(s[i]);
        i += 1;
    }
    assert(out@ =~= s@);
    out
}

impl<T: Copy> Clone for VariantOrUnknown<T> {
    fn clone(&self) -> (c: Self)
        ensures
            c@ == self@,
    {
        match self {
            VariantOrUnknown::Item(v) => VariantOrUnknown::Item(*v),
            VariantOrUnknown::Unknown(s) => VariantOrUnknown::Unknown(s.clone()),
        }
    }
}

impl<T: Copy> Clone for VariantOrUnknownOrEmpty<T> {
    fn clone(&self) -> (c: Self)
        ensures
            c@ == self@,
    {
        match self {
            VariantOrUnknownOrEmpty::Item(v) => VariantOrUnknownOrEmpty::Item(*v),
            VariantOrUnknownOrEmpty::Unknown(s) => VariantOrUnknownOrEmpty::Unknown(s.clone()),
            VariantOrUnknownOrEmpty::Empty => VariantOrUnknownOrEmpty::Empty,
        }
    }
}

impl Clone for ExternalDocumentation {
    fn clone(&self) -> (c: Self)
        ensures
            c@ == self@,
    {
        ExternalDocumentation { description: copy_text(&self.description), url: self.url.clone() }
    }
}

impl Clone for SchemaData {
    fn clone(&self) -> (c: Self)
        ensures
            c@ == self@,
    {
        let external_docs = match &self.external_docs {
            Some(d) => Some(d.clone()),
            None => None,
        };
        SchemaData {
            nullable: self.nullable,
            read_only: self.read_only,
            write_only: self.write_only,
            deprecated: self.deprecated,
            external_docs,
            example: copy_value(&self.example),
            title: copy_text(&self.title),
            description: copy_text(&self.description),
            discriminator: copy_text(&self.discriminator),
            default: copy_value(&self.default),
        }
    }
}

impl Clone for StringType {
    fn clone(&self) -> (c: Self)
        ensures
            c@ == self@,
    {
        StringType {
            format: self.format.clone(),
            pattern: copy_text(&self.pattern),
            enumeration: copy_text_opts(&self.enumeration),
            min_length: self.min_length,
            max_length: self.max_length,
        }
    }
}

impl Clone for NumberType {
    fn clone(&self) -> (c: Self)
        ensures
            c@ == self@,
    {
        NumberType {
            format: self.format.clone(),
            multiple_of: self.multiple_of,
            exclusive_minimum: self.exclusive_minimum,
            exclusive_maximum: self.exclusive_maximum,
            minimum: self.minimum,
            maximum: self.maximum,
            enumeration: copy_numbers(&self.enumeration),
        }
    }
}

impl Clone for IntegerType {
    fn clone(&self) -> (c: Self)
        ensures
            c@ == self@,
    {
        IntegerType {
            format: self.format.clone(),
            multiple_of: self.multiple_of,
            exclusive_minimum: self.exclusive_minimum,
            exclusive_maximum: self.exclusive_maximum,
            minimum: self.minimum,
            maximum: self.maximum,
            enumeration: copy_ints(&self.enumeration),
        }
    }
}

impl Schema {
    /// A copy of this schema with the same model.
    pub fn duplicate(&self) -> (c: Schema)
        ensures
            c@ == self@,
        decreases self@, 0nat,
    {
        proof {
            assert(decreases_to!(self@ => self@.schema_kind));
            assert(*self@.schema_kind == self.schema_kind@);
        }
        Schema {
            schema_data: self.schema_data.clone(),
            schema_kind: copy_kind(&self.schema_kind),
        }
    }
}

fn copy_kind(k: &SchemaKind) -> (c: SchemaKind)
    ensures
        c@ == k@,
    decreases k@, 3nat,
{
    proof {
        match k@ {
            SchemaKindView::Type(_) => {
                assert(decreases_to!(k@ => k@->Type_0));
            },
            SchemaKindView::OneOf { .. } => {
                assert(decreases_to!(k@ => k@->one_of));
            },
            SchemaKindView::AllOf { .. } => {
                assert(decreases_to!(k@ => k@->all_of));
            },
            SchemaKindView::AnyOf { .. } => {
                assert(decreases_to!(k@ => k@->any_of));
            },
            SchemaKindView::Any(_) => {
                assert(decreases_to!(k@ => k@->Any_0));
            },
        }
    }
    match k {
        SchemaKind::Type(t) => SchemaKind::Type(copy_type(t)),
        SchemaKind::OneOf { one_of } => SchemaKind::OneOf { one_of: copy_refs(one_of) },
        SchemaKind::AllOf { all_of } => SchemaKind::AllOf { all_of: copy_refs(all_of) },
        SchemaKind::AnyOf { any_of } => SchemaKind::AnyOf { any_of: copy_refs(any_of) },
        SchemaKind::Any(a) => SchemaKind::Any(copy_any(a)),
    }
}

fn copy_type(t: &Type) -> (c: Type)
    ensures
        c@ == t@,
    decreases t@, 2nat,
{
    proof {
        if t@ is Object {
            assert(decreases_to!(t@ => t@->Object_0));
        }
        if t@ is Array {
            assert(decreases_to!(t@ => t@->Array_0));
        }
    }
    match t {
        Type::String(x) => Type::String(x.clone()),
        Type::Number(x) => Type::Number(x.clone()),
        Type::Integer(x) => Type::Integer(x.clone()),
        Type::Object(x) => Type::Object(copy_object(x)),
        Type::Array(x) => Type::Array(copy_array(x)),
        Type::Boolean {  } => Type::Boolean {  },
    }
}

fn copy_object(o: &ObjectType) -> (c: ObjectType)
    ensures
        c@ == o@,
    decreases o@, 1nat,
{
    proof {
        assert(decreases_to!(o@ => o@.properties));
        assert(decreases_to!(o@ => o@.additional_properties));
    }
    ObjectType {
        properties: copy_properties(&o.properties),
        required: copy_texts(&o.required),
        additional_properties: copy_additional(&o.additional_properties),
        min_properties: o.min_properties,
        max_properties: o.max_properties,
    }
}

fn copy_array(a: &ArrayType) -> (c: ArrayType)
    ensures
        c@ == a@,
    decreases a@, 1nat,
{
    proof {
        assert(decreases_to!(a@ => a@.items));
    }
    ArrayType {
        items: copy_items(&a.items),
        min_items: a.min_items,
        max_items: a.max_items,
        unique_items: a.unique_items,
    }
}

#[verifier::rlimit(50)]
fn copy_any(a: &AnySchema) -> (c: AnySchema)
    ensures
        c@ == a@,
    decreases a@, 1nat,
{
    proof {
        assert(decreases_to!(a@ => a@.properties));
        assert(decreases_to!(a@ => a@.additional_properties));
        assert(decreases_to!(a@ => a@.items));
    }
    AnySchema {
        pattern: copy_text(&a.pattern),
        multiple_of: a.multiple_of,
        exclusive_minimum: a.exclusive_minimum,
        exclusive_maximum: a.exclusive_maximum,
        minimum: a.minimum,
        maximum: a.maximum,
        properties: copy_properties(&a.properties),
        required: copy_texts(&a.required),
        additional_properties: copy_additional(&a.additional_properties),
        min_properties: a.min_properties,
        max_properties: a.max_properties,
        items: copy_items(&a.items),
        min_items: a.min_items,
        max_items: a.max_items,
        unique_items: a.unique_items,
        format: copy_text(&a.format),
    }
}

fn copy_ref(r: &ReferenceOr<Schema>) -> (c: ReferenceOr<Schema>)
    ensures
        c@ == r@,
    decreases r@, 1nat,
{
    proof {
        if r@ is Item {
            assert(decreases_to!(r@ => r@->Item_0));
        }
    }
    match r {
        ReferenceOr::Reference { reference } => ReferenceOr::Reference {
            reference: reference.clone(),
        },
        ReferenceOr::Item(s) => ReferenceOr::Item(s.duplicate()),
    }
}

fn copy_boxed_ref(r: &ReferenceOr<Box<Schema>>) -> (c: ReferenceOr<Box<Schema>>)
    ensures
        c@ == r@,
    decreases r@, 1nat,
{
    proof {
        if r@ is Item {
            assert(decreases_to!(r@ => r@->Item_0));
        }
    }
    match r {
        ReferenceOr::Reference { reference } => ReferenceOr::Reference {
            reference: reference.clone(),
        },
        ReferenceOr::Item(s) => ReferenceOr::Item(Box::new(s.duplicate())),
    }
}

fn copy_refs(rs: &Vec<ReferenceOr<Schema>>) -> (c: Vec<ReferenceOr<Schema>>)
    ensures
        refs_view(c) == refs_view(*rs),
    decreases refs_view(*rs), 0nat,
{
    let ghost all = refs_view(*rs);
    proof {
        lemma_refs_view(*rs);
    }
    let mut out: Vec<ReferenceOr<Schema>> = Vec::new();
    let mut i: usize = 0;
    while i < rs.len()
        invariant
            i <= rs.len(),
            out.len() == i,
            all == refs_view(*rs),
            all.len() == rs@.len(),
            forall|j: int| 0 <= j < rs@.len() ==> #[trigger] all[j] == rs@[j]@,
            forall|j: int| 0 <= j < i ==> out@[j]@ == all[j],
        decreases rs.len() - i,
    {
        proof {
            assert(decreases_to!(all => all[i as int]));
        }
        out.push(copy_ref(&rs[i]));
        i += 1;
    }
    proof {
        lemma_refs_view(out);
        assert(refs_view(out) =~= all);
    }
    out
}

fn copy_properties(p: &Properties) -> (c: Properties)
    ensures
        c@ == p@,
    decreases p@, 0nat,
{
    let n = p.len();
    let mut out = Properties::new();
    assert(out@ =~= p@.take(0));
    let mut i: usize = 0;
    while i < n
        invariant
            i <= n,
            n == p@.len(),
            out@ == p@.take(i as int),
        decreases n - i,
    {
        match p.get_index(i) {
            Some((name, r)) => {
                proof {
                    assert(decreases_to!(p@ => p@[i as int]));
                    assert(decreases_to!(p@[i as int] => p@[i as int].1));
                    assert(decreases_to!(p@ => r@));
                    assert(named_only_at(p@, name@, i as int));
                    assert forall|j: int| 0 <= j < out@.len() implies (#[trigger] out@[j]).0
                        != name@ by {
                        assert(out@[j] == p@[j]);
                    }
                    lemma_with_new_entry(out@, name@, r@);
                    assert(p@.take(i + 1) =~= p@.take(i as int).push(p@[i as int]));
                }
                out.insert(name.clone(), copy_boxed_ref(r));
            },
            None => {},
        }
        i += 1;
    }
    assert(p@.take(n as int) =~= p@);
    out
}

fn copy_items(o: &Option<ReferenceOr<Box<Schema>>>) -> (c: Option<ReferenceOr<Box<Schema>>>)
    ensures
        items_view(c) == items_view(*o),
    decreases items_view(*o), 0nat,
{
    proof {
        let v = items_view(*o);
        if v is Some {
            assert(decreases_to!(v => v->Some_0));
        }
    }
    match o {
        Some(r) => Some(copy_boxed_ref(r)),
        None => None,
    }
}

fn copy_additional(o: &Option<AdditionalProperties>) -> (c: Option<AdditionalProperties>)
    ensures
        additional_opt_view(c) == additional_opt_view(*o),
    decreases additional_opt_view(*o), 0nat,
{
    match o {
        Some(AdditionalProperties::Any(b)) => Some(AdditionalProperties::Any(*b)),
        Some(AdditionalProperties::Schema(r)) => {
            proof {
                let v = additional_opt_view(*o);
                assert(decreases_to!(v => v->Some_0));
                assert(decreases_to!(v->Some_0 => v->Some_0->Schema_0));
            }
            Some(AdditionalProperties::Schema(Box::new(copy_ref(r))))
        },
        None => None,
    }
}

impl Clone for Schema {
    fn clone(&self) -> (c: Self)
        ensures
            c@ == self@,
    {
        self.duplicate()
    }
}

impl Clone for SchemaKind {
    fn clone(&self) -> (c: Self)
        ensures
            c@ == self@,
    {
        copy_kind(self)
    }
}

impl Clone for Type {
    fn clone(&self) -> (c: Self)
        ensures
            c@ == self@,
    {
        copy_type(self)
    }
}

impl Clone for ObjectType {
    fn clone(&self) -> (c: Self)
        ensures
            c@ == self@,
    {
        copy_object(self)
    }
}

impl Clone for ArrayType {
    fn clone(&self) -> (c: Self)
        ensures
            c@ == self@,
    {
        copy_array(self)
    }
}

impl Clone for AnySchema {
    fn clone(&self) -> (c: Self)
        ensures
            c@ == self@,
    {
        copy_any(self)
    }
}

impl Clone for AdditionalProperties {
    fn clone(&self) -> (c: Self)
        ensures
            c@ == self@,
    {
        match self {
            AdditionalProperties::Any(b) => AdditionalProperties::Any(*b),
            AdditionalProperties::Schema(r) => AdditionalProperties::Schema(
                Box::new(copy_ref(r)),
            ),
        }
    }
}

impl Clone for Properties {
    fn clone(&self) -> (c: Self)
        ensures
            c@ == self@,
    {
        copy_properties(self)
    }
}

impl Clone for ReferenceOr<Schema> {
    fn clone(&self) -> (c: Self)
        ensures
            c@ == self@,
    {
        copy_ref(self)
    }
}

impl Clone for ReferenceOr<Box<Schema>> {
    fn clone(&self) -> (c: Self)
        ensures
            c@ == self@,
    {
        copy_boxed_ref(self)
    }
}

impl Clone for PathSegment {
    fn clone(&self) -> (c: Self)
        ensures
            c@ == self@,
    {
        match self {
            PathSegment::Key(s) => PathSegment::Key(s.clone()),
            PathSegment::Index(i) => PathSegment::Index(*i),
        }
    }
}

impl Clone for ParseError {
    fn clone(&self) -> (c: Self)
        ensures
            c@ == self@,
    {
        let mut path: Vec<PathSegment> = Vec::new();
        let mut i: usize = 0;
        while i < self.path.len()
            invariant
                i <= self.path.len(),
                path.len() == i,
                forall|j: int| 0 <= j < i ==> path@[j]@ == self.path@[j]@,
            decreases self.path.len() - i,
        {
            path.push(self.path[i].clone());
            i += 1;
        }
        assert(path_view(path@) =~= path_view(self.path@));
        ParseError { kind: self.kind, path }
    }
}

} // verus!
