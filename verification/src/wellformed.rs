//! Testing whether a schema tree is well formed, which is what reading
//! back what was written asks of it.

use vstd::prelude::*;
use crate::model::{
    additional_opt_view, additional_wf, any_wf, format_wf, items_view, items_wf, kind_wf,
    lemma_refs_view, object_wf, properties_wf, ref_wf, refs_view, refs_wf, schema_wf, type_wf,
    SchemaKindView,
};
use crate::properties::Properties;
use crate::reference::ReferenceOr;
use crate::schema::{AdditionalProperties, AnySchema, ObjectType, Schema, SchemaKind, Type};
use crate::variant_or::{KnownVariant, VariantOrUnknownOrEmpty};

verus! {

/// Whether the unknown text of a format, if it has one, stands for no
/// known format.
pub fn format_is_well_formed<T: KnownVariant>(f: &VariantOrUnknownOrEmpty<T>) -> (b: bool)
    ensures
        b == format_wf(f@),
{
    match f {
        VariantOrUnknownOrEmpty::Unknown(s) => T::from_text(s.as_str()).is_none(),
        _ => true,
    }
}

impl Schema {
    /// Whether this schema is well formed: all through it, no unknown
    /// format text stands for a known format and no object declares a
    /// property twice.
    pub fn is_well_formed(&self) -> (b: bool)
        ensures
            b == schema_wf(self@),
        decreases self@, 0nat,
    {
        kind_is_well_formed(&self.schema_kind)
    }
}

fn kind_is_well_formed(k: &SchemaKind) -> (b: bool)
    ensures
        b == kind_wf(k@),
    decreases k@, 3nat,
{
    proof {
        match k@ {
            SchemaKindView::Type(_) => {
                assert(decreases_to!(k@ => k@->Type_0));
            },
            SchemaKindView::OneOf { .. } => {
                assert(decreases_to!(k@ => k@->one_of));
            },
            SchemaKindView::AllOf { .. } => {
                assert(decreases_to!(k@ => k@->all_of));
            },
            SchemaKindView::AnyOf { .. } => {
                assert(decreases_to!(k@ => k@->any_of));
            },
            SchemaKindView::Any(_) => {
                assert(decreases_to!(k@ => k@->Any_0));
            },
        }
    }
    match k {
        SchemaKind::Type(t) => type_is_well_formed(t),
        SchemaKind::OneOf { one_of } => refs_are_well_formed(one_of),
        SchemaKind::AllOf { all_of } => refs_are_well_formed(all_of),
        SchemaKind::AnyOf { any_of } => refs_are_well_formed(any_of),
        SchemaKind::Any(a) => any_is_well_formed(a),
    }
}

fn type_is_well_formed(t: &Type) -> (b: bool)
    ensures
        b == type_wf(t@),
    decreases t@, 2nat,
{
    proof {
        if t@ is Object {
            assert(decreases_to!(t@ => t@->Object_0));
        }
        if t@ is Array {
            assert(decreases_to!(t@ => t@->Array_0));
            assert(decreases_to!(t@->Array_0 => t@->Array_0.items));
        }
    }
    match t {
        Type::String(x) => format_is_well_formed(&x.format),
        Type::Number(x) => format_is_well_formed(&x.format),
        Type::Integer(x) => format_is_well_formed(&x.format),
        Type::Object(x) => object_is_well_formed(x),
        Type::Array(x) => items_are_well_formed(&x.items),
        Type::Boolean {  } => true,
    }
}

fn object_is_well_formed(o: &ObjectType) -> (b: bool)
    ensures
        b == object_wf(o@),
    decreases o@, 1nat,
{
    proof {
        assert(decreases_to!(o@ => o@.properties));
        assert(decreases_to!(o@ => o@.additional_properties));
    }
    let properties = properties_are_well_formed(&o.properties);
    let additional = additional_is_well_formed(&o.additional_properties);
    properties && additional
}

fn any_is_well_formed(a: &AnySchema) -> (b: bool)
    ensures
        b == any_wf(a@),
    decreases a@, 1nat,
{
    proof {
        assert(decreases_to!(a@ => a@.properties));
        assert(decreases_to!(a@ => a@.additional_properties));
        assert(decreases_to!(a@ => a@.items));
    }
    let properties = properties_are_well_formed(&a.properties);
    let additional = additional_is_well_formed(&a.additional_properties);
    let items = items_are_well_formed(&a.items);
    properties && additional && items
}

fn ref_is_well_formed(r: &ReferenceOr<Schema>) -> (b: bool)
    ensures
        b == ref_wf(r@),
    decreases r@, 1nat,
{
    proof {
        if r@ is Item {
            assert(decreases_to!(r@ => r@->Item_0));
        }
    }
    match r {
        ReferenceOr::Reference { .. } => true,
        ReferenceOr::Item(s) => s.is_well_formed(),
    }
}

fn boxed_ref_is_well_formed(r: &ReferenceOr<Box<Schema>>) -> (b: bool)
    ensures
        b == ref_wf(r@),
    decreases r@, 1nat,
{
    proof {
        if r@ is Item {
            assert(decreases_to!(r@ => r@->Item_0));
        }
    }
    match r {
        ReferenceOr::Reference { .. } => true,
        ReferenceOr::Item(s) => s.is_well_formed(),
    }
}

fn refs_are_well_formed(rs: &Vec<ReferenceOr<Schema>>) -> (b: bool)
    ensures
        b == refs_wf(refs_view(*rs)),
    decreases refs_view(*rs), 0nat,
{
    let ghost all = refs_view(*rs);
    proof {
        lemma_refs_view(*rs);
    }
    let mut i: usize = 0;
    while i < rs.len()
        invariant
            i <= rs.len(),
            all == refs_view(*rs),
            all.len() == rs@.len(),
            forall|j: int| 0 <= j < rs@.len() ==> #[trigger] all[j] == rs@[j]@,
            forall|j: int| 0 <= j < i ==> ref_wf(#[trigger] all[j]),
        decreases rs.len() - i,
    {
        proof {
            assert(decreases_to!(all => all[i as int]));
        }
        if !ref_is_well_formed(&rs[i]) {
            assert(!ref_wf(all[i as int]));
            return false;
        }
        i += 1;
    }
    true
}

fn properties_are_well_formed(p: &Properties) -> (b: bool)
    ensures
        b == properties_wf(p@),
    decreases p@, 0nat,
{
    p.names_once();
    let n = p.len();
    let mut i: usize = 0;
    while i < n
        invariant
            i <= n,
            n == p@.len(),
            forall|j: int| 0 <= j < i ==> ref_wf((#[trigger] p@[j]).1),
        decreases n - i,
    {
        match p.get_index(i) {
            Some((_, r)) => {
                proof {
                    assert(decreases_to!(p@ => p@[i as int]));
                    assert(decreases_to!(p@[i as int] => p@[i as int].1));
                    assert(decreases_to!(p@ => r@));
                }
                if !boxed_ref_is_well_formed(r) {
                    assert(!ref_wf(p@[i as int].1));
                    return false;
                }
            },
            None => {},
        }
        i += 1;
    }
    true
}

fn items_are_well_formed(o: &Option<ReferenceOr<Box<Schema>>>) -> (b: bool)
    ensures
        b == items_wf(items_view(*o)),
    decreases items_view(*o), 0nat,
{
    proof {
        let v = items_view(*o);
        if v is Some {
            assert(decreases_to!(v => v->Some_0));
        }
    }
    match o {
        Some(r) => boxed_ref_is_well_formed(r),
        None => true,
    }
}

fn additional_is_well_formed(o: &Option<AdditionalProperties>) -> (b: bool)
    ensures
        b == additional_wf(additional_opt_view(*o)),
    decreases additional_opt_view(*o), 0nat,
{
    match o {
        Some(AdditionalProperties::Schema(r)) => {
            proof {
                let v = additional_opt_view(*o);
                assert(decreases_to!(v => v->Some_0));
                assert(decreases_to!(v->Some_0 => v->Some_0->Schema_0));
            }
            ref_is_well_formed(r)
        },
        _ => true,
    }
}

} // verus!
