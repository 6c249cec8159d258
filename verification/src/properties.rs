//! The named properties of an object shape, in the order of their
//! declaration.

use vstd::prelude::*;
use indexmap::IndexMap;
use crate::model::{boxed_ref_view, PropertiesView, SchemaRefView};
use crate::reference::ReferenceOr;
use crate::schema::Schema;

verus! {

/// The properties of an object shape: an insertion-ordered map from a
/// property's name to its schema or a reference to it.
///
/// The map is an `indexmap::IndexMap`. The verifier does not look inside
/// it: what it holds is named by [`properties_entries`], and what its
/// operations do is taken on trust from the four functions below that call
/// them, and from nowhere else.
#[verifier::external_body]
#[derive(Debug)]
pub struct Properties {
    inner: IndexMap<String, ReferenceOr<Box<Schema>>>,
}

/// The entries that a property map holds, in the order of the map: each
/// name with the model of what it is mapped to.
pub uninterp spec fn properties_entries(p: Properties) -> PropertiesView;

impl View for Properties {
    type V = PropertiesView;

    open spec fn view(&self) -> PropertiesView {
        properties_entries(*self)
    }
}

/// The position of the entry named `name`, if there is one.
pub open spec fn position(entries: PropertiesView, name: Seq<char>) -> Option<int> {
    if exists|i: int| 0 <= i < entries.len() && #[trigger] entries[i].0 == name {
        Some(choose|i: int| 0 <= i < entries.len() && #[trigger] entries[i].0 == name)
    } else {
        None
    }
}

/// No two entries have the same name.
pub open spec fn distinct_names(entries: PropertiesView) -> bool {
    forall|i: int, j: int|
        0 <= i < j < entries.len() ==> #[trigger] entries[i].0 != #[trigger] entries[j].0
}

/// The entries after `name` has been mapped to `value`: in the place of
/// the entry of that name where there is one, else at the end.
pub open spec fn with_entry(
    entries: PropertiesView,
    name: Seq<char>,
    value: SchemaRefView,
) -> PropertiesView {
    match position(entries, name) {
        Some(i) => entries.update(i, (name, value)),
        None => entries.push((name, value)),
    }
}

/// `indexmap::IndexMap::new`: a map without entries.
#[verifier::external_body]
fn map_new() -> (p: Properties)
    ensures
        properties_entries(p) == Seq::<(Seq<char>, SchemaRefView)>::empty(),
{
    Properties { inner: IndexMap::new() }
}

/// `indexmap::IndexMap::len`: the number of entries.
#[verifier::external_body]
fn map_len(p: &Properties) -> (n: usize)
    ensures
        n == properties_entries(*p).len(),
{
    p.inner.len()
}

/// Whether no entry but the one at position `i` is named `name`.
pub open spec fn named_only_at(entries: PropertiesView, name: Seq<char>, i: int) -> bool {
    forall|j: int| 0 <= j < entries.len() && j != i ==> (#[trigger] entries[j]).0 != name
}

/// `indexmap::IndexMap::get_index`: the entry at position `i`, or none
/// where `i` is not below the number of entries. The map holds each name once, so no
/// other entry has the name of the one handed out.
#[verifier::external_body]
fn map_get_index(p: &Properties, i: usize) -> (e: Option<(&String, &ReferenceOr<Box<Schema>>)>)
    ensures
        i < properties_entries(*p).len() ==> e is Some && e->Some_0.0@ == properties_entries(
            *p,
        )[i as int].0 && boxed_ref_view(*e->Some_0.1) == properties_entries(*p)[i as int].1,
        i >= properties_entries(*p).len() ==> e is None,
        e is Some ==> named_only_at(properties_entries(*p), e->Some_0.0@, i as int),
{
    p.inner.get_index(i)
}

/// `indexmap::IndexMap::insert`: an entry of the same name keeps its place
/// and gets the new value; a new name is added last. The value that was
/// there before is dropped.
#[verifier::external_body]
fn map_insert(p: &mut Properties, name: String, value: ReferenceOr<Box<Schema>>)
    ensures
        properties_entries(*final(p)) == with_entry(
            properties_entries(*old(p)),
            name@,
            boxed_ref_view(value),
        ),
{
    p.inner.insert(name, value);
}

impl Properties {
    /// A map without entries.
    pub fn new() -> (p: Properties)
        ensures
            p@ == Seq::<(Seq<char>, SchemaRefView)>::empty(),
    {
        map_new()
    }

    /// The number of entries.
    pub fn len(&self) -> (n: usize)
        ensures
            n == self@.len(),
    {
        map_len(self)
    }

    /// Whether there is no entry.
    pub fn is_empty(&self) -> (b: bool)
        ensures
            b == (self@.len() == 0),
    {
        map_len(self) == 0
    }

    /// The entry at position `i`, if there is one.
    pub fn get_index(&self, i: usize) -> (e: Option<(&String, &ReferenceOr<Box<Schema>>)>)
        ensures
            i < self@.len() ==> e is Some && e->Some_0.0@ == self@[i as int].0 && boxed_ref_view(
                *e->Some_0.1,
            ) == self@[i as int].1,
            i >= self@.len() ==> e is None,
            e is Some ==> named_only_at(self@, e->Some_0.0@, i as int),
    {
        map_get_index(self, i)
    }

    /// Walks the entries and finds each name once.
    pub fn names_once(&self)
        ensures
            distinct_names(self@),
    {
        let n = map_len(self);
        let mut i: usize = 0;
        while i < n
            invariant
                i <= n,
                n == self@.len(),
                forall|a: int, b: int|
                    0 <= a < i && 0 <= b < n && a != b ==> (#[trigger] self@[a]).0
                        != (#[trigger] self@[b]).0,
            decreases n - i,
        {
            let e = map_get_index(self, i);
            assert(e is Some);
            assert forall|a: int, b: int| 0 <= a < i + 1 && 0 <= b < n && a != b implies (
            #[trigger] self@[a]).0 != (#[trigger] self@[b]).0 by {
                if a == i {
                    assert(named_only_at(self@, self@[i as int].0, i as int));
                }
            }
            i += 1;
        }
    }

    /// The value that `name` is mapped to, if any.
    pub fn get(&self, name: &str) -> (found: Option<&ReferenceOr<Box<Schema>>>)
        ensures
            match position(self@, name@) {
                Some(i) => found is Some && boxed_ref_view(*found->Some_0) == self@[i].1,
                None => found is None,
            },
    {
        let n = map_len(self);
        let mut i: usize = 0;
        while i < n
            invariant
                i <= n,
                n == self@.len(),
                forall|j: int| 0 <= j < i ==> (#[trigger] self@[j]).0 != name@,
            decreases n - i,
        {
            match map_get_index(self, i) {
                Some((key, value)) => {
                    if crate::text::str_eq(key.as_str(), name) {
                        proof {
                            let at = position(self@, name@)->Some_0;
                            assert(self@[i as int].0 == name@);
                            assert(named_only_at(self@, name@, i as int));
                            assert(at == i);
                        }
                        return Some(value);
                    }
                },
                None => {},
            }
            i += 1;
        }
        None
    }

    /// Maps `name` to `value`: in the place of the entry of that name where
    /// there is one, else at the end.
    pub fn insert(&mut self, name: String, value: ReferenceOr<Box<Schema>>)
        ensures
            final(self)@ == with_entry(old(self)@, name@, boxed_ref_view(value)),
    {
        map_insert(self, name, value)
    }
}

impl Default for Properties {
    fn default() -> (p: Properties)
        ensures
            p@ == Seq::<(Seq<char>, SchemaRefView)>::empty(),
    {
        map_new()
    }
}

} // verus!
