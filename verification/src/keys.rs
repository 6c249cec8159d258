//! The keywords of a schema object, and the entries of an object written
//! and read by keyword.

use vstd::prelude::*;
use crate::text::owned;
use crate::value::{entries_view, find, lookup, EntriesView, Value, ValueView};

verus! {

/// A keyword of the schema object.
#[derive(Clone, Copy, Debug, PartialEq, Eq, Structural)]
pub enum Key {
    Nullable,
    ReadOnly,
    WriteOnly,
    Deprecated,
    ExternalDocs,
    Example,
    Title,
    Description,
    Discriminator,
    Default,
    Type,
    OneOf,
    AllOf,
    AnyOf,
    Format,
    Pattern,
    Enum,
    MinLength,
    MaxLength,
    MultipleOf,
    ExclusiveMinimum,
    ExclusiveMaximum,
    Minimum,
    Maximum,
    Properties,
    Required,
    AdditionalProperties,
    MinProperties,
    MaxProperties,
    Items,
    MinItems,
    MaxItems,
    UniqueItems,
    Ref,
    Url,
}

/// The keyword as a document writes it.
pub open spec fn key_name(k: Key) -> Seq<char> {
    match k {
        Key::Nullable => "nullable"@,
        Key::ReadOnly => "readOnly"@,
        Key::WriteOnly => "writeOnly"@,
        Key::Deprecated => "deprecated"@,
        Key::ExternalDocs => "externalDocs"@,
        Key::Example => "example"@,
        Key::Title => "title"@,
        Key::Description => "description"@,
        Key::Discriminator => "discriminator"@,
        Key::Default => "default"@,
        Key::Type => "type"@,
        Key::OneOf => "oneOf"@,
        Key::AllOf => "allOf"@,
        Key::AnyOf => "anyOf"@,
        Key::Format => "format"@,
        Key::Pattern => "pattern"@,
        Key::Enum => "enum"@,
        Key::MinLength => "minLength"@,
        Key::MaxLength => "maxLength"@,
        Key::MultipleOf => "multipleOf"@,
        Key::ExclusiveMinimum => "exclusiveMinimum"@,
        Key::ExclusiveMaximum => "exclusiveMaximum"@,
        Key::Minimum => "minimum"@,
        Key::Maximum => "maximum"@,
        Key::Properties => "properties"@,
        Key::Required => "required"@,
        Key::AdditionalProperties => "additionalProperties"@,
        Key::MinProperties => "minProperties"@,
        Key::MaxProperties => "maxProperties"@,
        Key::Items => "items"@,
        Key::MinItems => "minItems"@,
        Key::MaxItems => "maxItems"@,
        Key::UniqueItems => "uniqueItems"@,
        Key::Ref => "$ref"@,
        Key::Url => "url"@,
    }
}

impl Key {
    /// The keyword as a document writes it.
    pub fn name(self) -> (s: &'static str)
        ensures
            s@ == key_name(self),
    {
        match self {
            Key::Nullable => "nullable",
            Key::ReadOnly => "readOnly",
            Key::WriteOnly => "writeOnly",
            Key::Deprecated => "deprecated",
            Key::ExternalDocs => "externalDocs",
            Key::Example => "example",
            Key::Title => "title",
            Key::Description => "description",
            Key::Discriminator => "discriminator",
            Key::Default => "default",
            Key::Type => "type",
            Key::OneOf => "oneOf",
            Key::AllOf => "allOf",
            Key::AnyOf => "anyOf",
            Key::Format => "format",
            Key::Pattern => "pattern",
            Key::Enum => "enum",
            Key::MinLength => "minLength",
            Key::MaxLength => "maxLength",
            Key::MultipleOf => "multipleOf",
            Key::ExclusiveMinimum => "exclusiveMinimum",
            Key::ExclusiveMaximum => "exclusiveMaximum",
            Key::Minimum => "minimum",
            Key::Maximum => "maximum",
            Key::Properties => "properties",
            Key::Required => "required",
            Key::AdditionalProperties => "additionalProperties",
            Key::MinProperties => "minProperties",
            Key::MaxProperties => "maxProperties",
            Key::Items => "items",
            Key::MinItems => "minItems",
            Key::MaxItems => "maxItems",
            Key::UniqueItems => "uniqueItems",
            Key::Ref => "$ref",
            Key::Url => "url",
        }
    }
}

/// The length of a keyword and three of its characters, which together tell
/// the keywords apart.
pub open spec fn key_marks(s: Seq<char>) -> (nat, char, char, char) {
    (
        s.len(),
        if s.len() > 2 {
            s[2]
        } else {
            ' '
        },
        if s.len() > 3 {
            s[3]
        } else {
            ' '
        },
        if s.len() > 10 {
            s[10]
        } else {
            ' '
        },
    )
}

/// The marks of each keyword.
pub open spec fn marks_of(k: Key) -> (nat, char, char, char) {
    match k {
        Key::Nullable => (8, 'l', 'l', ' '),
        Key::ReadOnly => (8, 'a', 'd', ' '),
        Key::WriteOnly => (9, 'i', 't', ' '),
        Key::Deprecated => (10, 'p', 'r', ' '),
        Key::ExternalDocs => (12, 't', 'e', 'c'),
        Key::Example => (7, 'a', 'm', ' '),
        Key::Title => (5, 't', 'l', ' '),
        Key::Description => (11, 's', 'c', 'n'),
        Key::Discriminator => (13, 's', 'c', 't'),
        Key::Default => (7, 'f', 'a', ' '),
        Key::Type => (4, 'p', 'e', ' '),
        Key::OneOf => (5, 'e', 'O', ' '),
        Key::AllOf => (5, 'l', 'O', ' '),
        Key::AnyOf => (5, 'y', 'O', ' '),
        Key::Format => (6, 'r', 'm', ' '),
        Key::Pattern => (7, 't', 't', ' '),
        Key::Enum => (4, 'u', 'm', ' '),
        Key::MinLength => (9, 'n', 'L', ' '),
        Key::MaxLength => (9, 'x', 'L', ' '),
        Key::MultipleOf => (10, 'l', 't', ' '),
        Key::ExclusiveMinimum => (16, 'c', 'l', 'i'),
        Key::ExclusiveMaximum => (16, 'c', 'l', 'a'),
        Key::Minimum => (7, 'n', 'i', ' '),
        Key::Maximum => (7, 'x', 'i', ' '),
        Key::Properties => (10, 'o', 'p', ' '),
        Key::Required => (8, 'q', 'u', ' '),
        Key::AdditionalProperties => (20, 'd', 'i', 'P'),
        Key::MinProperties => (13, 'n', 'P', 'i'),
        Key::MaxProperties => (13, 'x', 'P', 'i'),
        Key::Items => (5, 'e', 'm', ' '),
        Key::MinItems => (8, 'n', 'I', ' '),
        Key::MaxItems => (8, 'x', 'I', ' '),
        Key::UniqueItems => (11, 'i', 'q', 's'),
        Key::Ref => (4, 'e', 'f', ' '),
        Key::Url => (3, 'l', ' ', ' '),
    }
}

/// Each keyword has the marks listed for it.
pub proof fn lemma_key_marks(k: Key)
    ensures
        key_marks(key_name(k)) == marks_of(k),
{
    match k {
        Key::Nullable => {
            reveal_strlit("nullable");
        },
        Key::ReadOnly => {
            reveal_strlit("readOnly");
        },
        Key::WriteOnly => {
            reveal_strlit("writeOnly");
        },
        Key::Deprecated => {
            reveal_strlit("deprecated");
        },
        Key::ExternalDocs => {
            reveal_strlit("externalDocs");
        },
        Key::Example => {
            reveal_strlit("example");
        },
        Key::Title => {
            reveal_strlit("title");
        },
        Key::Description => {
            reveal_strlit("description");
        },
        Key::Discriminator => {
            reveal_strlit("discriminator");
        },
        Key::Default => {
            reveal_strlit("default");
        },
        Key::Type => {
            reveal_strlit("type");
        },
        Key::OneOf => {
            reveal_strlit("oneOf");
        },
        Key::AllOf => {
            reveal_strlit("allOf");
        },
        Key::AnyOf => {
            reveal_strlit("anyOf");
        },
        Key::Format => {
            reveal_strlit("format");
        },
        Key::Pattern => {
            reveal_strlit("pattern");
        },
        Key::Enum => {
            reveal_strlit("enum");
        },
        Key::MinLength => {
            reveal_strlit("minLength");
        },
        Key::MaxLength => {
            reveal_strlit("maxLength");
        },
        Key::MultipleOf => {
            reveal_strlit("multipleOf");
        },
        Key::ExclusiveMinimum => {
            reveal_strlit("exclusiveMinimum");
        },
        Key::ExclusiveMaximum => {
            reveal_strlit("exclusiveMaximum");
        },
        Key::Minimum => {
            reveal_strlit("minimum");
        },
        Key::Maximum => {
            reveal_strlit("maximum");
        },
        Key::Properties => {
            reveal_strlit("properties");
        },
        Key::Required => {
            reveal_strlit("required");
        },
        Key::AdditionalProperties => {
            reveal_strlit("additionalProperties");
        },
        Key::MinProperties => {
            reveal_strlit("minProperties");
        },
        Key::MaxProperties => {
            reveal_strlit("maxProperties");
        },
        Key::Items => {
            reveal_strlit("items");
        },
        Key::MinItems => {
            reveal_strlit("minItems");
        },
        Key::MaxItems => {
            reveal_strlit("maxItems");
        },
        Key::UniqueItems => {
            reveal_strlit("uniqueItems");
        },
        Key::Ref => {
            reveal_strlit("$ref");
        },
        Key::Url => {
            reveal_strlit("url");
        },
    }
}

/// No two keywords are written alike.
pub proof fn lemma_key_names_differ(a: Key, b: Key)
    requires
        key_name(a) == key_name(b),
    ensures
        a == b,
{
    lemma_key_marks(a);
    lemma_key_marks(b);
}

/// The value under the keyword `k` in an object's entries.
pub open spec fn get(entries: EntriesView, k: Key) -> Option<ValueView> {
    lookup(entries, key_name(k))
}

/// The entries `acc`, followed by an entry for the keyword `k` where there
/// is a value for it.
pub open spec fn put(acc: EntriesView, k: Key, v: Option<ValueView>) -> EntriesView {
    match v {
        Some(x) => acc.push((key_name(k), x)),
        None => acc,
    }
}

/// Among no entries no keyword is found.
pub proof fn lemma_get_empty(q: Key)
    ensures
        get(Seq::empty(), q) is None,
{
}

/// After writing under `k`, the value under `k` is the one written, and
/// what is under any other keyword is what it was.
pub proof fn lemma_get_put(acc: EntriesView, k: Key, v: Option<ValueView>, q: Key)
    ensures
        get(put(acc, k, v), q) == if q == k && v is Some {
            v
        } else {
            get(acc, q)
        },
{
    if v is Some {
        let e = (key_name(k), v->Some_0);
        assert(acc.push(e).drop_last() =~= acc);
        assert(acc.push(e).last() == e);
        if key_name(k) == key_name(q) {
            lemma_key_names_differ(k, q);
        }
    }
}

/// The model of an optional value.
pub open spec fn opt_view(o: Option<Value>) -> Option<ValueView> {
    match o {
        Some(v) => Some(v@),
        None => None,
    }
}

/// Adds an entry for the keyword `k` where there is a value for it.
pub fn put_entry(out: &mut Vec<(String, Value)>, k: Key, v: Option<Value>)
    ensures
        entries_view(final(out)@) == put(entries_view(old(out)@), k, opt_view(v)),
{
    match v {
        Some(x) => {
            out.push((owned(k.name()), x));
            assert(entries_view(out@) =~= entries_view(old(out)@).push((key_name(k), x@)));
        },
        None => {},
    }
}

/// The value under the keyword `k` in an object's entries.
pub fn get_entry<'a>(entries: &'a Vec<(String, Value)>, k: Key) -> (found: Option<&'a Value>)
    ensures
        found is Some <==> get(entries_view(entries@), k) is Some,
        found is Some ==> found->Some_0@ == get(entries_view(entries@), k)->Some_0,
{
    find(entries, k.name())
}

} // verus!
