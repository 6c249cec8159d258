//! Open enumerations: a known variant of a closed set, or any other text
//! kept as it was written, or nothing at all.

use vstd::prelude::*;
use crate::text::owned;

verus! {

/// A closed set of variants, each with the text that stands for it.
pub trait KnownVariant: Sized + Copy {
    /// The text that stands for a variant.
    spec fn text(self) -> Seq<char>;

    /// The variant that `s` stands for, if any.
    spec fn of_text(s: Seq<char>) -> Option<Self>;

    /// Each variant is found again from its text, and a text that stands
    /// for a variant is the text of that variant.
    proof fn lemma_text(v: Self, s: Seq<char>)
        ensures
            Self::of_text(v.text()) == Some(v),
            Self::of_text(s) is Some ==> Self::of_text(s)->Some_0.text() == s,
    ;

    /// The variant that `s` stands for, if any.
    fn from_text(s: &str) -> (found: Option<Self>)
        ensures
            found == Self::of_text(s@),
    ;

    /// The text that stands for this variant.
    fn as_text(&self) -> (s: &'static str)
        ensures
            s@ == self.text(),
    ;
}

/// A known variant, or a text that stands for none.
#[derive(Debug)]
pub enum VariantOrUnknown<T> {
    Item(T),
    Unknown(String),
}

/// A known variant, a text that stands for none, or nothing.
#[derive(Debug)]
pub enum VariantOrUnknownOrEmpty<T> {
    Item(T),
    Unknown(String),
    Empty,
}

/// The model of a [`VariantOrUnknown`].
pub enum VariantOrUnknownView<T> {
    Item(T),
    Unknown(Seq<char>),
}

/// The model of a [`VariantOrUnknownOrEmpty`].
pub enum VariantOrUnknownOrEmptyView<T> {
    Item(T),
    Unknown(Seq<char>),
    Empty,
}

impl<T> View for VariantOrUnknown<T> {
    type V = VariantOrUnknownView<T>;

    open spec fn view(&self) -> VariantOrUnknownView<T> {
        match *self {
            VariantOrUnknown::Item(v) => VariantOrUnknownView::Item(v),
            VariantOrUnknown::Unknown(s) => VariantOrUnknownView::Unknown(s@),
        }
    }
}

impl<T> View for VariantOrUnknownOrEmpty<T> {
    type V = VariantOrUnknownOrEmptyView<T>;

    open spec fn view(&self) -> VariantOrUnknownOrEmptyView<T> {
        match *self {
            VariantOrUnknownOrEmpty::Item(v) => VariantOrUnknownOrEmptyView::Item(v),
            VariantOrUnknownOrEmpty::Unknown(s) => VariantOrUnknownOrEmptyView::Unknown(s@),
            VariantOrUnknownOrEmpty::Empty => VariantOrUnknownOrEmptyView::Empty,
        }
    }
}

/// What a text is read as: its variant where it stands for one, else the
/// text itself.
pub open spec fn read_text<T: KnownVariant>(s: Seq<char>) -> VariantOrUnknownView<T> {
    match T::of_text(s) {
        Some(v) => VariantOrUnknownView::Item(v),
        None => VariantOrUnknownView::Unknown(s),
    }
}

/// The text that is written for a value.
pub open spec fn written_text<T: KnownVariant>(v: VariantOrUnknownView<T>) -> Seq<char> {
    match v {
        VariantOrUnknownView::Item(x) => x.text(),
        VariantOrUnknownView::Unknown(s) => s,
    }
}

/// A value is canonical when its unknown text stands for no variant.
pub open spec fn canonical<T: KnownVariant>(v: VariantOrUnknownView<T>) -> bool {
    v matches VariantOrUnknownView::Unknown(s) ==> T::of_text(s) is None
}

/// The value without the empty case, if it is not empty.
pub open spec fn filled<T>(v: VariantOrUnknownOrEmptyView<T>) -> Option<VariantOrUnknownView<T>> {
    match v {
        VariantOrUnknownOrEmptyView::Item(x) => Some(VariantOrUnknownView::Item(x)),
        VariantOrUnknownOrEmptyView::Unknown(s) => Some(VariantOrUnknownView::Unknown(s)),
        VariantOrUnknownOrEmptyView::Empty => None,
    }
}

/// The value with the empty case added.
pub open spec fn or_empty<T>(v: Option<VariantOrUnknownView<T>>) -> VariantOrUnknownOrEmptyView<T> {
    match v {
        Some(VariantOrUnknownView::Item(x)) => VariantOrUnknownOrEmptyView::Item(x),
        Some(VariantOrUnknownView::Unknown(s)) => VariantOrUnknownOrEmptyView::Unknown(s),
        None => VariantOrUnknownOrEmptyView::Empty,
    }
}

/// Every text is written back as it was read.
pub proof fn lemma_text_written_back<T: KnownVariant>(s: Seq<char>)
    ensures
        written_text(read_text::<T>(s)) == s,
        canonical(read_text::<T>(s)),
{
    T::lemma_text(arbitrary(), s);
}

/// A canonical value is read back from the text written for it.
pub proof fn lemma_value_read_back<T: KnownVariant>(v: VariantOrUnknownView<T>)
    requires
        canonical(v),
    ensures
        read_text::<T>(written_text(v)) == v,
{
    match v {
        VariantOrUnknownView::Item(x) => {
            T::lemma_text(x, x.text());
        },
        VariantOrUnknownView::Unknown(s) => {},
    }
}

impl<T: KnownVariant> VariantOrUnknown<T> {
    /// Reads a text: as its variant where it stands for one, else as itself.
    pub fn from_text(s: &str) -> (v: Self)
        ensures
            v@ == read_text::<T>(s@),
    {
        match T::from_text(s) {
            Some(x) => VariantOrUnknown::Item(x),
            None => VariantOrUnknown::Unknown(owned(s)),
        }
    }

    /// The text that is written for this value.
    pub fn to_text(&self) -> (s: String)
        ensures
            s@ == written_text(self@),
    {
        match self {
            VariantOrUnknown::Item(x) => owned(x.as_text()),
            VariantOrUnknown::Unknown(s) => s.clone(),
        }
    }
}

impl<T: KnownVariant> VariantOrUnknownOrEmpty<T> {
    /// Reads a text: as its variant where it stands for one, else as itself.
    pub fn from_text(s: &str) -> (v: Self)
        ensures
            v@ == or_empty(Some(read_text::<T>(s@))),
    {
        match T::from_text(s) {
            Some(x) => VariantOrUnknownOrEmpty::Item(x),
            None => VariantOrUnknownOrEmpty::Unknown(owned(s)),
        }
    }

    /// The text that is written for this value; none for the empty case.
    pub fn to_text(&self) -> (s: Option<String>)
        ensures
            match filled(self@) {
                Some(v) => s is Some && s->Some_0@ == written_text(v),
                None => s is None,
            },
    {
        match self {
            VariantOrUnknownOrEmpty::Item(x) => Some(owned(x.as_text())),
            VariantOrUnknownOrEmpty::Unknown(s) => Some(s.clone()),
            VariantOrUnknownOrEmpty::Empty => None,
        }
    }
}

impl<T> VariantOrUnknownOrEmpty<T> {
    /// Whether this is the empty case.
    pub fn is_empty(&self) -> (b: bool)
        ensures
            b == (self is Empty),
    {
        match self {
            VariantOrUnknownOrEmpty::Empty => true,
            _ => false,
        }
    }
}

impl<T> Default for VariantOrUnknownOrEmpty<T> {
    fn default() -> (v: Self)
        ensures
            v is Empty,
    {
        VariantOrUnknownOrEmpty::Empty
    }
}

} // verus!
