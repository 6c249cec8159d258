//! Either a reference string or the value itself.

use vstd::prelude::*;
use crate::text::owned;

verus! {

/// A reference to a value defined elsewhere, or the value itself. The
/// reference is kept as text and never followed.
#[derive(Debug)]
pub enum ReferenceOr<T> {
    Reference { reference: String },
    Item(T),
}

/// The model of a [`ReferenceOr`]: the reference's text, or the model of
/// the value.
pub enum ReferenceOrView<V> {
    Reference { reference: Seq<char> },
    Item(V),
}

impl<T> ReferenceOr<T> {
    /// The reference case, holding `r`.
    pub fn ref_(r: &str) -> (out: Self)
        ensures
            out matches ReferenceOr::Reference { reference } && reference@ == r@,
    {
        ReferenceOr::Reference { reference: owned(r) }
    }

    /// The same reference or value, with the value in a box.
    pub fn boxed(self) -> (out: ReferenceOr<Box<T>>)
        ensures
            match self {
                ReferenceOr::Reference { reference } => out == (ReferenceOr::<
                    Box<T>,
                >::Reference { reference }),
                ReferenceOr::Item(v) => out == ReferenceOr::Item(Box::new(v)),
            },
    {
        match self {
            ReferenceOr::Reference { reference } => ReferenceOr::Reference { reference },
            ReferenceOr::Item(v) => ReferenceOr::Item(Box::new(v)),
        }
    }
}

} // verus!
