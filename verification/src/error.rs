//! Why a document value could not be read as a schema, and where.

use vstd::prelude::*;
use crate::keys::{key_name, Key};
use crate::text::owned;

verus! {

/// The two ways in which a document value fails to be a schema.
#[derive(Clone, Copy, Debug, PartialEq, Eq, Structural)]
pub enum ErrorKind {
    /// A value is not an object or an array where one is required, or an
    /// object lacks a key that it must have.
    StructuralMismatch,
    /// A field holds a value that is not of the scalar type of the field.
    MalformedScalar,
}

/// One step on the way from the value that was read to the offending
/// value: into an object by a key, or into an array by a position.
#[derive(Debug)]
pub enum PathSegment {
    Key(String),
    Index(usize),
}

/// The model of a [`PathSegment`].
pub enum PathSegmentView {
    Key(Seq<char>),
    Index(nat),
}

impl View for PathSegment {
    type V = PathSegmentView;

    open spec fn view(&self) -> PathSegmentView {
        match *self {
            PathSegment::Key(s) => PathSegmentView::Key(s@),
            PathSegment::Index(i) => PathSegmentView::Index(i as nat),
        }
    }
}

/// A failure to read a schema: its kind, and the path from the value that
/// was read to the offending value, outermost step first.
#[derive(Debug)]
pub struct ParseError {
    pub kind: ErrorKind,
    pub path: Vec<PathSegment>,
}

/// The model of a [`ParseError`].
pub struct ParseErrorView {
    pub kind: ErrorKind,
    pub path: Seq<PathSegmentView>,
}

/// The models of a sequence of steps, one for one.
pub open spec fn path_view(p: Seq<PathSegment>) -> Seq<PathSegmentView> {
    Seq::new(p.len(), |i: int| p[i]@)
}

impl View for ParseError {
    type V = ParseErrorView;

    open spec fn view(&self) -> ParseErrorView {
        ParseErrorView { kind: self.kind, path: path_view(self.path@) }
    }
}

/// A failure at the value that was read itself.
pub open spec fn failure(kind: ErrorKind) -> ParseErrorView {
    ParseErrorView { kind, path: Seq::empty() }
}

/// The failure `e`, seen from one step further out.
pub open spec fn under(e: ParseErrorView, step: PathSegmentView) -> ParseErrorView {
    ParseErrorView { kind: e.kind, path: seq![step] + e.path }
}

/// The failure `e`, seen from the object that holds the offending value
/// under the keyword `k`.
pub open spec fn under_key(e: ParseErrorView, k: Key) -> ParseErrorView {
    under(e, PathSegmentView::Key(key_name(k)))
}

/// The failure `e`, seen from the array that holds the offending value at
/// position `i`.
pub open spec fn under_index(e: ParseErrorView, i: nat) -> ParseErrorView {
    under(e, PathSegmentView::Index(i))
}

/// A failure at the value under the keyword `k`.
pub open spec fn failure_at(kind: ErrorKind, k: Key) -> ParseErrorView {
    under_key(failure(kind), k)
}

impl ParseError {
    /// A failure at the value that was read itself.
    pub fn new(kind: ErrorKind) -> (e: ParseError)
        ensures
            e@ == failure(kind),
    {
        let e = ParseError { kind, path: Vec::new() };
        assert(e@.path =~= Seq::empty());
        e
    }

    /// This failure, seen from one step further out.
    pub fn under(self, step: PathSegment) -> (e: ParseError)
        ensures
            e@ == under(self@, step@),
    {
        let ghost before = self@;
        let ghost step_view = step@;
        let ParseError { kind, mut path } = self;
        path.insert(0, step);
        let e = ParseError { kind, path };
        assert(e@.path =~= seq![step_view] + before.path);
        e
    }

    /// This failure, seen from the object that holds the offending value
    /// under the keyword `k`.
    pub fn under_key(self, k: Key) -> (e: ParseError)
        ensures
            e@ == under_key(self@, k),
    {
        self.under(PathSegment::Key(owned(k.name())))
    }

    /// This failure, seen from the array that holds the offending value at
    /// position `i`.
    pub fn under_index(self, i: usize) -> (e: ParseError)
        ensures
            e@ == under_index(self@, i as nat),
    {
        self.under(PathSegment::Index(i))
    }

    /// A failure at the value under the keyword `k`.
    pub fn at(kind: ErrorKind, k: Key) -> (e: ParseError)
        ensures
            e@ == failure_at(kind, k),
    {
        ParseError::new(kind).under_key(k)
    }
}

} // verus!
