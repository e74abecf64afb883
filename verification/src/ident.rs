//! Identifiers as they occur in source text, and the keys that address them
//! in the token index.

use vstd::prelude::*;

verus! {

/// A region of one source: the half-open byte range `start..end` of the
/// source numbered `source_id`.
#[derive(Copy, Debug, PartialEq, Eq, Structural, Hash)]
pub struct Span {
    pub start: usize,
    pub end: usize,
    pub source_id: u64,
}

impl Clone for Span {
    fn clone(&self) -> (res: Self)
        ensures
            res == *self,
    {
        Span { start: self.start, end: self.end, source_id: self.source_id }
    }
}

impl Span {
    /// The span `start..end` of source `source_id`.
    pub fn new(start: usize, end: usize, source_id: u64) -> (span: Span)
        ensures
            span == (Span { start, end, source_id }),
    {
        Span { start, end, source_id }
    }
}

/// What an identifier key is in contracts: the name as a sequence of
/// characters, and the span of the occurrence.
pub struct KeyView {
    pub name: Seq<char>,
    pub span: Span,
}

/// One occurrence of a name in source text.
#[derive(Debug)]
pub struct Ident {
    pub name: String,
    pub span: Span,
}

impl Ident {
    /// The key under which this occurrence is indexed.
    pub open spec fn key(&self) -> KeyView {
        KeyView { name: self.name@, span: self.span }
    }

    /// The occurrence of `name` at `span`.
    pub fn new(name: String, span: Span) -> (ident: Ident)
        ensures
            ident.name == name,
            ident.span == span,
    {
        Ident { name, span }
    }
}

impl Clone for Ident {
    fn clone(&self) -> (res: Self)
        ensures
            res == *self,
    {
        Ident { name: self.name.clone(), span: self.span }
    }
}

/// A path to a named item: the segments before the last, and the last.
#[derive(Debug)]
pub struct CallPath {
    pub prefixes: Vec<Ident>,
    pub suffix: Ident,
}

/// The address of an index entry: a name together with the span at which it
/// occurs. The same name at another span is another key.
#[derive(Debug)]
pub struct IdentKey {
    pub name: String,
    pub span: Span,
}

impl View for IdentKey {
    type V = KeyView;

    open spec fn view(&self) -> KeyView {
        KeyView { name: self.name@, span: self.span }
    }
}

impl Clone for IdentKey {
    fn clone(&self) -> (res: Self)
        ensures
            res == *self,
    {
        IdentKey { name: self.name.clone(), span: self.span }
    }
}

impl IdentKey {
    /// Whether two keys address the same entry: the same name at the same
    /// span.
    pub fn same(&self, other: &IdentKey) -> (res: bool)
        ensures
            res == (self@ == other@),
    {
        self.name == other.name && self.span.start == other.span.start && self.span.end
            == other.span.end && self.span.source_id == other.span.source_id
    }
}

/// The key of an identifier occurrence: its name and its own span.
pub fn to_ident_key(ident: &Ident) -> (key: IdentKey)
    ensures
        key@ == ident.key(),
{
    IdentKey { name: ident.name.clone(), span: ident.span }
}

/// Two occurrences have the same key exactly when they agree in name and in
/// span; the same name at two spans gives two keys.
pub proof fn key_distinguishes_occurrences(a: Ident, b: Ident)
    ensures
        (a.key() == b.key()) <==> (a.name@ == b.name@ && a.span == b.span),
{
}

} // verus!
