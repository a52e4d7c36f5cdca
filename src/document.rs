//! A KDL document as a plain tree: node names, positional arguments,
//! properties and children, each with the byte range it came from.

use vstd::prelude::*;
use crate::scalar::Scalar;

verus! {

/// A byte range of the source text.
#[derive(Clone, Copy, Debug, PartialEq, Eq, Structural)]
pub struct Span {
    pub start: usize,
    pub end: usize,
}

impl Span {
    pub fn new(start: usize, end: usize) -> (r: Span)
        ensures
            r.start == start,
            r.end == end,
    {
        Span { start, end }
    }
}

/// A literal value of the document. Numbers, integer or decimal, are read as
/// single-precision floats.
#[derive(Clone, Debug)]
pub enum Literal {
    Null,
    Bool(bool),
    Number(Scalar),
    Str(String),
}

/// An argument or property value, with where it stands.
#[derive(Clone, Debug)]
pub struct Value {
    pub literal: Literal,
    pub span: Span,
}

/// A `name=value` property of a node.
#[derive(Clone, Debug)]
pub struct Property {
    pub name: String,
    pub value: Value,
    pub span: Span,
}

/// A node: its name, positional arguments, properties and child nodes.
#[derive(Debug)]
pub struct Node {
    pub name: String,
    pub arguments: Vec<Value>,
    pub properties: Vec<Property>,
    pub children: Vec<Node>,
    pub span: Span,
}

impl Node {
    /// A node without arguments, properties or children.
    pub fn new(name: String, span: Span) -> (r: Node)
        ensures
            r.name@ == name@,
            r.arguments@.len() == 0,
            r.properties@.len() == 0,
            r.children@.len() == 0,
            r.span == span,
    {
        Node { name, arguments: Vec::new(), properties: Vec::new(), children: Vec::new(), span }
    }

    pub fn push_argument(&mut self, value: Value)
        ensures
            final(self).arguments@ == old(self).arguments@.push(value),
            final(self).name@ == old(self).name@,
            final(self).properties@ == old(self).properties@,
            final(self).children@ == old(self).children@,
            final(self).span == old(self).span,
    {
        self.arguments.push(value);
    }

    pub fn push_property(&mut self, property: Property)
        ensures
            final(self).properties@ == old(self).properties@.push(property),
            final(self).name@ == old(self).name@,
            final(self).arguments@ == old(self).arguments@,
            final(self).children@ == old(self).children@,
            final(self).span == old(self).span,
    {
        self.properties.push(property);
    }

    pub fn push_child(&mut self, child: Node)
        ensures
            final(self).children@ == old(self).children@.push(child),
            final(self).name@ == old(self).name@,
            final(self).arguments@ == old(self).arguments@,
            final(self).properties@ == old(self).properties@,
            final(self).span == old(self).span,
    {
        self.children.push(child);
    }
}

/// Whether a string holds exactly the characters of `text`.
pub fn text_is(s: &String, text: &str) -> (r: bool)
    ensures
        r == (s@ == text@),
{
    let a = s.as_str();
    let n = a.unicode_len();
    if n != text.unicode_len() {
        return false;
    }
    let mut i: usize = 0;
    while i < n
        invariant
            a@ == s@,
            n == s@.len(),
            n == text@.len(),
            i <= n,
            forall|j: int| 0 <= j < i ==> s@[j] == text@[j],
        decreases n - i,
    {
        if a.get_char(i) != text.get_char(i) {
            return false;
        }
        i = i + 1;
    }
    assert(s@ =~= text@);
    true
}

} // verus!
