//! Structured data as it stands in memory before it becomes a typed value.

use vstd::prelude::*;

verus! {

/// The shape of a node, without what it holds.
#[derive(Debug, Clone, Copy, PartialEq, Eq, Structural)]
pub enum Kind {
    Null,
    Bool,
    Int,
    Text,
    List,
    Object,
}

/// One parsed value: a scalar, a list, or a map whose entries keep the order
/// in which they were read.
#[derive(Debug, PartialEq, Eq)]
pub enum Node {
    Null,
    Bool(bool),
    Int(i64),
    Text(String),
    List(Vec<Node>),
    Object(Vec<(String, Node)>),
}

impl Node {
    /// The shape of this node.
    pub open spec fn spec_kind(&self) -> Kind {
        match *self {
            Node::Null => Kind::Null,
            Node::Bool(_) => Kind::Bool,
            Node::Int(_) => Kind::Int,
            Node::Text(_) => Kind::Text,
            Node::List(_) => Kind::List,
            Node::Object(_) => Kind::Object,
        }
    }

    /// The entries of a map in the order of traversal; no entries for any
    /// other node.
    pub open spec fn entries(self) -> Seq<(String, Node)> {
        match self {
            Node::Object(entries) => entries@,
            _ => Seq::empty(),
        }
    }

    /// The value under the first key: the one node that unwrapping looks at.
    /// `None` for an empty map and for a node that is no map.
    pub open spec fn wrapped(self) -> Option<Node> {
        if self is Object && self.entries().len() > 0 {
            Some(self.entries()[0].1)
        } else {
            None
        }
    }

    /// The shape of this node.
    #[verifier::when_used_as_spec(spec_kind)]
    pub fn kind(&self) -> (k: Kind)
        ensures
            k == self.spec_kind(),
    {
        match *self {
            Node::Null => Kind::Null,
            Node::Bool(_) => Kind::Bool,
            Node::Int(_) => Kind::Int,
            Node::Text(_) => Kind::Text,
            Node::List(_) => Kind::List,
            Node::Object(_) => Kind::Object,
        }
    }
}

} // verus!
