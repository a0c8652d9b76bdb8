use vstd::prelude::*;

use crate::error::XmlError;
use crate::node::{kept_children, XmlNode};

verus! {

/// The visitor a deserializable type supplies: it consumes one node, or a run
/// of children, into an accumulator, and finally yields the typed value. Each
/// implementor pins its behaviour down through the relation spec functions
/// below, which the method contracts tie to the executable code.
pub trait XmlVisitor: Sized {
    type Value;

    /// Relates the accumulator before and after a successful node visit.
    spec fn node_ok(pre: Self, node: XmlNode, post: Self) -> bool;

    /// Which errors a node visit may fail with, from a given state, and what
    /// the accumulator may look like afterwards.
    spec fn node_err(pre: Self, node: XmlNode, post: Self, e: XmlError) -> bool;

    /// Relates the accumulator before and after a successful children visit.
    spec fn children_ok(pre: Self, children: Seq<XmlNode>, post: Self) -> bool;

    /// Which errors a children visit may fail with, from a given state, and
    /// what the accumulator may look like afterwards.
    spec fn children_err(pre: Self, children: Seq<XmlNode>, post: Self, e: XmlError) -> bool;

    /// Which values finishing may produce from a final accumulator state.
    spec fn finish_ok(pre: Self, value: Self::Value) -> bool;

    /// Which errors finishing may fail with, from a final accumulator state.
    spec fn finish_err(pre: Self, e: XmlError) -> bool;

    /// Consume one candidate node into the accumulator.
    fn visit_node(&mut self, node: &XmlNode) -> (r: Result<(), XmlError>)
        ensures
            match r {
                Ok(_) => Self::node_ok(*old(self), *node, *final(self)),
                Err(e) => Self::node_err(*old(self), *node, *final(self), e),
            },
    ;

    /// Consume a flat run of child nodes into the accumulator.
    fn visit_children(&mut self, children: &[XmlNode]) -> (r: Result<(), XmlError>)
        ensures
            match r {
                Ok(_) => Self::children_ok(*old(self), children@, *final(self)),
                Err(e) => Self::children_err(*old(self), children@, *final(self), e),
            },
    ;

    /// Turn the accumulator into the finished value, or fail if required
    /// state is missing.
    fn finish(self) -> (r: Result<Self::Value, XmlError>)
        ensures
            match r {
                Ok(v) => Self::finish_ok(self, v),
                Err(e) => Self::finish_err(self, e),
            },
    ;
}

/// Drives a visitor over the subtree rooted at one node: the node is visited
/// exactly once, then the visitor is finished.
pub struct NodeDeserializer<'n> {
    pub root: &'n XmlNode,
}

impl<'n> NodeDeserializer<'n> {
    pub fn new(root: &'n XmlNode) -> (r: Self)
        ensures
            r.root == root,
    {
        NodeDeserializer { root }
    }

    pub fn deserialize<V: XmlVisitor>(self, visitor: V) -> (r: Result<V::Value, XmlError>)
        ensures
            match r {
                Ok(v) => exists|mid: V|
                    #[trigger] V::node_ok(visitor, *self.root, mid) && V::finish_ok(mid, v),
                Err(e) => (exists|vpost: V|
                    #[trigger] V::node_err(visitor, *self.root, vpost, e)) || exists|mid: V|
                    #[trigger] V::node_ok(visitor, *self.root, mid) && V::finish_err(mid, e),
            },
    {
        let ghost pre = visitor;
        let mut visitor = visitor;
        match visitor.visit_node(self.root) {
            Ok(_) => {},
            Err(e) => {
                return Err(e);
            },
        }
        visitor.finish()
    }
}

/// The per-type deserialization contract: a type names its visitor, says how
/// a fresh visitor starts, and which values deserialization may yield.
pub trait XmlDeserialize: Sized {
    type Visitor: XmlVisitor<Value = Self>;

    /// Accumulator states a fresh visitor may start in.
    spec fn initial(v: Self::Visitor) -> bool;

    /// Which values deserializing one node may yield.
    spec fn node_result_ok(node: XmlNode, v: Self) -> bool;

    /// Which errors deserializing one node may fail with.
    spec fn node_result_err(node: XmlNode, e: XmlError) -> bool;

    /// Which values deserializing a filtered child list may yield.
    spec fn children_result_ok(children: Seq<XmlNode>, v: Self) -> bool;

    /// Which errors deserializing a filtered child list may fail with.
    spec fn children_result_err(children: Seq<XmlNode>, e: XmlError) -> bool;

    /// A fresh visitor that will build `Self`.
    fn visitor() -> (r: Self::Visitor)
        ensures
            Self::initial(r),
    ;

    /// Deserialize the subtree rooted at one node.
    fn from_node(node: &XmlNode) -> (r: Result<Self, XmlError>)
        ensures
            match r {
                Ok(v) => Self::node_result_ok(*node, v),
                Err(e) => Self::node_result_err(*node, e),
            },
    ;

    /// Build the value from an element's children; only elements and text
    /// nodes take part, per the engine's filtering contract.
    fn from_children(children: &[XmlNode]) -> (r: Result<Self, XmlError>)
        ensures
            match r {
                Ok(v) => Self::children_result_ok(kept_children(children@), v),
                Err(e) => Self::children_result_err(kept_children(children@), e),
            },
    ;
}

} // verus!
