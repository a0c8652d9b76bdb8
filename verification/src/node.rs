use vstd::prelude::*;

verus! {

/// An attribute as the raw parser reports it: name, value, and the namespace
/// URI it is qualified with, if any.
#[derive(Debug)]
pub struct RawAttribute {
    pub name: String,
    pub value: String,
    pub namespace_uri: Option<String>,
}

/// An element of the parsed tree: local name, the namespace URI the name
/// resolved to, the attributes present, the namespace URIs declared on this
/// very element (document order, duplicates kept), and the child nodes.
#[derive(Debug)]
pub struct ElementNode {
    pub local_name: String,
    pub namespace_uri: Option<String>,
    pub attributes: Vec<RawAttribute>,
    pub namespace_decls: Vec<String>,
    pub children: Vec<XmlNode>,
}

/// The library's view of one parsed XML node.
#[derive(Debug)]
pub enum XmlNode {
    Element(ElementNode),
    Text(String),
    /// A comment or processing instruction; never part of a tag's content.
    Other,
}

/// Whether a node takes part in a tag's content: elements and text only.
pub open spec fn keepable(n: XmlNode) -> bool {
    n is Element || n is Text
}

/// The children a tag's content value is derived from, with comments and
/// processing instructions filtered out.
pub open spec fn kept_children(s: Seq<XmlNode>) -> Seq<XmlNode> {
    s.filter(|n: XmlNode| keepable(n))
}

/// The namespace URIs a node declares itself; nodes other than elements
/// declare none.
pub open spec fn spec_decl_uris(node: XmlNode) -> Seq<String> {
    match node {
        XmlNode::Element(en) => en.namespace_decls@,
        _ => Seq::empty(),
    }
}

/// The namespace URI a node's own name resolved to, if any.
pub open spec fn spec_name_uri(node: XmlNode) -> Option<String> {
    match node {
        XmlNode::Element(en) => en.namespace_uri,
        _ => None,
    }
}

/// The concatenated character content of the text nodes of a sequence.
pub open spec fn spec_texts(s: Seq<XmlNode>) -> Seq<char>
    decreases s.len(),
{
    if s.len() == 0 {
        Seq::empty()
    } else {
        spec_texts(s.drop_last()) + (match s.last() {
            XmlNode::Text(t) => t@,
            _ => Seq::<char>::empty(),
        })
    }
}

/// Filtering the comments and processing instructions out of a child list
/// does not change its text content.
pub proof fn lemma_texts_of_kept(s: Seq<XmlNode>)
    ensures
        spec_texts(kept_children(s)) == spec_texts(s),
    decreases s.len(),
{
    reveal(Seq::filter);
    if s.len() == 0 {
        assert(kept_children(s) == Seq::<XmlNode>::empty());
    } else {
        lemma_texts_of_kept(s.drop_last());
        if keepable(s.last()) {
            assert(kept_children(s) == kept_children(s.drop_last()).push(s.last()));
            assert(kept_children(s).drop_last() == kept_children(s.drop_last()));
            assert(kept_children(s).last() == s.last());
        } else {
            assert(kept_children(s) == kept_children(s.drop_last()));
            assert(spec_texts(s) == spec_texts(s.drop_last()));
        }
    }
}

} // verus!
