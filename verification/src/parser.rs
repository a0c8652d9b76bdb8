use vstd::prelude::*;

use crate::error::XmlError;
use crate::node::{ElementNode, RawAttribute, XmlNode};
use crate::text::str_eq;

verus! {

#[verifier::external_type_specification]
#[verifier::external_body]
pub struct ExDocument<'input>(roxmltree::Document<'input>);

#[verifier::external_type_specification]
#[verifier::external_body]
pub struct ExNode<'a, 'input: 'a>(roxmltree::Node<'a, 'input>);

/// How deeply nested a document this layer accepts. The underlying parser
/// indexes nodes by `u32`, so no tree it can represent nests this deeply.
pub const DEPTH_LIMIT: u32 = u32::MAX;

/// Relies on roxmltree::Document::parse: parses XML text into a document
/// tree, or reports why the text is not well-formed XML; every failure is
/// carried over as the parse-failure variant.
#[verifier::external_body]
fn parse_document(text: &str) -> (r: Result<roxmltree::Document<'_>, XmlError>)
    ensures
        r matches Err(e) ==> e is ParseFailure,
{
    match roxmltree::Document::parse(text) {
        Ok(d) => Ok(d),
        Err(e) => Err(XmlError::ParseFailure(format!("{}", e))),
    }
}

/// Relies on roxmltree::Document::root_element: the document's root element.
#[verifier::external_body]
fn doc_root_element<'a, 'input>(doc: &'a roxmltree::Document<'input>) -> (r: roxmltree::Node<
    'a,
    'input,
>) {
    doc.root_element()
}

/// Relies on roxmltree::Node::is_element.
#[verifier::external_body]
fn node_is_element(node: &roxmltree::Node<'_, '_>) -> (r: bool) {
    node.is_element()
}

/// Relies on roxmltree::Node::is_text.
#[verifier::external_body]
fn node_is_text(node: &roxmltree::Node<'_, '_>) -> (r: bool) {
    node.is_text()
}

/// Relies on roxmltree::Node::tag_name and ExpandedName::name: the local
/// part of the node's name.
#[verifier::external_body]
fn node_local_name(node: &roxmltree::Node<'_, '_>) -> (r: String) {
    node.tag_name().name().to_owned()
}

/// Relies on roxmltree::Node::tag_name and ExpandedName::namespace: the
/// namespace URI the node's name resolved to, if any.
#[verifier::external_body]
fn node_namespace_uri(node: &roxmltree::Node<'_, '_>) -> (r: Option<String>) {
    node.tag_name().namespace().map(|s: &str| s.to_owned())
}

/// Relies on roxmltree::Node::text: the node's own text, empty when none.
#[verifier::external_body]
fn node_text(node: &roxmltree::Node<'_, '_>) -> (r: String) {
    node.text().unwrap_or("").to_owned()
}

/// Relies on roxmltree::Node::attributes, and Attribute's name, value and
/// namespace accessors: the attributes present on the node, in order.
#[verifier::external_body]
fn node_attributes(node: &roxmltree::Node<'_, '_>) -> (r: Vec<RawAttribute>) {
    node.attributes().map(|a| RawAttribute {
        name: a.name().to_owned(),
        value: a.value().to_owned(),
        namespace_uri: a.namespace().map(|s: &str| s.to_owned()),
    }).collect()
}

/// Relies on roxmltree::Node::namespaces, and Namespace's name and uri: the
/// `(prefix, uri)` namespace bindings in scope on this node, in tree order —
/// the node's own declarations followed by the non-shadowed inherited ones.
/// A default binding carries the empty prefix.
#[verifier::external_body]
fn node_namespace_pairs(node: &roxmltree::Node<'_, '_>) -> (r: Vec<(String, String)>) {
    node.namespaces().map(|ns| (
        ns.name().unwrap_or("").to_owned(),
        ns.uri().to_owned(),
    )).collect()
}

/// Whether a `(prefix, uri)` binding occurs in a list of bindings.
pub open spec fn spec_pair_in(s: Seq<(String, String)>, pfx: Seq<char>, uri: Seq<char>) -> bool {
    exists|j: int| 0 <= j < s.len() && (#[trigger] s[j]).0@ == pfx && s[j].1@ == uri
}

/// The URIs of the bindings in `pairs` that are not bindings of the parent's
/// scope, in order: the element's own declarations, since a parsed element's
/// scope is its own declarations plus its parent's. A redeclaration identical
/// to an inherited binding changes nothing in scope and counts as inherited.
pub open spec fn spec_own_uris(
    pairs: Seq<(String, String)>,
    parent: Seq<(String, String)>,
) -> Seq<Seq<char>>
    decreases pairs.len(),
{
    if pairs.len() == 0 {
        Seq::empty()
    } else {
        spec_own_uris(pairs.drop_last(), parent) + (if spec_pair_in(
            parent,
            pairs.last().0@,
            pairs.last().1@,
        ) {
            Seq::<Seq<char>>::empty()
        } else {
            seq![pairs.last().1@]
        })
    }
}

/// Whether a `(prefix, uri)` binding occurs in a list of bindings.
fn pair_in(list: &Vec<(String, String)>, prefix: &str, uri: &str) -> (r: bool)
    ensures
        r == spec_pair_in(list@, prefix@, uri@),
{
    let n = list.len();
    let mut j: usize = 0;
    while j < n
        invariant
            j <= n,
            n == list@.len(),
            forall|l: int| 0 <= l < j ==> !((#[trigger] list@[l]).0@ == prefix@ && list@[l].1@ == uri@),
        decreases n - j,
    {
        let pair = &list[j];
        if str_eq(pair.0.as_str(), prefix) && str_eq(pair.1.as_str(), uri) {
            return true;
        }
        j += 1;
    }
    false
}

/// The namespace URIs an element declares itself: its in-scope bindings with
/// the parent's scope subtracted.
fn own_decl_uris(pairs: &Vec<(String, String)>, parent: &Vec<(String, String)>) -> (r: Vec<String>)
    ensures
        r@.map_values(|u: String| u@) == spec_own_uris(pairs@, parent@),
{
    let mut r: Vec<String> = Vec::new();
    let n = pairs.len();
    let mut i: usize = 0;
    while i < n
        invariant
            i <= n,
            n == pairs@.len(),
            r@.map_values(|u: String| u@) == spec_own_uris(pairs@.subrange(0, i as int), parent@),
        decreases n - i,
    {
        let ghost prev = r@;
        let pair = &pairs[i];
        let inherited = pair_in(parent, pair.0.as_str(), pair.1.as_str());
        if !inherited {
            r.push(pair.1.clone());
        }
        proof {
            let pfx = pairs@.subrange(0, i as int);
            let pfx1 = pairs@.subrange(0, i as int + 1);
            assert(pfx1.drop_last() =~= pfx);
            assert(pfx1.last() == pairs@[i as int]);
            if inherited {
                assert(spec_own_uris(pfx1, parent@) =~= spec_own_uris(pfx, parent@));
            } else {
                assert(r@ == prev.push(pairs@[i as int].1));
                assert(r@.map_values(|u: String| u@) =~= prev.map_values(|u: String| u@).push(
                    pairs@[i as int].1@,
                ));
                assert(spec_own_uris(pfx1, parent@) =~= spec_own_uris(pfx, parent@).push(
                    pairs@[i as int].1@,
                ));
            }
        }
        i += 1;
    }
    proof {
        assert(pairs@.subrange(0, n as int) =~= pairs@);
    }
    r
}

/// Relies on roxmltree::Node::children: how many child nodes the node has.
#[verifier::external_body]
fn node_children_count(node: &roxmltree::Node<'_, '_>) -> (r: usize) {
    node.children().count()
}

/// Relies on roxmltree::Node::children: the child node at one position, in
/// document order.
#[verifier::external_body]
fn node_child<'a, 'input>(node: &roxmltree::Node<'a, 'input>, index: usize) -> (r: Option<
    roxmltree::Node<'a, 'input>,
>) {
    node.children().nth(index)
}

/// Copy one parsed subtree into the library's owned node model, keeping
/// elements, text, and the place of comments and processing instructions.
/// `scope` is the enclosing element's in-scope bindings; subtracting it
/// leaves exactly the namespace declarations this element carries itself.
fn convert_node(
    node: &roxmltree::Node<'_, '_>,
    depth: u32,
    scope: &Vec<(String, String)>,
) -> (r: Result<XmlNode, XmlError>)
    ensures
        r matches Err(e) ==> e is ParseFailure,
    decreases depth,
{
    if node_is_element(node) {
        if depth == 0 {
            return Err(XmlError::ParseFailure("document nested too deeply".to_owned()));
        }
        let local_name = node_local_name(node);
        let namespace_uri = node_namespace_uri(node);
        let attributes = node_attributes(node);
        let pairs = node_namespace_pairs(node);
        let namespace_decls = own_decl_uris(&pairs, scope);
        let count = node_children_count(node);
        let mut children: Vec<XmlNode> = Vec::new();
        let mut i: usize = 0;
        while i < count
            invariant
                depth >= 1,
            decreases count - i,
        {
            match node_child(node, i) {
                Some(c) => {
                    match convert_node(&c, depth - 1, &pairs) {
                        Ok(k) => {
                            children.push(k);
                        },
                        Err(e) => {
                            return Err(e);
                        },
                    }
                },
                None => {},
            }
            i += 1;
        }
        Ok(
            XmlNode::Element(
                ElementNode { local_name, namespace_uri, attributes, namespace_decls, children },
            ),
        )
    } else if node_is_text(node) {
        Ok(XmlNode::Text(node_text(node)))
    } else {
        Ok(XmlNode::Other)
    }
}

/// Parse raw XML text into the library's node model, rooted at the
/// document's root element. The raw tokenizing is the external parser's
/// work; everything downstream of the returned node is this library's. The
/// only failures are the parser's own, reported as the parse-failure kind.
pub fn parse(xml: &str) -> (r: Result<XmlNode, XmlError>)
    ensures
        r matches Err(e) ==> e is ParseFailure,
{
    let doc = match parse_document(xml) {
        Ok(d) => d,
        Err(e) => {
            return Err(e);
        },
    };
    let root = doc_root_element(&doc);
    let scope: Vec<(String, String)> = Vec::new();
    convert_node(&root, DEPTH_LIMIT, &scope)
}

} // verus!
