use core::marker::PhantomData;

use vstd::prelude::*;

use crate::attribute::{spec_raw_malformed, spec_raw_parses_to, Attribute};
use crate::deserialize::{NodeDeserializer, XmlDeserialize, XmlVisitor};
use crate::element::{Content, Element};
use crate::error::XmlError;
use crate::namespace::{
    all_decls_known, first_unknown_decl, lemma_lookup_canonical, spec_alias, spec_decl_kinds, spec_lookup, spec_url,
    Namespace, NamespaceDeclaration,
};
use crate::node::{kept_children, lemma_texts_of_kept, spec_decl_uris, spec_texts, XmlNode};
use crate::text::str_eq;

verus! {

/// The compile-time identity of a tag: the expected local name and, where the
/// protocol requires one, the expected namespace. A marker type per distinct
/// tag shape implements it; the markers carry no runtime state.
pub trait TagName {
    /// The expected local name.
    spec fn spec_local_name() -> Seq<char>;

    /// The expected namespace, if the binding names one.
    spec fn spec_namespace() -> Option<Namespace>;

    /// The expected local name.
    fn local_name() -> (r: &'static str)
        ensures
            r@ == Self::spec_local_name(),
    ;

    /// The expected namespace, if the binding names one.
    fn namespace() -> (r: Option<Namespace>)
        ensures
            r == Self::spec_namespace(),
    ;
}

/// A content value a tag can carry: it appends itself (text or children) to
/// the element the tag has built, after the tag's namespace declarations and
/// attributes — an ordering the value may rely on.
pub trait TagValue: Sized {
    /// Relates the element before and after the value appended itself.
    spec fn append_spec(self, pre: Element, post: Element) -> bool;

    /// Append this value's content to the element.
    fn append_to_element(self, element: Element) -> (r: Element)
        requires
            element.content is Empty,
        ensures
            Self::append_spec(self, element, r),
    ;
}

/// Plain character content of a tag.
#[derive(Debug, PartialEq, Eq)]
pub struct Text {
    pub content: String,
}

impl Text {
    /// A text value with the given content.
    pub fn new(content: &str) -> (r: Self)
        ensures
            r.content@ == content@,
    {
        Text { content: content.to_owned() }
    }
}

impl TagValue for Text {
    open spec fn append_spec(self, pre: Element, post: Element) -> bool {
        &&& post.content matches Content::Text(t) && t@ == self.content@
        &&& post.name == pre.name
        &&& post.namespace == pre.namespace
        &&& post.namespace_decls == pre.namespace_decls
        &&& post.attributes == pre.attributes
    }

    fn append_to_element(self, element: Element) -> (r: Element) {
        element.set_text(self.content.as_str())
    }
}

/// Whether the declaration pairs of an element spell out exactly the given
/// kinds: same order, each rendered as its canonical URI and default alias.
pub open spec fn spec_decl_pairs_match(kinds: Seq<Namespace>, pairs: Seq<(String, String)>) -> bool {
    &&& pairs.len() == kinds.len()
    &&& forall|i: int|
        0 <= i < kinds.len() ==> (#[trigger] pairs[i].0@) == spec_url(kinds[i]) && pairs[i].1@
            == spec_alias(kinds[i])
}

/// Whether an element is what serializing the tag yields: the name and
/// namespace of the binding, one declaration per declared kind in order, the
/// tag's attributes in order, and then the content value appended.
pub open spec fn spec_tag_serializes<V: TagValue, N: TagName>(t: Tag<V, N>, e: Element) -> bool {
    exists|mid: Element|
        {
            &&& mid.name@ == N::spec_local_name()
            &&& mid.namespace == N::spec_namespace()
            &&& spec_decl_pairs_match(t.namespaces_declaration@, mid.namespace_decls@)
            &&& mid.attributes@ == t.attributes@
            &&& mid.content is Empty
            &&& #[trigger] V::append_spec(t.value, mid, e)
        }
}

/// The typed tag container: one content value bound to a compile-time tag
/// identity, plus the attributes and namespace declarations of its element.
#[derive(Debug, PartialEq, Eq)]
pub struct Tag<V: TagValue, N: TagName> {
    pub value: V,
    pub attributes: Vec<Attribute>,
    /// The namespaces this tag declares, i.e. its `xmlns:alias="uri"`
    /// bindings, in document order.
    pub namespaces_declaration: NamespaceDeclaration,
    pub name_binding: PhantomData<N>,
}

impl<V: TagValue, N: TagName> Tag<V, N> {
    /// A tag around one content value, with no attributes or declarations.
    pub fn new(value: V) -> (r: Self)
        ensures
            r.value == value,
            r.attributes@ == Seq::<Attribute>::empty(),
            r.namespaces_declaration@ == Seq::<Namespace>::empty(),
    {
        Tag {
            value,
            attributes: Vec::new(),
            namespaces_declaration: NamespaceDeclaration::new(),
            name_binding: PhantomData,
        }
    }

    /// Returns the tag unchanged; the parameter only lets the compiler infer
    /// the name binding at a `Tag::new` call site.
    pub fn with_name(self, _name: N) -> (r: Self)
        ensures
            r == self,
    {
        self
    }

    /// The tag, with one more attribute appended.
    pub fn with_attribute(self, attribute: Attribute) -> (r: Self)
        ensures
            r.value == self.value,
            r.attributes@ == self.attributes@.push(attribute),
            r.namespaces_declaration == self.namespaces_declaration,
    {
        let Tag { value, attributes, namespaces_declaration, name_binding } = self;
        let mut attributes = attributes;
        attributes.push(attribute);
        Tag { value, attributes, namespaces_declaration, name_binding }
    }

    /// The tag, with one more namespace declaration appended; duplicates are
    /// kept exactly as declared.
    pub fn with_declaration(self, declaration: Namespace) -> (r: Self)
        ensures
            r.value == self.value,
            r.attributes == self.attributes,
            r.namespaces_declaration@ == self.namespaces_declaration@.push(declaration),
    {
        let Tag { value, attributes, namespaces_declaration, name_binding } = self;
        let mut namespaces_declaration = namespaces_declaration;
        namespaces_declaration.push(declaration);
        Tag { value, attributes, namespaces_declaration, name_binding }
    }

    /// The compile-time-bound expected local name, for diagnostics.
    pub fn name(&self) -> (r: &'static str)
        ensures
            r@ == N::spec_local_name(),
    {
        N::local_name()
    }

    /// Build the generic element this tag serializes to: the bound name and
    /// namespace, then one declaration per declared kind in document order,
    /// then the attributes in insertion order, then the content value.
    pub fn into_element(self) -> (r: Element)
        ensures
            spec_tag_serializes(self, r),
    {
        let ghost gt = self;
        let Tag { value, attributes, namespaces_declaration, name_binding: _ } = self;

        let mut element = Element::new(N::local_name());
        match N::namespace() {
            Some(ns) => {
                element = element.set_namespace(ns);
            },
            None => {},
        }

        let kinds = namespaces_declaration.namespaces();
        let ghost gkinds = kinds@;
        let n = kinds.len();
        let mut i: usize = 0;
        while i < n
            invariant
                i <= n,
                n == gkinds.len(),
                gkinds == kinds@,
                element.name@ == N::spec_local_name(),
                element.namespace == N::spec_namespace(),
                spec_decl_pairs_match(gkinds.subrange(0, i as int), element.namespace_decls@),
                element.attributes@ == Seq::<Attribute>::empty(),
                element.content is Empty,
            decreases n - i,
        {
            let k = kinds[i];
            let pair = k.as_tuple();
            element = element.add_namespace_declaration(pair.0, pair.1);
            proof {
                let pfx1 = gkinds.subrange(0, i as int + 1);
                assert(pfx1.drop_last() =~= gkinds.subrange(0, i as int));
                assert(pfx1.last() == gkinds[i as int]);
                assert(element.namespace_decls@.drop_last() == element.namespace_decls@.subrange(
                    0,
                    element.namespace_decls@.len() - 1,
                ));
                assert forall|j: int|
                    0 <= j < pfx1.len() implies (#[trigger] element.namespace_decls@[j].0@)
                    == spec_url(pfx1[j]) && element.namespace_decls@[j].1@ == spec_alias(
                    pfx1[j],
                ) by {
                    if j < i {
                        assert(element.namespace_decls@[j] == element.namespace_decls@.push(
                            element.namespace_decls@.last(),
                        )[j]);
                    }
                }
            }
            i += 1;
        }
        proof {
            assert(gkinds.subrange(0, n as int) =~= gkinds);
        }

        let ghost tattrs = attributes@;
        let mut attributes = attributes;
        while attributes.len() > 0
            invariant
                element.name@ == N::spec_local_name(),
                element.namespace == N::spec_namespace(),
                spec_decl_pairs_match(gt.namespaces_declaration@, element.namespace_decls@),
                element.attributes@ + attributes@ == tattrs,
                element.content is Empty,
            decreases attributes.len(),
        {
            let a = attributes.remove(0);
            element = element.add_attribute(a);
            proof {
                assert(element.attributes@ + attributes@ =~= tattrs);
            }
        }
        proof {
            assert(element.attributes@ =~= tattrs);
        }

        let ghost mid = element;
        let r = value.append_to_element(element);
        proof {
            assert(V::append_spec(gt.value, mid, r));
        }
        r
    }
}


/// Accumulates the character content of the text nodes it is shown.
pub struct TextVisitor {
    pub content: String,
}

impl XmlVisitor for TextVisitor {
    type Value = Text;

    open spec fn node_ok(pre: Self, node: XmlNode, post: Self) -> bool {
        node matches XmlNode::Text(t) && post.content@ == pre.content@ + t@
    }

    open spec fn node_err(pre: Self, node: XmlNode, post: Self, e: XmlError) -> bool {
        &&& post == pre
        &&& !(node is Text)
        &&& e == XmlError::StructuralMismatch
    }

    open spec fn children_ok(pre: Self, children: Seq<XmlNode>, post: Self) -> bool {
        post.content@ == pre.content@ + spec_texts(children)
    }

    open spec fn children_err(pre: Self, children: Seq<XmlNode>, post: Self, e: XmlError) -> bool {
        false
    }

    open spec fn finish_ok(pre: Self, value: Text) -> bool {
        value.content@ == pre.content@
    }

    open spec fn finish_err(pre: Self, e: XmlError) -> bool {
        false
    }

    fn visit_node(&mut self, node: &XmlNode) -> (r: Result<(), XmlError>) {
        match node {
            XmlNode::Text(t) => {
                self.content.append(t.as_str());
                Ok(())
            },
            _ => Err(XmlError::StructuralMismatch),
        }
    }

    fn visit_children(&mut self, children: &[XmlNode]) -> (r: Result<(), XmlError>) {
        let ghost pre = self.content@;
        let ghost kids = children@;
        let n = children.len();
        let mut i: usize = 0;
        while i < n
            invariant
                i <= n,
                n == kids.len(),
                kids == children@,
                self.content@ == pre + spec_texts(kids.subrange(0, i as int)),
            decreases n - i,
        {
            match &children[i] {
                XmlNode::Text(t) => {
                    self.content.append(t.as_str());
                },
                _ => {},
            }
            proof {
                let pfx1 = kids.subrange(0, i as int + 1);
                assert(pfx1.drop_last() =~= kids.subrange(0, i as int));
                assert(pfx1.last() == kids[i as int]);
            }
            i += 1;
        }
        proof {
            assert(kids.subrange(0, n as int) =~= kids);
        }
        Ok(())
    }

    fn finish(self) -> (r: Result<Text, XmlError>) {
        Ok(Text { content: self.content })
    }
}

impl XmlDeserialize for Text {
    type Visitor = TextVisitor;

    open spec fn initial(v: TextVisitor) -> bool {
        v.content@ == Seq::<char>::empty()
    }

    open spec fn node_result_ok(node: XmlNode, v: Self) -> bool {
        node matches XmlNode::Text(t) && v.content@ == t@
    }

    open spec fn node_result_err(node: XmlNode, e: XmlError) -> bool {
        !(node is Text) && e == XmlError::StructuralMismatch
    }

    open spec fn children_result_ok(children: Seq<XmlNode>, v: Self) -> bool {
        v.content@ == spec_texts(children)
    }

    open spec fn children_result_err(children: Seq<XmlNode>, e: XmlError) -> bool {
        false
    }

    fn visitor() -> (r: TextVisitor) {
        TextVisitor { content: String::new() }
    }

    fn from_node(node: &XmlNode) -> (r: Result<Self, XmlError>) {
        let v0 = Self::visitor();
        let ghost g0 = v0;
        let r = NodeDeserializer::new(node).deserialize(v0);
        proof {
            match &r {
                Ok(v) => {
                    let mid = choose|mid: TextVisitor|
                        #[trigger] TextVisitor::node_ok(g0, *node, mid) && TextVisitor::finish_ok(
                            mid,
                            *v,
                        );
                },
                Err(e) => {
                    if exists|vpost: TextVisitor|
                        #[trigger] TextVisitor::node_err(g0, *node, vpost, *e) {
                        let vpost = choose|vpost: TextVisitor|
                            #[trigger] TextVisitor::node_err(g0, *node, vpost, *e);
                    } else {
                        let mid = choose|mid: TextVisitor|
                            #[trigger] TextVisitor::node_ok(g0, *node, mid)
                                && TextVisitor::finish_err(mid, *e);
                        assert(false);
                    }
                },
            }
        }
        r
    }

    fn from_children(children: &[XmlNode]) -> (r: Result<Self, XmlError>) {
        let mut v0 = Self::visitor();
        let ghost g0 = v0;
        let r = match v0.visit_children(children) {
            Ok(_) => v0.finish(),
            Err(e) => Err(e),
        };
        proof {
            lemma_texts_of_kept(children@);
        }
        r
    }
}

/// Whether a run of raw attributes parses to exactly the given typed
/// attributes, with malformed ones skipped and order otherwise kept.
pub open spec fn spec_attrs_parse_to(
    raws: Seq<crate::node::RawAttribute>,
    attrs: Seq<Attribute>,
) -> bool
    decreases raws.len(),
{
    if raws.len() == 0 {
        attrs.len() == 0
    } else if spec_raw_malformed(raws.last()) {
        spec_attrs_parse_to(raws.drop_last(), attrs)
    } else {
        &&& attrs.len() > 0
        &&& spec_raw_parses_to(raws.last(), attrs.last())
        &&& spec_attrs_parse_to(raws.drop_last(), attrs.drop_last())
    }
}

/// Whether a node cannot supply the expected tag: it is not an element, or
/// its local name differs from the binding's.
pub open spec fn spec_tag_absent<N: TagName>(node: XmlNode) -> bool {
    match node {
        XmlNode::Element(en) => en.local_name@ != N::spec_local_name(),
        _ => true,
    }
}

/// Walks one candidate node for a tag: the content value is taken from the
/// node's filtered children when the local name matches, attributes are
/// collected with malformed ones skipped, and the node's own namespace
/// declarations are read, any unknown URI aborting the visit.
pub struct TagVisitor<V: TagValue, N: TagName> {
    pub tag: Option<V>,
    pub attributes: Vec<Attribute>,
    pub namespaces: NamespaceDeclaration,
    pub namespace: Option<Namespace>,
    pub name_binding: PhantomData<N>,
}

impl<V: TagValue + XmlDeserialize, N: TagName> XmlVisitor for TagVisitor<V, N> {
    type Value = Tag<V, N>;

    open spec fn node_ok(pre: Self, node: XmlNode, post: Self) -> bool {
        match node {
            XmlNode::Element(en) => {
                &&& (if en.local_name@ == N::spec_local_name() {
                    post.tag matches Some(v) && V::children_result_ok(
                        kept_children(en.children@),
                        v,
                    )
                } else {
                    post.tag == pre.tag
                })
                &&& post.attributes@.len() >= pre.attributes@.len()
                &&& post.attributes@.subrange(0, pre.attributes@.len() as int) == pre.attributes@
                &&& spec_attrs_parse_to(
                    en.attributes@,
                    post.attributes@.skip(pre.attributes@.len() as int),
                )
                &&& all_decls_known(en.namespace_decls@)
                &&& post.namespaces@ == spec_decl_kinds(en.namespace_decls@)
                &&& post.namespace == (match en.namespace_uri {
                    Some(u) => spec_lookup(u@),
                    None => None,
                })
            },
            _ => {
                &&& post.tag == pre.tag
                &&& post.attributes == pre.attributes
                &&& post.namespaces@ == Seq::<Namespace>::empty()
                &&& post.namespace is None
            },
        }
    }

    open spec fn node_err(pre: Self, node: XmlNode, post: Self, e: XmlError) -> bool {
        match node {
            XmlNode::Element(en) => {
                ||| {
                    &&& en.local_name@ == N::spec_local_name()
                    &&& V::children_result_err(kept_children(en.children@), e)
                    &&& post == pre
                }
                ||| {
                    &&& e matches XmlError::UnknownNamespace(s) && first_unknown_decl(
                        en.namespace_decls@,
                        s@,
                    )
                    &&& (if en.local_name@ == N::spec_local_name() {
                        post.tag matches Some(v) && V::children_result_ok(
                            kept_children(en.children@),
                            v,
                        )
                    } else {
                        post.tag == pre.tag
                    })
                    &&& post.attributes@.len() >= pre.attributes@.len()
                    &&& post.attributes@.subrange(0, pre.attributes@.len() as int)
                        == pre.attributes@
                    &&& spec_attrs_parse_to(
                        en.attributes@,
                        post.attributes@.skip(pre.attributes@.len() as int),
                    )
                    &&& post.namespaces == pre.namespaces
                    &&& post.namespace == pre.namespace
                }
            },
            _ => false,
        }
    }

    open spec fn children_ok(pre: Self, children: Seq<XmlNode>, post: Self) -> bool {
        false
    }

    open spec fn children_err(pre: Self, children: Seq<XmlNode>, post: Self, e: XmlError) -> bool {
        post == pre && e == XmlError::StructuralMismatch
    }

    open spec fn finish_ok(pre: Self, value: Tag<V, N>) -> bool {
        &&& pre.tag matches Some(v) && value.value == v
        &&& value.attributes == pre.attributes
        &&& value.namespaces_declaration == pre.namespaces
    }

    open spec fn finish_err(pre: Self, e: XmlError) -> bool {
        &&& pre.tag is None
        &&& e matches XmlError::TagNotFound(s) && s@ == N::spec_local_name()
    }

    fn visit_node(&mut self, node: &XmlNode) -> (r: Result<(), XmlError>) {
        if let XmlNode::Element(en) = node {
            if str_eq(en.local_name.as_str(), N::local_name()) {
                match V::from_children(en.children.as_slice()) {
                    Ok(v) => {
                        self.tag = Some(v);
                    },
                    Err(e) => {
                        return Err(e);
                    },
                }
            }
            let ghost raws = en.attributes@;
            let ghost pre_attrs = self.attributes@;
            let ghost tag_now = self.tag;
            let m = en.attributes.len();
            let mut i: usize = 0;
            while i < m
                invariant
                    i <= m,
                    m == raws.len(),
                    raws == en.attributes@,
                    self.tag == tag_now,
                    self.namespaces == old(self).namespaces,
                    self.namespace == old(self).namespace,
                    self.attributes@.len() >= pre_attrs.len(),
                    self.attributes@.subrange(0, pre_attrs.len() as int) == pre_attrs,
                    spec_attrs_parse_to(
                        raws.subrange(0, i as int),
                        self.attributes@.skip(pre_attrs.len() as int),
                    ),
                decreases m - i,
            {
                let ghost delta = self.attributes@.skip(pre_attrs.len() as int);
                match Attribute::from_raw(&en.attributes[i]) {
                    Ok(a) => {
                        self.attributes.push(a);
                        proof {
                            assert(self.attributes@.subrange(0, pre_attrs.len() as int)
                                =~= pre_attrs);
                            assert(self.attributes@.skip(pre_attrs.len() as int) =~= delta.push(
                                a,
                            ));
                        }
                    },
                    Err(_) => {},
                }
                proof {
                    let pfx1 = raws.subrange(0, i as int + 1);
                    assert(pfx1.drop_last() =~= raws.subrange(0, i as int));
                    assert(pfx1.last() == raws[i as int]);
                    let d1 = self.attributes@.skip(pre_attrs.len() as int);
                    if !spec_raw_malformed(raws[i as int]) {
                        assert(d1.drop_last() =~= delta);
                    }
                }
                i += 1;
            }
            proof {
                assert(raws.subrange(0, m as int) =~= raws);
            }
        }
        match NamespaceDeclaration::from_node(node) {
            Ok(d) => {
                self.namespaces = d;
            },
            Err(e) => {
                proof {
                    if !(*node is Element) {
                        assert(spec_decl_uris(*node) =~= Seq::<String>::empty());
                        assert(false);
                    }
                }
                return Err(e);
            },
        }
        match Namespace::from_node(node) {
            Ok(k) => {
                self.namespace = Some(k);
            },
            Err(_) => {
                self.namespace = None;
            },
        }
        proof {
            if !(*node is Element) {
                assert(spec_decl_uris(*node) =~= Seq::<String>::empty());
                assert(spec_decl_kinds(Seq::<String>::empty()) =~= Seq::<Namespace>::empty());
            }
        }
        Ok(())
    }

    fn visit_children(&mut self, children: &[XmlNode]) -> (r: Result<(), XmlError>) {
        Err(XmlError::StructuralMismatch)
    }

    fn finish(self) -> (r: Result<Tag<V, N>, XmlError>) {
        let TagVisitor { tag, attributes, namespaces, namespace: _, name_binding: _ } = self;
        match tag {
            Some(value) => Ok(
                Tag {
                    value,
                    attributes,
                    namespaces_declaration: namespaces,
                    name_binding: PhantomData,
                },
            ),
            None => Err(XmlError::TagNotFound(N::local_name().to_owned())),
        }
    }
}

impl<V: TagValue + XmlDeserialize, N: TagName> XmlDeserialize for Tag<V, N> {
    type Visitor = TagVisitor<V, N>;

    open spec fn initial(v: TagVisitor<V, N>) -> bool {
        &&& v.tag is None
        &&& v.attributes@ == Seq::<Attribute>::empty()
        &&& v.namespaces@ == Seq::<Namespace>::empty()
        &&& v.namespace is None
    }

    open spec fn node_result_ok(node: XmlNode, t: Self) -> bool {
        match node {
            XmlNode::Element(en) => {
                &&& en.local_name@ == N::spec_local_name()
                &&& V::children_result_ok(kept_children(en.children@), t.value)
                &&& spec_attrs_parse_to(en.attributes@, t.attributes@)
                &&& all_decls_known(en.namespace_decls@)
                &&& t.namespaces_declaration@ == spec_decl_kinds(en.namespace_decls@)
            },
            _ => false,
        }
    }

    open spec fn node_result_err(node: XmlNode, e: XmlError) -> bool {
        ||| (node matches XmlNode::Element(en) && en.local_name@ == N::spec_local_name()
            && V::children_result_err(kept_children(en.children@), e))
        ||| (e matches XmlError::UnknownNamespace(s) && first_unknown_decl(
            spec_decl_uris(node),
            s@,
        ))
        ||| (e matches XmlError::TagNotFound(s) && s@ == N::spec_local_name()
            && spec_tag_absent::<N>(node))
    }

    open spec fn children_result_ok(children: Seq<XmlNode>, t: Self) -> bool {
        false
    }

    open spec fn children_result_err(children: Seq<XmlNode>, e: XmlError) -> bool {
        e == XmlError::StructuralMismatch
    }

    fn visitor() -> (r: TagVisitor<V, N>) {
        TagVisitor {
            tag: None,
            attributes: Vec::new(),
            namespaces: NamespaceDeclaration::new(),
            namespace: None,
            name_binding: PhantomData,
        }
    }

    fn from_node(node: &XmlNode) -> (r: Result<Self, XmlError>) {
        let v0 = Self::visitor();
        let ghost g0 = v0;
        let r = NodeDeserializer::new(node).deserialize(v0);
        proof {
            match &r {
                Ok(t) => {
                    let mid = choose|mid: TagVisitor<V, N>|
                        #[trigger] TagVisitor::<V, N>::node_ok(g0, *node, mid)
                            && TagVisitor::<V, N>::finish_ok(mid, *t);
                    assert(t.attributes@.skip(0) =~= t.attributes@);
                },
                Err(e) => {
                    if exists|vpost: TagVisitor<V, N>|
                        #[trigger] TagVisitor::<V, N>::node_err(g0, *node, vpost, *e) {
                        let vpost = choose|vpost: TagVisitor<V, N>|
                            #[trigger] TagVisitor::<V, N>::node_err(g0, *node, vpost, *e);
                    } else {
                        let mid = choose|mid: TagVisitor<V, N>|
                            #[trigger] TagVisitor::<V, N>::node_ok(g0, *node, mid)
                                && TagVisitor::<V, N>::finish_err(mid, *e);
                        if !spec_tag_absent::<N>(*node) {
                            assert(mid.tag is Some);
                            assert(false);
                        }
                    }
                },
            }
        }
        r
    }

    fn from_children(children: &[XmlNode]) -> (r: Result<Self, XmlError>) {
        let mut v0 = Self::visitor();
        match v0.visit_children(children) {
            Ok(_) => v0.finish(),
            Err(e) => Err(e),
        }
    }
}

/// The WS-Addressing `Action` header tag.
#[derive(Debug, PartialEq, Eq)]
pub struct ActionTagName;

impl TagName for ActionTagName {
    open spec fn spec_local_name() -> Seq<char> {
        "Action"@
    }

    open spec fn spec_namespace() -> Option<Namespace> {
        Some(Namespace::WsAddressing)
    }

    fn local_name() -> (r: &'static str) {
        "Action"
    }

    fn namespace() -> (r: Option<Namespace>) {
        Some(Namespace::WsAddressing)
    }
}

/// The WS-Addressing `To` header tag.
#[derive(Debug, PartialEq, Eq)]
pub struct ToTagName;

impl TagName for ToTagName {
    open spec fn spec_local_name() -> Seq<char> {
        "To"@
    }

    open spec fn spec_namespace() -> Option<Namespace> {
        Some(Namespace::WsAddressing)
    }

    fn local_name() -> (r: &'static str) {
        "To"
    }

    fn namespace() -> (r: Option<Namespace>) {
        Some(Namespace::WsAddressing)
    }
}

/// The SOAP `Envelope` root tag.
#[derive(Debug, PartialEq, Eq)]
pub struct EnvelopeTagName;

impl TagName for EnvelopeTagName {
    open spec fn spec_local_name() -> Seq<char> {
        "Envelope"@
    }

    open spec fn spec_namespace() -> Option<Namespace> {
        Some(Namespace::Soap)
    }

    fn local_name() -> (r: &'static str) {
        "Envelope"
    }

    fn namespace() -> (r: Option<Namespace>) {
        Some(Namespace::Soap)
    }
}


/// Equality of attributes by what they say: name, value and namespace.
pub open spec fn spec_attr_eq(a: Attribute, b: Attribute) -> bool {
    &&& a.name@ == b.name@
    &&& a.value@ == b.value@
    &&& a.namespace == b.namespace
}

/// Whether a parsed node is a faithful re-parse of a rendered element that
/// holds text content: same local name, the namespace URI of the element's
/// kind, every attribute reproduced with its name, value and namespace URI,
/// the declarations' URIs in order, and the element's text as the node's
/// text content.
pub open spec fn spec_reparse_of(e: Element, n: XmlNode) -> bool {
    &&& n matches XmlNode::Element(en)
    &&& en.local_name@ == e.name@
    &&& (match (e.namespace, en.namespace_uri) {
        (Some(k), Some(u)) => u@ == spec_url(k),
        (None, None) => true,
        _ => false,
    })
    &&& en.attributes@.len() == e.attributes@.len()
    &&& (forall|i: int|
        0 <= i < e.attributes@.len() ==> {
            &&& (#[trigger] en.attributes@[i]).name@ == e.attributes@[i].name@
            &&& en.attributes@[i].value@ == e.attributes@[i].value@
            &&& (match e.attributes@[i].namespace {
                Some(k) => en.attributes@[i].namespace_uri matches Some(u) && u@ == spec_url(k),
                None => en.attributes@[i].namespace_uri is None,
            })
        })
    &&& en.namespace_decls@.len() == e.namespace_decls@.len()
    &&& (forall|i: int|
        0 <= i < e.namespace_decls@.len() ==> (#[trigger] en.namespace_decls@[i])@
            == e.namespace_decls@[i].0@)
    &&& (e.content matches Content::Text(t) && spec_texts(en.children@) == t@)
}

/// A run of raw attributes none of which is malformed parses one for one.
proof fn lemma_attrs_parse_all_wellformed(
    raws: Seq<crate::node::RawAttribute>,
    attrs: Seq<Attribute>,
)
    requires
        spec_attrs_parse_to(raws, attrs),
        forall|i: int| 0 <= i < raws.len() ==> !spec_raw_malformed(#[trigger] raws[i]),
    ensures
        attrs.len() == raws.len(),
        forall|i: int| 0 <= i < raws.len() ==> spec_raw_parses_to(#[trigger] raws[i], attrs[i]),
    decreases raws.len(),
{
    if raws.len() > 0 {
        assert(!spec_raw_malformed(raws[raws.len() - 1]));
        assert(forall|i: int|
            0 <= i < raws.drop_last().len() ==> !spec_raw_malformed(
                #[trigger] raws.drop_last()[i],
            ));
        lemma_attrs_parse_all_wellformed(raws.drop_last(), attrs.drop_last());
        assert forall|i: int| 0 <= i < raws.len() implies spec_raw_parses_to(
            #[trigger] raws[i],
            attrs[i],
        ) by {
            if i < raws.len() - 1 {
                assert(raws.drop_last()[i] == raws[i]);
                assert(attrs.drop_last()[i] == attrs[i]);
            }
        }
    }
}

/// Round-trip: a tag built with a text content value, serialized to an
/// element whose rendering re-parses faithfully, deserializes back to an
/// equal tag — the same content text, the same attributes, and the same
/// namespace declarations in the same order, duplicates included.
pub proof fn lemma_tag_round_trip<N: TagName>(
    t: Tag<Text, N>,
    e: Element,
    n: XmlNode,
    t2: Tag<Text, N>,
)
    requires
        spec_tag_serializes(t, e),
        spec_reparse_of(e, n),
        <Tag<Text, N> as XmlDeserialize>::node_result_ok(n, t2),
    ensures
        t2.value.content@ == t.value.content@,
        t2.namespaces_declaration@ == t.namespaces_declaration@,
        t2.attributes@.len() == t.attributes@.len(),
        forall|i: int|
            0 <= i < t.attributes@.len() ==> spec_attr_eq(
                #[trigger] t2.attributes@[i],
                t.attributes@[i],
            ),
{
    let mid = choose|mid: Element|
        {
            &&& mid.name@ == N::spec_local_name()
            &&& mid.namespace == N::spec_namespace()
            &&& spec_decl_pairs_match(t.namespaces_declaration@, mid.namespace_decls@)
            &&& mid.attributes@ == t.attributes@
            &&& mid.content is Empty
            &&& #[trigger] <Text as TagValue>::append_spec(t.value, mid, e)
        };
    let en = n->Element_0;

    // Content: the node's text is the serialized text, filtered or not.
    lemma_texts_of_kept(en.children@);

    // Declarations: each reproduced URI is a canonical URI, which looks back
    // up to the kind that produced it.
    let kinds = t.namespaces_declaration@;
    let uris = en.namespace_decls@;
    assert(uris.len() == kinds.len());
    assert forall|i: int| 0 <= i < kinds.len() implies spec_lookup(
        (#[trigger] uris[i])@,
    ) == Some(kinds[i]) by {
        assert(uris[i]@ == e.namespace_decls@[i].0@);
        assert(e.namespace_decls@[i].0@ == spec_url(kinds[i]));
        lemma_lookup_canonical(kinds[i]);
    }
    assert(t2.namespaces_declaration@ == spec_decl_kinds(uris));
    assert forall|i: int| 0 <= i < kinds.len() implies #[trigger] spec_decl_kinds(uris)[i]
        == kinds[i] by {
        assert(spec_decl_kinds(uris)[i] == spec_lookup(uris[i]@)->Some_0);
    }
    assert(t2.namespaces_declaration@ =~= kinds);

    // Attributes: none of the reproduced raw attributes is malformed, so
    // they parse back one for one.
    let raws = en.attributes@;
    assert forall|i: int| 0 <= i < raws.len() implies !spec_raw_malformed(
        #[trigger] raws[i],
    ) by {
        match e.attributes@[i].namespace {
            Some(k) => {
                lemma_lookup_canonical(k);
            },
            None => {},
        }
    }
    lemma_attrs_parse_all_wellformed(raws, t2.attributes@);
    assert forall|i: int| 0 <= i < t.attributes@.len() implies spec_attr_eq(
        #[trigger] t2.attributes@[i],
        t.attributes@[i],
    ) by {
        assert(spec_raw_parses_to(raws[i], t2.attributes@[i]));
        match t.attributes@[i].namespace {
            Some(k) => {
                lemma_lookup_canonical(k);
                assert(raws[i].namespace_uri matches Some(u) && u@ == spec_url(k));
            },
            None => {},
        }
    }
}

} // verus!
