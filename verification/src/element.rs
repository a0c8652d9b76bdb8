use vstd::prelude::*;
use vstd::string::StringExecFns;

use crate::attribute::{spec_attr_render, spec_table_get, AliasTable, Attribute};
use crate::error::XmlError;
use crate::namespace::{contains_kind, spec_alias, Namespace};

verus! {

/// What one element holds: nothing yet, text, or child elements.
#[derive(Debug)]
pub enum Content {
    Empty,
    Text(String),
    Children(Vec<Element>),
}

/// The generic intermediate tree serialization builds: names and namespace
/// identities, still unresolved to textual prefixes. Prefixes are assigned
/// only at format time, through one alias table for the whole document.
#[derive(Debug)]
pub struct Element {
    pub name: String,
    pub namespace: Option<Namespace>,
    /// `(uri, alias)` pairs to emit as `xmlns:alias="uri"`, in order.
    pub namespace_decls: Vec<(String, String)>,
    pub attributes: Vec<Attribute>,
    pub content: Content,
}

/// Whether some attribute in the list is qualified by the given kind.
pub open spec fn spec_attr_refs(attrs: Seq<Attribute>, k: Namespace) -> bool {
    exists|i: int| 0 <= i < attrs.len() && (#[trigger] attrs[i].namespace) == Some(k)
}

/// Whether an element's subtree references a namespace kind anywhere, by its
/// own name or by an attribute.
pub open spec fn spec_references(e: Element, k: Namespace) -> bool
    decreases e,
{
    ||| e.namespace == Some(k)
    ||| spec_attr_refs(e.attributes@, k)
    ||| (e.content matches Content::Children(cs) && exists|i: int|
        0 <= i < cs@.len() && spec_references(#[trigger] cs@[i], k))
}

/// The `alias:name` (or plain `name`) an element's opening and closing tags
/// use; `None` when its namespace has no alias in the table.
pub open spec fn spec_qname(e: Element, entries: Seq<(Namespace, String)>) -> Option<Seq<char>> {
    match e.namespace {
        None => Some(e.name@),
        Some(k) => match spec_table_get(entries, k) {
            None => None,
            Some(al) => Some(al + ":"@ + e.name@),
        },
    }
}

/// The ` xmlns:alias="uri"` fragments of an element's declarations, in order.
pub open spec fn spec_render_decls(decls: Seq<(String, String)>) -> Seq<char>
    decreases decls.len(),
{
    if decls.len() == 0 {
        Seq::empty()
    } else {
        spec_render_decls(decls.drop_last()) + " xmlns:"@ + decls.last().1@ + "=\""@
            + decls.last().0@ + "\""@
    }
}

/// The concatenated attribute fragments; `None` as soon as one attribute's
/// namespace has no alias in the table.
pub open spec fn spec_render_attrs(attrs: Seq<Attribute>, entries: Seq<(Namespace, String)>) -> Option<
    Seq<char>,
>
    decreases attrs.len(),
{
    if attrs.len() == 0 {
        Some(Seq::empty())
    } else {
        match (spec_render_attrs(attrs.drop_last(), entries), spec_attr_render(
            attrs.last(),
            entries,
        )) {
            (Some(a), Some(b)) => Some(a + b),
            _ => None,
        }
    }
}

/// What rendering an element against a table yields; `None` exactly when some
/// referenced namespace has no alias in the table.
pub open spec fn spec_render(e: Element, entries: Seq<(Namespace, String)>) -> Option<Seq<char>>
    decreases e, 1int,
{
    match spec_qname(e, entries) {
        None => None,
        Some(q) => match spec_render_attrs(e.attributes@, entries) {
            None => None,
            Some(at) => {
                let head = "<"@ + q + spec_render_decls(e.namespace_decls@) + at;
                match e.content {
                    Content::Empty => Some(head + "/>"@),
                    Content::Text(t) => Some(head + ">"@ + t@ + "</"@ + q + ">"@),
                    Content::Children(cs) => match spec_render_children(cs@, entries) {
                        None => None,
                        Some(body) => Some(head + ">"@ + body + "</"@ + q + ">"@),
                    },
                }
            },
        },
    }
}

/// The concatenated renderings of a run of sibling elements.
pub open spec fn spec_render_children(cs: Seq<Element>, entries: Seq<(Namespace, String)>) -> Option<
    Seq<char>,
>
    decreases cs, 0int,
{
    if cs.len() == 0 {
        Some(Seq::empty())
    } else {
        match (spec_render_children(cs.drop_last(), entries), spec_render(cs.last(), entries)) {
            (Some(a), Some(b)) => Some(a + b),
            _ => None,
        }
    }
}

/// If one attribute of a list cannot be rendered, the whole list cannot.
proof fn lemma_render_attrs_none(attrs: Seq<Attribute>, entries: Seq<(Namespace, String)>, i: int)
    requires
        0 <= i < attrs.len(),
        spec_attr_render(attrs[i], entries) is None,
    ensures
        spec_render_attrs(attrs, entries) is None,
    decreases attrs.len(),
{
    if i == attrs.len() - 1 {
    } else {
        assert(attrs.drop_last()[i] == attrs[i]);
        lemma_render_attrs_none(attrs.drop_last(), entries, i);
    }
}

/// If one element of a run cannot be rendered, the whole run cannot.
proof fn lemma_render_children_none(cs: Seq<Element>, entries: Seq<(Namespace, String)>, i: int)
    requires
        0 <= i < cs.len(),
        spec_render(cs[i], entries) is None,
    ensures
        spec_render_children(cs, entries) is None,
    decreases cs.len(),
{
    if i == cs.len() - 1 {
    } else {
        assert(cs.drop_last()[i] == cs[i]);
        lemma_render_children_none(cs.drop_last(), entries, i);
    }
}

impl Element {
    /// A fresh element with the given name: no namespace, no declarations,
    /// no attributes, no content.
    pub fn new(name: &str) -> (r: Self)
        ensures
            r.name@ == name@,
            r.namespace is None,
            r.namespace_decls@ == Seq::<(String, String)>::empty(),
            r.attributes@ == Seq::<Attribute>::empty(),
            r.content is Empty,
    {
        Element {
            name: name.to_owned(),
            namespace: None,
            namespace_decls: Vec::new(),
            attributes: Vec::new(),
            content: Content::Empty,
        }
    }

    /// The element, with its name qualified by the given namespace.
    pub fn set_namespace(self, k: Namespace) -> (r: Self)
        ensures
            r == (Element { namespace: Some(k), ..self }),
    {
        Element { namespace: Some(k), ..self }
    }

    /// The element, with one more `xmlns:alias="uri"` declaration appended;
    /// declarations are emitted in insertion order, duplicates kept.
    pub fn add_namespace_declaration(self, uri: &str, alias: &str) -> (r: Self)
        ensures
            r.namespace_decls@.len() == self.namespace_decls@.len() + 1,
            r.namespace_decls@ == self.namespace_decls@.push(r.namespace_decls@.last()),
            r.namespace_decls@.last().0@ == uri@,
            r.namespace_decls@.last().1@ == alias@,
            r.name == self.name,
            r.namespace == self.namespace,
            r.attributes == self.attributes,
            r.content == self.content,
    {
        let Element { name, namespace, namespace_decls, attributes, content } = self;
        let mut decls = namespace_decls;
        decls.push((uri.to_owned(), alias.to_owned()));
        Element { name, namespace, namespace_decls: decls, attributes, content }
    }

    /// The element, with one more attribute appended.
    pub fn add_attribute(self, attribute: Attribute) -> (r: Self)
        ensures
            r.attributes@ == self.attributes@.push(attribute),
            r.name == self.name,
            r.namespace == self.namespace,
            r.namespace_decls == self.namespace_decls,
            r.content == self.content,
    {
        let Element { name, namespace, namespace_decls, attributes, content } = self;
        let mut attributes = attributes;
        attributes.push(attribute);
        Element { name, namespace, namespace_decls, attributes, content }
    }

    /// The element, holding the given text as its content.
    pub fn set_text(self, text: &str) -> (r: Self)
        requires
            self.content is Empty,
        ensures
            r.content matches Content::Text(t) && t@ == text@,
            r.name == self.name,
            r.namespace == self.namespace,
            r.namespace_decls == self.namespace_decls,
            r.attributes == self.attributes,
    {
        let Element { name, namespace, namespace_decls, attributes, content: _ } = self;
        Element { name, namespace, namespace_decls, attributes, content: Content::Text(text.to_owned()) }
    }

    /// The element, with one more child element appended.
    pub fn add_child(self, child: Element) -> (r: Self)
        requires
            !(self.content is Text),
        ensures
            r.content matches Content::Children(cs) && (match self.content {
                Content::Children(old_cs) => cs@ == old_cs@.push(child),
                _ => cs@ == seq![child],
            }),
            r.name == self.name,
            r.namespace == self.namespace,
            r.namespace_decls == self.namespace_decls,
            r.attributes == self.attributes,
    {
        let Element { name, namespace, namespace_decls, attributes, content } = self;
        let content = match content {
            Content::Children(mut cs) => {
                cs.push(child);
                Content::Children(cs)
            },
            _ => {
                let mut cs: Vec<Element> = Vec::new();
                cs.push(child);
                proof {
                    assert(cs@ =~= seq![child]);
                }
                Content::Children(cs)
            },
        };
        Element { name, namespace, namespace_decls, attributes, content }
    }

    /// Render the subtree to text, resolving every namespace reference
    /// through the one alias table; fails on the first referenced namespace
    /// the table has no alias for.
    pub fn format(&self, alias_map: &AliasTable) -> (r: Result<String, XmlError>)
        ensures
            match r {
                Ok(s) => spec_render(*self, alias_map.entries@) == Some(s@),
                Err(e) => {
                    &&& spec_render(*self, alias_map.entries@) is None
                    &&& e matches XmlError::MissingAliasForNamespace(k)
                        && spec_references(*self, k)
                        && spec_table_get(alias_map.entries@, k) is None
                },
            },
        decreases *self, 1int,
    {
        let ghost entries = alias_map.entries@;
        let mut q = String::new();
        match &self.namespace {
            Some(k) => match alias_map.get(*k) {
                Some(al) => {
                    q.append(al.as_str());
                    q.append(":");
                    q.append(self.name.as_str());
                },
                None => {
                    return Err(XmlError::MissingAliasForNamespace(*k));
                },
            },
            None => {
                q.append(self.name.as_str());
            },
        }
        proof {
            assert(spec_qname(*self, entries) matches Some(qq) && q@ =~= qq);
        }
        let mut s = String::new();
        s.append("<");
        s.append(q.as_str());

        let ghost decls = self.namespace_decls@;
        let dn = self.namespace_decls.len();
        let mut i: usize = 0;
        while i < dn
            invariant
                i <= dn,
                dn == decls.len(),
                decls == self.namespace_decls@,
                s@ == "<"@ + q@ + spec_render_decls(decls.subrange(0, i as int)),
            decreases dn - i,
        {
            let pair = &self.namespace_decls[i];
            s.append(" xmlns:");
            s.append(pair.1.as_str());
            s.append("=\"");
            s.append(pair.0.as_str());
            s.append("\"");
            proof {
                let pfx = decls.subrange(0, i as int);
                let pfx1 = decls.subrange(0, i as int + 1);
                assert(pfx1.drop_last() =~= pfx);
                assert(pfx1.last() == decls[i as int]);
                assert(s@ =~= "<"@ + q@ + spec_render_decls(pfx1));
            }
            i += 1;
        }
        proof {
            assert(decls.subrange(0, dn as int) =~= decls);
        }

        match render_attrs(&self.attributes, alias_map) {
            Ok(at) => {
                s.append(at.as_str());
            },
            Err(e) => {
                return Err(e);
            },
        }
        let ghost head = "<"@ + q@ + spec_render_decls(decls) + spec_render_attrs(
            self.attributes@,
            entries,
        )->Some_0;
        proof {
            assert(s@ =~= head);
        }

        match &self.content {
            Content::Empty => {
                s.append("/>");
                proof {
                    assert(s@ =~= head + "/>"@);
                }
                Ok(s)
            },
            Content::Text(t) => {
                s.append(">");
                s.append(t.as_str());
                s.append("</");
                s.append(q.as_str());
                s.append(">");
                proof {
                    assert(s@ =~= head + ">"@ + t@ + "</"@ + q@ + ">"@);
                }
                Ok(s)
            },
            Content::Children(cs) => {
                proof {
                    assert(decreases_to!(*self => self.content));
                    assert(decreases_to!(self.content => *cs));
                }
                match render_children(cs, alias_map) {
                    Ok(body) => {
                        s.append(">");
                        s.append(body.as_str());
                        s.append("</");
                        s.append(q.as_str());
                        s.append(">");
                        proof {
                            assert(s@ =~= head + ">"@ + body@ + "</"@ + q@ + ">"@);
                        }
                        Ok(s)
                    },
                    Err(e) => {
                        return Err(e);
                    },
                }
            },
        }
    }
}

/// Renders every attribute of a list against one table, in order.
fn render_attrs(attrs: &Vec<Attribute>, alias_map: &AliasTable) -> (r: Result<String, XmlError>)
    ensures
        match r {
            Ok(s) => spec_render_attrs(attrs@, alias_map.entries@) == Some(s@),
            Err(e) => {
                &&& spec_render_attrs(attrs@, alias_map.entries@) is None
                &&& e matches XmlError::MissingAliasForNamespace(k)
                    && spec_attr_refs(attrs@, k)
                    && spec_table_get(alias_map.entries@, k) is None
            },
        },
{
    let ghost entries = alias_map.entries@;
    let mut s = String::new();
    let n = attrs.len();
    let mut i: usize = 0;
    while i < n
        invariant
            i <= n,
            n == attrs@.len(),
            spec_render_attrs(attrs@.subrange(0, i as int), entries) == Some(s@),
            entries == alias_map.entries@,
        decreases n - i,
    {
        match attrs[i].ns_fmt(alias_map) {
            Ok(frag) => {
                s.append(frag.as_str());
                proof {
                    let pfx = attrs@.subrange(0, i as int);
                    let pfx1 = attrs@.subrange(0, i as int + 1);
                    assert(pfx1.drop_last() =~= pfx);
                    assert(pfx1.last() == attrs@[i as int]);
                }
            },
            Err(e) => {
                proof {
                    lemma_render_attrs_none(attrs@, entries, i as int);
                }
                return Err(e);
            },
        }
        i += 1;
    }
    proof {
        assert(attrs@.subrange(0, n as int) =~= attrs@);
    }
    Ok(s)
}

/// Renders a run of sibling elements against one table, in order.
fn render_children(cs: &Vec<Element>, alias_map: &AliasTable) -> (r: Result<String, XmlError>)
    ensures
        match r {
            Ok(s) => spec_render_children(cs@, alias_map.entries@) == Some(s@),
            Err(e) => {
                &&& spec_render_children(cs@, alias_map.entries@) is None
                &&& e matches XmlError::MissingAliasForNamespace(k)
                    && (exists|i: int|
                        0 <= i < cs@.len() && spec_references(#[trigger] cs@[i], k))
                    && spec_table_get(alias_map.entries@, k) is None
            },
        },
    decreases *cs, 0int,
{
    let ghost entries = alias_map.entries@;
    let mut s = String::new();
    let n = cs.len();
    let mut i: usize = 0;
    while i < n
        invariant
            i <= n,
            n == cs@.len(),
            spec_render_children(cs@.subrange(0, i as int), entries) == Some(s@),
            entries == alias_map.entries@,
        decreases n - i,
    {
        proof {
            assert(decreases_to!(*cs => cs@[i as int]));
        }
        match cs[i].format(alias_map) {
            Ok(frag) => {
                s.append(frag.as_str());
                proof {
                    let pfx = cs@.subrange(0, i as int);
                    let pfx1 = cs@.subrange(0, i as int + 1);
                    assert(pfx1.drop_last() =~= pfx);
                    assert(pfx1.last() == cs@[i as int]);
                }
            },
            Err(e) => {
                proof {
                    lemma_render_children_none(cs@, entries, i as int);
                }
                return Err(e);
            },
        }
        i += 1;
    }
    proof {
        assert(cs@.subrange(0, n as int) =~= cs@);
    }
    Ok(s)
}

/// Membership in a sequence after a push: the old members and the new one.
proof fn lemma_contains_push<A>(s: Seq<A>, x: A, y: A)
    ensures
        s.push(x).contains(y) <==> (s.contains(y) || x == y),
{
    if s.contains(y) {
        let i = choose|i: int| 0 <= i < s.len() && s[i] == y;
        assert(s.push(x)[i] == y);
    }
    assert(s.push(x)[s.len() as int] == x);
    if s.push(x).contains(y) && x != y {
        let i = choose|i: int| 0 <= i < s.push(x).len() && s.push(x)[i] == y;
        assert(s[i] == y);
    }
}

/// Appending a table entry keeps every alias already found, and resolves the
/// new entry's kind to its alias where it was unresolved before.
proof fn lemma_table_push(
    entries: Seq<(Namespace, String)>,
    pair: (Namespace, String),
    k: Namespace,
)
    ensures
        spec_table_get(entries.push(pair), k) == (if spec_table_get(entries, k) is Some {
            spec_table_get(entries, k)
        } else if k == pair.0 {
            Some(pair.1@)
        } else {
            None::<Seq<char>>
        }),
    decreases entries.len(),
{
    if entries.len() == 0 {
        assert(entries.push(pair)[0] == pair);
        assert(entries.push(pair).drop_first() =~= Seq::<(Namespace, String)>::empty());
        assert(spec_table_get(entries, k) is None);
        if pair.0 == k {
            assert(spec_table_get(entries.push(pair), k) == Some(pair.1@));
        } else {
            assert(spec_table_get(entries.push(pair), k) == spec_table_get(
                entries.push(pair).drop_first(),
                k,
            ));
            assert(spec_table_get(Seq::<(Namespace, String)>::empty(), k) is None);
        }
    } else {
        assert(entries.push(pair)[0] == entries[0]);
        assert(entries.push(pair).drop_first() =~= entries.drop_first().push(pair));
        lemma_table_push(entries.drop_first(), pair, k);
    }
}

impl Element {
    /// Add every namespace kind this subtree references to a set of kinds,
    /// without duplicating ones already present.
    pub fn collect_namespaces(&self, namespaces_set: &mut Vec<Namespace>)
        ensures
            forall|k: Namespace|
                old(namespaces_set)@.contains(k) ==> #[trigger] final(namespaces_set)@.contains(k),
            forall|k: Namespace|
                spec_references(*self, k) ==> #[trigger] final(namespaces_set)@.contains(k),
        decreases *self,
    {
        match &self.namespace {
            Some(k) => {
                if !contains_kind(namespaces_set.as_slice(), *k) {
                    namespaces_set.push(*k);
                    proof {
                        lemma_contains_push(old(namespaces_set)@, *k, *k);
                        assert forall|kk: Namespace|
                            old(namespaces_set)@.contains(kk) implies #[trigger] namespaces_set@.contains(
                            kk,
                        ) by {
                            lemma_contains_push(old(namespaces_set)@, *k, kk);
                        }
                    }
                }
            },
            None => {},
        }
        let ghost set1 = namespaces_set@;
        assert(forall|kk: Namespace|
            old(namespaces_set)@.contains(kk) ==> #[trigger] set1.contains(kk));
        assert(self.namespace matches Some(k) ==> set1.contains(k));

        let ghost attrs = self.attributes@;
        let n = self.attributes.len();
        let mut i: usize = 0;
        while i < n
            invariant
                i <= n,
                n == attrs.len(),
                attrs == self.attributes@,
                forall|kk: Namespace| set1.contains(kk) ==> #[trigger] namespaces_set@.contains(kk),
                forall|kk: Namespace|
                    spec_attr_refs(attrs.subrange(0, i as int), kk)
                        ==> #[trigger] namespaces_set@.contains(kk),
            decreases n - i,
        {
            let ghost before = namespaces_set@;
            self.attributes[i].get_namespaces(namespaces_set);
            proof {
                let ns = attrs[i as int].namespace;
                if ns is Some && !before.contains(ns->Some_0) {
                    let k = ns->Some_0;
                    assert(namespaces_set@ == before.push(k));
                    assert forall|kk: Namespace| before.contains(kk)
                        implies #[trigger] namespaces_set@.contains(kk) by {
                        lemma_contains_push(before, k, kk);
                    }
                    lemma_contains_push(before, k, k);
                }
                assert forall|kk: Namespace|
                    spec_attr_refs(attrs.subrange(0, i as int + 1), kk)
                        implies #[trigger] namespaces_set@.contains(kk) by {
                    let pfx1 = attrs.subrange(0, i as int + 1);
                    let j = choose|j: int|
                        0 <= j < pfx1.len() && (#[trigger] pfx1[j].namespace) == Some(kk);
                    if j < i {
                        assert(attrs.subrange(0, i as int)[j] == pfx1[j]);
                        assert(spec_attr_refs(attrs.subrange(0, i as int), kk));
                    } else {
                        assert(pfx1[j] == attrs[i as int]);
                    }
                }
            }
            i += 1;
        }
        proof {
            assert(attrs.subrange(0, n as int) =~= attrs);
        }

        if let Content::Children(cs) = &self.content {
            let ghost set2 = namespaces_set@;
            let ghost kids = cs@;
            let m = cs.len();
            let mut j: usize = 0;
            while j < m
                invariant
                    j <= m,
                    m == kids.len(),
                    kids == cs@,
                    self.content matches Content::Children(v) && v == *cs,
                    forall|kk: Namespace|
                        set2.contains(kk) ==> #[trigger] namespaces_set@.contains(kk),
                    forall|kk: Namespace|
                        (exists|l: int| 0 <= l < j && spec_references(#[trigger] kids[l], kk))
                            ==> #[trigger] namespaces_set@.contains(kk),
                decreases m - j,
            {
                proof {
                    assert(decreases_to!(*self => self.content));
                    assert(decreases_to!(self.content => *cs));
                    assert(decreases_to!(*cs => kids[j as int]));
                }
                let ghost before = namespaces_set@;
                cs[j].collect_namespaces(namespaces_set);
                proof {
                    assert forall|kk: Namespace|
                        (exists|l: int| 0 <= l < j + 1 && spec_references(#[trigger] kids[l], kk))
                            implies #[trigger] namespaces_set@.contains(kk) by {
                        let l = choose|l: int|
                            0 <= l < j + 1 && spec_references(#[trigger] kids[l], kk);
                        if l < j {
                            assert(before.contains(kk));
                        }
                    }
                }
                j += 1;
            }
        }
    }
}

/// Builds the document-wide alias table for an element tree: one walk
/// collects every namespace kind the tree references, and each gets exactly
/// its registry alias, so every reference in the rendered text shares one
/// prefix per namespace.
pub fn build_alias_table(e: &Element) -> (r: AliasTable)
    ensures
        forall|k: Namespace|
            spec_references(*e, k) ==> #[trigger] spec_table_get(r.entries@, k) == Some(
                spec_alias(k),
            ),
{
    let mut set: Vec<Namespace> = Vec::new();
    e.collect_namespaces(&mut set);
    let ghost kinds = set@;
    let mut table = AliasTable::new();
    let n = set.len();
    let mut i: usize = 0;
    while i < n
        invariant
            i <= n,
            n == kinds.len(),
            kinds == set@,
            forall|j: int|
                0 <= j < i ==> #[trigger] spec_table_get(table.entries@, kinds[j]) == Some(
                    spec_alias(kinds[j]),
                ),
            forall|kk: Namespace|
                (#[trigger] spec_table_get(table.entries@, kk)) is Some ==> spec_table_get(
                    table.entries@,
                    kk,
                ) == Some(spec_alias(kk)),
        decreases n - i,
    {
        let k = set[i];
        let ghost before = table.entries@;
        table.insert(k, k.alias());
        proof {
            let pair = table.entries@.last();
            assert(table.entries@ == before.push(pair));
            assert(pair.0 == k && pair.1@ == spec_alias(k));
            assert forall|kk: Namespace|
                (#[trigger] spec_table_get(table.entries@, kk)) is Some implies spec_table_get(
                table.entries@,
                kk,
            ) == Some(spec_alias(kk)) by {
                lemma_table_push(before, pair, kk);
            }
            lemma_table_push(before, pair, k);
            assert forall|j: int| 0 <= j < i + 1 implies #[trigger] spec_table_get(
                table.entries@,
                kinds[j],
            ) == Some(spec_alias(kinds[j])) by {
                lemma_table_push(before, pair, kinds[j]);
            }
        }
        i += 1;
    }
    proof {
        assert forall|k: Namespace| spec_references(*e, k) implies #[trigger] spec_table_get(
            table.entries@,
            k,
        ) == Some(spec_alias(k)) by {
            assert(kinds.contains(k));
            let j = choose|j: int| 0 <= j < kinds.len() && kinds[j] == k;
        }
    }
    table
}

/// Renders a whole document: the alias table is built once from the tree, so
/// the same namespace kind is written with one and the same alias wherever it
/// occurs, and rendering never fails.
pub fn format_document(e: &Element) -> (r: Result<String, XmlError>)
    ensures
        r matches Ok(s) && exists|entries: Seq<(Namespace, String)>|
            #[trigger] spec_render(*e, entries) == Some(s@) && (forall|k: Namespace|
                spec_references(*e, k) ==> #[trigger] spec_table_get(entries, k) == Some(
                    spec_alias(k),
                )),
{
    let table = build_alias_table(e);
    match e.format(&table) {
        Ok(s) => {
            proof {
                let entries = table.entries@;
                assert(spec_render(*e, entries) == Some(s@));
            }
            Ok(s)
        },
        Err(err) => {
            proof {
                assert(false);
            }
            Err(err)
        },
    }
}

} // verus!
